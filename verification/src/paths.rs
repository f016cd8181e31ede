use vstd::prelude::*;
use vstd::string::*;

verus! {

/// Joining a directory path and a relative path with a single `/`.
pub open spec fn join_spec(a: Seq<char>, b: Seq<char>) -> Seq<char> {
    a + "/"@ + b
}

pub fn path_join(a: &str, b: &str) -> (r: String)
    ensures
        r@ == join_spec(a@, b@),
{
    let mut s = a.to_owned();
    s.append("/");
    s.append(b);
    s
}

/// Index of the last occurrence of `c` in `s` before position `below`,
/// or `None` when there is none.
pub open spec fn last_index_of(s: Seq<char>, c: char, below: int) -> Option<int>
    decreases below,
{
    if below <= 0 || below > s.len() {
        None
    } else if s[below - 1] == c {
        Some(below - 1)
    } else {
        last_index_of(s, c, below - 1)
    }
}

pub proof fn lemma_last_index_hit(s: Seq<char>, c: char, below: int, j: int)
    requires
        0 <= j < below <= s.len(),
        s[j] == c,
        forall|k: int| j < k < below ==> s[k] != c,
    ensures
        last_index_of(s, c, below) == Some(j),
    decreases below - j,
{
    if j < below - 1 {
        lemma_last_index_hit(s, c, below - 1, j);
    }
}

pub proof fn lemma_last_index_none(s: Seq<char>, c: char, below: int)
    requires
        below <= s.len(),
        forall|k: int| 0 <= k < below ==> s[k] != c,
    ensures
        last_index_of(s, c, below) is None,
    decreases below,
{
    if below > 0 {
        lemma_last_index_none(s, c, below - 1);
    }
}

/// The directory containing the entity that `s` names: everything before
/// the last `/`, with the filesystem root `/` kept as its own parent
/// boundary. A path with no `/` at all has no parent here; the walk that
/// uses this expects absolute paths.
pub open spec fn parent_spec(s: Seq<char>) -> Option<Seq<char>> {
    match last_index_of(s, '/', s.len() as int) {
        None => None,
        Some(k) => if k == 0 {
            if s.len() == 1 {
                None
            } else {
                Some(s.subrange(0, 1))
            }
        } else {
            Some(s.subrange(0, k))
        },
    }
}

/// A parent is always strictly shorter than its child; the upward walk
/// terminates because of this.
pub proof fn lemma_parent_shorter(s: Seq<char>)
    ensures
        parent_spec(s) matches Some(p) ==> p.len() < s.len(),
{
    lemma_last_index_props(s, '/', s.len() as int);
}

pub proof fn lemma_last_index_props(s: Seq<char>, c: char, below: int)
    requires
        below <= s.len(),
    ensures
        match last_index_of(s, c, below) {
            Some(j) => 0 <= j < below && s[j] == c && (forall|k: int|
                j < k < below ==> s[k] != c),
            None => forall|k: int| 0 <= k < below ==> s[k] != c,
        },
    decreases below,
{
    if below > 0 && s[below - 1] != c {
        lemma_last_index_props(s, c, below - 1);
    }
}

pub fn parent_of(s: &str) -> (r: Option<String>)
    ensures
        match r {
            Some(p) => parent_spec(s@) == Some(p@),
            None => parent_spec(s@) is None,
        },
{
    let len = s.unicode_len();
    let mut below: usize = len;
    while below > 0 && s.get_char(below - 1) != '/'
        invariant
            len == s@.len(),
            0 <= below <= len,
            forall|k: int| below <= k < len ==> s@[k] != '/',
        decreases below,
    {
        below -= 1;
    }
    if below == 0 {
        proof {
            lemma_last_index_none(s@, '/', s@.len() as int);
        }
        return None;
    }
    let k = below - 1;
    proof {
        lemma_last_index_hit(s@, '/', s@.len() as int, k as int);
    }
    if k == 0 {
        if len == 1 {
            None
        } else {
            Some(s.substring_char(0, 1).to_owned())
        }
    } else {
        Some(s.substring_char(0, k).to_owned())
    }
}

/// The path of `p` relative to the repository root `root`: defined when
/// `root` followed by `/` is a proper prefix of `p` and something follows
/// it, and then equal to what follows.
pub open spec fn strip_spec(p: Seq<char>, root: Seq<char>) -> Option<Seq<char>> {
    if root.len() + 1 < p.len() && p.subrange(0, root.len() as int) == root && p[root.len() as int]
        == '/' {
        Some(p.subrange(root.len() + 1 as int, p.len() as int))
    } else {
        None
    }
}

pub fn strip_repo_prefix(p: &str, root: &str) -> (r: Option<String>)
    ensures
        match r {
            Some(s) => strip_spec(p@, root@) == Some(s@),
            None => strip_spec(p@, root@) is None,
        },
{
    let p_len = p.unicode_len();
    let root_len = root.unicode_len();
    if p_len <= root_len || p_len - root_len < 2 {
        return None;
    }
    let mut k: usize = 0;
    while k < root_len
        invariant
            p_len == p@.len(),
            root_len == root@.len(),
            root_len + 1 < p_len,
            0 <= k <= root_len,
            forall|l: int| 0 <= l < k ==> p@[l] == root@[l],
        decreases root_len - k,
    {
        if p.get_char(k) != root.get_char(k) {
            proof {
                assert(p@.subrange(0, root@.len() as int)[k as int] == p@[k as int]);
            }
            return None;
        }
        k += 1;
    }
    proof {
        assert(p@.subrange(0, root@.len() as int) =~= root@);
    }
    if p.get_char(root_len) != '/' {
        return None;
    }
    Some(p.substring_char(root_len + 1, p_len).to_owned())
}

/// Law: joining a non-empty relative path onto a root and taking the
/// result relative to that root gives the relative path back.
pub proof fn lemma_strip_undoes_join(root: Seq<char>, rel: Seq<char>)
    requires
        rel.len() > 0,
    ensures
        strip_spec(join_spec(root, rel), root) == Some(rel),
{
    reveal_strlit("/");
    let p = join_spec(root, rel);
    assert(p.subrange(0, root.len() as int) =~= root);
    assert(p[root.len() as int] == '/');
    assert(p.subrange(root.len() + 1 as int, p.len() as int) =~= rel);
}

/// `p` is a leading piece of `s` (the two may also be equal).
pub open spec fn is_path_prefix(p: Seq<char>, s: Seq<char>) -> bool {
    p.len() <= s.len() && s.subrange(0, p.len() as int) == p
}

pub proof fn lemma_path_prefix_trans(a: Seq<char>, b: Seq<char>, c: Seq<char>)
    requires
        is_path_prefix(a, b),
        is_path_prefix(b, c),
    ensures
        is_path_prefix(a, c),
{
    assert(c.subrange(0, a.len() as int) =~= b.subrange(0, a.len() as int));
}

/// Taking a parent cuts the path at a `/` of its own — except for the
/// step onto the filesystem root, whose parent is the bare `/`.
pub proof fn lemma_parent_cut(s: Seq<char>)
    ensures
        parent_spec(s) matches Some(p) ==> p.len() < s.len() && s.subrange(0, p.len() as int) == p
            && (s[p.len() as int] == '/' || p == seq!['/']),
{
    lemma_last_index_props(s, '/', s.len() as int);
    match last_index_of(s, '/', s.len() as int) {
        Some(k) => {
            if k == 0 && s.len() > 1 {
                assert(s.subrange(0, 1) =~= seq!['/']);
            }
        },
        None => {},
    }
}

/// Every parent is a prefix of the path it came from.
pub proof fn lemma_parent_is_prefix(s: Seq<char>)
    ensures
        parent_spec(s) matches Some(p) ==> is_path_prefix(p, s),
{
    lemma_last_index_props(s, '/', s.len() as int);
}

} // verus!
