use vstd::prelude::*;
use vstd::string::*;

use crate::paths::{
    is_path_prefix, lemma_parent_cut, lemma_parent_is_prefix, lemma_parent_shorter,
    lemma_path_prefix_trans,
    parent_of, path_join,
};

verus! {

/// Relies on std::path::Path::exists: whether the path names an entity
/// that is present on disk right now. The answer depends on the state of
/// the disk, so nothing is promised of it.
#[verifier::external_body]
fn fs_path_exists(p: &str) -> bool {
    std::path::Path::new(p).exists()
}

/// Relies on std::path::Path::canonicalize: the absolute, symlink-free
/// form of the path when the named entity is present on disk, `None` when
/// resolution fails (or the resolved path is not valid text). The answer
/// depends on the state of the disk, so nothing is promised of it.
#[verifier::external_body]
pub(crate) fn fs_canonicalize(p: &str) -> Option<String> {
    match std::path::Path::new(p).canonicalize() {
        Ok(resolved) => match resolved.to_str() {
            Some(s) => Some(s.to_owned()),
            None => None,
        },
        Err(_) => None,
    }
}

fn is_fs_root(s: &str) -> (r: bool)
    ensures
        r == (s@ == "/"@),
{
    proof {
        reveal_strlit("/");
    }
    let len = s.unicode_len();
    if len != 1 {
        proof {
            if s@ == "/"@ {
                assert(s@.len() == 1);
            }
        }
        return false;
    }
    let c = s.get_char(0);
    proof {
        if s@[0] == '/' {
            assert(s@ =~= "/"@);
        }
    }
    c == '/'
}

/// Walks upward from `start`, a directory path, until a directory that
/// holds a `.git` marker is found, and returns that directory; `None` when
/// the walk reaches the filesystem root (which is itself never probed)
/// without finding one. Whether the marker is on disk no contract can say,
/// but whatever is found is `start` itself or an ancestor of it: a proper
/// prefix with `start` holding `/` right at the cut. The walk always
/// terminates.
pub fn find_git(start: &str) -> (r: Option<String>)
    ensures
        r matches Some(root) ==> root@ == start@ || (is_path_prefix(root@, start@) && root@.len()
            < start@.len() && start@[root@.len() as int] == '/'),
{
    let mut current = start.to_owned();
    let mut git_dir = path_join(current.as_str(), ".git");
    proof {
        assert(start@.subrange(0, start@.len() as int) =~= start@);
    }
    loop
        invariant
            is_path_prefix(current@, start@),
            current@ == start@ || (current@.len() < start@.len() && start@[current@.len() as int]
                == '/'),
        decreases current@.len(),
    {
        if fs_path_exists(git_dir.as_str()) {
            return Some(current);
        }
        let next = match parent_of(current.as_str()) {
            None => {
                return None;
            },
            Some(p) => p,
        };
        proof {
            lemma_parent_shorter(current@);
            lemma_parent_is_prefix(current@);
            lemma_path_prefix_trans(next@, current@, start@);
            lemma_parent_cut(current@);
        }
        let ghost prev: Seq<char> = current@;
        current = next;
        if is_fs_root(current.as_str()) {
            return None;
        }
        proof {
            reveal_strlit("/");
            assert("/"@ =~= seq!['/']);
            assert(prev[current@.len() as int] == '/');
            if prev != start@ {
                let l = current@.len() as int;
                assert(start@.subrange(0, prev.len() as int)[l] == start@[l]);
            }
        }
        git_dir = path_join(current.as_str(), ".git");
    }
}

} // verus!
