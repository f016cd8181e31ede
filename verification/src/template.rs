use vstd::prelude::*;
use vstd::string::*;

use crate::text::{find_from, lemma_find_from_hit, lemma_find_from_none, lemma_find_from_props};

verus! {

/// A parsed footer micro-template: the text before the first `[`, the
/// clickable link label between that `[` and the first `]` after it, and
/// the text after that `]`. The label is never empty.
#[derive(Debug, Clone, PartialEq, Eq)]
pub struct FooterTemplate {
    pub pre: String,
    pub label: String,
    pub post: String,
}

impl FooterTemplate {
    pub open spec fn wf(&self) -> bool {
        self.label@.len() > 0
    }
}

/// What parsing a footer micro-template yields, over character sequences:
/// the first `[` opens the link label, the first `]` after it closes the
/// label, and parsing fails when either bracket is missing or the label
/// is empty.
pub open spec fn parse_footer_spec(s: Seq<char>) -> Option<(Seq<char>, Seq<char>, Seq<char>)> {
    match find_from(s, '[', 0) {
        None => None,
        Some(i) => match find_from(s, ']', i + 1) {
            None => None,
            Some(j) => if j == i + 1 {
                None
            } else {
                Some((s.subrange(0, i), s.subrange(i + 1, j), s.subrange(j + 1, s.len() as int)))
            },
        },
    }
}

/// Splits a footer micro-template `prefix[label]suffix` into its three
/// parts; `None` when there is no `[`, no `]` after the first `[`, or the
/// label between them is empty.
pub fn parse_footer_text(text: &str) -> (r: Option<(String, String, String)>)
    ensures
        match r {
            Some(t) => parse_footer_spec(text@) == Some((t.0@, t.1@, t.2@)) && t.1@.len() > 0,
            None => parse_footer_spec(text@) is None,
        },
{
    let len = text.unicode_len();
    let mut i: usize = 0;
    while i < len && text.get_char(i) != '['
        invariant
            len == text@.len(),
            0 <= i <= len,
            forall|k: int| 0 <= k < i ==> text@[k] != '[',
        decreases len - i,
    {
        i += 1;
    }
    if i == len {
        proof {
            lemma_find_from_none(text@, '[', 0);
        }
        return None;
    }
    proof {
        lemma_find_from_hit(text@, '[', 0, i as int);
    }
    let mut j: usize = i + 1;
    while j < len && text.get_char(j) != ']'
        invariant
            len == text@.len(),
            i < len,
            i + 1 <= j <= len,
            forall|k: int| i + 1 <= k < j ==> text@[k] != ']',
        decreases len - j,
    {
        j += 1;
    }
    if j == len {
        proof {
            lemma_find_from_none(text@, ']', i as int + 1);
        }
        return None;
    }
    proof {
        lemma_find_from_hit(text@, ']', i as int + 1, j as int);
    }
    if j == i + 1 {
        return None;
    }
    let pre = text.substring_char(0, i).to_owned();
    let label = text.substring_char(i + 1, j).to_owned();
    let post = text.substring_char(j + 1, len).to_owned();
    Some((pre, label, post))
}

/// Law: a template built as `prefix[label]suffix`, with a non-empty label,
/// a prefix free of `[` and a label free of `]`, parses back to exactly
/// those three parts.
pub proof fn lemma_parse_bracketed(a: Seq<char>, b: Seq<char>, c: Seq<char>)
    requires
        b.len() > 0,
        !a.contains('['),
        !b.contains(']'),
    ensures
        parse_footer_spec(a + seq!['['] + b + seq![']'] + c) == Some((a, b, c)),
{
    let s = a + seq!['['] + b + seq![']'] + c;
    let i = a.len() as int;
    let j = (a.len() + b.len() + 1) as int;
    assert(s.len() == a.len() + b.len() + c.len() + 2);
    assert(s[i] == '[');
    assert forall|k: int| 0 <= k < i implies s[k] != '[' by {
        assert(s[k] == a[k]);
        if a[k] == '[' {
            assert(a.contains('['));
        }
    }
    lemma_find_from_hit(s, '[', 0, i);
    assert(s[j as int] == ']');
    assert forall|k: int| i + 1 <= k < j implies s[k] != ']' by {
        assert(s[k] == b[k - (a.len() + 1)]);
        if b[k - (a.len() + 1)] == ']' {
            assert(b.contains(']'));
        }
    }
    lemma_find_from_hit(s, ']', i + 1, j as int);
    assert(s.subrange(0, i) =~= a);
    assert(s.subrange(i + 1, j as int) =~= b);
    assert(s.subrange(j + 1, s.len() as int) =~= c);
}

/// Law: a bare `[label]`, with a non-empty label free of `]`, parses to an
/// empty prefix, that label, and an empty suffix.
pub proof fn lemma_parse_label_only(b: Seq<char>)
    requires
        b.len() > 0,
        !b.contains(']'),
    ensures
        parse_footer_spec(seq!['['] + b + seq![']']) == Some((Seq::<char>::empty(), b, Seq::<char>::empty())),
{
    lemma_parse_bracketed(Seq::<char>::empty(), b, Seq::<char>::empty());
    assert(Seq::<char>::empty() + seq!['['] + b + seq![']'] + Seq::<char>::empty() =~= seq!['['] + b
        + seq![']']);
}

/// Law: parsing fails on a template with no `[`, on one whose first `[` is
/// never closed, and on one whose label is empty.
pub proof fn lemma_parse_failures(s: Seq<char>)
    ensures
        !s.contains('[') ==> parse_footer_spec(s) is None,
        (find_from(s, '[', 0) matches Some(i) && (forall|k: int|
            i < k < s.len() ==> s[k] != ']')) ==> parse_footer_spec(s) is None,
        (find_from(s, '[', 0) matches Some(i) && i + 1 < s.len() && s[i + 1] == ']')
            ==> parse_footer_spec(s) is None,
{
    lemma_find_from_props(s, '[', 0);
    if !s.contains('[') {
        assert forall|k: int| 0 <= k < s.len() implies s[k] != '[' by {
            if s[k] == '[' {
                assert(s.contains('['));
            }
        }
        lemma_find_from_none(s, '[', 0);
    }
    match find_from(s, '[', 0) {
        Some(i) => {
            if forall|k: int| i < k < s.len() ==> s[k] != ']' {
                lemma_find_from_none(s, ']', i + 1);
            }
            if i + 1 < s.len() && s[i + 1] == ']' {
                lemma_find_from_hit(s, ']', i + 1, i + 1);
            }
        },
        None => {},
    }
}

} // verus!
