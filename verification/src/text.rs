//! Texts: equality, and names with a prefix.

use vstd::prelude::*;
use vstd::string::*;

verus! {

/// Tells whether two texts hold the same characters.
pub fn same_text(a: &str, b: &str) -> (same: bool)
    ensures
        same == (a@ == b@),
{
    let left = a.to_owned();
    let right = b.to_owned();
    left == right
}

/// A copy of a list of texts.
pub(crate) fn copy_texts(texts: &Vec<String>) -> (copy: Vec<String>)
    ensures
        copy.deep_view() == texts.deep_view(),
{
    let mut copy: Vec<String> = Vec::new();
    let mut i: usize = 0;
    while i < texts.len()
        invariant
            i <= texts.len(),
            copy.len() == i,
            forall|j: int| 0 <= j < i ==> copy@[j]@ == texts@[j]@,
        decreases texts.len() - i,
    {
        copy.push(texts[i].clone());
        i += 1;
    }
    copy
}

/// A copy of a text that may be absent.
pub(crate) fn copy_text(text: &Option<String>) -> (copy: Option<String>)
    ensures
        copy.deep_view() == text.deep_view(),
{
    match text {
        Some(t) => Some(t.clone()),
        None => None,
    }
}

/// A name as a schema writes it, taken apart at its colon: the prefix, if
/// there is one, and the local part. A name with more than one colon has no
/// parts.
pub open spec fn qualified_name(text: Seq<char>) -> Option<(Option<Seq<char>>, Seq<char>)> {
    match text.index_of_first(':') {
        None => Some((None, text)),
        Some(colon) => {
            let local = text.subrange(colon + 1, text.len() as int);
            if local.contains(':') {
                None
            } else {
                Some((Some(text.subrange(0, colon)), local))
            }
        },
    }
}

fn find_colon(text: &str, from: usize) -> (at: usize)
    requires
        from <= text@.len(),
    ensures
        from <= at <= text@.len(),
        forall|j: int| from <= j < at ==> text@[j] != ':',
        at < text@.len() ==> text@[at as int] == ':',
{
    let n: usize = text.unicode_len();
    let mut at: usize = from;
    while at < n
        invariant
            from <= at <= n,
            n == text@.len(),
            forall|j: int| from <= j < at ==> text@[j] != ':',
        decreases n - at,
    {
        if text.get_char(at) == ':' {
            return at;
        }
        at += 1;
    }
    at
}

/// Takes a name apart at its colon.
pub fn split_qualified_name<'a>(text: &'a str) -> (parts: Option<(Option<&'a str>, &'a str)>)
    ensures
        parts.deep_view() == qualified_name(text@),
{
    let n: usize = text.unicode_len();
    let colon: usize = find_colon(text, 0);
    proof {
        text@.index_of_first_ensures(':');
    }
    if colon == n {
        return Some((None, text));
    }
    let second: usize = find_colon(text, colon + 1);
    let ghost local = text@.subrange(colon + 1, n as int);
    if second < n {
        assert(local[second - (colon + 1)] == ':');
        return None;
    }
    Some((Some(text.substring_char(0, colon)), text.substring_char(colon + 1, n)))
}

} // verus!
