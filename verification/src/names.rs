//! Room and playlist names, compared without regard to ASCII letter case.

use vstd::prelude::*;
use vstd::string::StrSliceExecFns;

verus! {

/// The code point of `c`, with the ASCII capitals `A` to `Z` mapped to their
/// small letters. Every other character keeps its own code point.
pub open spec fn folded(c: char) -> u32 {
    let n = c as u32;
    if 65 <= n && n <= 90 {
        (n + 32) as u32
    } else {
        n
    }
}

/// Two names are the same when they have the same number of characters and
/// agree at every position once ASCII capitals are made small.
pub open spec fn same_name(a: Seq<char>, b: Seq<char>) -> bool {
    &&& a.len() == b.len()
    &&& forall|i: int| 0 <= i < a.len() ==> folded(#[trigger] a[i]) == folded(b[i])
}

/// `rooms` as plain character sequences.
pub open spec fn names_of(rooms: Seq<String>) -> Seq<Seq<char>> {
    Seq::new(rooms.len(), |i: int| rooms[i]@)
}

/// Whether `name` equals, ignoring ASCII case, one of `wanted[from..]`.
pub open spec fn named_from(wanted: Seq<Seq<char>>, from: int, name: Seq<char>) -> bool {
    exists|i: int| from <= i < wanted.len() && same_name(#[trigger] wanted[i], name)
}

fn fold_char(c: char) -> (n: u32)
    ensures
        n == folded(c),
{
    let n: u32 = c as u32;
    if 65 <= n && n <= 90 {
        n + 32
    } else {
        n
    }
}

/// Compares two names ignoring ASCII letter case.
pub fn eq_ignore_case(a: &str, b: &str) -> (same: bool)
    ensures
        same == same_name(a@, b@),
{
    let n: usize = a.unicode_len();
    if n != b.unicode_len() {
        return false;
    }
    let mut i: usize = 0;
    while i < n
        invariant
            i <= n,
            n == a@.len(),
            n == b@.len(),
            forall|j: int| 0 <= j < i ==> folded(#[trigger] a@[j]) == folded(b@[j]),
        decreases n - i,
    {
        if fold_char(a.get_char(i)) != fold_char(b.get_char(i)) {
            return false;
        }
        i += 1;
    }
    true
}

/// Whether `name` equals, ignoring ASCII case, one of `wanted[from..]`.
/// With `from` at or past the end of `wanted` nothing is named.
pub fn is_named_from(wanted: &Vec<String>, from: usize, name: &str) -> (found: bool)
    ensures
        found == named_from(names_of(wanted@), from as int, name@),
{
    let mut i: usize = from;
    while i < wanted.len()
        invariant
            from <= i,
            forall|j: int|
                from <= j < i && j < wanted@.len() ==> !same_name(
                    #[trigger] names_of(wanted@)[j],
                    name@,
                ),
        decreases wanted.len() - i,
    {
        if eq_ignore_case(wanted[i].as_str(), name) {
            assert(names_of(wanted@)[i as int] == wanted@[i as int]@);
            return true;
        }
        assert(names_of(wanted@)[i as int] == wanted@[i as int]@);
        i += 1;
    }
    false
}

/// Same-name is reflexive: every name matches itself.
pub proof fn lemma_same_name_reflexive(a: Seq<char>)
    ensures
        same_name(a, a),
{
}

/// Same-name is symmetric.
pub proof fn lemma_same_name_symmetric(a: Seq<char>, b: Seq<char>)
    requires
        same_name(a, b),
    ensures
        same_name(b, a),
{
}

/// A name written with ASCII capitals matches the same name written with
/// small letters: position by position the two differ at most in case.
pub proof fn lemma_case_is_ignored(a: Seq<char>, b: Seq<char>)
    requires
        a.len() == b.len(),
        forall|i: int|
            0 <= i < a.len() ==> a[i] == b[i] || (65 <= a[i] as u32 <= 90 && b[i] as u32 == a[i] as u32
                + 32),
    ensures
        same_name(a, b),
        same_name(b, a),
{
    assert forall|i: int| 0 <= i < a.len() implies folded(#[trigger] a[i]) == folded(b[i]) by {
        assert(a[i] == b[i] || (65 <= a[i] as u32 <= 90 && b[i] as u32 == a[i] as u32 + 32));
    }
}

} // verus!
