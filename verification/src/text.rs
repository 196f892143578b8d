//! Comparison and splitting of names, character by character.

use vstd::prelude::*;
use vstd::string::StrSliceExecFns;

verus! {

/// Whether two names are the same sequence of characters.
pub fn same_text(a: &str, b: &str) -> (same: bool)
    ensures
        same == (a@ == b@),
{
    let n: usize = a.unicode_len();
    if b.unicode_len() != n {
        return false;
    }
    let mut i: usize = 0;
    while i < n
        invariant
            n == a@.len(),
            n == b@.len(),
            0 <= i <= n,
            forall|j: int| 0 <= j < i ==> a@[j] == b@[j],
        decreases n - i,
    {
        if a.get_char(i) != b.get_char(i) {
            return false;
        }
        i += 1;
    }
    assert(a@ =~= b@);
    true
}

/// Two names with an underscore between them.
pub open spec fn joined(head: Seq<char>, tail: Seq<char>) -> Seq<char> {
    head + seq!['_'] + tail
}

/// Splits a name at its first underscore, which goes to neither part.
pub fn split_name<'a>(name: &'a str) -> (parts: Option<(&'a str, &'a str)>)
    ensures
        match parts {
            Some((head, tail)) => name@ == joined(head@, tail@) && !head@.contains('_'),
            None => !name@.contains('_'),
        },
{
    let n: usize = name.unicode_len();
    let mut i: usize = 0;
    while i < n
        invariant
            n == name@.len(),
            0 <= i <= n,
            forall|j: int| 0 <= j < i ==> name@[j] != '_',
        decreases n - i,
    {
        if name.get_char(i) == '_' {
            let head = name.substring_char(0, i);
            let tail = name.substring_char(i + 1, n);
            assert(name@ =~= joined(head@, tail@));
            return Some((head, tail));
        }
        i += 1;
    }
    None
}

/// A joined name comes apart in one way only, once the first part is known
/// to hold no underscore.
pub proof fn lemma_joined_parts(
    head: Seq<char>,
    tail: Seq<char>,
    other_head: Seq<char>,
    other_tail: Seq<char>,
)
    requires
        joined(head, tail) == joined(other_head, other_tail),
        !head.contains('_'),
        !other_head.contains('_'),
    ensures
        head == other_head,
        tail == other_tail,
{
    let whole = joined(head, tail);
    let n = head.len() as int;
    let m = other_head.len() as int;
    assert(whole[n] == '_');
    assert(joined(other_head, other_tail)[m] == '_');
    if n < m {
        assert(other_head[n] == whole[n]);
        assert(other_head.contains('_'));
    }
    if m < n {
        assert(head[m] == whole[m]);
        assert(head.contains('_'));
    }
    assert(head =~= whole.subrange(0, n));
    assert(other_head =~= whole.subrange(0, n));
    assert(tail =~= whole.subrange(n + 1, whole.len() as int));
    assert(other_tail =~= whole.subrange(n + 1, whole.len() as int));
}

} // verus!
