//! Splitting a string on a separator character, used for best-effort
//! extraction of names out of ARNs and event identifiers.

use vstd::prelude::*;

verus! {

use vstd::string::*;

/// The pieces of a character sequence split on a separator: the runs between
/// occurrences of the separator, in order, empty runs included.  A sequence
/// without the separator is a single piece.
pub open spec fn split_on(s: Seq<char>, sep: char) -> Seq<Seq<char>>
    decreases s.len(),
    via split_on_decreases
{
    match s.index_of_first(sep) {
        None => seq![s],
        Some(i) => seq![s.take(i)] + split_on(s.skip(i + 1), sep),
    }
}

#[via_fn]
proof fn split_on_decreases(s: Seq<char>, sep: char) {
    s.index_of_first_ensures(sep);
}

/// Splitting yields at least one piece.
pub proof fn lemma_split_on_nonempty(s: Seq<char>, sep: char)
    ensures
        split_on(s, sep).len() >= 1,
{
    s.index_of_first_ensures(sep);
}

/// The index of the first occurrence of a character, scanning left to right.
fn find_first(s: &str, sep: char) -> (r: Option<usize>)
    ensures
        r matches Some(i) ==> s@.index_of_first(sep) == Some(i as int),
        r is None ==> s@.index_of_first(sep) is None,
{
    let n = s.unicode_len();
    let mut j: usize = 0;
    while j < n
        invariant
            j <= n,
            n == s@.len(),
            forall|k: int| 0 <= k < j ==> s@[k] != sep,
        decreases n - j,
    {
        if s.get_char(j) == sep {
            proof {
                s@.index_of_first_ensures(sep);
            }
            return Some(j);
        }
        j = j + 1;
    }
    proof {
        s@.index_of_first_ensures(sep);
    }
    None
}

/// The piece at a given position of a string split on a separator, or
/// nothing when the split has fewer pieces.
pub fn nth_segment(s: &str, sep: char, n: usize) -> (r: Option<String>)
    ensures
        r matches Some(t) ==> n < split_on(s@, sep).len() && t@ == split_on(s@, sep)[n as int],
        r is None ==> split_on(s@, sep).len() <= n,
    decreases n,
{
    proof {
        s@.index_of_first_ensures(sep);
    }
    match find_first(s, sep) {
        None => {
            if n == 0 {
                Some(String::from_str(s))
            } else {
                None
            }
        },
        Some(i) => {
            if n == 0 {
                Some(String::from_str(s.substring_char(0, i)))
            } else {
                let len = s.unicode_len();
                let rest = s.substring_char(i + 1, len);
                proof {
                    assert(rest@ =~= s@.skip(i + 1));
                }
                nth_segment(rest, sep, n - 1)
            }
        },
    }
}

/// The prefix of a string up to (and not including) its first separator: the
/// first piece of the split, which always exists.
pub fn prefix_before(s: &str, sep: char) -> (r: String)
    ensures
        r@ == split_on(s@, sep)[0],
{
    proof {
        lemma_split_on_nonempty(s@, sep);
    }
    match nth_segment(s, sep, 0) {
        Some(t) => t,
        None => unreached(),
    }
}

} // verus!
