//! Character-level text comparison.
use vstd::prelude::*;
use vstd::std_specs::iter::IteratorSpec;

verus! {

/// The code of `c` after ASCII lowercasing: `'A'..='Z'` move to `'a'..='z'`,
/// every other character keeps its code.
pub open spec fn fold_char(c: char) -> int {
    if 'A' <= c && c <= 'Z' {
        (c as int) + 32
    } else {
        c as int
    }
}

/// A string with every ASCII letter lowercased, as character codes.
pub open spec fn ascii_fold(s: Seq<char>) -> Seq<int> {
    s.map_values(|c: char| fold_char(c))
}

/// Two strings are equal up to ASCII case.
pub open spec fn same_ignoring_ascii_case(a: Seq<char>, b: Seq<char>) -> bool {
    ascii_fold(a) == ascii_fold(b)
}

/// The code a character is compared by: folded when case is ignored.
pub open spec fn compare_code(c: char, ignore_case: bool) -> int {
    if ignore_case {
        fold_char(c)
    } else {
        c as int
    }
}

fn compare_code_exec(c: char, ignore_case: bool) -> (r: u32)
    ensures
        r as int == compare_code(c, ignore_case),
{
    if ignore_case && 'A' <= c && c <= 'Z' {
        (c as u32) + 32
    } else {
        c as u32
    }
}

fn compare_chars(a: &str, b: &str, ignore_case: bool) -> (r: bool)
    ensures
        r == (a@.len() == b@.len() && forall|j: int|
            0 <= j < a@.len() ==> compare_code(#[trigger] a@[j], ignore_case) == compare_code(
                b@[j],
                ignore_case,
            )),
{
    let n = a.unicode_len();
    if n != b.unicode_len() {
        return false;
    }
    let mut ia = a.chars();
    let mut ib = b.chars();
    let mut i: usize = 0;
    while i < n
        invariant
            n == a@.len(),
            n == b@.len(),
            i <= n,
            ia.obeys_prophetic_iter_laws(),
            ib.obeys_prophetic_iter_laws(),
            ia.remaining() == a@.subrange(i as int, n as int),
            ib.remaining() == b@.subrange(i as int, n as int),
            forall|j: int|
                0 <= j < i ==> compare_code(#[trigger] a@[j], ignore_case) == compare_code(
                    b@[j],
                    ignore_case,
                ),
        decreases n - i,
    {
        let ca = ia.next();
        let cb = ib.next();
        match (ca, cb) {
            (Some(x), Some(y)) => {
                if compare_code_exec(x, ignore_case) != compare_code_exec(y, ignore_case) {
                    return false;
                }
            },
            _ => {
                return false;
            },
        }
        i = i + 1;
    }
    true
}

/// Compares two strings character by character, with ASCII letters compared
/// without regard to case; any other character must match exactly.
pub fn eq_ignore_ascii_case(a: &str, b: &str) -> (r: bool)
    ensures
        r == same_ignoring_ascii_case(a@, b@),
{
    let r = compare_chars(a, b, true);
    proof {
        if r {
            assert(ascii_fold(a@) =~= ascii_fold(b@));
        } else if a@.len() == b@.len() {
            let j = choose|j: int| 0 <= j < a@.len() && fold_char(a@[j]) != fold_char(b@[j]);
            assert(ascii_fold(a@)[j] != ascii_fold(b@)[j]);
        } else {
            assert(ascii_fold(a@).len() != ascii_fold(b@).len());
        }
    }
    r
}

/// Whether two strings hold the same characters.
pub fn same_text(a: &str, b: &str) -> (r: bool)
    ensures
        r == (a@ == b@),
{
    let r = compare_chars(a, b, false);
    if r {
        assert(a@ =~= b@);
    }
    r
}

} // verus!
