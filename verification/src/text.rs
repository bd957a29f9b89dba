//! Text helpers used when building error messages and display names:
//! decimal rendering of integers and substring search.

use vstd::prelude::*;

verus! {

/// The character for one decimal digit.
pub open spec fn spec_digit_char(d: nat) -> char {
    if d == 0 {
        '0'
    } else if d == 1 {
        '1'
    } else if d == 2 {
        '2'
    } else if d == 3 {
        '3'
    } else if d == 4 {
        '4'
    } else if d == 5 {
        '5'
    } else if d == 6 {
        '6'
    } else if d == 7 {
        '7'
    } else if d == 8 {
        '8'
    } else {
        '9'
    }
}

/// The decimal rendering of a natural number, most significant digit first,
/// with no leading zeros (a single `'0'` for zero).
pub open spec fn spec_decimal(n: nat) -> Seq<char>
    decreases n,
{
    if n < 10 {
        seq![spec_digit_char(n)]
    } else {
        spec_decimal(n / 10) + seq![spec_digit_char(n % 10)]
    }
}

/// A one-character string for one decimal digit.
fn digit_str(d: u32) -> (s: &'static str)
    requires
        d < 10,
    ensures
        s@ == seq![spec_digit_char(d as nat)],
{
    proof {
        reveal_strlit("0");
        reveal_strlit("1");
        reveal_strlit("2");
        reveal_strlit("3");
        reveal_strlit("4");
        reveal_strlit("5");
        reveal_strlit("6");
        reveal_strlit("7");
        reveal_strlit("8");
        reveal_strlit("9");
    }
    let s = match d {
        0 => "0",
        1 => "1",
        2 => "2",
        3 => "3",
        4 => "4",
        5 => "5",
        6 => "6",
        7 => "7",
        8 => "8",
        _ => "9",
    };
    proof {
        assert(s@ =~= seq![spec_digit_char(d as nat)]);
    }
    s
}

/// Renders a `u32` in decimal, matching [`spec_decimal`].
pub fn u32_to_decimal(n: u32) -> (s: String)
    ensures
        s@ == spec_decimal(n as nat),
    decreases n,
{
    if n < 10 {
        String::from_str(digit_str(n))
    } else {
        let mut s = u32_to_decimal(n / 10);
        s.append(digit_str(n % 10));
        s
    }
}

/// The needle occurs in the haystack starting at position `i`.
pub open spec fn spec_match_at(haystack: Seq<char>, needle: Seq<char>, i: int) -> bool {
    &&& 0 <= i
    &&& i + needle.len() <= haystack.len()
    &&& forall|j: int| 0 <= j < needle.len() ==> haystack[i + j] == needle[j]
}

/// The needle occurs somewhere in the haystack.
pub open spec fn spec_contains(haystack: Seq<char>, needle: Seq<char>) -> bool {
    exists|i: int| spec_match_at(haystack, needle, i)
}

/// Substring search: whether `needle` occurs in `haystack`, counted in
/// characters.
pub fn str_contains(haystack: &str, needle: &str) -> (r: bool)
    ensures
        r == spec_contains(haystack@, needle@),
{
    let hlen: usize = haystack.unicode_len();
    let nlen: usize = needle.unicode_len();
    if nlen > hlen {
        proof {
            assert(forall|i: int| !spec_match_at(haystack@, needle@, i));
        }
        return false;
    }
    let mut i: usize = 0;
    while i <= hlen - nlen
        invariant
            nlen <= hlen,
            hlen == haystack@.len(),
            nlen == needle@.len(),
            i <= hlen - nlen + 1,
            forall|k: int| 0 <= k < i ==> !spec_match_at(haystack@, needle@, k),
        decreases hlen - nlen + 1 - i,
    {
        let mut j: usize = 0;
        let mut matches_here: bool = true;
        while matches_here && j < nlen
            invariant
                i + nlen <= hlen,
                hlen == haystack@.len(),
                nlen == needle@.len(),
                j <= nlen,
                matches_here ==> forall|t: int| 0 <= t < j ==> haystack@[i + t] == needle@[t],
                !matches_here ==> !spec_match_at(haystack@, needle@, i as int),
            decreases nlen - j + (if matches_here { 1int } else { 0int }),
        {
            let hc: char = haystack.get_char(i + j);
            let nc: char = needle.get_char(j);
            if hc == nc {
                j = j + 1;
            } else {
                matches_here = false;
            }
        }
        if matches_here {
            proof {
                assert(spec_match_at(haystack@, needle@, i as int));
            }
            return true;
        }
        i = i + 1;
    }
    proof {
        assert forall|k: int| !spec_match_at(haystack@, needle@, k) by {
            if k >= i {
                assert(k + needle@.len() > haystack@.len());
            }
        }
    }
    false
}

} // verus!
