//! ASCII case folding on characters and character sequences.

use vstd::prelude::*;

verus! {

/// ASCII lowercasing of one character: `'A'..='Z'` shift down by 32,
/// every other character is unchanged.
pub open spec fn lower_char(c: char) -> char {
    if 65 <= c as u32 <= 90 {
        ((c as u32) + 32) as char
    } else {
        c
    }
}

/// ASCII lowercasing of a character sequence, pointwise.
pub open spec fn lower_seq(s: Seq<char>) -> Seq<char> {
    s.map_values(|c: char| lower_char(c))
}

/// Holds when the sequence contains no uppercase ASCII letter.
pub open spec fn is_lower_seq(s: Seq<char>) -> bool {
    forall|i: int| 0 <= i < s.len() ==> !(65 <= #[trigger] s[i] as u32 <= 90)
}

/// Case-insensitive comparison of one character against a target character:
/// true exactly when `c` lowercases to `t`.
pub fn lower_char_eq(c: char, t: char) -> (r: bool)
    ensures
        r == (lower_char(c) == t),
{
    let u: u32 = c as u32;
    let tu: u32 = t as u32;
    if 65 <= u && u <= 90 {
        proof {
            assert(lower_char(c) as u32 == u + 32);
        }
        u + 32 == tu
    } else {
        u == tu
    }
}

/// True exactly when `s` holds no uppercase ASCII letter.
pub fn is_lowercase_str(s: &str) -> (r: bool)
    ensures
        r == is_lower_seq(s@),
{
    let n = s.unicode_len();
    let mut i: usize = 0;
    while i < n
        invariant
            0 <= i <= n,
            n == s@.len(),
            forall|j: int| 0 <= j < i ==> !(65 <= #[trigger] s@[j] as u32 <= 90),
        decreases n - i,
    {
        let u: u32 = s.get_char(i) as u32;
        if 65 <= u && u <= 90 {
            return false;
        }
        i = i + 1;
    }
    true
}

} // verus!
