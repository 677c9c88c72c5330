use vstd::prelude::*;

use crate::fill::FillSpec;
use crate::fill::fill_char;
use crate::fill::resolve_fill;

verus! {

/// The sequence `s` left-padded with copies of `c` to at least `n`
/// characters: `s` itself when `n` does not exceed its length, otherwise
/// `n - s.len()` copies of `c` followed by `s`.
pub open spec fn padded(s: Seq<char>, n: int, c: char) -> Seq<char> {
    if n <= s.len() {
        s
    } else {
        Seq::new((n - s.len()) as nat, |i: int| c) + s
    }
}

/// Relies on String::push: appends the given character to the end of
/// the string.
#[verifier::external_body]
fn push_char(s: &mut String, c: char)
    ensures
        final(s)@ == old(s)@.push(c),
{
    s.push(c);
}

/// Left-pads `string` with the character that `fill` resolves to, until the
/// result is at least `length` characters long. A `length` at or below the
/// character count of `string` (negative lengths included) pads nothing, and
/// the result equals `string`.
pub fn leftpad(string: &str, length: isize, fill: FillSpec) -> (result: String)
    ensures
        result@ == padded(string@, length as int, fill_char(fill)),
        result@.len() == vstd::math::max(length as int, string@.len() as int),
{
    let c: char = resolve_fill(&fill);
    let old_length: usize = string.unicode_len();
    let mut result: String = String::new();
    if length > 0 && old_length < length as usize {
        let pad_length: usize = length as usize - old_length;
        let mut i: usize = 0;
        while i < pad_length
            invariant
                i <= pad_length,
                result@ == Seq::new(i as nat, |j: int| c),
            decreases pad_length - i,
        {
            push_char(&mut result, c);
            i = i + 1;
            proof {
                assert(result@ =~= Seq::new(i as nat, |j: int| c));
            }
        }
    }
    result.append(string);
    proof {
        assert(result@ =~= padded(string@, length as int, fill_char(fill)));
    }
    result
}

/// Law: padding never shortens and never overshoots — the result's
/// character count is the maximum of the requested length and the
/// input's character count.
pub proof fn lemma_padded_len(s: Seq<char>, n: int, c: char)
    ensures
        padded(s, n, c).len() == vstd::math::max(n, s.len() as int),
{
}

/// Law: padding is idempotent — the padded result is never shorter than
/// the requested length, so padding it again to the same length changes
/// nothing.
pub proof fn lemma_padded_idempotent(s: Seq<char>, n: int, c: char)
    ensures
        padded(padded(s, n, c), n, c) == padded(s, n, c),
{
}

/// Law: a requested length at or below the input's character count
/// leaves the input exactly as it is.
pub proof fn lemma_padded_identity(s: Seq<char>, n: int, c: char)
    requires
        n <= s.len(),
    ensures
        padded(s, n, c) == s,
{
}

/// Law: the input survives as a suffix — the last `s.len()` characters
/// of the padded result equal `s` exactly.
pub proof fn lemma_padded_suffix(s: Seq<char>, n: int, c: char)
    ensures
        padded(s, n, c).subrange(padded(s, n, c).len() - s.len(), padded(s, n, c).len() as int)
            == s,
{
    if n <= s.len() {
        assert(padded(s, n, c).subrange(0, s.len() as int) =~= s);
    } else {
        assert(padded(s, n, c).subrange(n - s.len(), n) =~= s);
    }
}

} // verus!
