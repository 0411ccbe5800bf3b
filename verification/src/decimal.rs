//! Decimal text of numbers.

use vstd::prelude::*;

verus! {

/// The character of a decimal digit.
pub open spec fn digit_char(d: nat) -> char
    recommends
        d < 10,
{
    (48 + d) as char
}

/// The decimal representation of `n`: most significant digit first, no
/// leading zeros, a single `0` for zero.
pub open spec fn decimal_chars(n: nat) -> Seq<char>
    decreases n,
{
    if n < 10 {
        seq![digit_char(n)]
    } else {
        decimal_chars(n / 10).push(digit_char(n % 10))
    }
}

/// `usize::to_string` (through its `Display` impl): std documents the
/// `Display` of an unsigned integer as its decimal representation, without
/// sign, padding or leading zeros.
#[verifier::external_body]
pub(crate) fn decimal(n: usize) -> (s: String)
    ensures
        s@ == decimal_chars(n as nat),
{
    n.to_string()
}

/// The number that a text of decimal digits reads as.
pub open spec fn decimal_value(s: Seq<char>) -> int
    decreases s.len(),
{
    if s.len() == 0 {
        0
    } else {
        decimal_value(s.drop_last()) * 10 + (s.last() as int - 48)
    }
}

/// The decimal text of `n` is made of digits only, has no leading zero
/// unless it is `0` itself, and reads as `n`.
pub proof fn decimal_value_law(n: nat)
    ensures
        decimal_chars(n).len() >= 1,
        forall|k: int|
            0 <= k < decimal_chars(n).len() ==> 48 <= (#[trigger] decimal_chars(n)[k]) as int
                <= 57,
        n > 0 ==> decimal_chars(n)[0] != '0',
        decimal_value(decimal_chars(n)) == n,
    decreases n,
{
    let d = n % 10;
    assert(digit_char(d) as int == 48 + d);
    if n < 10 {
        let s = decimal_chars(n);
        assert(s.drop_last() =~= Seq::<char>::empty());
        assert(decimal_value(Seq::<char>::empty()) == 0);
        assert(decimal_value(s) == decimal_value(s.drop_last()) * 10 + (s.last() as int - 48));
    } else {
        decimal_value_law(n / 10);
        let s = decimal_chars(n);
        assert(s.drop_last() =~= decimal_chars(n / 10));
        assert(s.last() == digit_char(d));
        assert((n / 10) * 10 + n % 10 == n) by (nonlinear_arith);
        assert(decimal_value(s) == decimal_value(s.drop_last()) * 10 + (s.last() as int - 48));
        assert(decimal_value(s.drop_last()) == n / 10);
        assert(s[0] == decimal_chars(n / 10)[0]);
        assert forall|k: int| 0 <= k < s.len() implies 48 <= (#[trigger] s[k]) as int <= 57 by {
            if k < s.len() - 1 {
                assert(s[k] == decimal_chars(n / 10)[k]);
            }
        }
    }
}

} // verus!
