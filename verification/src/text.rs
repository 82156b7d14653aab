//! Small verified text utilities: decimal rendering of integers and
//! trailing-separator normalization of base URLs.

use vstd::prelude::*;

verus! {

/// The decimal digit character standing for `d` (which must lie below ten).
pub open spec fn digit_char(d: int) -> char {
    if d == 0 {
        '0'
    } else if d == 1 {
        '1'
    } else if d == 2 {
        '2'
    } else if d == 3 {
        '3'
    } else if d == 4 {
        '4'
    } else if d == 5 {
        '5'
    } else if d == 6 {
        '6'
    } else if d == 7 {
        '7'
    } else if d == 8 {
        '8'
    } else {
        '9'
    }
}

/// The decimal rendering of a non-negative integer, most significant digit
/// first and without leading zeroes (zero itself renders as "0").
pub open spec fn dec_nat(n: nat) -> Seq<char>
    decreases n,
{
    if n < 10 {
        seq![digit_char(n as int)]
    } else {
        dec_nat(n / 10) + seq![digit_char((n % 10) as int)]
    }
}

/// The decimal rendering of a signed integer: a leading minus sign when
/// negative, plain digits otherwise.
pub open spec fn dec_int(i: int) -> Seq<char> {
    if i >= 0 {
        dec_nat(i as nat)
    } else {
        seq!['-'] + dec_nat((-i) as nat)
    }
}

fn digit_str(d: u64) -> (r: &'static str)
    requires
        d < 10,
    ensures
        r@ == seq![digit_char(d as int)],
{
    if d == 0 {
        proof {
            reveal_strlit("0");
            assert("0"@ =~= seq![digit_char(0)]);
        }
        return "0";
    }
    if d == 1 {
        proof {
            reveal_strlit("1");
            assert("1"@ =~= seq![digit_char(1)]);
        }
        return "1";
    }
    if d == 2 {
        proof {
            reveal_strlit("2");
            assert("2"@ =~= seq![digit_char(2)]);
        }
        return "2";
    }
    if d == 3 {
        proof {
            reveal_strlit("3");
            assert("3"@ =~= seq![digit_char(3)]);
        }
        return "3";
    }
    if d == 4 {
        proof {
            reveal_strlit("4");
            assert("4"@ =~= seq![digit_char(4)]);
        }
        return "4";
    }
    if d == 5 {
        proof {
            reveal_strlit("5");
            assert("5"@ =~= seq![digit_char(5)]);
        }
        return "5";
    }
    if d == 6 {
        proof {
            reveal_strlit("6");
            assert("6"@ =~= seq![digit_char(6)]);
        }
        return "6";
    }
    if d == 7 {
        proof {
            reveal_strlit("7");
            assert("7"@ =~= seq![digit_char(7)]);
        }
        return "7";
    }
    if d == 8 {
        proof {
            reveal_strlit("8");
            assert("8"@ =~= seq![digit_char(8)]);
        }
        return "8";
    }
    proof {
        reveal_strlit("9");
        assert("9"@ =~= seq![digit_char(9)]);
    }
    "9"
}

/// Renders `n` in decimal.
pub fn u64_to_dec(n: u64) -> (s: String)
    ensures
        s@ == dec_nat(n as nat),
    decreases n,
{
    if n < 10 {
        digit_str(n).to_owned()
    } else {
        let mut s = u64_to_dec(n / 10);
        s.append(digit_str(n % 10));
        assert(s@ =~= dec_nat(n as nat));
        s
    }
}

/// Renders `i` in decimal, with a leading minus sign when negative.
pub fn i64_to_dec(i: i64) -> (s: String)
    ensures
        s@ == dec_int(i as int),
{
    if i >= 0 {
        u64_to_dec(i as u64)
    } else {
        let mag: u64 = (-(i as i128)) as u64;
        assert(mag as int == -(i as int));
        let mut s = "-".to_owned();
        proof {
            reveal_strlit("-");
            assert("-"@ =~= seq!['-']);
        }
        let digits = u64_to_dec(mag);
        s.append(digits.as_str());
        assert(s@ =~= dec_int(i as int));
        s
    }
}

/// Every decimal rendering holds at least one character.
pub proof fn lemma_dec_nat_nonempty(n: nat)
    ensures
        dec_nat(n).len() >= 1,
    decreases n,
{
    if n >= 10 {
        lemma_dec_nat_nonempty(n / 10);
    }
}

/// Every character of a decimal rendering is a digit, never the minus
/// sign.
pub proof fn lemma_dec_nat_digits(n: nat)
    ensures
        forall|i: int| 0 <= i < dec_nat(n).len() ==> #[trigger] dec_nat(n)[i] != '-',
    decreases n,
{
    if n >= 10 {
        lemma_dec_nat_digits(n / 10);
        assert forall|i: int| 0 <= i < dec_nat(n).len() implies #[trigger] dec_nat(n)[i]
            != '-' by {
            if i < dec_nat(n / 10).len() {
                assert(dec_nat(n)[i] == dec_nat(n / 10)[i]);
            }
        }
    }
}

/// Decimal rendering is injective: two different non-negative integers
/// never render to the same text.
pub proof fn lemma_dec_nat_injective(a: nat, b: nat)
    requires
        dec_nat(a) == dec_nat(b),
    ensures
        a == b,
    decreases a + b,
{
    lemma_dec_nat_nonempty(a / 10);
    lemma_dec_nat_nonempty(b / 10);
    if a < 10 && b < 10 {
        assert(dec_nat(a)[0] == digit_char(a as int));
        assert(dec_nat(b)[0] == digit_char(b as int));
        assert(a == b);
    } else if a >= 10 && b >= 10 {
        let la = dec_nat(a / 10).len() as int;
        let lb = dec_nat(b / 10).len() as int;
        assert(dec_nat(a).len() == la + 1);
        assert(dec_nat(b).len() == lb + 1);
        assert(la == lb);
        assert(dec_nat(a)[la] == digit_char((a % 10) as int));
        assert(dec_nat(b)[lb] == digit_char((b % 10) as int));
        assert(a % 10 == b % 10);
        assert forall|i: int| 0 <= i < la implies #[trigger] dec_nat(a / 10)[i] == dec_nat(
            b / 10,
        )[i] by {
            assert(dec_nat(a)[i] == dec_nat(a / 10)[i]);
            assert(dec_nat(b)[i] == dec_nat(b / 10)[i]);
        }
        assert(dec_nat(a / 10) =~= dec_nat(b / 10));
        lemma_dec_nat_injective(a / 10, b / 10);
        assert(a == a / 10 * 10 + a % 10) by (nonlinear_arith);
        assert(b == b / 10 * 10 + b % 10) by (nonlinear_arith);
    } else if a < 10 {
        assert(dec_nat(b).len() >= 2);
    } else {
        assert(dec_nat(a).len() >= 2);
    }
}

/// Signed decimal rendering is injective too: the minus sign never occurs
/// in a digit rendering, so signs cannot be confused.
pub proof fn lemma_dec_int_injective(a: int, b: int)
    requires
        dec_int(a) == dec_int(b),
    ensures
        a == b,
{
    lemma_dec_nat_nonempty((-a) as nat);
    lemma_dec_nat_nonempty((-b) as nat);
    lemma_dec_nat_digits(a as nat);
    lemma_dec_nat_digits(b as nat);
    if a >= 0 && b >= 0 {
        lemma_dec_nat_injective(a as nat, b as nat);
    } else if a < 0 && b < 0 {
        assert(dec_int(a).drop_first() =~= dec_nat((-a) as nat));
        assert(dec_int(b).drop_first() =~= dec_nat((-b) as nat));
        lemma_dec_nat_injective((-a) as nat, (-b) as nat);
    } else if a >= 0 {
        assert(dec_int(a)[0] != '-');
        assert(dec_int(b)[0] == '-');
    } else {
        assert(dec_int(a)[0] == '-');
        assert(dec_int(b)[0] != '-');
    }
}

/// Whether `s` ends in the path separator, so that joining a relative path
/// onto it behaves predictably.
pub open spec fn slash_terminated(s: Seq<char>) -> bool {
    s.len() > 0 && s[s.len() - 1] == '/'
}

/// `s` with a final path separator appended unless one is already there.
pub open spec fn with_trailing_slash(s: Seq<char>) -> Seq<char> {
    if slash_terminated(s) {
        s
    } else {
        s + seq!['/']
    }
}

/// Appends a final path separator to `s` unless one is already there.
pub fn ensure_trailing_slash(s: String) -> (r: String)
    ensures
        r@ == with_trailing_slash(s@),
{
    let ghost s0 = s@;
    let n = s.as_str().unicode_len();
    if n > 0 && s.as_str().get_char(n - 1) == '/' {
        assert(slash_terminated(s0));
        s
    } else {
        assert(!slash_terminated(s0));
        let mut r = s;
        r.append("/");
        proof {
            reveal_strlit("/");
            assert("/"@ =~= seq!['/']);
            assert(r@ =~= s0 + seq!['/']);
        }
        r
    }
}

/// Normalizing a base URL is idempotent: once a trailing separator is there,
/// normalizing again changes nothing.
pub proof fn lemma_with_trailing_slash_idempotent(s: Seq<char>)
    ensures
        with_trailing_slash(with_trailing_slash(s)) == with_trailing_slash(s),
{
    if !slash_terminated(s) {
        assert(slash_terminated(s + seq!['/']));
    }
}

/// A base URL given without the trailing separator normalizes to the same
/// effective base as the same URL given with the separator already present.
pub proof fn lemma_trailing_slash_agreement(s: Seq<char>)
    requires
        !slash_terminated(s),
    ensures
        with_trailing_slash(s.push('/')) == with_trailing_slash(s),
{
    assert(s.push('/') =~= s + seq!['/']);
    assert(slash_terminated(s + seq!['/']));
}

} // verus!
