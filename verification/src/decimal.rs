//! Decimal text of numbers, as the board files write them.
//!
//! Measurements reach this library already rounded to six decimal places:
//! a [`Fixed6`] holds the sign, the whole part and the millionths of such a
//! value, or one of the two non-finite cases. [`fixed6_text`] writes it the
//! way a fixed six-place rendering does: an optional `-`, the whole part in
//! decimal, a point and exactly six digits.

use vstd::prelude::*;

verus! {

/// A number rounded to six decimal places.
#[derive(Clone, Copy, Debug, PartialEq, Eq)]
pub enum Fixed6 {
    /// `(-1)^negative * (whole + micros / 1_000_000)`; the sign is kept for zero too.
    Finite { negative: bool, whole: u128, micros: u32 },
    /// Not a number.
    NaN,
    /// Positive or negative infinity.
    Infinite { negative: bool },
}

impl Fixed6 {
    /// A finite value keeps its millionths below one unit.
    pub open spec fn wf(self) -> bool {
        match self {
            Fixed6::Finite { micros, .. } => micros < 1_000_000,
            _ => true,
        }
    }

    /// Positive zero.
    pub open spec fn zero_spec() -> Fixed6 {
        Fixed6::Finite { negative: false, whole: 0, micros: 0 }
    }

    /// The value zero with the given sign.
    pub fn zero(negative: bool) -> (z: Fixed6)
        ensures
            z == (Fixed6::Finite { negative, whole: 0, micros: 0 }),
            z.wf(),
    {
        Fixed6::Finite { negative, whole: 0, micros: 0 }
    }
}

/// The character of a decimal digit.
pub open spec fn digit_char(d: nat) -> char
    recommends
        d < 10,
{
    (d + 48) as char
}

/// The decimal digits of `n`, most significant first, without leading zeros.
pub open spec fn decimal_digits(n: nat) -> Seq<char>
    decreases n,
{
    if n < 10 {
        seq![digit_char(n)]
    } else {
        decimal_digits(n / 10).push(digit_char(n % 10))
    }
}

/// The value that a string of decimal digits denotes.
pub open spec fn digits_value(s: Seq<char>) -> int
    decreases s.len(),
{
    if s.len() == 0 {
        0
    } else {
        digits_value(s.drop_last()) * 10 + (s.last() as int - 48)
    }
}

/// Whether every character of `s` is a decimal digit.
pub open spec fn all_digits(s: Seq<char>) -> bool {
    forall|i: int| 0 <= i < s.len() ==> '0' <= #[trigger] s[i] <= '9'
}

/// The six digits of `m` millionths, zero-padded on the left.
pub open spec fn six_digits(m: nat) -> Seq<char> {
    seq![
        digit_char((m / 100000) % 10),
        digit_char((m / 10000) % 10),
        digit_char((m / 1000) % 10),
        digit_char((m / 100) % 10),
        digit_char((m / 10) % 10),
        digit_char(m % 10),
    ]
}

/// The sign prefix of a number.
pub open spec fn sign_text(negative: bool) -> Seq<char> {
    if negative {
        seq!['-']
    } else {
        Seq::empty()
    }
}

/// The fixed six-place text of a number.
pub open spec fn fixed6_text(f: Fixed6) -> Seq<char> {
    match f {
        Fixed6::Finite { negative, whole, micros } => sign_text(negative) + decimal_digits(
            whole as nat,
        ) + seq!['.'] + six_digits(micros as nat),
        Fixed6::NaN => seq!['N', 'a', 'N'],
        Fixed6::Infinite { negative } => sign_text(negative) + seq!['i', 'n', 'f'],
    }
}

/// The text of one decimal digit.
fn digit_string(d: u128) -> (s: String)
    requires
        d < 10,
    ensures
        s@ == seq![digit_char(d as nat)],
{
    let lit = match d {
        0 => "0",
        1 => "1",
        2 => "2",
        3 => "3",
        4 => "4",
        5 => "5",
        6 => "6",
        7 => "7",
        8 => "8",
        _ => "9",
    };
    proof {
        reveal_strlit("0");
        reveal_strlit("1");
        reveal_strlit("2");
        reveal_strlit("3");
        reveal_strlit("4");
        reveal_strlit("5");
        reveal_strlit("6");
        reveal_strlit("7");
        reveal_strlit("8");
        reveal_strlit("9");
    }
    lit.to_owned()
}

/// The decimal text of an unsigned integer.
pub fn decimal_text(n: u128) -> (s: String)
    ensures
        s@ == decimal_digits(n as nat),
{
    let mut rest: u128 = n;
    let mut s = String::new();
    loop
        invariant
            decimal_digits(n as nat) == decimal_digits(rest as nat) + s@,
        decreases rest,
    {
        let d = digit_string(rest % 10);
        let ghost old_s = s@;
        s = d.concat(s.as_str());
        if rest < 10 {
            assert(decimal_digits(rest as nat) == seq![digit_char(rest as nat)]);
            assert(decimal_digits(n as nat) =~= s@);
            return s;
        }
        assert(decimal_digits(rest as nat) == decimal_digits((rest / 10) as nat).push(
            digit_char((rest % 10) as nat),
        ));
        assert(decimal_digits(rest as nat) + old_s =~= decimal_digits((rest / 10) as nat) + s@);
        rest = rest / 10;
    }
}

/// The six zero-padded digits of a count of millionths.
fn six_digit_text(m: u32) -> (s: String)
    requires
        m < 1_000_000,
    ensures
        s@ == six_digits(m as nat),
{
    let mut s = digit_string(((m / 100000) % 10) as u128);
    s.append(digit_string(((m / 10000) % 10) as u128).as_str());
    s.append(digit_string(((m / 1000) % 10) as u128).as_str());
    s.append(digit_string(((m / 100) % 10) as u128).as_str());
    s.append(digit_string(((m / 10) % 10) as u128).as_str());
    s.append(digit_string((m % 10) as u128).as_str());
    assert(s@ =~= six_digits(m as nat));
    s
}

/// Writes a number with exactly six decimal places.
pub fn format_fixed6(f: &Fixed6) -> (s: String)
    requires
        f.wf(),
    ensures
        s@ == fixed6_text(*f),
{
    proof {
        reveal_strlit("-");
        reveal_strlit(".");
        reveal_strlit("NaN");
        reveal_strlit("inf");
    }
    match f {
        Fixed6::NaN => "NaN".to_owned(),
        Fixed6::Infinite { negative } => {
            let mut s = if *negative {
                "-".to_owned()
            } else {
                String::new()
            };
            s.append("inf");
            assert(s@ =~= fixed6_text(*f));
            s
        },
        Fixed6::Finite { negative, whole, micros } => {
            let mut s = if *negative {
                "-".to_owned()
            } else {
                String::new()
            };
            s.append(decimal_text(*whole).as_str());
            s.append(".");
            s.append(six_digit_text(*micros).as_str());
            assert(s@ =~= fixed6_text(*f));
            s
        },
    }
}


proof fn lemma_digit_char(d: nat)
    requires
        d < 10,
    ensures
        digit_char(d) as int == d + 48,
        '0' <= digit_char(d) <= '9',
{
}

/// Reading the digits back gives the number: the decimal text of `n` is made of
/// digits only, has no leading zero unless it is `0`, and denotes `n`.
pub proof fn lemma_decimal_digits_roundtrip(n: nat)
    ensures
        digits_value(decimal_digits(n)) == n,
        all_digits(decimal_digits(n)),
        decimal_digits(n).len() >= 1,
        decimal_digits(n)[0] == '0' ==> n == 0,
    decreases n,
{
    lemma_digit_char(n % 10);
    let s = decimal_digits(n);
    if n < 10 {
        assert(s.drop_last() =~= Seq::<char>::empty());
        assert(digits_value(s.drop_last()) == 0);
        assert(s.last() == digit_char(n));
        assert(digits_value(s) == digits_value(s.drop_last()) * 10 + (s.last() as int - 48));
    } else {
        lemma_decimal_digits_roundtrip(n / 10);
        assert(s.drop_last() =~= decimal_digits(n / 10));
        assert(s.last() == digit_char(n % 10));
        assert(digits_value(s) == digits_value(s.drop_last()) * 10 + (s.last() as int - 48));
        assert(s[0] == decimal_digits(n / 10)[0]);
    }
}

/// The six padded digits of a count of millionths denote that count.
pub proof fn lemma_six_digits_roundtrip(m: nat)
    requires
        m < 1_000_000,
    ensures
        digits_value(six_digits(m)) == m,
        all_digits(six_digits(m)),
        six_digits(m).len() == 6,
{
    let s = six_digits(m);
    let s1 = s.drop_last();
    let s2 = s1.drop_last();
    let s3 = s2.drop_last();
    let s4 = s3.drop_last();
    let s5 = s4.drop_last();
    let s6 = s5.drop_last();
    assert(s6 =~= Seq::<char>::empty());
    let d5 = m / 100000;
    let r5 = m % 100000;
    let d4 = r5 / 10000;
    let r4 = r5 % 10000;
    let d3 = r4 / 1000;
    let r3 = r4 % 1000;
    let d2 = r3 / 100;
    let r2 = r3 % 100;
    let d1 = r2 / 10;
    let d0 = r2 % 10;
    assert((m / 100000) % 10 == d5 && (m / 10000) % 10 == d4 && (m / 1000) % 10 == d3
        && (m / 100) % 10 == d2 && (m / 10) % 10 == d1 && m % 10 == d0
        && m == ((((d5 * 10 + d4) * 10 + d3) * 10 + d2) * 10 + d1) * 10 + d0) by (nonlinear_arith)
        requires
            m < 1_000_000,
            d5 == m / 100000,
            r5 == m % 100000,
            d4 == r5 / 10000,
            r4 == r5 % 10000,
            d3 == r4 / 1000,
            r3 == r4 % 1000,
            d2 == r3 / 100,
            r2 == r3 % 100,
            d1 == r2 / 10,
            d0 == r2 % 10,
    ;
    lemma_digit_char(d0);
    lemma_digit_char(d1);
    lemma_digit_char(d2);
    lemma_digit_char(d3);
    lemma_digit_char(d4);
    lemma_digit_char(d5);
    assert(digits_value(s6) == 0);
    assert(digits_value(s5) == d5);
    assert(digits_value(s4) == d5 * 10 + d4);
    assert(digits_value(s3) == (d5 * 10 + d4) * 10 + d3);
    assert(digits_value(s2) == ((d5 * 10 + d4) * 10 + d3) * 10 + d2);
    assert(digits_value(s1) == (((d5 * 10 + d4) * 10 + d3) * 10 + d2) * 10 + d1);
    assert(digits_value(s) == ((((d5 * 10 + d4) * 10 + d3) * 10 + d2) * 10 + d1) * 10 + d0);
}

/// Whether a number is below zero or a negative zero or infinity: the numbers
/// whose text carries a sign.
pub open spec fn is_negative(f: Fixed6) -> bool {
    match f {
        Fixed6::Finite { negative, .. } => negative,
        Fixed6::NaN => false,
        Fixed6::Infinite { negative } => negative,
    }
}

/// A number's text begins with `-` exactly when the number is negative, and
/// its last character is a digit exactly when it is finite.
pub proof fn lemma_fixed6_text_sign(f: Fixed6)
    requires
        f.wf(),
    ensures
        fixed6_text(f).len() >= 3,
        fixed6_text(f)[0] == '-' <==> is_negative(f),
        ('0' <= fixed6_text(f)[fixed6_text(f).len() - 1] <= '9') <==> (f is Finite),
{
    match f {
        Fixed6::Finite { negative, whole, micros } => {
            lemma_finite_text_parts(negative, whole, micros);
            lemma_six_digits_roundtrip(micros as nat);
            lemma_decimal_digits_roundtrip(whole as nat);
        },
        _ => {},
    }
}

/// The parts of a finite number's text.
proof fn lemma_finite_text_parts(negative: bool, whole: u128, micros: u32)
    requires
        micros < 1_000_000,
    ensures
        ({
            let t = fixed6_text(Fixed6::Finite { negative, whole, micros });
            let s = sign_text(negative);
            let d = decimal_digits(whole as nat);
            &&& t.len() == s.len() + d.len() + 7
            &&& t.subrange(s.len() as int, (s.len() + d.len()) as int) == d
            &&& t.subrange(t.len() - 6, t.len() as int) == six_digits(micros as nat)
            &&& t[s.len() as int] == d[0]
            &&& '0' <= t[s.len() as int] <= '9'
            &&& t[t.len() - 1] == six_digits(micros as nat)[5]
            &&& '0' <= t[t.len() - 1] <= '9'
            &&& (negative <==> t[0] == '-')
        }),
{
    lemma_decimal_digits_roundtrip(whole as nat);
    lemma_six_digits_roundtrip(micros as nat);
    let t = fixed6_text(Fixed6::Finite { negative, whole, micros });
    let s = sign_text(negative);
    let d = decimal_digits(whole as nat);
    let m = six_digits(micros as nat);
    assert(t == s + d + seq!['.'] + m);
    assert(t.subrange(s.len() as int, (s.len() + d.len()) as int) =~= d);
    assert(t.subrange(t.len() - 6, t.len() as int) =~= m);
    assert(t[t.len() - 1] == m[5]);
    assert(t[s.len() as int] == d[0]);
    if !negative {
        assert(t[0] == d[0]);
    }
}

/// Two finite numbers with one text are equal.
proof fn lemma_finite_text_injective(na: bool, wa: u128, ma: u32, nb: bool, wb: u128, mb: u32)
    requires
        ma < 1_000_000,
        mb < 1_000_000,
        fixed6_text(Fixed6::Finite { negative: na, whole: wa, micros: ma }) == fixed6_text(
            Fixed6::Finite { negative: nb, whole: wb, micros: mb },
        ),
    ensures
        na == nb,
        wa == wb,
        ma == mb,
{
    lemma_finite_text_parts(na, wa, ma);
    lemma_finite_text_parts(nb, wb, mb);
    lemma_decimal_digits_roundtrip(wa as nat);
    lemma_decimal_digits_roundtrip(wb as nat);
    lemma_six_digits_roundtrip(ma as nat);
    lemma_six_digits_roundtrip(mb as nat);
    assert(na == nb);
    assert(decimal_digits(wa as nat).len() == decimal_digits(wb as nat).len());
    assert(decimal_digits(wa as nat) == decimal_digits(wb as nat));
    assert(six_digits(ma as nat) == six_digits(mb as nat));
}

/// Distinct well-formed numbers have distinct texts, so the text of a number
/// determines it.
#[verifier::rlimit(50)]
pub proof fn lemma_fixed6_text_injective(a: Fixed6, b: Fixed6)
    requires
        a.wf(),
        b.wf(),
        fixed6_text(a) == fixed6_text(b),
    ensures
        a == b,
{
    let t = fixed6_text(a);
    match (a, b) {
        (
            Fixed6::Finite { negative: na, whole: wa, micros: ma },
            Fixed6::Finite { negative: nb, whole: wb, micros: mb },
        ) => {
            lemma_finite_text_injective(na, wa, ma, nb, wb, mb);
        },
        (Fixed6::Finite { negative, whole, micros }, _) => {
            lemma_finite_text_parts(negative, whole, micros);
            match b {
                Fixed6::NaN => {
                    assert(t[t.len() - 1] == 'N');
                },
                _ => {
                    assert(t[t.len() - 1] == 'f');
                },
            }
        },
        (_, Fixed6::Finite { negative, whole, micros }) => {
            lemma_finite_text_parts(negative, whole, micros);
            match a {
                Fixed6::NaN => {
                    assert(t[t.len() - 1] == 'N');
                },
                _ => {
                    assert(t[t.len() - 1] == 'f');
                },
            }
        },
        (Fixed6::NaN, Fixed6::Infinite { negative }) => {
            assert(t[t.len() - 1] == 'N');
            assert(fixed6_text(b)[fixed6_text(b).len() - 1] == 'f');
        },
        (Fixed6::Infinite { negative }, Fixed6::NaN) => {
            assert(t[t.len() - 1] == 'f');
            assert(fixed6_text(b)[fixed6_text(b).len() - 1] == 'N');
        },
        (Fixed6::Infinite { negative: na }, Fixed6::Infinite { negative: nb }) => {
            assert(t.len() == if na { 4int } else { 3int });
            assert(fixed6_text(b).len() == if nb { 4int } else { 3int });
        },
        _ => {},
    }
}

} // verus!
