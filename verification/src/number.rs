//! Non-negative decimal numbers as they occur in request parameters.
//!
//! A [`Decimal`] counts millionths. It is read from plain decimal text
//! (digits with an optional fraction; no sign, no exponent), keeps the first
//! six fractional digits, and holds whole parts up to `u32::MAX`; larger text
//! is read as that largest whole part. All arithmetic on it is exact integer
//! arithmetic, rounding half up.

use vstd::prelude::*;
use crate::text::{
    all_digits, append_decimal, char_of_digit, check_digit, decimal_text, digit_char, digits_value,
    is_digit, lemma_concat_lacks, lemma_decimal_text, lemma_digits_lack, lemma_split_nonempty,
    lemma_split_pair, lemma_split_plain, push_char, split, split_chars, texts,
};

verus! {

/// Millionths in one whole unit.
pub const MICROS: u64 = 1_000_000;

/// The largest whole part that decimal text is read as.
pub const WHOLE_MAX: u64 = 4_294_967_295;

/// A non-negative number with six fractional digits, held in millionths.
#[derive(Clone, Copy, Debug, PartialEq, Eq, Structural)]
pub struct Decimal {
    pub micros: u64,
}

/// Ten to the power `n`.
pub open spec fn pow10(n: nat) -> nat
    decreases n,
{
    if n == 0 {
        1
    } else {
        10 * pow10((n - 1) as nat)
    }
}

/// The powers of ten up to a million.
pub proof fn lemma_pow10_table()
    ensures
        pow10(0) == 1,
        pow10(1) == 10,
        pow10(2) == 100,
        pow10(3) == 1_000,
        pow10(4) == 10_000,
        pow10(5) == 100_000,
        pow10(6) == 1_000_000,
{
    reveal_with_fuel(pow10, 8);
}

/// The millionths written by the fractional digits `frac`: the first six
/// digits count, the rest is cut off.
pub open spec fn fraction_micros(frac: Seq<char>) -> nat {
    let kept = if frac.len() <= 6 {
        frac
    } else {
        frac.take(6)
    };
    digits_value(kept) * pow10((6 - kept.len()) as nat)
}

/// The whole part written by `digits`, held to `WHOLE_MAX`.
pub open spec fn whole_value(digits: Seq<char>) -> nat {
    if digits_value(digits) <= WHOLE_MAX {
        digits_value(digits)
    } else {
        WHOLE_MAX as nat
    }
}

/// The number written by whole digits and fractional digits; none unless
/// both are digits only and at least one digit is there.
pub open spec fn decimal_of_parts(whole: Seq<char>, frac: Seq<char>) -> Option<Decimal> {
    if all_digits(whole) && all_digits(frac) && whole.len() + frac.len() > 0 {
        Some(Decimal { micros: (whole_value(whole) * MICROS + fraction_micros(frac)) as u64 })
    } else {
        None
    }
}

/// The number that the text `s` writes: digits, optionally one `.` among or
/// after or before them. Any other text writes no number.
pub open spec fn parse_decimal(s: Seq<char>) -> Option<Decimal> {
    let parts = split(s, '.');
    if parts.len() == 1 {
        decimal_of_parts(parts[0], Seq::<char>::empty())
    } else if parts.len() == 2 {
        decimal_of_parts(parts[0], parts[1])
    } else {
        None
    }
}

/// The nearest whole number to `micros` millionths, halves rounding up.
pub open spec fn round_micros(micros: nat) -> nat {
    (micros + 500_000) / 1_000_000
}

/// `num / den` rounded to the nearest whole number, halves rounding up.
pub open spec fn round_ratio(num: nat, den: nat) -> nat
    recommends
        den > 0,
{
    (2 * num + den) / (2 * den)
}

/// `n` held to the range of `u32`.
pub open spec fn clip(n: nat) -> u32 {
    if n <= u32::MAX {
        n as u32
    } else {
        u32::MAX
    }
}

/// The digits of `n` in exactly `width` places, with leading zeros.
pub open spec fn padded_text(n: nat, width: nat) -> Seq<char>
    decreases width,
{
    if width == 0 {
        Seq::<char>::empty()
    } else {
        padded_text(n / 10, (width - 1) as nat).push(digit_char(n % 10))
    }
}

/// Padded text has the asked width, consists of digits, and reads back as
/// the number when the number fits the width.
pub proof fn lemma_padded_text(n: nat, width: nat)
    ensures
        padded_text(n, width).len() == width,
        all_digits(padded_text(n, width)),
        n < pow10(width) ==> digits_value(padded_text(n, width)) == n,
    decreases width,
{
    if width > 0 {
        lemma_padded_text(n / 10, (width - 1) as nat);
        let t = padded_text(n, width);
        assert(t.drop_last() =~= padded_text(n / 10, (width - 1) as nat));
        assert(t.last() == digit_char(n % 10));
        if n < pow10(width) {
            assert(n / 10 < pow10((width - 1) as nat));
        }
    }
}

/// Digits write a number below ten to the power of their count.
pub proof fn lemma_digits_bound(s: Seq<char>)
    requires
        all_digits(s),
    ensures
        digits_value(s) < pow10(s.len()),
    decreases s.len(),
{
    if s.len() > 0 {
        let front = s.drop_last();
        assert forall|i: int| 0 <= i < front.len() implies is_digit(#[trigger] front[i]) by {
            assert(front[i] == s[i]);
        }
        lemma_digits_bound(front);
        assert(is_digit(s[s.len() - 1]));
        assert(pow10(s.len()) == 10 * pow10(front.len()));
    }
}

/// Fractional digits write less than a whole.
pub proof fn lemma_fraction_bound(frac: Seq<char>)
    requires
        all_digits(frac),
    ensures
        fraction_micros(frac) <= 999_999,
{
    let kept = if frac.len() <= 6 {
        frac
    } else {
        frac.take(6)
    };
    assert forall|i: int| 0 <= i < kept.len() implies is_digit(#[trigger] kept[i]) by {
        assert(kept[i] == frac[i]);
    }
    lemma_digits_bound(kept);
    lemma_pow10_table();
    let v = digits_value(kept);
    let k = kept.len();
    if k == 0 {
        assert(v * 1_000_000 <= 999_999);
    } else if k == 1 {
        assert(v * 100_000 <= 999_999);
    } else if k == 2 {
        assert(v * 10_000 <= 999_999);
    } else if k == 3 {
        assert(v * 1_000 <= 999_999);
    } else if k == 4 {
        assert(v * 100 <= 999_999);
    } else if k == 5 {
        assert(v * 10 <= 999_999);
    } else {
        assert(v * 1 <= 999_999);
    }
}

/// The number that decimal text writes is in range.
pub proof fn lemma_parsed_in_range(s: Seq<char>)
    requires
        parse_decimal(s) is Some,
    ensures
        parse_decimal(s)->0.in_range(),
{
    let parts = split(s, '.');
    let whole = parts[0];
    let frac = if parts.len() == 1 {
        Seq::<char>::empty()
    } else {
        parts[1]
    };
    lemma_fraction_bound(frac);
    assert(whole_value(whole) * MICROS <= WHOLE_MAX * 1_000_000) by (nonlinear_arith)
        requires
            whole_value(whole) <= WHOLE_MAX,
            MICROS == 1_000_000,
    ;
}

impl Decimal {
    /// Whether the number is one that decimal text can write: its whole
    /// part is at most `WHOLE_MAX`.
    pub open spec fn in_range(self) -> bool {
        self.micros <= WHOLE_MAX * 1_000_000 + 999_999
    }

    /// The canonical text of a number is not empty and begins with a
    /// digit.
    pub proof fn lemma_text_shape(self)
        ensures
            self.text().len() >= 1,
            is_digit(self.text()[0]),
    {
        let whole = self.micros as nat / 1_000_000;
        lemma_decimal_text(whole);
        assert(is_digit(decimal_text(whole)[0]));
    }

    /// The canonical text of a number holds digits and at most one dot, and
    /// so no other character.
    pub proof fn lemma_text_lacks(self, c: char)
        requires
            !is_digit(c),
            c != '.',
        ensures
            !self.text().contains(c),
    {
        let whole = self.micros as nat / 1_000_000;
        let frac = self.micros as nat % 1_000_000;
        lemma_decimal_text(whole);
        lemma_padded_text(frac, 6);
        lemma_digits_lack(decimal_text(whole), c);
        lemma_digits_lack(padded_text(frac, 6), c);
        if frac != 0 {
            assert(!seq!['.'].contains(c)) by {
                if seq!['.'].contains(c) {
                    let i = choose|i: int| 0 <= i < seq!['.'].len() && seq!['.'][i] == c;
                }
            }
            lemma_concat_lacks(decimal_text(whole), seq!['.'], c);
            lemma_concat_lacks(decimal_text(whole) + seq!['.'], padded_text(frac, 6), c);
        }
    }

    /// Reading the canonical text of a number in range gives the number
    /// back.
    pub proof fn lemma_round_trip(self)
        requires
            self.in_range(),
        ensures
            parse_decimal(self.text()) == Some(self),
    {
        let whole = self.micros as nat / 1_000_000;
        let frac = self.micros as nat % 1_000_000;
        let w = decimal_text(whole);
        lemma_decimal_text(whole);
        lemma_pow10_table();
        lemma_digits_lack(w, '.');
        if frac == 0 {
            lemma_split_plain(w, '.');
            assert(digits_value(Seq::<char>::empty()) == 0);
            assert(fraction_micros(Seq::<char>::empty()) == 0) by {
                assert(0 * pow10(6) == 0);
            }
        } else {
            let f = padded_text(frac, 6);
            lemma_padded_text(frac, 6);
            lemma_digits_lack(f, '.');
            lemma_split_pair(w, f, '.');
            assert(fraction_micros(f) == frac) by {
                assert(frac * pow10(0) == frac) by (nonlinear_arith)
                    requires
                        pow10(0) == 1,
                ;
            }
        }
    }

    /// The number in millionths.
    pub open spec fn value(self) -> nat {
        self.micros as nat
    }

    /// The nearest whole number, halves rounding up.
    pub open spec fn rounded(self) -> nat {
        round_micros(self.micros as nat)
    }

    /// The share `self` percent of `dim`, rounded to the nearest whole
    /// number.
    pub open spec fn percent_of_spec(self, dim: nat) -> nat {
        round_ratio(dim * self.micros as nat, 100_000_000)
    }

    /// `of * self / by`, rounded to the nearest whole number.
    pub open spec fn scaled_spec(self, of: nat, by: nat) -> nat
        recommends
            by > 0,
    {
        round_ratio(of * self.micros as nat, by * 1_000_000)
    }

    /// The canonical text of the number: the whole part, and, unless the
    /// fraction is zero, a dot and six fractional digits.
    pub open spec fn text(self) -> Seq<char> {
        let whole = self.micros as nat / 1_000_000;
        let frac = self.micros as nat % 1_000_000;
        if frac == 0 {
            decimal_text(whole)
        } else {
            decimal_text(whole) + seq!['.'] + padded_text(frac, 6)
        }
    }

    /// The whole number `n`.
    pub fn from_whole(n: u32) -> (d: Decimal)
        ensures
            d.micros == n * 1_000_000,
    {
        Decimal { micros: n as u64 * MICROS }
    }

    /// Whether the number is zero.
    pub fn is_zero(&self) -> (r: bool)
        ensures
            r == (self.micros == 0),
    {
        self.micros == 0
    }

    /// Whether the number is at least the whole number `n`.
    pub fn at_least(&self, n: u32) -> (r: bool)
        ensures
            r == (self.micros >= n * 1_000_000),
    {
        self.micros >= n as u64 * MICROS
    }

    /// Whether the number is greater than the whole number `n`.
    pub fn exceeds(&self, n: u32) -> (r: bool)
        ensures
            r == (self.micros > n * 1_000_000),
    {
        self.micros > n as u64 * MICROS
    }

    /// The nearest whole number, held to the range of `u32`.
    pub fn round(&self) -> (r: u32)
        ensures
            r == clip(self.rounded()),
    {
        let wide: u128 = (self.micros as u128 + 500_000) / 1_000_000;
        if wide > u32::MAX as u128 {
            u32::MAX
        } else {
            wide as u32
        }
    }

    /// `self` percent of `dim`, rounded, held to the range of `u32`.
    pub fn percent_of(&self, dim: u32) -> (r: u32)
        ensures
            r == clip(self.percent_of_spec(dim as nat)),
    {
        assert(dim * self.micros <= 0xFFFF_FFFF * 0xFFFF_FFFF_FFFF_FFFF) by (nonlinear_arith)
            requires
                dim <= 0xFFFF_FFFF,
                self.micros <= 0xFFFF_FFFF_FFFF_FFFF,
        ;
        let product: u128 = dim as u128 * self.micros as u128;
        let wide: u128 = (2 * product + 100_000_000) / 200_000_000;
        if wide > u32::MAX as u128 {
            u32::MAX
        } else {
            wide as u32
        }
    }

    /// `of * self / by`, rounded, held to the range of `u32`.
    pub fn scaled(&self, of: u32, by: u32) -> (r: u32)
        requires
            by > 0,
        ensures
            r == clip(self.scaled_spec(of as nat, by as nat)),
    {
        assert(of * self.micros <= 0xFFFF_FFFF * 0xFFFF_FFFF_FFFF_FFFF) by (nonlinear_arith)
            requires
                of <= 0xFFFF_FFFF,
                self.micros <= 0xFFFF_FFFF_FFFF_FFFF,
        ;
        let product: u128 = of as u128 * self.micros as u128;
        let den: u128 = by as u128 * 1_000_000;
        let wide: u128 = (2 * product + den) / (2 * den);
        if wide > u32::MAX as u128 {
            u32::MAX
        } else {
            wide as u32
        }
    }

    /// Reads decimal text.
    pub fn parse(s: &Vec<char>) -> (r: Option<Decimal>)
        ensures
            r == parse_decimal(s@),
            r is Some ==> r->0.micros <= WHOLE_MAX * 1_000_000 + 999_999,
    {
        let parts = split_chars(s, '.');
        proof {
            lemma_split_nonempty(s@, '.');
            assert(texts(parts@)[0] == parts@[0]@);
        }
        if parts.len() > 2 {
            return None;
        }
        let empty: Vec<char> = Vec::new();
        let frac_text: &Vec<char> = if parts.len() == 2 {
            proof {
                assert(texts(parts@)[1] == parts@[1]@);
            }
            &parts[1]
        } else {
            &empty
        };
        let whole_text: &Vec<char> = &parts[0];
        if whole_text.len() == 0 && frac_text.len() == 0 {
            return None;
        }
        let whole = match read_digits(whole_text, WHOLE_MAX) {
            Some(w) => w,
            None => {
                return None;
            },
        };
        let frac = match read_fraction(frac_text) {
            Some(f) => f,
            None => {
                return None;
            },
        };
        proof {
            let pieces = split(s@, '.');
            assert(pieces.len() == parts@.len());
            assert(whole_text@ == pieces[0]);
            assert(pieces.len() == 1 ==> frac_text@ =~= Seq::<char>::empty());
            assert(pieces.len() == 2 ==> frac_text@ == pieces[1]);
            assert(whole as nat == whole_value(whole_text@));
            assert(whole * MICROS + frac == whole_value(whole_text@) * MICROS + fraction_micros(
                frac_text@,
            ));
        }
        Some(Decimal { micros: whole * MICROS + frac })
    }

    /// Writes the canonical text of the number.
    pub fn to_text(&self, out: &mut String)
        ensures
            final(out)@ == old(out)@ + self.text(),
    {
        let whole: u64 = self.micros / MICROS;
        let frac: u64 = self.micros % MICROS;
        append_decimal(out, whole);
        if frac != 0 {
            push_char(out, '.');
            let ghost mid = out@;
            let mut digits: Vec<char> = Vec::new();
            let mut rest: u64 = frac;
            let mut i: usize = 0;
            // The six digits, least significant first.
            while i < 6
                invariant
                    i <= 6,
                    digits@.len() == i,
                    forall|w: nat| #![trigger padded_text(frac as nat, w)]
                        w >= i ==> padded_text(frac as nat, w) == padded_text(
                            rest as nat,
                            (w - i) as nat,
                        ) + digits@.reverse(),
                decreases 6 - i,
            {
                let c = char_of_digit((rest % 10) as u8);
                proof {
                    let before = digits@;
                    assert forall|w: nat| #![trigger padded_text(frac as nat, w)]
                        w >= i + 1 implies padded_text(frac as nat, w) == padded_text(
                        (rest / 10) as nat,
                        (w - (i + 1)) as nat,
                    ) + before.push(c).reverse() by {
                        assert(padded_text(frac as nat, w) == padded_text(
                            rest as nat,
                            (w - i) as nat,
                        ) + before.reverse());
                        assert(padded_text(rest as nat, (w - i) as nat) == padded_text(
                            (rest / 10) as nat,
                            (w - i - 1) as nat,
                        ).push(c));
                        assert(before.push(c).reverse() =~= seq![c] + before.reverse());
                        assert(padded_text((rest / 10) as nat, (w - i - 1) as nat).push(c)
                            + before.reverse() =~= padded_text(
                            (rest / 10) as nat,
                            (w - i - 1) as nat,
                        ) + (seq![c] + before.reverse()));
                    }
                }
                digits.push(c);
                rest = rest / 10;
                i += 1;
            }
            proof {
                assert(padded_text(frac as nat, 6) == padded_text(rest as nat, 0)
                    + digits@.reverse());
                assert(padded_text(frac as nat, 6) =~= digits@.reverse());
            }
            let ghost low = digits@;
            let mut j: usize = 6;
            while j > 0
                invariant
                    j <= 6,
                    digits@ == low,
                    low.len() == 6,
                    out@ == mid + low.reverse().take(6 - j),
                decreases j,
            {
                j -= 1;
                push_char(out, digits[j]);
                proof {
                    let r = low.reverse();
                    assert(r[5 - j] == low[j as int]);
                    assert(r.take(6 - j) =~= r.take(5 - j).push(low[j as int]));
                }
            }
            proof {
                assert(low.reverse().take(6) =~= low.reverse());
                assert(old(out)@ + decimal_text(whole as nat) + seq!['.'] + padded_text(
                    frac as nat,
                    6,
                ) =~= old(out)@ + (decimal_text(whole as nat) + seq!['.'] + padded_text(
                    frac as nat,
                    6,
                )));
            }
        }
    }
}

/// Reads a run of digits as a number held to `cap`; none if any character
/// is no digit.
pub fn read_digits(s: &Vec<char>, cap: u64) -> (r: Option<u64>)
    requires
        cap <= 1_000_000_000_000_000,
    ensures
        r == (if all_digits(s@) {
            Some(
                if digits_value(s@) <= cap {
                    digits_value(s@) as u64
                } else {
                    cap
                },
            )
        } else {
            None
        }),
        r is Some ==> r->0 <= cap,
{
    let mut acc: u64 = 0;
    let mut i: usize = 0;
    proof {
        assert(s@.take(0) =~= Seq::<char>::empty());
    }
    while i < s.len()
        invariant
            i <= s.len(),
            cap <= 1_000_000_000_000_000,
            all_digits(s@.take(i as int)),
            acc <= cap,
            acc == (if digits_value(s@.take(i as int)) <= cap {
                digits_value(s@.take(i as int))
            } else {
                cap as nat
            }),
        decreases s.len() - i,
    {
        let c = s[i];
        if !check_digit(c) {
            return None;
        }
        proof {
            let next = s@.take(i + 1);
            assert(next.drop_last() == s@.take(i as int));
            assert(next.last() == c);
            assert forall|j: int| 0 <= j < next.len() implies is_digit(#[trigger] next[j]) by {
                if j < i {
                    assert(s@.take(i as int)[j] == next[j]);
                }
            }
        }
        let d: u64 = (c as u32 - '0' as u32) as u64;
        let v: u64 = acc * 10 + d;
        acc = if v > cap {
            cap
        } else {
            v
        };
        i += 1;
    }
    proof {
        assert(s@.take(s.len() as int) == s@);
    }
    Some(acc)
}

/// Reads fractional digits as millionths; none if any character is no
/// digit.
pub fn read_fraction(s: &Vec<char>) -> (r: Option<u64>)
    ensures
        r == (if all_digits(s@) {
            Some(fraction_micros(s@) as u64)
        } else {
            None
        }),
        all_digits(s@) ==> fraction_micros(s@) <= 999_999,
{
    let mut k: usize = 0;
    while k < s.len()
        invariant
            k <= s.len(),
            forall|j: int| 0 <= j < k ==> is_digit(#[trigger] s@[j]),
        decreases s.len() - k,
    {
        if !check_digit(s[k]) {
            return None;
        }
        k += 1;
    }
    let n: usize = if s.len() < 6 {
        s.len()
    } else {
        6
    };
    let mut acc: u64 = 0;
    let mut bound: u64 = 1;
    let mut i: usize = 0;
    proof {
        lemma_pow10_table();
        assert(s@.take(0) =~= Seq::<char>::empty());
    }
    while i < 6
        invariant
            i <= 6,
            n <= 6,
            n <= s.len(),
            n == (if s.len() < 6 {
                s.len()
            } else {
                6
            }),
            all_digits(s@),
            bound == pow10(i as nat),
            acc < bound,
            i <= n ==> acc == digits_value(s@.take(i as int)),
            i > n ==> acc == digits_value(s@.take(n as int)) * pow10((i - n) as nat),
        decreases 6 - i,
    {
        proof {
            lemma_pow10_table();
            assert(pow10((i + 1) as nat) == 10 * pow10(i as nat));
        }
        if i < n {
            let c = s[i];
            proof {
                let next = s@.take(i + 1);
                assert(next.drop_last() == s@.take(i as int));
                assert(next.last() == c);
            }
            let d: u64 = (c as u32 - '0' as u32) as u64;
            acc = acc * 10 + d;
        } else {
            proof {
                if i == n {
                    assert(pow10(0) == 1);
                    assert(acc == digits_value(s@.take(n as int)) * pow10(0)) by (nonlinear_arith)
                        requires
                            acc == digits_value(s@.take(n as int)),
                            pow10(0) == 1,
                    ;
                }
                assert(pow10((i + 1 - n) as nat) == 10 * pow10((i - n) as nat));
                assert(acc * 10 == digits_value(s@.take(n as int)) * pow10((i + 1 - n) as nat))
                    by (nonlinear_arith)
                    requires
                        acc == digits_value(s@.take(n as int)) * pow10((i - n) as nat),
                        pow10((i + 1 - n) as nat) == 10 * pow10((i - n) as nat),
                ;
            }
            acc = acc * 10;
        }
        bound = bound * 10;
        i += 1;
    }
    proof {
        lemma_pow10_table();
        if s.len() <= 6 {
            assert(s@.take(n as int) =~= s@);
        }
        if n == 6 {
            assert(pow10(0) == 1);
            assert(acc == digits_value(s@.take(6)) * pow10(0)) by (nonlinear_arith)
                requires
                    acc == digits_value(s@.take(6)),
                    pow10(0) == 1,
            ;
        }
    }
    Some(acc)
}

} // verus!
