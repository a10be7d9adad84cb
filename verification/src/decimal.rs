//! Decimal numbers, read from text and held exactly.

use vstd::prelude::*;
use vstd::string::*;
use vstd::utf8::*;

verus! {

/// A decimal number held exactly, whatever its length: it stands for
/// `mantissa / 10^scale`, where the mantissa is the number that `digits`
/// spell, below zero where `negative` is set.
#[derive(Clone, Debug, PartialEq, Eq)]
pub struct Decimal {
    /// Whether the number lies below zero.
    pub negative: bool,
    /// The digits of the mantissa as numbers from 0 to 9, the first of them
    /// first, with no zero in front; none at all for zero.
    pub digits: Vec<u8>,
    /// The count of digits after the point.
    pub scale: usize,
}

/// The number `mantissa / 10^scale`.
pub struct DecimalValue {
    pub mantissa: int,
    pub scale: nat,
}

/// The number that `digits` spell, each of them a number from 0 to 9.
pub open spec fn digits_number(digits: Seq<u8>) -> nat
    decreases digits.len(),
{
    if digits.len() == 0 {
        0
    } else {
        10 * digits_number(digits.drop_last()) + digits.last() as nat
    }
}

impl View for Decimal {
    type V = DecimalValue;

    open spec fn view(&self) -> DecimalValue {
        DecimalValue {
            mantissa: if self.negative {
                -(digits_number(self.digits@) as int)
            } else {
                digits_number(self.digits@) as int
            },
            scale: self.scale as nat,
        }
    }
}

/// Digits of which one is not zero spell a number above zero.
pub proof fn lemma_number_is_positive(digits: Seq<u8>, i: int)
    requires
        0 <= i < digits.len(),
        digits[i] > 0,
    ensures
        digits_number(digits) > 0,
    decreases digits.len(),
{
    if i < digits.len() - 1 {
        assert(digits.drop_last()[i] == digits[i]);
        lemma_number_is_positive(digits.drop_last(), i);
    } else {
        assert(digits.last() == digits[i]);
    }
}

/// Zeros spell zero.
pub proof fn lemma_number_is_zero(digits: Seq<u8>)
    requires
        forall|i: int| 0 <= i < digits.len() ==> #[trigger] digits[i] == 0,
    ensures
        digits_number(digits) == 0,
    decreases digits.len(),
{
    if digits.len() > 0 {
        let front = digits.drop_last();
        assert forall|i: int| 0 <= i < front.len() implies #[trigger] front[i] == 0 by {
            assert(front[i] == digits[i]);
        }
        lemma_number_is_zero(front);
        assert(digits.last() == digits[digits.len() - 1]);
    }
}

/// Whether every one of `digits` is a number from 0 to 9, and none of them
/// a zero in front.
pub open spec fn canonical(digits: Seq<u8>) -> bool {
    &&& forall|i: int| 0 <= i < digits.len() ==> #[trigger] digits[i] <= 9
    &&& digits.len() > 0 ==> digits[0] > 0
}

/// A number is spelled by one sequence of digits only, where none stands
/// with a zero in front.
pub proof fn lemma_digits_are_fixed(a: Seq<u8>, b: Seq<u8>)
    requires
        canonical(a),
        canonical(b),
        digits_number(a) == digits_number(b),
    ensures
        a == b,
    decreases a.len(),
{
    if a.len() == 0 {
        if b.len() > 0 {
            lemma_number_is_positive(b, 0);
        }
        assert(a =~= b);
    } else {
        lemma_number_is_positive(a, 0);
        if b.len() == 0 {
            assert(digits_number(b) == 0);
        } else {
            let front_a = a.drop_last();
            let front_b = b.drop_last();
            assert(a.last() == a[a.len() - 1] && b.last() == b[b.len() - 1]);
            assert(a.last() == b.last() && digits_number(front_a) == digits_number(front_b));
            assert(canonical(front_a)) by {
                if front_a.len() > 0 {
                    assert(front_a[0] == a[0]);
                }
                assert forall|i: int| 0 <= i < front_a.len() implies #[trigger] front_a[i]
                    <= 9 by {
                    assert(front_a[i] == a[i]);
                }
            }
            assert(canonical(front_b)) by {
                if front_b.len() > 0 {
                    assert(front_b[0] == b[0]);
                }
                assert forall|i: int| 0 <= i < front_b.len() implies #[trigger] front_b[i]
                    <= 9 by {
                    assert(front_b[i] == b[i]);
                }
            }
            lemma_digits_are_fixed(front_a, front_b);
            assert(a =~= front_a.push(a.last()));
            assert(b =~= front_b.push(b.last()));
        }
    }
}

/// Whether `c` is one of the ten digits.
pub open spec fn is_digit(c: char) -> bool {
    '0' <= c <= '9'
}

/// Whether `s` holds digits and nothing else.
pub open spec fn digits_only(s: Seq<char>) -> bool {
    forall|i: int| 0 <= i < s.len() ==> is_digit(#[trigger] s[i])
}

/// The number that the decimal digits `s` spell.
pub open spec fn digits_value(s: Seq<char>) -> nat
    decreases s.len(),
{
    if s.len() == 0 {
        0
    } else {
        (10 * digits_value(s.drop_last()) + (s.last() as int - '0' as int)) as nat
    }
}

/// Whether `text` begins with a sign.
pub open spec fn has_sign(text: Seq<char>) -> bool {
    text.len() > 0 && (text[0] == '-' || text[0] == '+')
}

/// Whether `text` begins with the minus sign.
pub open spec fn is_negative(text: Seq<char>) -> bool {
    text.len() > 0 && text[0] == '-'
}

/// `text` without its sign.
pub open spec fn unsigned_part(text: Seq<char>) -> Seq<char> {
    if has_sign(text) {
        text.skip(1)
    } else {
        text
    }
}

/// The digits before the point of `body` and those after it, where `body`
/// is made of digits with at most one point among them, and holds at least
/// one digit.
pub open spec fn decimal_parts(body: Seq<char>) -> Option<(Seq<char>, Seq<char>)> {
    let point = body.index_of('.');
    let whole = if body.contains('.') {
        body.take(point)
    } else {
        body
    };
    let fraction = if body.contains('.') {
        body.skip(point + 1)
    } else {
        Seq::empty()
    };
    if digits_only(whole) && digits_only(fraction) && whole.len() + fraction.len() > 0 {
        Some((whole, fraction))
    } else {
        None
    }
}

/// The number that `text` spells as a decimal: an optional sign, then digits
/// with at most one point among them. `None` where `text` is no such thing.
pub open spec fn decimal_of(text: Seq<char>) -> Option<DecimalValue> {
    match decimal_parts(unsigned_part(text)) {
        Some((whole, fraction)) => {
            let magnitude = digits_value(whole + fraction) as int;
            Some(
                DecimalValue {
                    mantissa: if is_negative(text) {
                        -magnitude
                    } else {
                        magnitude
                    },
                    scale: fraction.len(),
                },
            )
        },
        None => None,
    }
}

/// A point at `w` with digits only on both sides is the one point of `body`.
proof fn lemma_point_found(body: Seq<char>, w: int)
    requires
        0 <= w < body.len(),
        body[w] == '.',
        digits_only(body.take(w)),
        digits_only(body.skip(w + 1)),
    ensures
        body.contains('.'),
        body.index_of('.') == w,
{
    assert(body.contains('.'));
    let p = body.index_of('.');
    if p < w {
        assert(body.take(w)[p] == body[p]);
    } else if p > w {
        assert(body.skip(w + 1)[p - w - 1] == body[p]);
    }
}

/// Digits hold no point.
proof fn lemma_no_point(body: Seq<char>)
    requires
        digits_only(body),
    ensures
        !body.contains('.'),
{
    if body.contains('.') {
        let p = body.index_of('.');
        assert(is_digit(body[p]));
    }
}

/// A character that is neither a digit nor a point spoils `body`.
proof fn lemma_stray_character(body: Seq<char>, k: int)
    requires
        0 <= k < body.len(),
        !is_digit(body[k]),
        body[k] != '.',
    ensures
        decimal_parts(body) is None,
{
    if body.contains('.') {
        let p = body.index_of('.');
        if k < p {
            assert(body.take(p)[k] == body[k]);
        } else {
            assert(body.skip(p + 1)[k - p - 1] == body[k]);
        }
    }
}

/// Anything but a digit after a point spoils `body`.
proof fn lemma_stray_after_point(body: Seq<char>, w: int, k: int)
    requires
        0 <= w < k < body.len(),
        body[w] == '.',
        !is_digit(body[k]),
    ensures
        decimal_parts(body) is None,
{
    assert(body.contains('.'));
    let p = body.index_of('.');
    if p < w {
        assert(body.skip(p + 1)[w - p - 1] == body[w]);
    } else if p > w {
        assert(body.take(p)[w] == body[w]);
    } else {
        assert(body.skip(p + 1)[k - p - 1] == body[k]);
    }
}

/// The byte of the digit zero.
const ZERO: u8 = 48;

/// The byte of the digit nine.
const NINE: u8 = 57;

/// The byte of the plus sign.
const PLUS: u8 = 43;

/// The byte of the minus sign.
const MINUS: u8 = 45;

/// The byte of the decimal point.
const POINT: u8 = 46;

fn is_digit_byte(b: u8) -> (digit: bool)
    ensures
        digit == (ZERO <= b <= NINE),
{
    ZERO <= b && b <= NINE
}

/// Reads the digits that stand in `bytes` from `from` on, puts them behind
/// `digits` and gives the place behind the last of them. `text` is the text
/// that the bytes spell, and `read` the digits that were read before.
fn read_digits(
    bytes: &[u8],
    from: usize,
    digits: &mut Vec<u8>,
    Ghost(text): Ghost<Seq<char>>,
    Ghost(read): Ghost<Seq<char>>,
) -> (end: usize)
    requires
        from <= bytes@.len() == text.len(),
        forall|k: int| 0 <= k < text.len() ==> bytes@[k] == #[trigger] text[k] as u8,
        is_ascii_chars(text),
        canonical(old(digits)@),
        digits_number(old(digits)@) == digits_value(read),
    ensures
        from <= end <= text.len(),
        digits_only(text.subrange(from as int, end as int)),
        end < text.len() ==> !is_digit(text[end as int]),
        canonical(final(digits)@),
        digits_number(final(digits)@) == digits_value(read + text.subrange(from as int, end as int)),
{
    let n = bytes.len();
    let mut i: usize = from;
    assert(read + text.subrange(from as int, i as int) =~= read);
    while i < n && is_digit_byte(bytes[i])
        invariant
            from <= i <= n,
            n == text.len(),
            n == bytes@.len(),
            is_ascii_chars(text),
            forall|k: int| 0 <= k < n ==> bytes@[k] == #[trigger] text[k] as u8,
            digits_only(text.subrange(from as int, i as int)),
            digits_number(digits@) == digits_value(read + text.subrange(from as int, i as int)),
            canonical(digits@),
        decreases n - i,
    {
        let digit: u8 = bytes[i] - ZERO;
        proof {
            let part = text.subrange(from as int, i as int);
            let longer = text.subrange(from as int, i + 1);
            assert((read + longer).drop_last() =~= read + part);
            assert((read + longer).last() == text[i as int]);
            assert(bytes@[i as int] == text[i as int] as u8);
            assert(is_digit(text[i as int]));
            assert(digit == text[i as int] as int - '0' as int);
            assert forall|k: int| 0 <= k < longer.len() implies is_digit(#[trigger] longer[k]) by {
                if k < part.len() {
                    assert(longer[k] == part[k]);
                }
            }
            assert(digits@.push(digit).drop_last() =~= digits@);
        }
        if digits.len() > 0 || digit != 0 {
            digits.push(digit);
        }
        i += 1;
    }
    proof {
        if i < n {
            assert(bytes@[i as int] == text[i as int] as u8);
        }
    }
    i
}

impl Decimal {
    /// Every digit is a number from 0 to 9, none of them a zero in front,
    /// and zero has no sign.
    pub open spec fn wf(&self) -> bool {
        &&& canonical(self.digits@)
        &&& self.negative ==> self.digits@.len() > 0
    }

    /// A number is held in one way only: two decimals that stand for the
    /// same mantissa and scale have the same sign, digits and scale.
    pub proof fn lemma_view_fixes_decimal(self, other: Decimal)
        requires
            self.wf(),
            other.wf(),
            self@ == other@,
        ensures
            self.negative == other.negative,
            self.digits@ == other.digits@,
            self.scale == other.scale,
    {
        if self.digits@.len() > 0 {
            lemma_number_is_positive(self.digits@, 0);
        }
        if other.digits@.len() > 0 {
            lemma_number_is_positive(other.digits@, 0);
        }
        lemma_digits_are_fixed(self.digits@, other.digits@);
    }

    /// Whether the number lies above zero.
    pub fn is_positive(&self) -> (positive: bool)
        ensures
            positive == (self@.mantissa > 0),
    {
        if self.negative {
            return false;
        }
        let mut i: usize = 0;
        while i < self.digits.len()
            invariant
                !self.negative,
                i <= self.digits@.len(),
                forall|k: int| 0 <= k < i ==> #[trigger] self.digits@[k] == 0,
            decreases self.digits@.len() - i,
        {
            if self.digits[i] != 0 {
                proof {
                    lemma_number_is_positive(self.digits@, i as int);
                }
                return true;
            }
            i += 1;
        }
        proof {
            lemma_number_is_zero(self.digits@);
        }
        false
    }

    /// Reads a decimal number: an optional sign, then digits with at most
    /// one point among them, at least one digit in all. The number is held
    /// exactly, however many digits it has. A number with an exponent is
    /// not read, since it could not be held exactly without a limit on the
    /// exponent, and neither is a word such as `inf` or `NaN`.
    pub fn parse(text: &str) -> (parsed: Option<Decimal>)
        ensures
            match parsed {
                Some(decimal) => decimal_of(text@) == Some(decimal@) && decimal.wf(),
                None => decimal_of(text@) is None,
            },
    {
        broadcast use is_ascii_spec_bytes;

        if !text.is_ascii() {
            proof {
                let k = choose|k: int|
                    0 <= k < text@.len() && !('\0' <= #[trigger] text@[k] <= '\u{7f}');
                let body = unsigned_part(text@);
                if has_sign(text@) {
                    assert(body[k - 1] == text@[k]);
                    lemma_stray_character(body, k - 1);
                } else {
                    lemma_stray_character(body, k);
                }
            }
            return None;
        }
        let bytes = text.as_bytes();
        let n = bytes.len();
        assert(n == text@.len());
        assert(forall|k: int| 0 <= k < n ==> bytes@[k] == #[trigger] text@[k] as u8);
        let minus = n > 0 && bytes[0] == MINUS;
        let start: usize = if n > 0 && (bytes[0] == MINUS || bytes[0] == PLUS) {
            1
        } else {
            0
        };
        let ghost body = unsigned_part(text@);
        assert(body =~= text@.skip(start as int));
        assert(minus == is_negative(text@)) by {
            if n > 0 {
                assert(bytes@[0] == text@[0] as u8);
            }
        }
        let mut digits: Vec<u8> = Vec::new();
        let whole_end = read_digits(bytes, start, &mut digits, Ghost(text@), Ghost(Seq::empty()));
        let ghost whole = text@.subrange(start as int, whole_end as int);
        assert(whole =~= body.take(whole_end - start));
        assert(Seq::<char>::empty() + whole =~= whole);
        let mut scale: usize = 0;
        if whole_end < n {
            assert(bytes@[whole_end as int] == text@[whole_end as int] as u8);
            assert(body[whole_end - start] == text@[whole_end as int]);
            if bytes[whole_end] != POINT {
                proof {
                    lemma_stray_character(body, whole_end - start);
                }
                return None;
            }
            let end = read_digits(bytes, whole_end + 1, &mut digits, Ghost(text@), Ghost(whole));
            if end < n {
                proof {
                    assert(body[end - start] == text@[end as int]);
                    lemma_stray_after_point(body, whole_end - start, end - start);
                }
                return None;
            }
            scale = end - whole_end - 1;
            proof {
                assert(text@.subrange(whole_end + 1, n as int) =~= body.skip(
                    whole_end - start + 1,
                ));
                lemma_point_found(body, whole_end - start);
            }
        } else {
            proof {
                assert(whole =~= body);
                lemma_no_point(body);
                assert(whole + Seq::<char>::empty() =~= whole);
            }
        }
        if whole_end - start + scale == 0 {
            return None;
        }
        let negative = minus && digits.len() > 0;
        Some(Decimal { negative, digits, scale })
    }
}

} // verus!
