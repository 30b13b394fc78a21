//! Money: an exact count of cents.

use crate::text::{append_decimal, decimal_digits, digit_char, digit_of, push_char};
use vstd::prelude::*;

verus! {

/// A fixed-point decimal number: `mantissa` scaled down by ten to the power
/// `scale`. This is how higher-precision amounts reach [`USD::new`].
#[derive(Debug, Clone, Copy, PartialEq, Eq, Structural)]
pub struct Decimal {
    pub mantissa: i128,
    pub scale: u32,
}

/// The most decimal places that a [`Decimal`] can have.
pub const MAX_SCALE: u32 = 28;

/// Ten to the power `n`.
pub open spec fn pow10(n: nat) -> nat
    decreases n,
{
    if n == 0 {
        1
    } else {
        10 * pow10((n - 1) as nat)
    }
}

/// The whole number nearest to `num / den`; of two that are equally near,
/// the even one.
pub open spec fn round_half_even(num: nat, den: nat) -> nat {
    let q = num / den;
    let r = num % den;
    if 2 * r < den {
        q
    } else if 2 * r > den {
        q + 1
    } else if q % 2 == 0 {
        q
    } else {
        q + 1
    }
}

/// `size`, negated if `negative`.
pub open spec fn signed(negative: bool, size: nat) -> int {
    if negative {
        -(size as int)
    } else {
        size as int
    }
}

/// `cents` times the decimal number of `mantissa` and `scale`, to the
/// nearest cent; of two that are equally near, the even one.
pub open spec fn product_cents(cents: int, mantissa: int, scale: nat) -> int {
    signed(
        (cents < 0) != (mantissa < 0),
        round_half_even(magnitude(cents) * magnitude(mantissa), pow10(scale)),
    )
}

/// `cents` divided by the decimal number of `mantissa` and `scale`, which
/// is not zero, to the nearest cent; of two that are equally near, the even
/// one.
pub open spec fn quotient_cents(cents: int, mantissa: int, scale: nat) -> int {
    signed(
        (cents < 0) != (mantissa < 0),
        round_half_even(magnitude(cents) * pow10(scale), magnitude(mantissa)),
    )
}

/// The count of cents nearest to `mantissa` scaled down by ten to the power
/// `scale`; of two that are equally near, the even one.
pub open spec fn nearest_cents(mantissa: int, scale: nat) -> int {
    let size = magnitude(mantissa);
    let cents = if scale <= 2 {
        size * pow10((2 - scale) as nat)
    } else {
        round_half_even(size, pow10((scale - 2) as nat))
    };
    signed(mantissa < 0, cents)
}

/// Whether an amount can hold `cents` cents.
pub open spec fn in_range(cents: int) -> bool {
    i64::MIN <= cents <= i64::MAX
}

/// Why a text is not an amount of money.
#[derive(Debug, Clone, Copy, PartialEq, Eq, Structural)]
pub enum InvalidMoneyFormat {
    /// There is something other than zeros after the second decimal place.
    FractionOfCent,
    /// The text is not a decimal number.
    NotANumber,
    /// The number is more, or less, than an amount can hold.
    OutOfRange,
}

impl InvalidMoneyFormat {
    /// What the user is told of the error.
    pub open spec fn text(self) -> Seq<char> {
        match self {
            InvalidMoneyFormat::FractionOfCent => {
                "USD values cannot have non-zero digits beyond 2 decimal places"@
            },
            InvalidMoneyFormat::NotANumber => "invalid decimal format"@,
            InvalidMoneyFormat::OutOfRange => "USD value is out of range"@,
        }
    }

    /// What the user is told of the error.
    pub fn message(&self) -> (message: String)
        ensures
            message@ == self.text(),
    {
        match self {
            InvalidMoneyFormat::FractionOfCent => String::from_str(
                "USD values cannot have non-zero digits beyond 2 decimal places",
            ),
            InvalidMoneyFormat::NotANumber => String::from_str("invalid decimal format"),
            InvalidMoneyFormat::OutOfRange => String::from_str("USD value is out of range"),
        }
    }
}

/// The decimal number that `rust_decimal::Decimal` reads from `text`, as its
/// mantissa and scale; `None` where it reads none.
pub uninterp spec fn decimal_from_str(text: Seq<char>) -> Option<(int, int)>;

/// Whether `text[p]` is the first point of `text`.
pub open spec fn is_first_point(text: Seq<char>, p: int) -> bool {
    &&& 0 <= p < text.len()
    &&& text[p] == '.'
    &&& forall|j: int| 0 <= j < p ==> text[j] != '.'
}

/// Whether `text` has, after its first point, something other than a zero
/// behind the second place.
pub open spec fn has_fraction_of_cent(text: Seq<char>) -> bool {
    exists|p: int, k: int|
        #![trigger is_first_point(text, p), text[k]]
        is_first_point(text, p) && p + 2 < k < text.len() && text[k] != '0'
}

/// The amount that `text` stands for, given what the decimal parser read
/// from it: `text` must not go beyond whole cents, must be a decimal number,
/// and the number must be one that an amount can hold.
pub open spec fn parse_outcome(text: Seq<char>, parsed: Option<(int, int)>) -> Result<
    int,
    InvalidMoneyFormat,
> {
    if has_fraction_of_cent(text) {
        Err(InvalidMoneyFormat::FractionOfCent)
    } else {
        match parsed {
            None => Err(InvalidMoneyFormat::NotANumber),
            Some((mantissa, scale)) => if 0 <= scale <= MAX_SCALE && in_range(
                nearest_cents(mantissa, scale as nat),
            ) {
                Ok(nearest_cents(mantissa, scale as nat))
            } else {
                Err(InvalidMoneyFormat::OutOfRange)
            },
        }
    }
}

/// An amount of US dollars, held as a whole number of cents.
#[derive(Debug, Clone, Copy, PartialEq, Eq, Structural, Hash)]
pub struct USD {
    cents: i64,
}

impl View for USD {
    type V = int;

    /// The amount in cents.
    closed spec fn view(&self) -> int {
        self.cents as int
    }
}

/// Half of `cents`, rounded toward zero.
pub open spec fn half_toward_zero(cents: int) -> int {
    if cents >= 0 {
        cents / 2
    } else {
        -((-cents) / 2)
    }
}

/// Half of `cents`, rounded away from zero.
pub open spec fn half_away_from_zero(cents: int) -> int {
    cents - half_toward_zero(cents)
}

/// The two halves of `cents` as (creditor, debtor), the half that was rounded
/// away from zero going to the creditor exactly when `creditor_rounds_away`.
pub open spec fn even_split(cents: int, creditor_rounds_away: bool) -> (int, int) {
    if creditor_rounds_away {
        (half_away_from_zero(cents), half_toward_zero(cents))
    } else {
        (half_toward_zero(cents), half_away_from_zero(cents))
    }
}

/// The magnitude of `cents`.
pub open spec fn magnitude(cents: int) -> nat {
    if cents < 0 {
        (-cents) as nat
    } else {
        cents as nat
    }
}

/// An amount of `cents` cents as text: a minus sign if it is negative, the
/// whole dollars, a point, and exactly two digits of cents.
pub open spec fn fixed_point_text(cents: int) -> Seq<char> {
    let sign = if cents < 0 {
        seq!['-']
    } else {
        Seq::<char>::empty()
    };
    sign + decimal_digits(magnitude(cents) / 100).push('.').push(
        digit_char(magnitude(cents) % 100 / 10),
    ).push(digit_char(magnitude(cents) % 10))
}

/// Draws one fair coin flip with `rand::random::<bool>()`. Nothing is claimed
/// of the outcome: either value may come back on any call.
#[verifier::external_body]
pub(crate) fn coin_flip() -> (heads: bool) {
    rand::random::<bool>()
}

/// Reads a decimal number with `str::parse::<rust_decimal::Decimal>`: the
/// result is the mantissa and scale of the number that the crate reads from
/// the text, and `None` where it reads none.
#[verifier::external_body]
fn parse_decimal(text: &str) -> (parsed: Option<Decimal>)
    ensures
        match parsed {
            Some(value) => decimal_from_str(text@) == Some(
                (value.mantissa as int, value.scale as int),
            ),
            None => decimal_from_str(text@).is_none(),
        },
{
    match text.parse::<rust_decimal::Decimal>() {
        Ok(value) => Some(Decimal { mantissa: value.mantissa(), scale: value.scale() }),
        Err(_) => None,
    }
}

/// Ten to a power of at most 28 fits 128 bits with room to spare.
proof fn lemma_pow10_bound(n: nat)
    requires
        n <= 28,
    ensures
        0 < pow10(n) <= 10_000_000_000_000_000_000_000_000_000,
    decreases 28 - n,
{
    if n == 28 {
        reveal_with_fuel(pow10, 29);
    } else {
        lemma_pow10_bound(n + 1);
    }
}

fn power_of_ten(n: u32) -> (power: u128)
    requires
        n <= 28,
    ensures
        power == pow10(n as nat),
        0 < power <= 10_000_000_000_000_000_000_000_000_000,
{
    let mut power: u128 = 1;
    let mut i: u32 = 0;
    while i < n
        invariant
            i <= n <= 28,
            power == pow10(i as nat),
        decreases n - i,
    {
        proof {
            lemma_pow10_bound((i + 1) as nat);
        }
        power = power * 10;
        i += 1;
    }
    proof {
        lemma_pow10_bound(n as nat);
    }
    power
}

/// `num / den` rounded to the nearest whole number, ties to the even one.
fn rounded_quotient(num: u128, den: u128) -> (quotient: u128)
    requires
        den > 0,
        num / den < u128::MAX,
    ensures
        quotient == round_half_even(num as nat, den as nat),
{
    let q = num / den;
    let r = num % den;
    if r < den - r {
        q
    } else if r > den - r {
        q + 1
    } else if q % 2 == 0 {
        q
    } else {
        q + 1
    }
}

/// The amount of `size` cents, negated if `negative`; `None` if and only if
/// an amount cannot hold it.
fn signed_amount(negative: bool, size: u128) -> (usd: Option<USD>)
    ensures
        usd.is_some() <==> in_range(signed(negative, size as nat)),
        usd matches Some(amount) ==> amount@ == signed(negative, size as nat),
{
    if negative {
        if size > 0x8000_0000_0000_0000 {
            None
        } else {
            Some(USD { cents: (-(size as i128)) as i64 })
        }
    } else {
        if size > 0x7fff_ffff_ffff_ffff {
            None
        } else {
            Some(USD { cents: size as i64 })
        }
    }
}

/// The magnitude of `mantissa`.
fn size_of(mantissa: i128) -> (size: u128)
    ensures
        size == magnitude(mantissa as int),
{
    if mantissa < 0 {
        (-(mantissa + 1)) as u128 + 1
    } else {
        mantissa as u128
    }
}

/// Whether `text` has, after its first point, something other than a zero
/// behind the second place.
fn goes_beyond_cents(text: &str) -> (beyond: bool)
    ensures
        beyond == has_fraction_of_cent(text@),
{
    let length = text.unicode_len();
    let mut point: Option<usize> = None;
    let mut i: usize = 0;
    for c in it: text.chars()
        invariant
            it.seq() == text@,
            i == it.index(),
            length == text@.len(),
            match point {
                Some(p) => is_first_point(text@, p as int) && p < i,
                None => forall|j: int| 0 <= j < i ==> text@[j] != '.',
            },
            forall|k: int|
                point.is_some() && point.unwrap() + 2 < k < i ==> #[trigger] text@[k] == '0',
    {
        match point {
            None => {
                if c == '.' {
                    point = Some(i);
                }
            },
            Some(p) => {
                if i - p > 2 && c != '0' {
                    assert(is_first_point(text@, p as int) && p + 2 < i < text@.len() && text@[i as int]
                        != '0');
                    return true;
                }
            },
        }
        i += 1;
    }
    assert forall|p: int, k: int|
        #![trigger is_first_point(text@, p), text@[k]]
        is_first_point(text@, p) && p + 2 < k < text@.len() implies text@[k] == '0' by {
        if point.is_some() {
            assert(p == point.unwrap());
        }
    }
    false
}

impl USD {
    /// The amount nearest to `value`; of two that are equally near, the one
    /// with an even count of cents. `None` if and only if `value` has more
    /// decimal places than a decimal number can have, or the amount is more,
    /// or less, than an amount can hold.
    pub fn try_new(value: Decimal) -> (usd: Option<USD>)
        ensures
            usd.is_some() <==> value.scale <= MAX_SCALE && in_range(
                nearest_cents(value.mantissa as int, value.scale as nat),
            ),
            usd matches Some(amount) ==> amount@ == nearest_cents(
                value.mantissa as int,
                value.scale as nat,
            ),
    {
        if value.scale > MAX_SCALE {
            return None;
        }
        let size = size_of(value.mantissa);
        let cents: u128 = if value.scale <= 2 {
            let factor = power_of_ten(2 - value.scale);
            match size.checked_mul(factor) {
                Some(cents) => cents,
                None => {
                    return None;
                },
            }
        } else {
            let den = power_of_ten(value.scale - 2);
            assert(size / den <= size) by (nonlinear_arith)
                requires
                    den > 0,
            ;
            rounded_quotient(size, den)
        };
        signed_amount(value.mantissa < 0, cents)
    }

    /// The amount times `factor`, to the nearest cent; of two that are
    /// equally near, the one with an even count of cents. `None` if and only
    /// if `factor` has more decimal places than a decimal number can have,
    /// the exact product does not fit 128 bits, or the amount is more, or
    /// less, than an amount can hold.
    pub fn checked_mul(self, factor: Decimal) -> (usd: Option<USD>)
        ensures
            usd.is_some() <==> {
                &&& factor.scale <= MAX_SCALE
                &&& magnitude(self@) * magnitude(factor.mantissa as int) <= u128::MAX
                &&& in_range(product_cents(self@, factor.mantissa as int, factor.scale as nat))
            },
            usd matches Some(amount) ==> amount@ == product_cents(
                self@,
                factor.mantissa as int,
                factor.scale as nat,
            ),
    {
        if factor.scale > MAX_SCALE {
            return None;
        }
        let num = match size_of(self.cents as i128).checked_mul(size_of(factor.mantissa)) {
            Some(num) => num,
            None => {
                return None;
            },
        };
        let den = power_of_ten(factor.scale);
        if den == 1 {
            return signed_amount((self.cents < 0) != (factor.mantissa < 0), num);
        }
        assert(num / den < num || num == 0) by (nonlinear_arith)
            requires
                den > 1,
        ;
        let size = rounded_quotient(num, den);
        signed_amount((self.cents < 0) != (factor.mantissa < 0), size)
    }

    /// The amount divided by `divisor`, to the nearest cent; of two that are
    /// equally near, the one with an even count of cents. `None` if and only
    /// if `divisor` is zero or has more decimal places than a decimal number
    /// can have, the amount scaled up does not fit 128 bits, or the result
    /// is more, or less, than an amount can hold.
    pub fn checked_div(self, divisor: Decimal) -> (usd: Option<USD>)
        ensures
            usd.is_some() <==> {
                &&& divisor.mantissa != 0
                &&& divisor.scale <= MAX_SCALE
                &&& magnitude(self@) * pow10(divisor.scale as nat) <= u128::MAX
                &&& in_range(quotient_cents(self@, divisor.mantissa as int, divisor.scale as nat))
            },
            usd matches Some(amount) ==> amount@ == quotient_cents(
                self@,
                divisor.mantissa as int,
                divisor.scale as nat,
            ),
    {
        if divisor.mantissa == 0 || divisor.scale > MAX_SCALE {
            return None;
        }
        let num = match size_of(self.cents as i128).checked_mul(power_of_ten(divisor.scale)) {
            Some(num) => num,
            None => {
                return None;
            },
        };
        let den = size_of(divisor.mantissa);
        if den == 1 {
            return signed_amount((self.cents < 0) != (divisor.mantissa < 0), num);
        }
        assert(num / den < num || num == 0) by (nonlinear_arith)
            requires
                den > 1,
        ;
        let size = rounded_quotient(num, den);
        signed_amount((self.cents < 0) != (divisor.mantissa < 0), size)
    }

    /// The amount nearest to `value`; of two that are equally near, the one
    /// with an even count of cents.
    pub fn new(value: Decimal) -> (usd: USD)
        requires
            value.scale <= MAX_SCALE,
            in_range(nearest_cents(value.mantissa as int, value.scale as nat)),
        ensures
            usd@ == nearest_cents(value.mantissa as int, value.scale as nat),
    {
        match USD::try_new(value) {
            Some(usd) => usd,
            None => USD { cents: 0 },
        }
    }

    /// The amount as a decimal number with two decimal places.
    pub fn value(&self) -> (value: Decimal)
        ensures
            value.mantissa == self@,
            value.scale == 2,
    {
        Decimal { mantissa: self.cents as i128, scale: 2 }
    }

    /// The amount that `text` stands for, given what the decimal parser read
    /// from it.
    pub fn from_parsed(text: &str, parsed: Option<Decimal>) -> (amount: Result<
        USD,
        InvalidMoneyFormat,
    >)
        ensures
            match parse_outcome(
                text@,
                match parsed {
                    Some(value) => Some((value.mantissa as int, value.scale as int)),
                    None => None,
                },
            ) {
                Ok(cents) => amount.is_ok() && amount.unwrap()@ == cents,
                Err(error) => amount == Err::<USD, InvalidMoneyFormat>(error),
            },
    {
        if goes_beyond_cents(text) {
            return Err(InvalidMoneyFormat::FractionOfCent);
        }
        match parsed {
            None => Err(InvalidMoneyFormat::NotANumber),
            Some(value) => match USD::try_new(value) {
                Some(amount) => Ok(amount),
                None => Err(InvalidMoneyFormat::OutOfRange),
            },
        }
    }

    /// The amount that `text` stands for: a decimal number, as
    /// `rust_decimal` reads one, that does not go beyond whole cents.
    pub fn parse(text: &str) -> (amount: Result<USD, InvalidMoneyFormat>)
        ensures
            match parse_outcome(text@, decimal_from_str(text@)) {
                Ok(cents) => amount.is_ok() && amount.unwrap()@ == cents,
                Err(error) => amount == Err::<USD, InvalidMoneyFormat>(error),
            },
    {
        let parsed = parse_decimal(text);
        USD::from_parsed(text, parsed)
    }

    /// The amount of `cents` cents.
    pub fn new_from_cents(cents: i64) -> (usd: USD)
        ensures
            usd@ == cents,
    {
        USD { cents }
    }

    /// The amount in cents.
    pub fn cents(&self) -> (cents: i64)
        ensures
            cents == self@,
    {
        self.cents
    }

    /// The amount as text, with exactly two digits after the point.
    pub fn to_string(&self) -> (text: String)
        ensures
            text@ == fixed_point_text(self@),
    {
        let mut text = String::new();
        let size: u128 = if self.cents < 0 {
            push_char(&mut text, '-');
            (-(self.cents as i128)) as u128
        } else {
            self.cents as u128
        };
        assert(size == magnitude(self@));
        append_decimal(&mut text, size / 100);
        push_char(&mut text, '.');
        push_char(&mut text, digit_of((size % 100 / 10) as u8));
        push_char(&mut text, digit_of((size % 10) as u8));
        assert(text@ == fixed_point_text(self@));
        text
    }

    /// Every amount is the amount of some count of cents that fits 64 bits.
    pub proof fn lemma_view_range(self)
        ensures
            i64::MIN <= self@ <= i64::MAX,
    {
    }

    /// Two amounts with the same count of cents are the same amount.
    pub proof fn lemma_view_injective(self, other: USD)
        requires
            self@ == other@,
        ensures
            self == other,
    {
    }

    /// Splits the amount in two halves that add up to it, one rounded away
    /// from zero and one toward zero, and hands the first to the creditor if
    /// `creditor_rounds_away`, else to the debtor.
    pub fn rounded_even_split(&self, creditor_rounds_away: bool) -> (halves: (USD, USD))
        ensures
            (halves.0@, halves.1@) == even_split(self@, creditor_rounds_away),
    {
        let toward: i64 = self.cents / 2;
        let away: i64 = self.cents - toward;
        if creditor_rounds_away {
            (USD { cents: away }, USD { cents: toward })
        } else {
            (USD { cents: toward }, USD { cents: away })
        }
    }

    /// Splits the amount as [`USD::rounded_even_split`] does and lets a fair
    /// coin decide which party gets the half that was rounded away from
    /// zero, so that over many splits neither party is favoured.
    pub fn random_rounded_even_split(&self) -> (halves: (USD, USD))
        ensures
            (halves.0@, halves.1@) == even_split(self@, true) || (halves.0@, halves.1@)
                == even_split(self@, false),
    {
        let creditor_rounds_away = coin_flip();
        self.rounded_even_split(creditor_rounds_away)
    }
}

impl USD {
    /// The amount of `cents` cents, where an amount can hold them.
    pub closed spec fn of_cents(cents: int) -> USD {
        USD { cents: cents as i64 }
    }

    /// The amount of `cents` cents is an amount of that many cents.
    pub broadcast proof fn lemma_of_cents(cents: int)
        requires
            in_range(cents),
        ensures
            (#[trigger] USD::of_cents(cents))@ == cents,
    {
    }
}

impl core::ops::Add for USD {
    type Output = USD;

    fn add(self, other: USD) -> USD {
        USD { cents: self.cents + other.cents }
    }
}

impl vstd::std_specs::ops::AddSpecImpl for USD {
    open spec fn obeys_add_spec() -> bool {
        true
    }

    open spec fn add_req(self, other: USD) -> bool {
        in_range(self@ + other@)
    }

    open spec fn add_spec(self, other: USD) -> USD {
        USD::of_cents(self@ + other@)
    }
}

impl core::ops::Sub for USD {
    type Output = USD;

    fn sub(self, other: USD) -> USD {
        USD { cents: self.cents - other.cents }
    }
}

impl vstd::std_specs::ops::SubSpecImpl for USD {
    open spec fn obeys_sub_spec() -> bool {
        true
    }

    open spec fn sub_req(self, other: USD) -> bool {
        in_range(self@ - other@)
    }

    open spec fn sub_spec(self, other: USD) -> USD {
        USD::of_cents(self@ - other@)
    }
}

impl core::ops::Neg for USD {
    type Output = USD;

    fn neg(self) -> USD {
        USD { cents: -self.cents }
    }
}

impl vstd::std_specs::ops::NegSpecImpl for USD {
    open spec fn obeys_neg_spec() -> bool {
        true
    }

    open spec fn neg_req(self) -> bool {
        in_range(-self@)
    }

    open spec fn neg_spec(self) -> USD {
        USD::of_cents(-self@)
    }
}

impl core::ops::Mul<Decimal> for USD {
    type Output = USD;

    fn mul(self, factor: Decimal) -> USD {
        match self.checked_mul(factor) {
            Some(usd) => usd,
            None => self,
        }
    }
}

impl vstd::std_specs::ops::MulSpecImpl<Decimal> for USD {
    open spec fn obeys_mul_spec() -> bool {
        true
    }

    open spec fn mul_req(self, factor: Decimal) -> bool {
        &&& factor.scale <= MAX_SCALE
        &&& magnitude(self@) * magnitude(factor.mantissa as int) <= u128::MAX
        &&& in_range(product_cents(self@, factor.mantissa as int, factor.scale as nat))
    }

    open spec fn mul_spec(self, factor: Decimal) -> USD {
        USD::of_cents(product_cents(self@, factor.mantissa as int, factor.scale as nat))
    }
}

impl core::ops::Div<Decimal> for USD {
    type Output = USD;

    fn div(self, divisor: Decimal) -> USD {
        match self.checked_div(divisor) {
            Some(usd) => usd,
            None => self,
        }
    }
}

impl vstd::std_specs::ops::DivSpecImpl<Decimal> for USD {
    open spec fn obeys_div_spec() -> bool {
        true
    }

    open spec fn div_req(self, divisor: Decimal) -> bool {
        &&& divisor.mantissa != 0
        &&& divisor.scale <= MAX_SCALE
        &&& magnitude(self@) * pow10(divisor.scale as nat) <= u128::MAX
        &&& in_range(quotient_cents(self@, divisor.mantissa as int, divisor.scale as nat))
    }

    open spec fn div_spec(self, divisor: Decimal) -> USD {
        USD::of_cents(quotient_cents(self@, divisor.mantissa as int, divisor.scale as nat))
    }
}

/// No decimal digit is a point.
proof fn lemma_digits_hold_no_point(n: nat)
    ensures
        forall|i: int| 0 <= i < decimal_digits(n).len() ==> decimal_digits(n)[i] != '.',
    decreases n,
{
    if n >= 10 {
        lemma_digits_hold_no_point(n / 10);
    }
    assert forall|i: int| 0 <= i < decimal_digits(n).len() implies decimal_digits(n)[i]
        != '.' by {
        if n >= 10 && i < decimal_digits(n / 10).len() {
            assert(decimal_digits(n)[i] == decimal_digits(n / 10)[i]);
        } else if n >= 10 {
            assert(decimal_digits(n)[i] == digit_char(n % 10));
        } else {
            assert(decimal_digits(n)[i] == digit_char(n));
        }
    }
}

/// The text of an amount does not go beyond whole cents: its only point is
/// followed by exactly two digits.
pub proof fn lemma_text_has_whole_cents(cents: int)
    ensures
        !has_fraction_of_cent(fixed_point_text(cents)),
{
    let text = fixed_point_text(cents);
    let digits = decimal_digits(magnitude(cents) / 100);
    let point = text.len() - 3;
    lemma_digits_hold_no_point(magnitude(cents) / 100);
    assert(text[point] == '.');
    assert forall|j: int| 0 <= j < point implies text[j] != '.' by {
        if cents < 0 && j > 0 {
            assert(text[j] == digits[j - 1]);
        } else if cents >= 0 {
            assert(text[j] == digits[j]);
        }
    }
    assert forall|p: int, k: int|
        #![trigger is_first_point(text, p), text[k]]
        is_first_point(text, p) && p + 2 < k < text.len() implies text[k] == '0' by {
        assert(p == point);
    }
}

/// Writing an amount and reading it back gives the same amount, wherever
/// the decimal parser reads the text of an amount as the number that was
/// written: so many cents, with two decimal places.
pub proof fn lemma_round_trip(amount: USD)
    ensures
        decimal_from_str(fixed_point_text(amount@)) == Some((amount@, 2int)) ==> parse_outcome(
            fixed_point_text(amount@),
            decimal_from_str(fixed_point_text(amount@)),
        ) == Ok::<int, InvalidMoneyFormat>(amount@),
{
    lemma_text_has_whole_cents(amount@);
    assert(pow10(0) == 1);
    assert(magnitude(amount@) * 1 == magnitude(amount@));
}

/// An amount taken as a decimal number and made an amount again is the same
/// amount: a number with two decimal places is its own nearest cent.
pub proof fn lemma_value_round_trip(cents: int)
    ensures
        nearest_cents(cents, 2) == cents,
{
    assert(pow10(0) == 1);
    assert(magnitude(cents) * 1 == magnitude(cents));
}

/// A text with anything but zeros after the second decimal place is no
/// amount, whatever the decimal parser reads from it.
pub proof fn lemma_fraction_of_cent_is_rejected(text: Seq<char>, parsed: Option<(int, int)>)
    requires
        has_fraction_of_cent(text),
    ensures
        parse_outcome(text, parsed) == Err::<int, InvalidMoneyFormat>(
            InvalidMoneyFormat::FractionOfCent,
        ),
{
}

/// The two halves of a split add up to the amount that was split, whatever
/// its sign and whoever got the larger half.
pub proof fn lemma_split_sum(cents: int, creditor_rounds_away: bool)
    ensures
        even_split(cents, creditor_rounds_away).0 + even_split(cents, creditor_rounds_away).1
            == cents,
{
}

/// The halves of an even count of cents are equal; those of an odd count
/// differ by exactly one cent, the half rounded away from zero being the
/// larger in magnitude.
pub proof fn lemma_split_halves(cents: int, creditor_rounds_away: bool)
    ensures
        cents % 2 == 0 ==> even_split(cents, creditor_rounds_away).0 == even_split(
            cents,
            creditor_rounds_away,
        ).1,
        cents % 2 != 0 && cents > 0 ==> half_away_from_zero(cents) == half_toward_zero(cents) + 1,
        cents % 2 != 0 && cents < 0 ==> half_away_from_zero(cents) == half_toward_zero(cents) - 1,
        cents % 2 != 0 ==> {
            let d = even_split(cents, creditor_rounds_away).0 - even_split(
                cents,
                creditor_rounds_away,
            ).1;
            d == 1 || d == -1
        },
{
}

} // verus!
