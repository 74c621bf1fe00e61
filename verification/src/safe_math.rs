//! Decimal arithmetic that refuses to overflow, to underflow below zero, or
//! to divide by zero.

use vstd::prelude::*;
use vstd::string::StringExecFns;
use crate::api_error::{ApiError, ApiErrorView};

verus! {

/// The largest scale of a decimal: digits after the point.
pub const MAX_SCALE: u32 = 28;

/// The largest mantissa of a decimal: 96 bits, all set.
pub const MAX_MANTISSA: i128 = 79_228_162_514_264_337_593_543_950_335;

/// A decimal number: `mantissa / 10^scale`, with a mantissa of at most 96
/// bits and a scale of at most 28.
#[derive(Debug, Clone, Copy, PartialEq, Eq)]
pub struct Decimal {
    mantissa: i128,
    scale: u32,
}

/// A [`Decimal`] as plain values.
pub struct DecimalView {
    pub mantissa: i128,
    pub scale: u32,
}

impl View for Decimal {
    type V = DecimalView;

    closed spec fn view(&self) -> DecimalView {
        DecimalView { mantissa: self.mantissa, scale: self.scale }
    }
}

/// Whether plain values make a decimal.
pub open spec fn is_decimal(d: DecimalView) -> bool {
    d.scale <= MAX_SCALE && -MAX_MANTISSA <= d.mantissa <= MAX_MANTISSA
}

/// The sum that `rust_decimal` computes, at the scale it chooses; `None`
/// where the sum has no representation.
pub uninterp spec fn decimal_sum(a: DecimalView, b: DecimalView) -> Option<DecimalView>;

/// The difference that `rust_decimal` computes; `None` where it has no
/// representation.
pub uninterp spec fn decimal_difference(a: DecimalView, b: DecimalView) -> Option<DecimalView>;

/// The product that `rust_decimal` computes, rounded to what 96 bits hold;
/// `None` where it has no representation.
pub uninterp spec fn decimal_product(a: DecimalView, b: DecimalView) -> Option<DecimalView>;

/// The quotient that `rust_decimal` computes, rounded to what 96 bits
/// hold; `None` where the divisor is zero or the quotient has no
/// representation.
pub uninterp spec fn decimal_quotient(a: DecimalView, b: DecimalView) -> Option<DecimalView>;

/// The text that `rust_decimal` writes for a decimal: the digits, with a
/// point before the last `scale` of them and a minus sign where negative.
pub uninterp spec fn decimal_text(d: DecimalView) -> Seq<char>;

/// The decimal that `rust_decimal` reads out of a text; `None` where the
/// text is no number.
pub uninterp spec fn decimal_parsed(s: Seq<char>) -> Option<DecimalView>;

/// Calls `rust_decimal::Decimal::checked_add`, which depends on its two
/// operands alone.
#[verifier::external_body]
fn checked_add(a: Decimal, b: Decimal) -> (sum: Option<Decimal>)
    requires
        is_decimal(a@),
        is_decimal(b@),
    ensures
        match sum {
            Some(d) => decimal_sum(a@, b@) == Some(d@) && is_decimal(d@),
            None => decimal_sum(a@, b@) is None,
        },
{
    let x = rust_decimal::Decimal::from_i128_with_scale(a.mantissa, a.scale);
    let y = rust_decimal::Decimal::from_i128_with_scale(b.mantissa, b.scale);
    x.checked_add(y).map(|d| Decimal { mantissa: d.mantissa(), scale: d.scale() })
}

/// Calls `rust_decimal::Decimal::checked_sub`, which depends on its two
/// operands alone.
#[verifier::external_body]
fn checked_sub(a: Decimal, b: Decimal) -> (difference: Option<Decimal>)
    requires
        is_decimal(a@),
        is_decimal(b@),
    ensures
        match difference {
            Some(d) => decimal_difference(a@, b@) == Some(d@) && is_decimal(d@),
            None => decimal_difference(a@, b@) is None,
        },
{
    let x = rust_decimal::Decimal::from_i128_with_scale(a.mantissa, a.scale);
    let y = rust_decimal::Decimal::from_i128_with_scale(b.mantissa, b.scale);
    x.checked_sub(y).map(|d| Decimal { mantissa: d.mantissa(), scale: d.scale() })
}

/// Calls `rust_decimal::Decimal::checked_mul`, which depends on its two
/// operands alone.
#[verifier::external_body]
fn checked_mul(a: Decimal, b: Decimal) -> (product: Option<Decimal>)
    requires
        is_decimal(a@),
        is_decimal(b@),
    ensures
        match product {
            Some(d) => decimal_product(a@, b@) == Some(d@) && is_decimal(d@),
            None => decimal_product(a@, b@) is None,
        },
{
    let x = rust_decimal::Decimal::from_i128_with_scale(a.mantissa, a.scale);
    let y = rust_decimal::Decimal::from_i128_with_scale(b.mantissa, b.scale);
    x.checked_mul(y).map(|d| Decimal { mantissa: d.mantissa(), scale: d.scale() })
}

/// Calls `rust_decimal::Decimal::checked_div`, which depends on its two
/// operands alone and returns `None` for a zero divisor.
#[verifier::external_body]
fn checked_div(a: Decimal, b: Decimal) -> (quotient: Option<Decimal>)
    requires
        is_decimal(a@),
        is_decimal(b@),
    ensures
        match quotient {
            Some(d) => decimal_quotient(a@, b@) == Some(d@) && is_decimal(d@),
            None => decimal_quotient(a@, b@) is None,
        },
{
    let x = rust_decimal::Decimal::from_i128_with_scale(a.mantissa, a.scale);
    let y = rust_decimal::Decimal::from_i128_with_scale(b.mantissa, b.scale);
    x.checked_div(y).map(|d| Decimal { mantissa: d.mantissa(), scale: d.scale() })
}

/// Calls `to_string` on the `rust_decimal::Decimal` of the same mantissa
/// and scale.
#[verifier::external_body]
fn to_text(d: Decimal) -> (text: String)
    requires
        is_decimal(d@),
    ensures
        text@ == decimal_text(d@),
{
    rust_decimal::Decimal::from_i128_with_scale(d.mantissa, d.scale).to_string()
}

/// Calls `rust_decimal::Decimal::from_str`, which depends on the text
/// alone.
#[verifier::external_body]
fn from_text(s: &str) -> (parsed: Option<Decimal>)
    ensures
        match parsed {
            Some(d) => decimal_parsed(s@) == Some(d@) && is_decimal(d@),
            None => decimal_parsed(s@) is None,
        },
{
    let d = <rust_decimal::Decimal as core::str::FromStr>::from_str(s).ok()?;
    Some(Decimal { mantissa: d.mantissa(), scale: d.scale() })
}

impl Decimal {
    /// The mantissa fits 96 bits and the scale is at most 28.
    #[verifier::type_invariant]
    spec fn valid(self) -> bool {
        is_decimal(self@)
    }

    /// The decimal `num / 10^scale`.
    pub fn new(num: i64, scale: u32) -> (d: Decimal)
        requires
            scale <= MAX_SCALE,
        ensures
            d@ == (DecimalView { mantissa: num as i128, scale }),
    {
        Decimal { mantissa: num as i128, scale }
    }

    /// The decimal `mantissa / 10^scale`, or `None` where the mantissa
    /// does not fit 96 bits or the scale is above 28.
    pub fn try_from_i128_with_scale(mantissa: i128, scale: u32) -> (d: Option<Decimal>)
        ensures
            match d {
                Some(d) => d@ == (DecimalView { mantissa, scale }),
                None => !is_decimal(DecimalView { mantissa, scale }),
            },
    {
        if scale <= MAX_SCALE && -MAX_MANTISSA <= mantissa && mantissa <= MAX_MANTISSA {
            Some(Decimal { mantissa, scale })
        } else {
            None
        }
    }

    /// The largest decimal.
    pub fn max() -> (d: Decimal)
        ensures
            d@ == (DecimalView { mantissa: MAX_MANTISSA, scale: 0 }),
    {
        Decimal { mantissa: MAX_MANTISSA, scale: 0 }
    }

    /// The mantissa: the number without its point.
    pub fn mantissa(&self) -> (m: i128)
        ensures
            m == self@.mantissa,
            -MAX_MANTISSA <= m <= MAX_MANTISSA,
    {
        proof {
            use_type_invariant(self);
        }
        self.mantissa
    }

    /// The scale: how many digits stand after the point.
    pub fn scale(&self) -> (s: u32)
        ensures
            s == self@.scale,
            s <= MAX_SCALE,
    {
        proof {
            use_type_invariant(self);
        }
        self.scale
    }

    /// Whether the decimal is zero.
    pub fn is_zero(&self) -> (zero: bool)
        ensures
            zero == (self@.mantissa == 0),
    {
        self.mantissa == 0
    }

    /// Whether the decimal is below zero.
    pub fn is_sign_negative(&self) -> (negative: bool)
        ensures
            negative == (self@.mantissa < 0),
    {
        self.mantissa < 0
    }

    /// The text of the decimal.
    pub fn to_string(&self) -> (text: String)
        ensures
            text@ == decimal_text(self@),
    {
        proof {
            use_type_invariant(self);
        }
        to_text(*self)
    }

    /// Reads an amount out of a text. A text that is no number is an
    /// `Internal` error.
    pub fn parse_amount(s: &str) -> (r: Result<Decimal, ApiError>)
        ensures
            match r {
                Ok(d) => decimal_parsed(s@) == Some(d@),
                Err(e) => decimal_parsed(s@) is None && e@ == ApiErrorView::Internal(
                    "Failed to parse amount"@,
                ),
            },
    {
        match from_text(s) {
            Some(d) => Ok(d),
            None => Err(ApiError::internal("Failed to parse amount")),
        }
    }
}

/// A decimal result with its value and its error as plain values.
pub open spec fn decimal_result_view(r: Result<Decimal, ApiError>) -> Result<
    DecimalView,
    ApiErrorView,
> {
    match r {
        Ok(d) => Ok(d@),
        Err(e) => Err(e@),
    }
}

/// The message for an operation whose result has no representation.
pub open spec fn overflow_message(a: DecimalView, operator: Seq<char>, b: DecimalView) -> Seq<char> {
    "Arithmetic overflow: "@ + decimal_text(a) + operator + decimal_text(b)
        + " exceeds maximum value"@
}

/// What a safe addition returns.
pub open spec fn safe_sum(a: DecimalView, b: DecimalView) -> Result<DecimalView, ApiErrorView> {
    match decimal_sum(a, b) {
        Some(d) => Ok(d),
        None => Err(ApiErrorView::BadRequest(overflow_message(a, " + "@, b))),
    }
}

/// What a safe subtraction returns: a result below zero is an underflow.
pub open spec fn safe_difference(a: DecimalView, b: DecimalView) -> Result<
    DecimalView,
    ApiErrorView,
> {
    match decimal_difference(a, b) {
        None => Err(
            ApiErrorView::BadRequest(
                "Arithmetic underflow: "@ + decimal_text(a) + " - "@ + decimal_text(b)
                    + " results in overflow"@,
            ),
        ),
        Some(d) => if d.mantissa < 0 {
            Err(
                ApiErrorView::BadRequest(
                    "Arithmetic underflow: "@ + decimal_text(a) + " - "@ + decimal_text(b)
                        + " results in negative value "@ + decimal_text(d),
                ),
            )
        } else {
            Ok(d)
        },
    }
}

/// What a safe multiplication returns.
pub open spec fn safe_product(a: DecimalView, b: DecimalView) -> Result<DecimalView, ApiErrorView> {
    match decimal_product(a, b) {
        Some(d) => Ok(d),
        None => Err(ApiErrorView::BadRequest(overflow_message(a, " * "@, b))),
    }
}

/// What a safe division returns: a zero divisor is refused first.
pub open spec fn safe_quotient(a: DecimalView, b: DecimalView) -> Result<DecimalView, ApiErrorView> {
    if b.mantissa == 0 {
        Err(ApiErrorView::BadRequest("Division by zero is not allowed"@))
    } else {
        match decimal_quotient(a, b) {
            Some(d) => Ok(d),
            None => Err(ApiErrorView::BadRequest(overflow_message(a, " / "@, b))),
        }
    }
}

/// One hundred.
pub open spec fn hundred() -> DecimalView {
    DecimalView { mantissa: 100, scale: 0 }
}

/// What a percentage returns: `value * percentage`, then divided by 100.
pub open spec fn safe_percentage(value: DecimalView, percentage: DecimalView) -> Result<
    DecimalView,
    ApiErrorView,
> {
    match safe_product(value, percentage) {
        Err(e) => Err(e),
        Ok(product) => safe_quotient(product, hundred()),
    }
}

/// What a ratio in percent returns: `numerator / denominator`, then times
/// 100; a zero denominator is refused with `message`.
pub open spec fn safe_ratio(numerator: DecimalView, denominator: DecimalView, message: Seq<char>) -> Result<
    DecimalView,
    ApiErrorView,
> {
    if denominator.mantissa == 0 {
        Err(ApiErrorView::BadRequest(message))
    } else {
        match safe_quotient(numerator, denominator) {
            Err(e) => Err(e),
            Ok(ratio) => safe_product(ratio, hundred()),
        }
    }
}

/// What an interest computation returns: `principal * (rate * time)`.
pub open spec fn safe_interest(principal: DecimalView, rate: DecimalView, time: DecimalView) -> Result<
    DecimalView,
    ApiErrorView,
> {
    match safe_product(rate, time) {
        Err(e) => Err(e),
        Ok(rate_times_time) => safe_product(principal, rate_times_time),
    }
}

/// Arithmetic on decimals that reports what it cannot do.
pub struct SafeMath;

impl SafeMath {
    /// The message for an operation whose result has no representation.
    fn overflow(a: Decimal, operator: &str, b: Decimal) -> (e: ApiError)
        ensures
            e@ == ApiErrorView::BadRequest(overflow_message(a@, operator@, b@)),
    {
        let message = "Arithmetic overflow: ".to_owned().concat(a.to_string().as_str()).concat(
            operator,
        ).concat(b.to_string().as_str()).concat(" exceeds maximum value");
        ApiError::BadRequest(message)
    }

    /// Adds two decimals; an overflow is a `BadRequest`.
    pub fn add(a: Decimal, b: Decimal) -> (r: Result<Decimal, ApiError>)
        ensures
            decimal_result_view(r) == safe_sum(a@, b@),
    {
        proof {
            use_type_invariant(a);
            use_type_invariant(b);
        }
        match checked_add(a, b) {
            Some(d) => Ok(d),
            None => Err(Self::overflow(a, " + ", b)),
        }
    }

    /// Subtracts `b` from `a`; an overflow, or a result below zero, is a
    /// `BadRequest`.
    pub fn sub(a: Decimal, b: Decimal) -> (r: Result<Decimal, ApiError>)
        ensures
            decimal_result_view(r) == safe_difference(a@, b@),
    {
        proof {
            use_type_invariant(a);
            use_type_invariant(b);
        }
        match checked_sub(a, b) {
            None => {
                let message = "Arithmetic underflow: ".to_owned().concat(
                    a.to_string().as_str(),
                ).concat(" - ").concat(b.to_string().as_str()).concat(" results in overflow");
                Err(ApiError::BadRequest(message))
            },
            Some(d) => {
                if d.is_sign_negative() {
                    let message = "Arithmetic underflow: ".to_owned().concat(
                        a.to_string().as_str(),
                    ).concat(" - ").concat(b.to_string().as_str()).concat(
                        " results in negative value ",
                    ).concat(d.to_string().as_str());
                    Err(ApiError::BadRequest(message))
                } else {
                    Ok(d)
                }
            },
        }
    }

    /// Multiplies two decimals; an overflow is a `BadRequest`.
    pub fn mul(a: Decimal, b: Decimal) -> (r: Result<Decimal, ApiError>)
        ensures
            decimal_result_view(r) == safe_product(a@, b@),
    {
        proof {
            use_type_invariant(a);
            use_type_invariant(b);
        }
        match checked_mul(a, b) {
            Some(d) => Ok(d),
            None => Err(Self::overflow(a, " * ", b)),
        }
    }

    /// Divides `a` by `b`; a zero divisor, or an overflow, is a
    /// `BadRequest`.
    pub fn div(a: Decimal, b: Decimal) -> (r: Result<Decimal, ApiError>)
        ensures
            decimal_result_view(r) == safe_quotient(a@, b@),
    {
        proof {
            use_type_invariant(a);
            use_type_invariant(b);
        }
        if b.is_zero() {
            return Err(ApiError::bad_request("Division by zero is not allowed"));
        }
        match checked_div(a, b) {
            Some(d) => Ok(d),
            None => Err(Self::overflow(a, " / ", b)),
        }
    }

    /// `percentage` percent of `value`: `(value * percentage) / 100`.
    pub fn percentage(value: Decimal, percentage: Decimal) -> (r: Result<Decimal, ApiError>)
        ensures
            decimal_result_view(r) == safe_percentage(value@, percentage@),
    {
        let hundred = Decimal::new(100, 0);
        match Self::mul(value, percentage) {
            Err(e) => Err(e),
            Ok(product) => Self::div(product, hundred),
        }
    }

    /// The fee of `fee_percentage` percent on `amount`, and what is left of
    /// the amount after it.
    pub fn calculate_fee(amount: Decimal, fee_percentage: Decimal) -> (r: Result<
        (Decimal, Decimal),
        ApiError,
    >)
        ensures
            match safe_percentage(amount@, fee_percentage@) {
                Err(e) => r matches Err(got) && got@ == e,
                Ok(fee) => match safe_difference(amount@, fee) {
                    Err(e) => r matches Err(got) && got@ == e,
                    Ok(net) => r matches Ok(pair) && pair.0@ == fee && pair.1@ == net,
                },
            },
    {
        let fee = match Self::percentage(amount, fee_percentage) {
            Ok(fee) => fee,
            Err(e) => {
                return Err(e);
            },
        };
        match Self::sub(amount, fee) {
            Ok(net_amount) => Ok((fee, net_amount)),
            Err(e) => Err(e),
        }
    }

    /// The value itself where it is not below zero; a `BadRequest` that
    /// names the field otherwise.
    pub fn ensure_non_negative(value: Decimal, field_name: &str) -> (r: Result<Decimal, ApiError>)
        ensures
            decimal_result_view(r) == if value@.mantissa < 0 {
                Err::<DecimalView, ApiErrorView>(
                    ApiErrorView::BadRequest(
                        field_name@ + " cannot be negative: "@ + decimal_text(value@),
                    ),
                )
            } else {
                Ok::<DecimalView, ApiErrorView>(value@)
            },
    {
        if value.is_sign_negative() {
            let message = field_name.to_owned().concat(" cannot be negative: ").concat(
                value.to_string().as_str(),
            );
            return Err(ApiError::BadRequest(message));
        }
        Ok(value)
    }

    /// The value itself where it is above zero; a `BadRequest` that names
    /// the field otherwise.
    pub fn ensure_positive(value: Decimal, field_name: &str) -> (r: Result<Decimal, ApiError>)
        ensures
            decimal_result_view(r) == if value@.mantissa <= 0 {
                Err::<DecimalView, ApiErrorView>(
                    ApiErrorView::BadRequest(
                        field_name@ + " must be positive: "@ + decimal_text(value@),
                    ),
                )
            } else {
                Ok::<DecimalView, ApiErrorView>(value@)
            },
    {
        if value.is_zero() || value.is_sign_negative() {
            let message = field_name.to_owned().concat(" must be positive: ").concat(
                value.to_string().as_str(),
            );
            return Err(ApiError::BadRequest(message));
        }
        Ok(value)
    }

    /// The collateral ratio in percent: `(collateral / debt) * 100`.
    pub fn collateral_ratio(collateral_value: Decimal, debt_value: Decimal) -> (r: Result<
        Decimal,
        ApiError,
    >)
        ensures
            decimal_result_view(r) == safe_ratio(
                collateral_value@,
                debt_value@,
                "Cannot calculate collateral ratio with zero debt"@,
            ),
    {
        if debt_value.is_zero() {
            return Err(ApiError::bad_request("Cannot calculate collateral ratio with zero debt"));
        }
        match Self::div(collateral_value, debt_value) {
            Err(e) => Err(e),
            Ok(ratio) => Self::mul(ratio, Decimal::new(100, 0)),
        }
    }

    /// The loan-to-value ratio in percent: `(loan / collateral) * 100`.
    pub fn loan_to_value(loan_amount: Decimal, collateral_value: Decimal) -> (r: Result<
        Decimal,
        ApiError,
    >)
        ensures
            decimal_result_view(r) == safe_ratio(
                loan_amount@,
                collateral_value@,
                "Cannot calculate LTV with zero collateral"@,
            ),
    {
        if collateral_value.is_zero() {
            return Err(ApiError::bad_request("Cannot calculate LTV with zero collateral"));
        }
        match Self::div(loan_amount, collateral_value) {
            Err(e) => Err(e),
            Ok(ratio) => Self::mul(ratio, Decimal::new(100, 0)),
        }
    }

    /// Simple interest: `principal * annual_rate * time_in_years`, the rate
    /// as a fraction and the time in years.
    pub fn calculate_interest(principal: Decimal, annual_rate: Decimal, time_in_years: Decimal) -> (r:
        Result<Decimal, ApiError>)
        ensures
            decimal_result_view(r) == safe_interest(principal@, annual_rate@, time_in_years@),
    {
        match Self::mul(annual_rate, time_in_years) {
            Err(e) => Err(e),
            Ok(rate_times_time) => Self::mul(principal, rate_times_time),
        }
    }
}

} // verus!
