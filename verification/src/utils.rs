use vstd::prelude::*;
use vstd::string::{StringExecFns, StringSliceAdditionalSpecFns};
use crate::constants::MAX_PRICE_AGE;
use crate::errors::PoolOddsError;

verus! {

/// Share of a reserve that a trade moves, in basis points, capped at 100%.
pub open spec fn price_impact_bp(reserve: nat, trade_amount: nat) -> nat {
    if reserve == 0 {
        0
    } else if trade_amount * 10_000 / reserve >= 10_000 {
        10_000
    } else {
        trade_amount * 10_000 / reserve
    }
}

/// Price impact in checked 64-bit arithmetic: `price_impact_bp`, provided the
/// trade amount scaled by 10,000 fits in 64 bits. An empty reserve has no
/// impact.
pub open spec fn spec_price_impact(reserve: u64, trade_amount: u64) -> Result<u16, PoolOddsError> {
    if reserve == 0 {
        Ok(0u16)
    } else if trade_amount * 10_000 > u64::MAX {
        Err(PoolOddsError::MathOverflow)
    } else {
        Ok(price_impact_bp(reserve as nat, trade_amount as nat) as u16)
    }
}

/// Price impact of trading `trade_amount` against `reserve`, in basis points.
pub fn calculate_price_impact(reserve: u64, trade_amount: u64) -> (r: Result<u16, PoolOddsError>)
    ensures
        r == spec_price_impact(reserve, trade_amount),
        r is Ok ==> r->Ok_0 <= 10_000,
{
    if reserve == 0 {
        return Ok(0);
    }
    match trade_amount.checked_mul(10_000) {
        None => Err(PoolOddsError::MathOverflow),
        Some(scaled) => {
            let impact: u64 = scaled / reserve;
            if impact >= 10_000 {
                Ok(10_000)
            } else {
                Ok(impact as u16)
            }
        },
    }
}

/// Product of two numbers, or `MathOverflow` when it does not fit in 64 bits.
pub fn safe_mul(a: u64, b: u64) -> (r: Result<u64, PoolOddsError>)
    ensures
        a * b <= u64::MAX ==> r == Ok::<u64, PoolOddsError>((a * b) as u64),
        a * b > u64::MAX ==> r == Err::<u64, PoolOddsError>(PoolOddsError::MathOverflow),
{
    match a.checked_mul(b) {
        Some(p) => Ok(p),
        None => Err(PoolOddsError::MathOverflow),
    }
}

/// `a * b / d` in checked 64-bit arithmetic: the product must fit in 64 bits
/// and the divisor must not be zero.
pub open spec fn spec_mul_div(a: u64, b: u64, d: u64) -> Result<u64, PoolOddsError> {
    if a * b > u64::MAX {
        Err(PoolOddsError::MathOverflow)
    } else if d == 0 {
        Err(PoolOddsError::DivisionByZero)
    } else {
        Ok((a * b / (d as int)) as u64)
    }
}

/// `a * b / d`, truncated, in checked 64-bit arithmetic.
pub fn mul_div(a: u64, b: u64, d: u64) -> (r: Result<u64, PoolOddsError>)
    ensures
        r == spec_mul_div(a, b, d),
{
    let product: u64 = safe_mul(a, b)?;
    safe_div(product, d)
}

/// The product of two 64-bit numbers fits in 128 bits.
pub proof fn lemma_product_fits_wide(a: u64, b: u64)
    ensures
        a * b <= 0xffff_ffff_ffff_fffe_0000_0000_0000_0001,
        a * b <= u128::MAX,
{
    assert(a * b <= 0xffff_ffff_ffff_ffff * 0xffff_ffff_ffff_ffff) by (nonlinear_arith)
        requires
            0 <= a <= 0xffff_ffff_ffff_ffff,
            0 <= b <= 0xffff_ffff_ffff_ffff,
    ;
}

/// `a * b / d`, truncated, with the product formed in 128 bits so that it
/// cannot overflow.
pub fn mul_div_wide(a: u64, b: u64, d: u128) -> (r: u128)
    requires
        d > 0,
    ensures
        r == a * b / (d as int),
{
    proof {
        lemma_product_fits_wide(a, b);
    }
    (a as u128) * (b as u128) / d
}

/// Truncating quotient, or `DivisionByZero` when the divisor is zero.
pub fn safe_div(a: u64, b: u64) -> (r: Result<u64, PoolOddsError>)
    ensures
        b != 0 ==> r == Ok::<u64, PoolOddsError>(a / b),
        b == 0 ==> r == Err::<u64, PoolOddsError>(PoolOddsError::DivisionByZero),
{
    if b == 0 {
        return Err(PoolOddsError::DivisionByZero);
    }
    Ok(a / b)
}

/// `percentage_bp` basis points of `amount`, truncated.
pub fn calculate_percentage(amount: u64, percentage_bp: u16) -> (r: Result<u64, PoolOddsError>)
    ensures
        amount * percentage_bp <= u64::MAX ==> r == Ok::<u64, PoolOddsError>(
            (amount * percentage_bp / 10_000) as u64,
        ),
        amount * percentage_bp > u64::MAX ==> r == Err::<u64, PoolOddsError>(
            PoolOddsError::MathOverflow,
        ),
{
    match safe_mul(amount, percentage_bp as u64) {
        Ok(scaled) => Ok(scaled / 10_000),
        Err(e) => Err(e),
    }
}

/// A printable ASCII character: neither a control character nor outside ASCII.
pub open spec fn is_printable_ascii(c: char) -> bool {
    ' ' <= c <= '~'
}

/// What makes a text field acceptable: it fits in `max_length` bytes, every
/// character is printable ASCII, and at least one of them is not a space.
pub open spec fn is_valid_text(s: &str, max_length: usize) -> bool {
    &&& s.spec_bytes().len() <= max_length
    &&& forall|i: int| 0 <= i < s@.len() ==> is_printable_ascii(#[trigger] s@[i])
    &&& exists|i: int| 0 <= i < s@.len() && #[trigger] s@[i] != ' '
}

/// Accepts a text field exactly when `is_valid_text` holds of it.
pub fn validate_string(s: &str, max_length: usize, field_name: &str) -> (r: Result<
    (),
    PoolOddsError,
>)
    ensures
        is_valid_text(s, max_length) ==> r == Ok::<(), PoolOddsError>(()),
        !is_valid_text(s, max_length) ==> r == Err::<(), PoolOddsError>(
            PoolOddsError::InvalidParameter,
        ),
{
    broadcast use vstd::string::is_ascii_spec_bytes;

    if s.as_bytes().len() > max_length {
        return Err(PoolOddsError::InvalidParameter);
    }
    if !s.is_ascii() {
        proof {
            let i = choose|i: int| 0 <= i < s@.len() && !('\0' <= #[trigger] s@[i] <= '\u{7f}');
            assert(!is_printable_ascii(s@[i]));
        }
        return Err(PoolOddsError::InvalidParameter);
    }
    let bytes = s.as_bytes();
    let n: usize = bytes.len();
    let mut seen_text: bool = false;
    let ghost mut witness: int = 0;
    let mut i: usize = 0;
    while i < n
        invariant
            i <= n,
            n == s@.len(),
            bytes@.len() == n,
            vstd::utf8::is_ascii_chars(s@),
            forall|k: int| 0 <= k < n ==> #[trigger] bytes@[k] == s@[k] as u8,
            forall|k: int| 0 <= k < i ==> is_printable_ascii(#[trigger] s@[k]),
            seen_text ==> 0 <= witness < i && s@[witness] != ' ',
            !seen_text ==> forall|k: int| 0 <= k < i ==> #[trigger] s@[k] == ' ',
        decreases n - i,
    {
        let b: u8 = bytes[i];
        if b < 0x20 || b > 0x7e {
            assert(!is_printable_ascii(s@[i as int]));
            return Err(PoolOddsError::InvalidParameter);
        }
        if b != 0x20 {
            assert(s@[i as int] != ' ');
            seen_text = true;
            proof {
                witness = i as int;
            }
        } else {
            assert(s@[i as int] == ' ');
        }
        i += 1;
    }
    if seen_text {
        Ok(())
    } else {
        Err(PoolOddsError::InvalidParameter)
    }
}

/// The character of one decimal digit.
pub open spec fn digit_char(d: nat) -> char {
    if d == 0 {
        '0'
    } else if d == 1 {
        '1'
    } else if d == 2 {
        '2'
    } else if d == 3 {
        '3'
    } else if d == 4 {
        '4'
    } else if d == 5 {
        '5'
    } else if d == 6 {
        '6'
    } else if d == 7 {
        '7'
    } else if d == 8 {
        '8'
    } else {
        '9'
    }
}

/// The decimal digits of a natural number, without leading zeros.
pub open spec fn decimal_digits(n: nat) -> Seq<char>
    decreases n,
{
    if n < 10 {
        seq![digit_char(n)]
    } else {
        decimal_digits(n / 10).push(digit_char(n % 10))
    }
}

/// An integer written in decimal, with a minus sign when it is negative.
pub open spec fn decimal_text(n: int) -> Seq<char> {
    if n < 0 {
        seq!['-'] + decimal_digits((-n) as nat)
    } else {
        decimal_digits(n as nat)
    }
}

/// Writes a number in decimal with `i64::to_string`. Not proved: that the
/// text is the number's decimal digits, with a minus sign when it is
/// negative.
#[verifier::external_body]
fn decimal(n: i64) -> (r: String)
    ensures
        r@ == decimal_text(n as int),
{
    n.to_string()
}

/// A timestamp as a line of text for a log.
pub fn format_timestamp(timestamp: i64) -> (r: String)
    ensures
        r@ == "Unix timestamp: "@ + decimal_text(timestamp as int),
{
    let mut line: String = "Unix timestamp: ".to_owned();
    let number: String = decimal(timestamp);
    line.append(number.as_str());
    line
}

/// Share of the liquidity, in basis points, to place on the YES side: the
/// YES share of the traded volume, moved toward an even split in proportion
/// to the time left, which counts from nothing up to one day.
pub open spec fn optimal_yes_ratio(yes_volume: u64, no_volume: u64, time_to_expiry: i64) -> int {
    let total_volume = yes_volume + no_volume;
    let yes_ratio = yes_volume * 10_000 / total_volume;
    let time_factor: int = if time_to_expiry < 0 {
        0
    } else if time_to_expiry > 86_400 {
        86_400
    } else {
        time_to_expiry as int
    };
    if total_volume == 0 {
        5_000
    } else if yes_ratio <= 5_000 {
        yes_ratio + (5_000 - yes_ratio) * time_factor / 86_400
    } else {
        yes_ratio - (yes_ratio - 5_000) * time_factor / 86_400
    }
}

/// How to split liquidity between the YES and the NO side, in basis points
/// that add up to 10,000.
pub fn calculate_optimal_liquidity_ratio(yes_volume: u64, no_volume: u64, time_to_expiry: i64) -> (r:
    Result<(u16, u16), PoolOddsError>)
    ensures
        yes_volume + no_volume > u64::MAX ==> r == Err::<(u16, u16), PoolOddsError>(
            PoolOddsError::MathOverflow,
        ),
        yes_volume + no_volume <= u64::MAX ==> 0 <= optimal_yes_ratio(
            yes_volume,
            no_volume,
            time_to_expiry,
        ) <= 10_000 && r == Ok::<(u16, u16), PoolOddsError>(
            (
                optimal_yes_ratio(yes_volume, no_volume, time_to_expiry) as u16,
                (10_000 - optimal_yes_ratio(yes_volume, no_volume, time_to_expiry)) as u16,
            ),
        ),
{
    let total_volume: u64 = match yes_volume.checked_add(no_volume) {
        Some(v) => v,
        None => {
            return Err(PoolOddsError::MathOverflow);
        },
    };
    if total_volume == 0 {
        return Ok((5_000, 5_000));
    }
    let yes_ratio: u128 = mul_div_wide(yes_volume, 10_000, total_volume as u128);
    proof {
        assert(yes_ratio <= 10_000) by (nonlinear_arith)
            requires
                yes_ratio == yes_volume * 10_000 / (total_volume as int),
                yes_volume <= total_volume,
                total_volume > 0,
        ;
    }
    let time_factor: u128 = if time_to_expiry < 0 {
        0
    } else if time_to_expiry > 86_400 {
        86_400
    } else {
        time_to_expiry as u128
    };
    let adjusted_yes: u128 = if yes_ratio <= 5_000 {
        let gap: u128 = 5_000 - yes_ratio;
        proof {
            assert(gap * time_factor <= 5_000 * 86_400 && gap * time_factor / 86_400 <= gap)
                by (nonlinear_arith)
                requires
                    gap <= 5_000,
                    time_factor <= 86_400,
            ;
        }
        yes_ratio + gap * time_factor / 86_400
    } else {
        let gap: u128 = yes_ratio - 5_000;
        proof {
            assert(gap * time_factor <= 5_000 * 86_400 && gap * time_factor / 86_400 <= gap)
                by (nonlinear_arith)
                requires
                    gap <= 5_000,
                    time_factor <= 86_400,
            ;
        }
        yes_ratio - gap * time_factor / 86_400
    };
    Ok((adjusted_yes as u16, (10_000 - adjusted_yes) as u16))
}

/// Seconds from `current_time` until `end_time`, zero once the end has passed.
pub fn time_until_end(end_time: i64, current_time: i64) -> (r: Result<i64, PoolOddsError>)
    ensures
        end_time - current_time <= i64::MAX ==> r == Ok::<i64, PoolOddsError>(
            if end_time > current_time {
                (end_time - current_time) as i64
            } else {
                0
            },
        ),
        end_time - current_time > i64::MAX ==> r == Err::<i64, PoolOddsError>(
            PoolOddsError::MathOverflow,
        ),
{
    if end_time <= current_time {
        return Ok(0);
    }
    match end_time.checked_sub(current_time) {
        Some(left) => Ok(left),
        None => Err(PoolOddsError::MathOverflow),
    }
}

/// Trading is open around the clock.
pub fn is_trading_hours() -> (r: bool)
    ensures
        r,
{
    true
}

/// Accepts an oracle reading when the price is positive, the confidence
/// interval is under a tenth of the price, and the reading is at most
/// `MAX_PRICE_AGE` seconds older than `current_time`.
pub fn validate_oracle_price(price: i64, confidence: u64, timestamp: i64, current_time: i64) -> (r:
    Result<(), PoolOddsError>)
    ensures
        price <= 0 || confidence >= price / 10 ==> r == Err::<(), PoolOddsError>(
            PoolOddsError::InvalidOracleData,
        ),
        price > 0 && confidence < price / 10 && current_time - timestamp > MAX_PRICE_AGE ==> r
            == Err::<(), PoolOddsError>(PoolOddsError::StalePriceData),
        price > 0 && confidence < price / 10 && current_time - timestamp <= MAX_PRICE_AGE ==> r
            == Ok::<(), PoolOddsError>(()),
{
    if price <= 0 {
        return Err(PoolOddsError::InvalidOracleData);
    }
    if confidence >= (price as u64) / 10 {
        return Err(PoolOddsError::InvalidOracleData);
    }
    let age: i128 = current_time as i128 - timestamp as i128;
    if age > MAX_PRICE_AGE as i128 {
        return Err(PoolOddsError::StalePriceData);
    }
    Ok(())
}

/// `r` is the integer square root of `x`: the largest number whose square
/// does not exceed `x`.
pub open spec fn is_floor_sqrt(x: nat, r: nat) -> bool {
    r * r <= x < (r + 1) * (r + 1)
}

/// The integer square root is unique.
pub proof fn lemma_floor_sqrt_unique(x: nat, a: nat, b: nat)
    requires
        is_floor_sqrt(x, a),
        is_floor_sqrt(x, b),
    ensures
        a == b,
{
    assert(a == b) by (nonlinear_arith)
        requires
            a * a <= x,
            x < (a + 1) * (a + 1),
            b * b <= x,
            x < (b + 1) * (b + 1),
    {
        if a < b {
            assert((a + 1) * (a + 1) <= b * b);
        } else if b < a {
            assert((b + 1) * (b + 1) <= a * a);
        }
    }
}

/// The integer square root of `x`.
pub open spec fn floor_sqrt(x: nat) -> nat {
    choose|r: nat| is_floor_sqrt(x, r)
}

/// Whatever number squares to at most `x` while its successor squares beyond
/// it is the integer square root of `x`.
pub proof fn lemma_floor_sqrt_is(x: nat, r: nat)
    requires
        is_floor_sqrt(x, r),
    ensures
        floor_sqrt(x) == r,
{
    lemma_floor_sqrt_unique(x, floor_sqrt(x), r);
}

/// One Newton step from any positive estimate lands on or above the root.
proof fn lemma_newton_step_stays_above(x: nat, z: nat, y: nat)
    requires
        z > 0,
        y == (x / z + z) / 2,
    ensures
        (y + 1) * (y + 1) > x,
{
    let q = x / z;
    assert(x < (q + 1) * z) by (nonlinear_arith)
        requires
            z > 0,
            q == x / z,
    ;
    assert(2 * (y + 1) >= q + z + 1);
    assert((q + 1 + z) * (q + 1 + z) >= 4 * ((q + 1) * z)) by (nonlinear_arith);
    assert(4 * ((y + 1) * (y + 1)) >= (q + 1 + z) * (q + 1 + z)) by (nonlinear_arith)
        requires
            2 * (y + 1) >= q + z + 1,
    ;
}

/// When a Newton step no longer descends, the estimate is on or below the root.
proof fn lemma_newton_fixpoint_below(x: nat, z: nat, y: nat)
    requires
        z > 0,
        y == (x / z + z) / 2,
        y >= z,
    ensures
        z * z <= x,
{
    let q = x / z;
    assert(q >= z);
    assert(q * z <= x) by (nonlinear_arith)
        requires
            z > 0,
            q == x / z,
    ;
    assert(z * z <= q * z) by (nonlinear_arith)
        requires
            q >= z,
    ;
}

/// Floor of the mean of two numbers, computed without forming their sum.
fn mean_floor(a: u128, b: u128) -> (m: u128)
    ensures
        m == (a + b) / 2,
{
    a / 2 + b / 2 + (a % 2 + b % 2) / 2
}

/// Integer square root of a 128-bit number by Newton's method.
pub fn sqrt_u128(x: u128) -> (r: u128)
    ensures
        is_floor_sqrt(x as nat, r as nat),
        r == floor_sqrt(x as nat),
{
    if x == 0 {
        proof {
            assert(is_floor_sqrt(0, 0)) by (nonlinear_arith);
            lemma_floor_sqrt_is(0, 0);
        }
        return 0;
    }
    let mut z: u128 = x;
    let mut y: u128 = mean_floor(x / z, z);
    proof {
        assert((z + 1) * (z + 1) > x) by (nonlinear_arith)
            requires
                z == x,
                x > 0,
        ;
    }
    while y < z
        invariant
            x > 0,
            z > 0,
            y == (x / z + z) / 2,
            (z + 1) * (z + 1) > x,
        decreases z,
    {
        proof {
            lemma_newton_step_stays_above(x as nat, z as nat, y as nat);
            assert(y > 0) by (nonlinear_arith)
                requires
                    (y + 1) * (y + 1) > x,
                    x > 0,
            ;
        }
        z = y;
        y = mean_floor(x / z, z);
    }
    proof {
        lemma_newton_fixpoint_below(x as nat, z as nat, y as nat);
        lemma_floor_sqrt_is(x as nat, z as nat);
    }
    z
}

/// Integer square root by Newton's method.
pub fn sqrt(x: u64) -> (r: u64)
    ensures
        is_floor_sqrt(x as nat, r as nat),
        r == floor_sqrt(x as nat),
{
    let wide: u128 = sqrt_u128(x as u128);
    proof {
        assert(wide <= x) by (nonlinear_arith)
            requires
                wide * wide <= x,
        ;
    }
    wide as u64
}

} // verus!
