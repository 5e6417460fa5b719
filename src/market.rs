use vstd::prelude::*;
use crate::fixed::{parse_decimal, parsed_decimal, SCALE};

verus! {

/// Net profit at or below this (minus two whole units) is not a near miss.
pub const LOW_PROFIT_FLOOR: i128 = -200_000_000;

/// Static settings of a scanner. Amounts are fixed-point (see `SCALE`);
/// fees are fractions of the capital, so 0.3% is `300_000`; the spread
/// ceiling is a percentage, so 50% is `50 * SCALE`.
#[derive(Clone, Copy, Debug)]
pub struct Config {
    pub usdc_balance: u64,
    pub min_net_profit: i64,
    pub gas_cost_usd: u64,
    pub flash_loan_fee_pct: u64,
    pub dex_fee_pct: u64,
    pub max_spread_pct: u64,
    pub scan_interval_ms: u64,
    pub server_port: u16,
}

impl Config {
    /// The scanner's standard settings: 10000 of capital, a 0.01 threshold,
    /// 0.15 fixed cost, 0.09% loan fee, 0.3% venue fee, a 50% spread
    /// ceiling, 300 ms between samples and port 3000.
    pub fn new() -> (r: Config)
        ensures
            r.usdc_balance == 10_000 * SCALE,
            r.min_net_profit == 1_000_000,
            r.gas_cost_usd == 15_000_000,
            r.flash_loan_fee_pct == 90_000,
            r.dex_fee_pct == 300_000,
            r.max_spread_pct == 50 * SCALE,
            r.scan_interval_ms == 300,
            r.server_port == 3000,
    {
        Config {
            usdc_balance: 10_000 * SCALE,
            min_net_profit: 1_000_000,
            gas_cost_usd: 15_000_000,
            flash_loan_fee_pct: 90_000,
            dex_fee_pct: 300_000,
            max_spread_pct: 50 * SCALE,
            scan_interval_ms: 300,
            server_port: 3000,
        }
    }
}

/// Gross profit, itemised costs and net profit of one hypothetical trade,
/// all fixed-point.
#[derive(Clone, Copy, Debug, PartialEq, Eq, Structural)]
pub struct CostBreakdown {
    pub gross: i128,
    pub loan_cost: i128,
    pub venue_cost: i128,
    pub fixed_cost: i128,
    pub net: i128,
}

/// Relative distance of the reference price from the venue price, as a
/// fixed-point percentage, rounded down.
pub open spec fn spread_of(reference: nat, venue: nat) -> nat
    recommends
        venue > 0,
{
    let diff = if reference >= venue {
        reference - venue
    } else {
        venue - reference
    };
    (diff * 100 * SCALE) as nat / venue
}

pub open spec fn gross_of(capital: nat, spread: nat) -> nat {
    capital * spread / (100 * SCALE as nat)
}

pub open spec fn loan_cost_of(capital: nat, fee: nat) -> nat {
    capital * fee / SCALE as nat
}

/// The venue fee is paid on both legs of the round trip.
pub open spec fn venue_cost_of(capital: nat, fee: nat) -> nat {
    2 * (capital * fee / SCALE as nat)
}

pub open spec fn cost_spec(
    capital: nat,
    spread: nat,
    loan_fee: nat,
    venue_fee: nat,
    fixed: nat,
) -> CostBreakdown {
    let gross = gross_of(capital, spread);
    let loan = loan_cost_of(capital, loan_fee);
    let venue = venue_cost_of(capital, venue_fee);
    CostBreakdown {
        gross: gross as i128,
        loan_cost: loan as i128,
        venue_cost: venue as i128,
        fixed_cost: fixed as i128,
        net: (gross - loan - venue - fixed) as i128,
    }
}

/// Spread between a reference price and a positive venue price:
/// |reference - venue| / venue, as a fixed-point percentage.
pub fn spread_pct(reference: u64, venue: u64) -> (r: u128)
    requires
        venue > 0,
    ensures
        r == spread_of(reference as nat, venue as nat),
{
    let diff: u64 = if reference >= venue {
        reference - venue
    } else {
        venue - reference
    };
    assert((diff as nat) * 100 * (SCALE as nat) <= u128::MAX) by (nonlinear_arith)
        requires
            diff <= u64::MAX,
            SCALE == 100_000_000,
    ;
    (diff as u128) * 100 * (SCALE as u128) / (venue as u128)
}

/// Prices one trade of `capital` at `spread` (a fixed-point percentage):
/// gross = capital * spread / 100, loan cost = capital * loan fee,
/// venue cost = capital * venue fee on each of two legs, and
/// net = gross - loan cost - venue cost - fixed cost. Each product is
/// rounded down to a whole fixed-point unit.
pub fn cost_model(capital: u64, spread: u64, loan_fee: u64, venue_fee: u64, fixed_cost: u64) -> (r:
    CostBreakdown)
    ensures
        r == cost_spec(capital as nat, spread as nat, loan_fee as nat, venue_fee as nat, fixed_cost as nat),
        r.net == r.gross - r.loan_cost - r.venue_cost - r.fixed_cost,
{
    let c = capital as u128;
    assert(c * (spread as u128) <= u128::MAX) by (nonlinear_arith)
        requires
            c <= u64::MAX,
            spread <= u64::MAX,
    ;
    assert(c * (loan_fee as u128) <= u128::MAX) by (nonlinear_arith)
        requires
            c <= u64::MAX,
            loan_fee <= u64::MAX,
    ;
    assert(c * (venue_fee as u128) <= u128::MAX) by (nonlinear_arith)
        requires
            c <= u64::MAX,
            venue_fee <= u64::MAX,
    ;
    let product = c * (spread as u128);
    let gross = product / 10_000_000_000u128;
    assert(gross <= u128::MAX / 10_000_000_000) by (nonlinear_arith)
        requires
            gross == product / 10_000_000_000u128,
            product <= u128::MAX,
    ;
    let loan_product = c * (loan_fee as u128);
    let leg_product = c * (venue_fee as u128);
    let loan = loan_product / 100_000_000u128;
    let leg = leg_product / 100_000_000u128;
    assert(loan <= u128::MAX / 100_000_000 && leg <= u128::MAX / 100_000_000) by (nonlinear_arith)
        requires
            loan == loan_product / 100_000_000u128,
            leg == leg_product / 100_000_000u128,
            loan_product <= u128::MAX,
            leg_product <= u128::MAX,
    ;
    let gross = gross as i128;
    let loan = loan as i128;
    let venue = 2 * (leg as i128);
    let fixed = fixed_cost as i128;
    CostBreakdown {
        gross,
        loan_cost: loan,
        venue_cost: venue,
        fixed_cost: fixed,
        net: gross - loan - venue - fixed,
    }
}

/// How an observation's net profit compares with the threshold.
#[derive(Clone, Copy, Debug, PartialEq, Eq, Structural)]
pub enum Status {
    /// Net profit above the threshold.
    Executable,
    /// At or below the threshold, but above `LOW_PROFIT_FLOOR`.
    LowProfit,
    /// At or below `LOW_PROFIT_FLOOR`.
    Unprofitable,
}

pub open spec fn status_of(net: int, threshold: int) -> Status {
    if net > threshold {
        Status::Executable
    } else if net > LOW_PROFIT_FLOOR {
        Status::LowProfit
    } else {
        Status::Unprofitable
    }
}

/// Classifies a net profit against the minimum-profit threshold.
pub fn classify(net: i128, threshold: i128) -> (r: Status)
    ensures
        r == status_of(net as int, threshold as int),
        r == Status::Executable <==> net > threshold,
        r == Status::LowProfit <==> net <= threshold && net > LOW_PROFIT_FLOOR,
        r == Status::Unprofitable <==> net <= threshold && net <= LOW_PROFIT_FLOOR,
{
    if net > threshold {
        Status::Executable
    } else if net > LOW_PROFIT_FLOOR {
        Status::LowProfit
    } else {
        Status::Unprofitable
    }
}

impl Status {
    /// The label under which the status is published.
    pub fn label(&self) -> (r: &'static str)
        ensures
            *self == Status::Executable ==> r@ == "executed"@,
            *self == Status::LowProfit ==> r@ == "missed_small"@,
            *self == Status::Unprofitable ==> r@ == "unprofitable"@,
    {
        match self {
            Status::Executable => "executed",
            Status::LowProfit => "missed_small",
            Status::Unprofitable => "unprofitable",
        }
    }
}

pub open spec fn distance(x: int, y: int) -> int {
    if x >= y {
        x - y
    } else {
        y - x
    }
}

/// A quote can be used when it was read and is not zero.
pub open spec fn usable(q: Option<u64>) -> bool {
    q is Some && q->0 > 0
}

/// The quote of a pool that stands for the reference-priced side: the
/// usable one of the two that is nearer to the reference, the first one on
/// a tie; `None` when neither can be used.
pub open spec fn oriented_quote(reference: u64, a: Option<u64>, b: Option<u64>) -> Option<u64> {
    if usable(a) && usable(b) {
        if distance(a->0 as int, reference as int) <= distance(b->0 as int, reference as int) {
            a
        } else {
            b
        }
    } else if usable(a) {
        a
    } else if usable(b) {
        b
    } else {
        None
    }
}

/// Picks which of a pool's two quotes (token0 per token1, and its
/// reciprocal) is the price comparable with `reference`: the one nearer to
/// it, the first on a tie. An absent or zero quote is never picked.
pub fn select_quote(reference: u64, a: Option<u64>, b: Option<u64>) -> (r: Option<u64>)
    ensures
        r == oriented_quote(reference, a, b),
        r is None <==> !usable(a) && !usable(b),
        r is Some ==> r->0 > 0 && (r == a || r == b),
        usable(a) && usable(b) ==> distance(r->0 as int, reference as int) <= distance(
            a->0 as int,
            reference as int,
        ) && distance(r->0 as int, reference as int) <= distance(b->0 as int, reference as int),
{
    match (a, b) {
        (Some(x), Some(y)) if x > 0 && y > 0 => {
            let dx = if x >= reference {
                x - reference
            } else {
                reference - x
            };
            let dy = if y >= reference {
                y - reference
            } else {
                reference - y
            };
            if dx <= dy {
                a
            } else {
                b
            }
        },
        (Some(x), _) if x > 0 => a,
        (_, Some(y)) if y > 0 => b,
        _ => None,
    }
}

/// The venue price of a pool from the two decimal quotes it reported,
/// oriented against `reference`. A quote that does not parse counts as zero.
pub fn venue_quote(token0_price: &[u8], token1_price: &[u8], reference: u64) -> (r: Option<u64>)
    ensures
        r == oriented_quote(reference, parsed_decimal(token0_price@), parsed_decimal(token1_price@)),
{
    let a = parse_decimal(token0_price);
    let b = parse_decimal(token1_price);
    select_quote(reference, a, b)
}

/// A reference price from the decimal text the reference market reported:
/// `None` when it does not parse or is zero.
pub fn reference_quote(price: &[u8]) -> (r: Option<u64>)
    ensures
        r == (if usable(parsed_decimal(price@)) {
            parsed_decimal(price@)
        } else {
            None
        }),
{
    match parse_decimal(price) {
        Some(p) if p > 0 => Some(p),
        _ => None,
    }
}

} // verus!
