use vstd::prelude::*;

verus! {

/// The intrinsic gas cost of a plain native-currency transfer carrying no
/// data payload; the network charges at least this much for any transfer.
pub const BASE_TRANSFER_GAS: u64 = 21000;

/// The submission price derived from the network's base price: a fixed +10%
/// premium, in truncating integer arithmetic.
pub open spec fn premium_price(base: u128) -> int {
    base * 110 / 100
}

/// The gas limit derived from a simulation estimate: a fixed +20% buffer,
/// in truncating integer arithmetic.
pub open spec fn buffered_limit(estimate: u64) -> int {
    estimate * 120 / 100
}

/// The gas limit used when simulation fails: the intrinsic transfer cost,
/// buffered like any estimate.
pub open spec fn fallback_gas_limit() -> int {
    buffered_limit(BASE_TRANSFER_GAS)
}

/// The maximum fee a transaction reserves: unit price times unit count.
pub open spec fn fee_of(gas_price: u128, gas_limit: u64) -> int {
    gas_price * gas_limit
}

/// What a transfer costs the sender at most: its value plus the fee
/// reservation.
pub open spec fn total_cost_of(value: u128, gas_price: u128, gas_limit: u64) -> int {
    value + fee_of(gas_price, gas_limit)
}

/// The intrinsic transfer cost, exposed for callers that want the raw
/// constant rather than the buffered fallback.
pub fn get_base_transfer_gas_limit() -> (r: u64)
    ensures
        r == BASE_TRANSFER_GAS,
{
    BASE_TRANSFER_GAS
}

/// Applies the +10% submission premium to a base gas price. `None` only
/// when the premium arithmetic leaves the machine range.
pub fn gas_price_with_premium(base: u128) -> (r: Option<u128>)
    ensures
        r matches Some(p) ==> p == premium_price(base),
        r is None <==> base * 110 > u128::MAX,
{
    match base.checked_mul(110) {
        Some(scaled) => Some(scaled / 100),
        None => None,
    }
}

/// Derives the gas limit for a plain transfer from the simulation result:
/// the estimate when the simulation succeeded, the intrinsic transfer cost
/// when it failed, in both cases with the +20% buffer. `None` only when the
/// buffer arithmetic leaves the machine range.
pub fn buffered_gas_limit(estimate: Option<u64>) -> (r: Option<u64>)
    ensures
        estimate is None ==> r == Some((fallback_gas_limit() as u64)),
        estimate matches Some(e) ==> (if e * 120 <= u64::MAX {
            r == Some((buffered_limit(e) as u64))
        } else {
            r is None
        }),
{
    let raw: u64 = match estimate {
        Some(e) => e,
        None => BASE_TRANSFER_GAS,
    };
    match raw.checked_mul(120) {
        Some(scaled) => Some(scaled / 100),
        None => None,
    }
}

/// A snapshot of what the network charges right now: the quoted price, the
/// intrinsic transfer limit, and the fee a plain transfer would reserve.
#[derive(Clone, Copy, Debug, PartialEq, Eq, Structural)]
pub struct GasInfo {
    pub gas_price_wei: u128,
    pub base_gas_limit: u64,
    pub estimated_fee_wei: u128,
}

/// Derives the fee snapshot from the network's quoted price: the intrinsic
/// transfer limit times the price. `None` only when that product leaves the
/// machine range.
pub fn get_gas_info(gas_price_wei: u128) -> (r: Option<GasInfo>)
    ensures
        r matches Some(g) ==> g.gas_price_wei == gas_price_wei && g.base_gas_limit
            == BASE_TRANSFER_GAS && g.estimated_fee_wei == fee_of(gas_price_wei, BASE_TRANSFER_GAS),
        r is None <==> fee_of(gas_price_wei, BASE_TRANSFER_GAS) > u128::MAX,
{
    match gas_price_wei.checked_mul(BASE_TRANSFER_GAS as u128) {
        Some(fee) => Some(
            GasInfo {
                gas_price_wei,
                base_gas_limit: BASE_TRANSFER_GAS,
                estimated_fee_wei: fee,
            },
        ),
        None => None,
    }
}

/// The maximum fee reservation of a transaction, `None` only when the
/// product leaves the machine range.
pub fn transfer_fee(gas_price: u128, gas_limit: u64) -> (r: Option<u128>)
    ensures
        r matches Some(f) ==> f == fee_of(gas_price, gas_limit),
        r is None <==> fee_of(gas_price, gas_limit) > u128::MAX,
{
    gas_price.checked_mul(gas_limit as u128)
}

} // verus!
