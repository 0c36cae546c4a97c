use vstd::prelude::*;

use crate::errors::CarbonCreditError;
use crate::identity::Identity;
use crate::registry::ProgramState;

verus! {

/// A validated request to the token ledger: move `amount` tokens from
/// `from` to `to`, authorized by `from`'s own signature — never by the
/// registry's mint authority.
#[derive(Clone, Copy, Debug, PartialEq, Eq, Structural)]
pub struct TransferOrder {
    pub amount: u64,
    pub from: Identity,
    pub to: Identity,
}

/// A validated request to the token ledger: burn `amount` tokens held by
/// `owner`, authorized by `owner`. After the ledger reports success, the
/// caller records the burn with `record_burn`.
#[derive(Clone, Copy, Debug, PartialEq, Eq, Structural)]
pub struct BurnOrder {
    pub amount: u64,
    pub owner: Identity,
}

/// Validate a peer-to-peer transfer and hand the ledger its order.
/// A zero amount is refused with `InvalidAmount` and no order exists,
/// so no ledger call can be attempted. The registry holds no per-balance
/// state, so nothing else is touched: the operation is pure delegation
/// behind input validation.
pub fn transfer_tokens(amount: u64, from: Identity, to: Identity) -> (r: Result<
    TransferOrder,
    CarbonCreditError,
>)
    ensures
        amount == 0 ==> r == Err::<TransferOrder, CarbonCreditError>(
            CarbonCreditError::InvalidAmount,
        ),
        amount > 0 ==> r == Ok::<TransferOrder, CarbonCreditError>(
            (TransferOrder { amount, from, to }),
        ),
{
    if amount == 0 {
        return Err(CarbonCreditError::InvalidAmount);
    }
    Ok(TransferOrder { amount, from, to })
}

/// Validate a burn and hand the ledger its order. A zero amount is
/// refused with `InvalidAmount` and no order exists. The registry's
/// burned total moves only in `record_burn`, after the ledger has
/// actually burned: a burn the ledger refuses (say, for a short balance)
/// is never recorded.
pub fn burn_tokens(amount: u64, owner: Identity) -> (r: Result<BurnOrder, CarbonCreditError>)
    ensures
        amount == 0 ==> r == Err::<BurnOrder, CarbonCreditError>(CarbonCreditError::InvalidAmount),
        amount > 0 ==> r == Ok::<BurnOrder, CarbonCreditError>((BurnOrder { amount, owner })),
{
    if amount == 0 {
        return Err(CarbonCreditError::InvalidAmount);
    }
    Ok(BurnOrder { amount, owner })
}

/// Record a burn the ledger has performed: add its amount to the
/// registry's burned total, saturating at the counter's maximum rather
/// than wrapping. Nothing else about the registry changes.
pub fn record_burn(state: &mut ProgramState, order: BurnOrder)
    ensures
        *final(state) == (ProgramState {
            total_tokens_burned: if old(state).total_tokens_burned + order.amount > u64::MAX {
                u64::MAX
            } else {
                (old(state).total_tokens_burned + order.amount) as u64
            },
            ..*old(state)
        }),
        final(state).total_tokens_burned >= old(state).total_tokens_burned,
{
    state.total_tokens_burned = state.total_tokens_burned.saturating_add(order.amount);
}

} // verus!
