//! Laws the faucet obeys, proved over the state machine's spec functions.

use vstd::prelude::*;

use crate::machine::sat_add_block;
use crate::machine::spec_drip;
use crate::machine::spec_is_owner;
use crate::machine::spec_lacks_funds;
use crate::machine::spec_remove_ownership;
use crate::machine::spec_set_cooldown;
use crate::machine::spec_set_drip_amount;
use crate::machine::spec_start_stop;
use crate::machine::spec_transfer_ownership;
use crate::machine::AccountId;
use crate::machine::Balance;
use crate::machine::BlockNumber;
use crate::machine::Drip;
use crate::machine::ExecutionContext;
use crate::machine::FaucetError;
use crate::machine::FaucetModel;

verus! {

/// An inactive faucet refuses every drip with `NotActive` and changes
/// nothing, whatever the cooldown, balance and ownership state.
pub proof fn lemma_inactive_refuses_drip(m: FaucetModel, ctx: ExecutionContext)
    requires
        !m.active,
    ensures
        spec_drip(m, ctx).1 == Err::<Drip, FaucetError>(FaucetError::NotActive),
        spec_drip(m, ctx).0 == m,
{
}

/// After a successful drip at block `b`, a second drip by the same caller at
/// a block before `b + cooldown` (saturating) is refused with `InCoolDown`;
/// at `b + cooldown` or later it succeeds, provided the faucet is still
/// funded at the second call. Activation and the cooldown length carry over
/// from the first call unchanged, since a drip touches neither.
pub proof fn lemma_cooldown_window(m: FaucetModel, first: ExecutionContext, second: ExecutionContext)
    requires
        spec_drip(m, first).1 is Ok,
        second.caller == first.caller,
        !spec_lacks_funds(spec_drip(m, first).0, second.balance),
    ensures
        second.block_number < sat_add_block(first.block_number, m.cooldown) ==> spec_drip(
            spec_drip(m, first).0,
            second,
        ).1 == Err::<Drip, FaucetError>(FaucetError::InCoolDown),
        second.block_number >= sat_add_block(first.block_number, m.cooldown) ==> spec_drip(
            spec_drip(m, first).0,
            second,
        ).1 is Ok,
{
}

/// The funding guard of an active faucet: a balance at or below
/// `drip_amount + 1` (saturating) yields `NotEnoughFunds`; a strictly larger
/// balance passes the balance check, so the refusal, if any, is about the
/// cooldown instead.
pub proof fn lemma_funding_gate(m: FaucetModel, ctx: ExecutionContext)
    requires
        m.active,
    ensures
        spec_lacks_funds(m, ctx.balance) ==> spec_drip(m, ctx).1 == Err::<Drip, FaucetError>(
            FaucetError::NotEnoughFunds,
        ),
        !spec_lacks_funds(m, ctx.balance) ==> spec_drip(m, ctx).1 != Err::<Drip, FaucetError>(
            FaucetError::NotEnoughFunds,
        ),
{
}

/// A successful drip hands the host exactly one notification, carrying the
/// faucet's drip amount and the caller's identity.
pub proof fn lemma_drip_notification(m: FaucetModel, ctx: ExecutionContext)
    requires
        spec_drip(m, ctx).1 is Ok,
    ensures
        spec_drip(m, ctx).1 == Ok::<Drip, FaucetError>(
            Drip { value: m.drip_amount, to: ctx.caller },
        ),
{
}

/// Once ownership is renounced, every owner-gated operation fails with
/// `NotOwner` for every caller — the former owner included — and leaves the
/// state unchanged; and no transition of the machine brings ownership back,
/// so the same holds after any further operations.
pub proof fn lemma_renounced_gates_closed(
    m0: FaucetModel,
    renouncer: AccountId,
    ctx: ExecutionContext,
    new_cooldown: BlockNumber,
    new_amount: Balance,
    new_owner: AccountId,
)
    requires
        spec_remove_ownership(m0, renouncer).1 is Ok,
    ensures
        ({
            let m = spec_remove_ownership(m0, renouncer).0;
            &&& m.owner is None
            &&& spec_set_cooldown(m, ctx.caller, new_cooldown) == (
                m,
                Err::<(), FaucetError>(FaucetError::NotOwner),
            )
            &&& spec_start_stop(m, ctx.caller) == (m, Err::<(), FaucetError>(FaucetError::NotOwner))
            &&& spec_remove_ownership(m, ctx.caller) == (
                m,
                Err::<(), FaucetError>(FaucetError::NotOwner),
            )
            &&& spec_set_drip_amount(m, ctx.caller, new_amount) == (
                m,
                Err::<(), FaucetError>(FaucetError::NotOwner),
            )
            &&& spec_transfer_ownership(m, ctx.caller, new_owner) == (
                m,
                Err::<(), FaucetError>(FaucetError::NotOwner),
            )
            &&& spec_drip(m, ctx).0.owner is None
        }),
{
}

/// A drip touches nothing but the drip history: activation, cooldown, drip
/// amount and ownership carry over unchanged. A successful drip records
/// exactly the block at which it executed, under the caller's identity and
/// no other; a refused drip records nothing.
pub proof fn lemma_drip_frame(m: FaucetModel, ctx: ExecutionContext)
    ensures
        spec_drip(m, ctx).0.active == m.active,
        spec_drip(m, ctx).0.cooldown == m.cooldown,
        spec_drip(m, ctx).0.drip_amount == m.drip_amount,
        spec_drip(m, ctx).0.owner == m.owner,
        spec_drip(m, ctx).1 is Ok ==> spec_drip(m, ctx).0.last_request_of
            == m.last_request_of.insert(ctx.caller, ctx.block_number),
        spec_drip(m, ctx).1 is Err ==> spec_drip(m, ctx).0 == m,
{
}

/// Every refused operation leaves the state exactly as it was: a failure has
/// no partial effect.
pub proof fn lemma_refusal_has_no_effect(
    m: FaucetModel,
    ctx: ExecutionContext,
    new_cooldown: BlockNumber,
    new_amount: Balance,
    new_owner: AccountId,
)
    ensures
        spec_drip(m, ctx).1 is Err ==> spec_drip(m, ctx).0 == m,
        spec_set_cooldown(m, ctx.caller, new_cooldown).1 is Err ==> spec_set_cooldown(
            m,
            ctx.caller,
            new_cooldown,
        ).0 == m,
        spec_start_stop(m, ctx.caller).1 is Err ==> spec_start_stop(m, ctx.caller).0 == m,
        spec_remove_ownership(m, ctx.caller).1 is Err ==> spec_remove_ownership(m, ctx.caller).0
            == m,
        spec_set_drip_amount(m, ctx.caller, new_amount).1 is Err ==> spec_set_drip_amount(
            m,
            ctx.caller,
            new_amount,
        ).0 == m,
        spec_transfer_ownership(m, ctx.caller, new_owner).1 is Err ==> spec_transfer_ownership(
            m,
            ctx.caller,
            new_owner,
        ).0 == m,
{
}

/// Toggling activation twice in succession restores the whole state: the
/// toggle is its own inverse, from an active state as from an inactive one.
pub proof fn lemma_start_stop_involutive(m: FaucetModel, caller: AccountId)
    requires
        spec_is_owner(m, caller),
    ensures
        spec_start_stop(m, caller).0.active == !m.active,
        spec_start_stop(spec_start_stop(m, caller).0, caller).0 == m,
{
    assert(spec_start_stop(spec_start_stop(m, caller).0, caller).0 =~= m);
}

} // verus!
