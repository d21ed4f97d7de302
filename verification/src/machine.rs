//! The faucet state machine: its state, guards and transitions.
//!
//! Each operation takes the stored state together with an
//! [`ExecutionContext`], the host's read-only call snapshot, and either
//! mutates the state and reports what the host must do next (pay out, notify)
//! or returns a [`FaucetError`] and leaves the state untouched. The
//! mathematical meaning of every operation is a spec function over
//! [`FaucetModel`], and each executable operation is proved equal to it.

use std::collections::HashMap;
use vstd::prelude::*;

verus! {

broadcast use vstd::std_specs::hash::group_hash_axioms;

/// Block height: the host's monotonically increasing logical clock.
pub type BlockNumber = u32;

/// An amount of the native asset.
pub type Balance = u128;

/// A fixed-width account identity.
pub type AccountId = u64;

/// Read-only snapshot of the host environment, taken at call entry.
#[derive(Clone, Copy, Debug, PartialEq, Eq, Structural)]
pub struct ExecutionContext {
    /// The account making the call.
    pub caller: AccountId,
    /// The current block height.
    pub block_number: BlockNumber,
    /// The balance currently held by the contract.
    pub balance: Balance,
}

/// Why an operation was refused. No partial effect remains after a refusal.
#[derive(Clone, Copy, Debug, PartialEq, Eq, Structural)]
pub enum FaucetError {
    /// The caller's last drip plus the cooldown has not yet elapsed.
    InCoolDown,
    /// The faucet is switched off.
    NotActive,
    /// The balance cannot pay the drip amount and keep the one-unit reserve.
    NotEnoughFunds,
    /// The caller is not the owner, or ownership was renounced.
    NotOwner,
    /// A host-level storage fault: a key or value did not fit its buffer.
    /// The taxonomy reserves this kind for the host's key-value store; the
    /// explicit mapping kept here makes every lookup and write total, so no
    /// operation of this machine produces it.
    ValueTooLarge,
}

/// The notification a successful drip hands to the host, which publishes it
/// exactly once and transfers `value` to `to`.
#[derive(Clone, Copy, Debug, PartialEq, Eq, Structural)]
pub struct Drip {
    /// The amount transferred: always the faucet's drip amount.
    pub value: Balance,
    /// The receiving account: always the caller.
    pub to: AccountId,
}

/// The mathematical model of the faucet state.
#[verifier::ext_equal]
pub ghost struct FaucetModel {
    /// Whether drips are currently permitted.
    pub active: bool,
    /// Minimum number of blocks between successful drips to one account.
    pub cooldown: BlockNumber,
    /// Amount paid per successful drip.
    pub drip_amount: Balance,
    /// The administrator, if ownership has not been renounced.
    pub owner: Option<AccountId>,
    /// Block height of each account's last successful drip.
    pub last_request_of: Map<AccountId, BlockNumber>,
}

/// `a + b` clamped at the largest block number, so an absurdly large cooldown
/// cannot wrap around to a small effective value.
pub open spec fn sat_add_block(a: BlockNumber, b: BlockNumber) -> BlockNumber {
    if a + b > u32::MAX {
        u32::MAX
    } else {
        (a + b) as u32
    }
}

/// `a + b` clamped at the largest balance.
pub open spec fn sat_add_balance(a: Balance, b: Balance) -> Balance {
    if a + b > u128::MAX {
        u128::MAX
    } else {
        (a + b) as u128
    }
}

/// Whether `caller` holds the owner capability in state `m`.
pub open spec fn spec_is_owner(m: FaucetModel, caller: AccountId) -> bool {
    m.owner == Some(caller)
}

/// Whether the balance is too low for a safe drip: paying must leave strictly
/// more than one unit behind, so the contract account never empties.
pub open spec fn spec_lacks_funds(m: FaucetModel, balance: Balance) -> bool {
    sat_add_balance(m.drip_amount, 1) >= balance
}

/// Whether `caller` is still inside the cooldown window at `block`. An
/// account with no recorded drip is never in cooldown.
pub open spec fn spec_in_cooldown(m: FaucetModel, caller: AccountId, block: BlockNumber) -> bool {
    m.last_request_of.contains_key(caller) && sat_add_block(
        m.last_request_of[caller],
        m.cooldown,
    ) > block
}

/// The state a fresh faucet starts in: inactive, owned by its creator, with
/// no drip history.
pub open spec fn spec_new(
    cooldown: BlockNumber,
    drip_amount: Balance,
    creator: AccountId,
) -> FaucetModel {
    FaucetModel {
        active: false,
        cooldown,
        drip_amount,
        owner: Some(creator),
        last_request_of: Map::empty(),
    }
}

/// The drip transition: the next state, and the notification to publish or
/// the refusal. The guards run in a fixed order — activation, then funding,
/// then cooldown — so the first failing guard names the error.
pub open spec fn spec_drip(m: FaucetModel, ctx: ExecutionContext) -> (
    FaucetModel,
    Result<Drip, FaucetError>,
) {
    if !m.active {
        (m, Err(FaucetError::NotActive))
    } else if spec_lacks_funds(m, ctx.balance) {
        (m, Err(FaucetError::NotEnoughFunds))
    } else if spec_in_cooldown(m, ctx.caller, ctx.block_number) {
        (m, Err(FaucetError::InCoolDown))
    } else {
        (
            FaucetModel {
                active: m.active,
                cooldown: m.cooldown,
                drip_amount: m.drip_amount,
                owner: m.owner,
                last_request_of: m.last_request_of.insert(ctx.caller, ctx.block_number),
            },
            Ok(Drip { value: m.drip_amount, to: ctx.caller }),
        )
    }
}

/// The cooldown update: owner-gated, otherwise unconditional.
pub open spec fn spec_set_cooldown(
    m: FaucetModel,
    caller: AccountId,
    new_cooldown: BlockNumber,
) -> (FaucetModel, Result<(), FaucetError>) {
    if spec_is_owner(m, caller) {
        (
            FaucetModel {
                active: m.active,
                cooldown: new_cooldown,
                drip_amount: m.drip_amount,
                owner: m.owner,
                last_request_of: m.last_request_of,
            },
            Ok(()),
        )
    } else {
        (m, Err(FaucetError::NotOwner))
    }
}

/// The activation toggle: owner-gated; toggling is the only primitive, so
/// two successive toggles restore the original state.
pub open spec fn spec_start_stop(m: FaucetModel, caller: AccountId) -> (
    FaucetModel,
    Result<(), FaucetError>,
) {
    if spec_is_owner(m, caller) {
        (
            FaucetModel {
                active: !m.active,
                cooldown: m.cooldown,
                drip_amount: m.drip_amount,
                owner: m.owner,
                last_request_of: m.last_request_of,
            },
            Ok(()),
        )
    } else {
        (m, Err(FaucetError::NotOwner))
    }
}

/// The renunciation of ownership: owner-gated and irreversible — no
/// transition of this machine maps an ownerless state to an owned one.
pub open spec fn spec_remove_ownership(m: FaucetModel, caller: AccountId) -> (
    FaucetModel,
    Result<(), FaucetError>,
) {
    if spec_is_owner(m, caller) {
        (
            FaucetModel {
                active: m.active,
                cooldown: m.cooldown,
                drip_amount: m.drip_amount,
                owner: None,
                last_request_of: m.last_request_of,
            },
            Ok(()),
        )
    } else {
        (m, Err(FaucetError::NotOwner))
    }
}

/// The drip-amount update: owner-gated, otherwise unconditional.
pub open spec fn spec_set_drip_amount(
    m: FaucetModel,
    caller: AccountId,
    new_amount: Balance,
) -> (FaucetModel, Result<(), FaucetError>) {
    if spec_is_owner(m, caller) {
        (
            FaucetModel {
                active: m.active,
                cooldown: m.cooldown,
                drip_amount: new_amount,
                owner: m.owner,
                last_request_of: m.last_request_of,
            },
            Ok(()),
        )
    } else {
        (m, Err(FaucetError::NotOwner))
    }
}

/// The ownership transfer: owner-gated; the new owner may be any identity,
/// including the current one.
pub open spec fn spec_transfer_ownership(
    m: FaucetModel,
    caller: AccountId,
    new_owner: AccountId,
) -> (FaucetModel, Result<(), FaucetError>) {
    if spec_is_owner(m, caller) {
        (
            FaucetModel {
                active: m.active,
                cooldown: m.cooldown,
                drip_amount: m.drip_amount,
                owner: Some(new_owner),
                last_request_of: m.last_request_of,
            },
            Ok(()),
        )
    } else {
        (m, Err(FaucetError::NotOwner))
    }
}

/// The faucet's persistent state. Mutated only through the operations below;
/// its meaning is the [`FaucetModel`] its view gives.
pub struct Faucet {
    active: bool,
    cooldown: BlockNumber,
    drip_amount: Balance,
    owner: Option<AccountId>,
    last_request_of: HashMap<AccountId, BlockNumber>,
}

impl View for Faucet {
    type V = FaucetModel;

    closed spec fn view(&self) -> FaucetModel {
        FaucetModel {
            active: self.active,
            cooldown: self.cooldown,
            drip_amount: self.drip_amount,
            owner: self.owner,
            last_request_of: self.last_request_of@,
        }
    }
}

impl Faucet {
    /// Instantiate the faucet with the given cooldown and drip amount. The
    /// creator named by `ctx` becomes the owner; the faucet starts inactive.
    /// Any funding attached at creation lives in the host's balance, which
    /// every later call reads from its own context snapshot.
    pub fn new(cooldown: BlockNumber, drip_amount: Balance, ctx: &ExecutionContext) -> (f: Faucet)
        ensures
            f@ == spec_new(cooldown, drip_amount, ctx.caller),
    {
        Faucet {
            active: false,
            cooldown,
            drip_amount,
            owner: Some(ctx.caller),
            last_request_of: HashMap::new(),
        }
    }

    /// The faucet's cooldown, in blocks.
    pub fn cooldown(&self) -> (r: BlockNumber)
        ensures
            r == self@.cooldown,
    {
        self.cooldown
    }

    /// The faucet's drip amount.
    pub fn drip_amount(&self) -> (r: Balance)
        ensures
            r == self@.drip_amount,
    {
        self.drip_amount
    }

    /// Whether the faucet is active.
    pub fn is_active(&self) -> (r: bool)
        ensures
            r == self@.active,
    {
        self.active
    }

    /// The block height of the caller's last successful drip, or `None` if
    /// the caller has never received one.
    pub fn last_request_of(&self, ctx: &ExecutionContext) -> (r: Option<BlockNumber>)
        ensures
            r == (if self@.last_request_of.contains_key(ctx.caller) {
                Some(self@.last_request_of[ctx.caller])
            } else {
                None::<BlockNumber>
            }),
    {
        match self.last_request_of.get(&ctx.caller) {
            Some(block) => Some(*block),
            None => None,
        }
    }

    /// The owner account, or `None` once ownership has been renounced.
    pub fn owner(&self) -> (r: Option<AccountId>)
        ensures
            r == self@.owner,
    {
        self.owner
    }

    /// Guard: the faucet must be switched on.
    fn ensure_active(&self) -> (r: Result<(), FaucetError>)
        ensures
            r == (if self@.active {
                Ok::<(), FaucetError>(())
            } else {
                Err::<(), FaucetError>(FaucetError::NotActive)
            }),
    {
        if !self.active {
            return Err(FaucetError::NotActive);
        }
        Ok(())
    }

    /// Guard: the caller must hold the owner capability. Once ownership is
    /// renounced, no caller can ever satisfy this again.
    fn ensure_owner(&self, ctx: &ExecutionContext) -> (r: Result<(), FaucetError>)
        ensures
            r == (if spec_is_owner(self@, ctx.caller) {
                Ok::<(), FaucetError>(())
            } else {
                Err::<(), FaucetError>(FaucetError::NotOwner)
            }),
    {
        let owned: bool = match self.owner {
            Some(owner) => owner == ctx.caller,
            None => false,
        };
        if !owned {
            return Err(FaucetError::NotOwner);
        }
        Ok(())
    }

    /// Guard: the caller must be out of its cooldown window. An account with
    /// no recorded drip may always request; the threshold addition saturates,
    /// so a huge cooldown cannot wrap around to a small one.
    fn can_request(&self, ctx: &ExecutionContext) -> (r: Result<(), FaucetError>)
        ensures
            r == (if spec_in_cooldown(self@, ctx.caller, ctx.block_number) {
                Err::<(), FaucetError>(FaucetError::InCoolDown)
            } else {
                Ok::<(), FaucetError>(())
            }),
    {
        match self.last_request_of.get(&ctx.caller) {
            Some(last_drip) => {
                if last_drip.saturating_add(self.cooldown) > ctx.block_number {
                    Err(FaucetError::InCoolDown)
                } else {
                    Ok(())
                }
            },
            None => Ok(()),
        }
    }

    /// Guard: the balance must cover the drip amount and keep a reserve of
    /// one unit, so the contract account never empties. The addition
    /// saturates, so a huge drip amount cannot wrap into a small demand.
    fn can_withdraw(&self, ctx: &ExecutionContext) -> (r: Result<(), FaucetError>)
        ensures
            r == (if spec_lacks_funds(self@, ctx.balance) {
                Err::<(), FaucetError>(FaucetError::NotEnoughFunds)
            } else {
                Ok::<(), FaucetError>(())
            }),
    {
        if self.drip_amount.saturating_add(1) >= ctx.balance {
            return Err(FaucetError::NotEnoughFunds);
        }
        Ok(())
    }

    /// Pay the drip amount to the caller: checks activation, then funding,
    /// then cooldown — the first failing guard names the error and nothing
    /// changes. On success the caller's drip height is recorded at the
    /// current block and the returned [`Drip`] tells the host to transfer
    /// `value` to `to` and publish the notification, exactly once.
    pub fn drip(&mut self, ctx: &ExecutionContext) -> (r: Result<Drip, FaucetError>)
        ensures
            final(self)@ == spec_drip(old(self)@, *ctx).0,
            r == spec_drip(old(self)@, *ctx).1,
    {
        match self.ensure_active() {
            Ok(()) => (),
            Err(e) => {
                return Err(e);
            },
        }
        match self.can_withdraw(ctx) {
            Ok(()) => (),
            Err(e) => {
                return Err(e);
            },
        }
        match self.can_request(ctx) {
            Ok(()) => (),
            Err(e) => {
                return Err(e);
            },
        }
        self.last_request_of.insert(ctx.caller, ctx.block_number);
        Ok(Drip { value: self.drip_amount, to: ctx.caller })
    }

    /// Set a new cooldown: owner-gated, no bound on the value.
    pub fn set_cooldown(&mut self, ctx: &ExecutionContext, cooldown: BlockNumber) -> (r: Result<
        (),
        FaucetError,
    >)
        ensures
            final(self)@ == spec_set_cooldown(old(self)@, ctx.caller, cooldown).0,
            r == spec_set_cooldown(old(self)@, ctx.caller, cooldown).1,
    {
        match self.ensure_owner(ctx) {
            Ok(()) => (),
            Err(e) => {
                return Err(e);
            },
        }
        self.cooldown = cooldown;
        Ok(())
    }

    /// Toggle the faucet between active and inactive: owner-gated. Toggling
    /// is the only primitive; there is no "already active" error.
    pub fn start_stop(&mut self, ctx: &ExecutionContext) -> (r: Result<(), FaucetError>)
        ensures
            final(self)@ == spec_start_stop(old(self)@, ctx.caller).0,
            r == spec_start_stop(old(self)@, ctx.caller).1,
    {
        match self.ensure_owner(ctx) {
            Ok(()) => (),
            Err(e) => {
                return Err(e);
            },
        }
        self.active = !self.active;
        Ok(())
    }

    /// Renounce ownership: owner-gated and irreversible. Every owner-gated
    /// operation becomes permanently unreachable.
    pub fn remove_ownership(&mut self, ctx: &ExecutionContext) -> (r: Result<(), FaucetError>)
        ensures
            final(self)@ == spec_remove_ownership(old(self)@, ctx.caller).0,
            r == spec_remove_ownership(old(self)@, ctx.caller).1,
    {
        match self.ensure_owner(ctx) {
            Ok(()) => (),
            Err(e) => {
                return Err(e);
            },
        }
        self.owner = None;
        Ok(())
    }

    /// Set a new drip amount: owner-gated, no bound on the value. A value
    /// above the balance simply makes later drips fail `NotEnoughFunds`.
    pub fn set_drip_amount(&mut self, ctx: &ExecutionContext, drip_amount: Balance) -> (r: Result<
        (),
        FaucetError,
    >)
        ensures
            final(self)@ == spec_set_drip_amount(old(self)@, ctx.caller, drip_amount).0,
            r == spec_set_drip_amount(old(self)@, ctx.caller, drip_amount).1,
    {
        match self.ensure_owner(ctx) {
            Ok(()) => (),
            Err(e) => {
                return Err(e);
            },
        }
        self.drip_amount = drip_amount;
        Ok(())
    }

    /// Hand ownership to another account: owner-gated. No check that the new
    /// owner differs from the current one.
    pub fn transfer_ownership(&mut self, ctx: &ExecutionContext, new_owner: AccountId) -> (r:
        Result<(), FaucetError>)
        ensures
            final(self)@ == spec_transfer_ownership(old(self)@, ctx.caller, new_owner).0,
            r == spec_transfer_ownership(old(self)@, ctx.caller, new_owner).1,
    {
        match self.ensure_owner(ctx) {
            Ok(()) => (),
            Err(e) => {
                return Err(e);
            },
        }
        self.owner = Some(new_owner);
        Ok(())
    }
}

} // verus!
