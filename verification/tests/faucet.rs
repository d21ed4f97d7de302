use faucet::Drip;
use faucet::ExecutionContext;
use faucet::Faucet;
use faucet::FaucetError;

fn ctx(caller: u64, block_number: u32, balance: u128) -> ExecutionContext {
    ExecutionContext { caller, block_number, balance }
}

const OWNER: u64 = 1;
const USER: u64 = 2;
const OTHER: u64 = 3;

/// An active, owned faucet, as an owner would set one up.
fn active_faucet(cooldown: u32, drip_amount: u128) -> Faucet {
    let creation = ctx(OWNER, 0, 0);
    let mut f = Faucet::new(cooldown, drip_amount, &creation);
    f.start_stop(&creation).unwrap();
    f
}

#[test]
fn test_new_defaults() {
    let creation = ctx(OWNER, 0, 1000);
    let f = Faucet::new(10, 100, &creation);
    assert_eq!(f.cooldown(), 10);
    assert_eq!(f.drip_amount(), 100);
    assert!(!f.is_active());
    assert_eq!(f.owner(), Some(OWNER));
    assert_eq!(f.last_request_of(&ctx(OWNER, 0, 1000)), None);
    assert_eq!(f.last_request_of(&ctx(USER, 0, 1000)), None);
}

#[test]
fn test_drip_when_inactive_fails_not_active() {
    let mut f = Faucet::new(10, 100, &ctx(OWNER, 0, 0));
    // A fresh faucet is inactive: a generously funded request still fails.
    assert_eq!(f.drip(&ctx(USER, 0, 1_000_000)), Err(FaucetError::NotActive));
    // The owner is refused the same way, and so is an underfunded call:
    // the activation guard runs first.
    assert_eq!(f.drip(&ctx(OWNER, 5, 1_000_000)), Err(FaucetError::NotActive));
    assert_eq!(f.drip(&ctx(USER, 5, 0)), Err(FaucetError::NotActive));
    assert_eq!(f.last_request_of(&ctx(USER, 5, 0)), None);
}

#[test]
fn test_cooldown_window() {
    let mut f = active_faucet(4, 100);
    assert_eq!(f.drip(&ctx(USER, 3, 1000)), Ok(Drip { value: 100, to: USER }));
    // Before block 3 + 4 the same caller is in cooldown.
    assert_eq!(f.drip(&ctx(USER, 4, 900)), Err(FaucetError::InCoolDown));
    assert_eq!(f.drip(&ctx(USER, 6, 900)), Err(FaucetError::InCoolDown));
    // At block 3 + 4 exactly, the drip succeeds again.
    assert_eq!(f.drip(&ctx(USER, 7, 900)), Ok(Drip { value: 100, to: USER }));
    assert_eq!(f.last_request_of(&ctx(USER, 7, 800)), Some(7));
}

#[test]
fn test_funding_gate() {
    let mut f = active_faucet(10, 100);
    // 100 + 1 >= 101: refused, and the balance must stay above the reserve.
    assert_eq!(f.drip(&ctx(USER, 0, 101)), Err(FaucetError::NotEnoughFunds));
    // 100 + 1 >= 100 as well.
    assert_eq!(f.drip(&ctx(USER, 0, 100)), Err(FaucetError::NotEnoughFunds));
    // 100 + 1 < 102: the balance check passes and the drip goes through.
    assert_eq!(f.drip(&ctx(USER, 0, 102)), Ok(Drip { value: 100, to: USER }));
}

#[test]
fn test_funding_checked_before_cooldown() {
    let mut f = active_faucet(10, 100);
    assert_eq!(f.drip(&ctx(USER, 0, 1000)), Ok(Drip { value: 100, to: USER }));
    // The caller is now in cooldown, but an underfunded faucet reports the
    // funding failure first.
    assert_eq!(f.drip(&ctx(USER, 1, 50)), Err(FaucetError::NotEnoughFunds));
    assert_eq!(f.drip(&ctx(USER, 1, 900)), Err(FaucetError::InCoolDown));
}

#[test]
fn test_drip_notification_names_caller_and_amount() {
    let mut f = active_faucet(10, 250);
    let note = f.drip(&ctx(USER, 8, 1000)).unwrap();
    assert_eq!(note, Drip { value: 250, to: USER });
    let note = f.drip(&ctx(OTHER, 8, 750)).unwrap();
    assert_eq!(note, Drip { value: 250, to: OTHER });
}

#[test]
fn test_remove_ownership_closes_every_gate() {
    let mut f = active_faucet(10, 100);
    assert_eq!(f.remove_ownership(&ctx(OWNER, 0, 0)), Ok(()));
    assert_eq!(f.owner(), None);
    // Every owner-gated operation now fails for every caller, the former
    // owner included, and the state stays as it was.
    for caller in [OWNER, USER, OTHER] {
        let c = ctx(caller, 1, 0);
        assert_eq!(f.set_cooldown(&c, 99), Err(FaucetError::NotOwner));
        assert_eq!(f.start_stop(&c), Err(FaucetError::NotOwner));
        assert_eq!(f.remove_ownership(&c), Err(FaucetError::NotOwner));
        assert_eq!(f.set_drip_amount(&c, 99), Err(FaucetError::NotOwner));
        assert_eq!(f.transfer_ownership(&c, caller), Err(FaucetError::NotOwner));
    }
    assert_eq!(f.cooldown(), 10);
    assert_eq!(f.drip_amount(), 100);
    assert!(f.is_active());
    assert_eq!(f.owner(), None);
    // Drips themselves need no owner and still work.
    assert_eq!(f.drip(&ctx(USER, 1, 1000)), Ok(Drip { value: 100, to: USER }));
}

#[test]
fn test_start_stop_is_its_own_inverse() {
    let mut f = active_faucet(10, 100);
    assert!(f.is_active());
    assert_eq!(f.start_stop(&ctx(OWNER, 0, 0)), Ok(()));
    assert!(!f.is_active());
    assert_eq!(f.start_stop(&ctx(OWNER, 0, 0)), Ok(()));
    assert!(f.is_active());
}

#[test]
fn test_scenario_drip_flow() {
    // Created with cooldown 10 and drip amount 100, funded with 1000.
    let creation = ctx(OWNER, 0, 1000);
    let mut f = Faucet::new(10, 100, &creation);
    f.start_stop(&creation).unwrap();
    let mut balance: u128 = 1000;

    // Block 0: account X drips successfully; the host pays out.
    let note = f.drip(&ctx(USER, 0, balance)).unwrap();
    balance -= note.value;
    assert_eq!(balance, 900);
    assert_eq!(f.last_request_of(&ctx(USER, 0, balance)), Some(0));

    // Block 5: X is still in cooldown.
    assert_eq!(f.drip(&ctx(USER, 5, balance)), Err(FaucetError::InCoolDown));
    assert_eq!(balance, 900);

    // Block 10: the cooldown has elapsed; X drips again.
    let note = f.drip(&ctx(USER, 10, balance)).unwrap();
    balance -= note.value;
    assert_eq!(balance, 800);
    assert_eq!(f.last_request_of(&ctx(USER, 10, balance)), Some(10));
}

#[test]
fn test_scenario_exact_funding_refused() {
    // Drip amount 1000, funded with exactly 1000: 1000 + 1 >= 1000.
    let creation = ctx(OWNER, 0, 1000);
    let mut f = Faucet::new(0, 1000, &creation);
    f.start_stop(&creation).unwrap();
    assert_eq!(f.drip(&ctx(USER, 0, 1000)), Err(FaucetError::NotEnoughFunds));
}

#[test]
fn test_scenario_non_owner_set_cooldown() {
    let mut f = Faucet::new(10, 100, &ctx(OWNER, 0, 0));
    assert_eq!(f.set_cooldown(&ctx(USER, 0, 0), 3), Err(FaucetError::NotOwner));
    assert_eq!(f.cooldown(), 10);
}

#[test]
fn test_owner_updates() {
    let owner_ctx = ctx(OWNER, 0, 0);
    let mut f = Faucet::new(10, 100, &owner_ctx);
    assert_eq!(f.set_cooldown(&owner_ctx, 3), Ok(()));
    assert_eq!(f.cooldown(), 3);
    assert_eq!(f.set_drip_amount(&owner_ctx, 555), Ok(()));
    assert_eq!(f.drip_amount(), 555);
}

#[test]
fn test_transfer_ownership_moves_the_gate() {
    let mut f = Faucet::new(10, 100, &ctx(OWNER, 0, 0));
    assert_eq!(f.transfer_ownership(&ctx(OWNER, 0, 0), USER), Ok(()));
    assert_eq!(f.owner(), Some(USER));
    // The former owner is now refused; the new owner is obeyed.
    assert_eq!(f.set_cooldown(&ctx(OWNER, 0, 0), 3), Err(FaucetError::NotOwner));
    assert_eq!(f.set_cooldown(&ctx(USER, 0, 0), 3), Ok(()));
    assert_eq!(f.cooldown(), 3);
    // Transferring to the current owner is allowed and changes nothing.
    assert_eq!(f.transfer_ownership(&ctx(USER, 0, 0), USER), Ok(()));
    assert_eq!(f.owner(), Some(USER));
}

#[test]
fn test_zero_cooldown_means_no_waiting() {
    let mut f = active_faucet(0, 100);
    assert_eq!(f.drip(&ctx(USER, 4, 1000)), Ok(Drip { value: 100, to: USER }));
    // Same block, same caller: 4 + 0 <= 4, so no cooldown applies.
    assert_eq!(f.drip(&ctx(USER, 4, 900)), Ok(Drip { value: 100, to: USER }));
}

#[test]
fn test_zero_drip_amount_still_reserves_one_unit() {
    let mut f = active_faucet(0, 0);
    // 0 + 1 >= 1: even a zero drip needs the balance strictly above one.
    assert_eq!(f.drip(&ctx(USER, 0, 1)), Err(FaucetError::NotEnoughFunds));
    assert_eq!(f.drip(&ctx(USER, 0, 2)), Ok(Drip { value: 0, to: USER }));
}

#[test]
fn test_huge_cooldown_saturates() {
    let mut f = active_faucet(u32::MAX, 100);
    assert_eq!(f.drip(&ctx(USER, 5, 1000)), Ok(Drip { value: 100, to: USER }));
    // 5 + u32::MAX clamps to u32::MAX instead of wrapping to 4, so the
    // caller stays in cooldown even at the last representable block.
    assert_eq!(f.drip(&ctx(USER, u32::MAX - 1, 900)), Err(FaucetError::InCoolDown));
    // u32::MAX >= the clamped threshold: the window does end there.
    assert_eq!(f.drip(&ctx(USER, u32::MAX, 900)), Ok(Drip { value: 100, to: USER }));
}

#[test]
fn test_huge_drip_amount_saturates() {
    let mut f = active_faucet(0, u128::MAX);
    // u128::MAX + 1 clamps to u128::MAX instead of wrapping to 0, so no
    // balance can satisfy the funding guard.
    assert_eq!(f.drip(&ctx(USER, 0, u128::MAX)), Err(FaucetError::NotEnoughFunds));
}

#[test]
fn test_cooldowns_are_per_account() {
    let mut f = active_faucet(10, 100);
    assert_eq!(f.drip(&ctx(USER, 0, 1000)), Ok(Drip { value: 100, to: USER }));
    // Another account is not held up by X's cooldown.
    assert_eq!(f.drip(&ctx(OTHER, 0, 900)), Ok(Drip { value: 100, to: OTHER }));
    assert_eq!(f.last_request_of(&ctx(USER, 1, 800)), Some(0));
    assert_eq!(f.last_request_of(&ctx(OTHER, 1, 800)), Some(0));
    assert_eq!(f.last_request_of(&ctx(OWNER, 1, 800)), None);
}

#[test]
fn test_failed_drip_records_nothing() {
    let mut f = active_faucet(10, 100);
    assert_eq!(f.drip(&ctx(USER, 0, 50)), Err(FaucetError::NotEnoughFunds));
    assert_eq!(f.last_request_of(&ctx(USER, 0, 50)), None);
    assert_eq!(f.drip(&ctx(USER, 3, 1000)), Ok(Drip { value: 100, to: USER }));
    assert_eq!(f.drip(&ctx(USER, 4, 900)), Err(FaucetError::InCoolDown));
    // The refused attempt did not move the recorded height.
    assert_eq!(f.last_request_of(&ctx(USER, 4, 900)), Some(3));
}
