use amm_staking::error::SwapError;
use amm_staking::settlement::{Action, Settlement, Stage};
use amm_staking::transfer::{Authority, TokenAccount, Transfer, TransferError};

fn inbound() -> Transfer {
    Transfer {
        from: TokenAccount::UserX,
        to: TokenAccount::VaultX,
        authority: Authority::User,
        amount: 100,
    }
}

fn outbound() -> Transfer {
    Transfer {
        from: TokenAccount::VaultY,
        to: TokenAccount::UserY,
        authority: Authority::Config { seed: 7, bump: 254 },
        amount: 90,
    }
}

#[test]
fn settlement_asks_for_the_inbound_transfer_first() {
    let settlement = Settlement::begin(inbound(), outbound());
    assert_eq!(settlement.stage, Stage::Inbound);
    assert_eq!(settlement.inbound, inbound());
    assert_eq!(settlement.outbound, outbound());
    assert_eq!(settlement.action(), Action::Transfer(inbound()));
    assert_eq!(settlement.result(), None);
}

#[test]
fn settlement_commits_after_both_transfers() {
    let settlement = Settlement::begin(inbound(), outbound());
    let (settlement, action) = settlement.step(Ok(()));
    assert_eq!(settlement.stage, Stage::Outbound);
    assert_eq!(action, Action::Transfer(outbound()));
    assert_eq!(settlement.result(), None);
    let (settlement, action) = settlement.step(Ok(()));
    assert_eq!(settlement.stage, Stage::Committed);
    assert_eq!(action, Action::Commit);
    assert_eq!(settlement.result(), Some(Ok(())));
}

#[test]
fn refused_inbound_transfer_aborts_before_the_payout() {
    let refusal = TransferError { code: 1 };
    let settlement = Settlement::begin(inbound(), outbound());
    let (settlement, action) = settlement.step(Err(refusal));
    assert_eq!(settlement.stage, Stage::Aborted(refusal));
    assert_eq!(action, Action::Abort(refusal));
    assert_eq!(settlement.result(), Some(Err(SwapError::TransferError(refusal))));
}

#[test]
fn refused_outbound_transfer_aborts_the_whole_swap() {
    let refusal = TransferError { code: 0xdead_beef };
    let settlement = Settlement::begin(inbound(), outbound());
    let (settlement, _) = settlement.step(Ok(()));
    let (settlement, action) = settlement.step(Err(refusal));
    assert_eq!(settlement.stage, Stage::Aborted(refusal));
    assert_eq!(action, Action::Abort(refusal));
    assert_eq!(settlement.result(), Some(Err(SwapError::TransferError(refusal))));
}

#[test]
fn ended_settlement_ignores_what_it_is_told() {
    let first = TransferError { code: 4 };
    let later = TransferError { code: 5 };
    let settlement = Settlement::begin(inbound(), outbound());
    let (aborted, _) = settlement.step(Err(first));
    let (still_aborted, action) = aborted.step(Ok(()));
    assert_eq!(still_aborted, aborted);
    assert_eq!(action, Action::Abort(first));
    let (still_aborted, action) = aborted.step(Err(later));
    assert_eq!(still_aborted, aborted);
    assert_eq!(action, Action::Abort(first));

    let (halfway, _) = settlement.step(Ok(()));
    let (committed, _) = halfway.step(Ok(()));
    let (still_committed, action) = committed.step(Err(later));
    assert_eq!(still_committed, committed);
    assert_eq!(action, Action::Commit);
    let (still_committed, action) = committed.step(Ok(()));
    assert_eq!(still_committed, committed);
    assert_eq!(action, Action::Commit);
}

#[test]
fn steps_never_change_the_transfers() {
    let settlement = Settlement::begin(inbound(), outbound());
    let (one, _) = settlement.step(Ok(()));
    let (two, _) = one.step(Err(TransferError { code: 9 }));
    for seen in [one, two] {
        assert_eq!(seen.inbound, inbound());
        assert_eq!(seen.outbound, outbound());
    }
}
