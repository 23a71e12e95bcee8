use superfan_ledger::asset::{TokenAccount, Transfer};
use superfan_ledger::error::ErrorKind;
use superfan_ledger::governance::Verdict;
use superfan_ledger::identity::Address;
use superfan_ledger::label_subdao::{
    draw_credit, execute_artist_funding, reject_artist_proposal, repay_credit, settle_with_dao,
    submit_artist_proposal, ArtistProposal, ArtistProposalStatus, CreditLine, DrawCredit,
    ExecuteFunding, LabelError, LabelExternal, RejectProposal, RepayCredit, SettleWithDAO,
    SubmitProposal,
};

fn id(n: u8) -> Address {
    Address { bytes: [n; 32] }
}

const DAO: u8 = 10;
const LABEL: u8 = 11;
const LABEL_MINT: u8 = 12;
const LABEL_TREASURY: u8 = 13;
const ARTIST: u8 = 14;
const ARTIST_USDC: u8 = 15;
const PROPOSAL: u8 = 16;
const CREDIT_LINE: u8 = 17;
const DAO_TREASURY: u8 = 18;
const OTHER: u8 = 19;
const NOW: i64 = 1_700_000_123;

fn label(committed: u64) -> LabelExternal {
    LabelExternal {
        dao: id(DAO),
        name: String::from("Delacour Recordings"),
        label_token_mint: id(LABEL_MINT),
        treasury: id(LABEL_TREASURY),
        initial_funding: 10_000,
        total_deployed: 0,
        total_repaid: 0,
        committed_amount: committed,
        is_active: true,
        bump: 250,
    }
}

fn treasury(balance: u64) -> TokenAccount {
    TokenAccount { key: id(LABEL_TREASURY), owner: id(LABEL), amount: balance }
}

fn submit_ctx(label: LabelExternal, balance: u64) -> SubmitProposal {
    SubmitProposal {
        label,
        label_key: id(LABEL),
        label_treasury: treasury(balance),
        artist: id(ARTIST),
        proposal_bump: 3,
        unix_timestamp: NOW,
    }
}

fn submit(ctx: &SubmitProposal, amount: u64) -> Result<ArtistProposal, LabelError> {
    submit_artist_proposal(
        ctx,
        String::from("Nova"),
        String::from("nova-2024"),
        amount,
        String::from("A tour of twelve cities."),
        90_000,
    )
}

fn execute_ctx(label: LabelExternal, balance: u64, proposal: ArtistProposal) -> ExecuteFunding {
    ExecuteFunding {
        label,
        label_key: id(LABEL),
        label_treasury: treasury(balance),
        proposal,
        proposal_key: id(PROPOSAL),
        credit_line_key: id(CREDIT_LINE),
        credit_line_bump: 9,
        oracle: id(DAO),
        verdict: Verdict::Passed,
        unix_timestamp: NOW + 10,
    }
}

fn line(limit: u64) -> CreditLine {
    CreditLine {
        label: id(LABEL),
        proposal: id(PROPOSAL),
        artist: id(ARTIST),
        campaign_id: String::from("nova-2024"),
        credit_limit: limit,
        credit_used: 0,
        credit_repaid: 0,
        created_at: NOW,
        is_active: true,
        bump: 9,
    }
}

fn draw_ctx(label: LabelExternal, credit_line: CreditLine) -> DrawCredit {
    DrawCredit {
        label,
        label_key: id(LABEL),
        credit_line,
        label_treasury: treasury(10_000),
        artist_account: TokenAccount { key: id(ARTIST_USDC), owner: id(ARTIST), amount: 0 },
        artist: id(ARTIST),
    }
}

fn repay_ctx(label: LabelExternal, credit_line: CreditLine) -> RepayCredit {
    RepayCredit {
        label,
        label_key: id(LABEL),
        credit_line,
        artist_account: TokenAccount { key: id(ARTIST_USDC), owner: id(ARTIST), amount: 5_000 },
        label_treasury: treasury(10_000),
        artist: id(ARTIST),
    }
}

fn settle_ctx(label: LabelExternal, balance: u64) -> SettleWithDAO {
    SettleWithDAO {
        label,
        label_key: id(LABEL),
        label_treasury: treasury(balance),
        dao_treasury: TokenAccount { key: id(DAO_TREASURY), owner: id(DAO), amount: 0 },
        caller: id(OTHER),
    }
}

#[test]
fn submit_creates_a_pending_proposal() {
    let ctx = submit_ctx(label(0), 10_000);
    let proposal = submit(&ctx, 6_000).unwrap();
    assert_eq!(
        proposal,
        ArtistProposal {
            label: id(LABEL),
            artist: id(ARTIST),
            artist_name: String::from("Nova"),
            campaign_id: String::from("nova-2024"),
            requested_amount: 6_000,
            campaign_description: String::from("A tour of twelve cities."),
            revenue_projection: 90_000,
            status: ArtistProposalStatus::Pending,
            submitted_at: NOW,
            approved_at: None,
            rejection_reason: None,
            credit_line: None,
            metadao_proposal: None,
            bump: 3,
        }
    );
}

#[test]
fn submit_looks_at_available_funds_not_at_the_balance() {
    // 10,000 held, 6,000 committed: 4,000 available
    let ctx = submit_ctx(label(6_000), 10_000);
    assert_eq!(submit(&ctx, 5_000), Err(LabelError::InsufficientLabelFunds));
    assert_eq!(submit(&ctx, 4_001), Err(LabelError::InsufficientLabelFunds));
    assert!(submit(&ctx, 4_000).is_ok());
    // with nothing committed the whole balance is available
    let ctx = submit_ctx(label(0), 10_000);
    assert!(submit(&ctx, 10_000).is_ok());
    assert_eq!(submit(&ctx, 10_001), Err(LabelError::InsufficientLabelFunds));
}

#[test]
fn submit_rejections_in_order() {
    let ctx = submit_ctx(label(0), 10_000);
    let ok_name = || String::from("Nova");
    let ok_id = || String::from("nova-2024");
    let ok_text = || String::from("pitch");
    assert_eq!(
        submit_artist_proposal(&ctx, "n".repeat(51), "i".repeat(51), 0, "d".repeat(501), 0),
        Err(LabelError::NameTooLong)
    );
    assert_eq!(
        submit_artist_proposal(&ctx, ok_name(), "i".repeat(51), 0, "d".repeat(501), 0),
        Err(LabelError::IdTooLong)
    );
    assert_eq!(
        submit_artist_proposal(&ctx, ok_name(), ok_id(), 0, "d".repeat(501), 0),
        Err(LabelError::InvalidAmount)
    );
    assert_eq!(
        submit_artist_proposal(&ctx, ok_name(), ok_id(), 1, "d".repeat(501), 0),
        Err(LabelError::DescriptionTooLong)
    );
    assert!(submit_artist_proposal(&ctx, "n".repeat(50), "i".repeat(50), 1, "d".repeat(500), 0).is_ok());

    let mut inactive = label(0);
    inactive.is_active = false;
    let ctx = submit_ctx(inactive, 10_000);
    assert_eq!(
        submit_artist_proposal(&ctx, ok_name(), ok_id(), 20_000, ok_text(), 0),
        Err(LabelError::LabelInactive)
    );

    // more committed than held: the subtraction fails
    let ctx = submit_ctx(label(11_000), 10_000);
    assert_eq!(submit(&ctx, 1), Err(LabelError::MathOverflow));

    let mut wrong = submit_ctx(label(0), 10_000);
    wrong.label_treasury.key = id(OTHER);
    assert_eq!(
        submit_artist_proposal(&wrong, "n".repeat(51), ok_id(), 0, ok_text(), 0),
        Err(LabelError::Unauthorized)
    );
}

#[test]
fn execute_opens_the_credit_line_and_commits() {
    let proposal = submit(&submit_ctx(label(0), 10_000), 6_000).unwrap();
    let mut ctx = execute_ctx(label(0), 10_000, proposal.clone());
    let credit_line = execute_artist_funding(&mut ctx).unwrap();
    assert_eq!(
        credit_line,
        CreditLine {
            label: id(LABEL),
            proposal: id(PROPOSAL),
            artist: id(ARTIST),
            campaign_id: String::from("nova-2024"),
            credit_limit: 6_000,
            credit_used: 0,
            credit_repaid: 0,
            created_at: NOW + 10,
            is_active: true,
            bump: 9,
        }
    );
    assert!(credit_line.is_well_formed());
    assert_eq!(ctx.label.committed_amount, 6_000);
    assert_eq!(ctx.label.total_deployed, 6_000);
    assert_eq!(ctx.label.total_repaid, 0);
    let mut expected = proposal;
    expected.status = ArtistProposalStatus::Executed;
    expected.approved_at = Some(NOW + 10);
    expected.credit_line = Some(id(CREDIT_LINE));
    assert_eq!(ctx.proposal, expected);
    // the second proposal now meets 4,000 available
    let later = submit_ctx(ctx.label.clone(), 10_000);
    assert_eq!(submit(&later, 5_000), Err(LabelError::InsufficientLabelFunds));
}

#[test]
fn execute_happens_once() {
    let proposal = submit(&submit_ctx(label(0), 10_000), 1_000).unwrap();
    let mut ctx = execute_ctx(label(0), 10_000, proposal);
    assert!(execute_artist_funding(&mut ctx).is_ok());
    let before = ctx.clone();
    assert_eq!(execute_artist_funding(&mut ctx), Err(LabelError::ProposalNotPending));
    assert_eq!(ctx, before);
    for status in [
        ArtistProposalStatus::Approved,
        ArtistProposalStatus::Executed,
        ArtistProposalStatus::Rejected,
        ArtistProposalStatus::Active,
        ArtistProposalStatus::Completed,
    ] {
        ctx.proposal.status = status;
        assert_eq!(execute_artist_funding(&mut ctx), Err(LabelError::ProposalNotPending));
    }
}

#[test]
fn execute_needs_the_oracles_yes() {
    let proposal = submit(&submit_ctx(label(0), 10_000), 1_000).unwrap();
    let mut ctx = execute_ctx(label(0), 10_000, proposal);
    ctx.verdict = Verdict::Failed;
    let before = ctx.clone();
    assert_eq!(execute_artist_funding(&mut ctx), Err(LabelError::ProposalNotPassed));
    assert_eq!(ctx, before);
    ctx.verdict = Verdict::Passed;
    assert!(execute_artist_funding(&mut ctx).is_ok());
}

#[test]
fn execute_checks_the_funds_again() {
    // two proposals of 6,000 were accepted against 10,000
    let first = submit(&submit_ctx(label(0), 10_000), 6_000).unwrap();
    let second = submit(&submit_ctx(label(0), 10_000), 6_000).unwrap();
    let mut ctx = execute_ctx(label(0), 10_000, first);
    assert!(execute_artist_funding(&mut ctx).is_ok());
    let mut ctx2 = execute_ctx(ctx.label.clone(), 10_000, second);
    let before = ctx2.clone();
    assert_eq!(execute_artist_funding(&mut ctx2), Err(LabelError::InsufficientLabelFunds));
    assert_eq!(ctx2, before);
    assert_eq!(ctx2.label.committed_amount, 6_000);
    // once the treasury holds enough the proposal can be executed
    ctx2.label_treasury.amount = 12_000;
    assert!(execute_artist_funding(&mut ctx2).is_ok());
    assert_eq!(ctx2.label.committed_amount, 12_000);
    assert_eq!(ctx2.label.total_deployed, 12_000);
}

#[test]
fn execute_rejects_foreign_accounts_and_overflow() {
    let proposal = submit(&submit_ctx(label(0), 10_000), 1_000).unwrap();
    let mut ctx = execute_ctx(label(0), 10_000, proposal.clone());
    ctx.label_key = id(OTHER);
    assert_eq!(execute_artist_funding(&mut ctx), Err(LabelError::Unauthorized));

    let mut ctx = execute_ctx(label(0), 10_000, proposal.clone());
    ctx.label_treasury.key = id(OTHER);
    assert_eq!(execute_artist_funding(&mut ctx), Err(LabelError::Unauthorized));

    // the verdict comes from somebody else
    let mut ctx = execute_ctx(label(0), 10_000, proposal.clone());
    ctx.oracle = id(OTHER);
    assert_eq!(execute_artist_funding(&mut ctx), Err(LabelError::Unauthorized));
    assert_eq!(ctx.proposal.status, ArtistProposalStatus::Pending);

    let mut full = label(0);
    full.total_deployed = u64::MAX - 999;
    let mut ctx = execute_ctx(full, 10_000, proposal.clone());
    assert_eq!(execute_artist_funding(&mut ctx), Err(LabelError::MathOverflow));

    let mut ctx = execute_ctx(label(10_001), 10_000, proposal);
    assert_eq!(execute_artist_funding(&mut ctx), Err(LabelError::MathOverflow));
}

#[test]
fn credit_line_draw_then_overdraw_then_overpay() {
    let mut draw = draw_ctx(label(1_000), line(1_000));
    let transfer = draw_credit(&mut draw, 700).unwrap();
    assert_eq!(
        transfer,
        Transfer { from: id(LABEL_TREASURY), to: id(ARTIST_USDC), authority: id(LABEL), amount: 700 }
    );
    assert_eq!(draw.credit_line.credit_used, 700);
    assert_eq!(draw.label.committed_amount, 300);

    let before = draw.clone();
    assert_eq!(draw_credit(&mut draw, 400), Err(LabelError::InsufficientCredit));
    assert_eq!(draw, before);

    let mut repay = repay_ctx(draw.label.clone(), draw.credit_line.clone());
    let transfer = repay_credit(&mut repay, 800).unwrap();
    assert_eq!(
        transfer,
        Transfer { from: id(ARTIST_USDC), to: id(LABEL_TREASURY), authority: id(ARTIST), amount: 700 }
    );
    assert_eq!(repay.credit_line.credit_repaid, 700);
    assert!(!repay.credit_line.is_active);
    assert_eq!(repay.label.total_repaid, 700);
    assert_eq!(repay.label.committed_amount, 300);
    assert!(repay.credit_line.is_well_formed());
}

#[test]
fn closed_line_takes_no_draw_and_no_repayment() {
    let mut closed = line(1_000);
    closed.credit_used = 400;
    closed.credit_repaid = 400;
    closed.is_active = false;
    let mut draw = draw_ctx(label(600), closed.clone());
    let before = draw.clone();
    for amount in [1u64, 600, 601, u64::MAX] {
        assert_eq!(draw_credit(&mut draw, amount), Err(LabelError::CreditLineInactive));
        assert_eq!(draw, before);
    }
    let mut repay = repay_ctx(label(600), closed);
    let before = repay.clone();
    assert_eq!(repay_credit(&mut repay, 5), Err(LabelError::CreditLineInactive));
    assert_eq!(repay, before);
}

#[test]
fn draw_rejections() {
    let mut ctx = draw_ctx(label(1_000), line(1_000));
    assert_eq!(draw_credit(&mut ctx, 0), Err(LabelError::InvalidAmount));
    assert_eq!(draw_credit(&mut ctx, 1_001), Err(LabelError::InsufficientCredit));
    assert!(draw_credit(&mut ctx, 1_000).is_ok());
    assert_eq!(draw_credit(&mut ctx, 1), Err(LabelError::InsufficientCredit));

    // not the line's artist
    let mut ctx = draw_ctx(label(1_000), line(1_000));
    ctx.artist = id(OTHER);
    ctx.artist_account.owner = id(OTHER);
    assert_eq!(draw_credit(&mut ctx, 10), Err(LabelError::Unauthorized));

    // not the label's line
    let mut ctx = draw_ctx(label(1_000), line(1_000));
    ctx.credit_line.label = id(OTHER);
    assert_eq!(draw_credit(&mut ctx, 10), Err(LabelError::Unauthorized));

    // not the label's treasury
    let mut ctx = draw_ctx(label(1_000), line(1_000));
    ctx.label_treasury.key = id(OTHER);
    assert_eq!(draw_credit(&mut ctx, 10), Err(LabelError::Unauthorized));

    // the receiving account is somebody else's
    let mut ctx = draw_ctx(label(1_000), line(1_000));
    ctx.artist_account.owner = id(OTHER);
    assert_eq!(draw_credit(&mut ctx, 10), Err(LabelError::InvalidTokenAccountOwner));

    // more used than the limit: the subtraction fails
    let mut broken = line(1_000);
    broken.credit_used = 1_001;
    let mut ctx = draw_ctx(label(1_000), broken);
    assert_eq!(draw_credit(&mut ctx, 10), Err(LabelError::MathOverflow));

    // less committed than drawn: the subtraction fails, and nothing changes
    let mut ctx = draw_ctx(label(5), line(1_000));
    let before = ctx.clone();
    assert_eq!(draw_credit(&mut ctx, 10), Err(LabelError::MathOverflow));
    assert_eq!(ctx, before);
}

#[test]
fn repay_in_parts_closes_at_the_end() {
    let mut owing = line(1_000);
    owing.credit_used = 900;
    let mut ctx = repay_ctx(label(100), owing);
    assert_eq!(repay_credit(&mut ctx, 300).map(|t| t.amount), Ok(300));
    assert!(ctx.credit_line.is_active);
    assert_eq!(ctx.credit_line.credit_repaid, 300);
    assert_eq!(repay_credit(&mut ctx, 599).map(|t| t.amount), Ok(599));
    assert!(ctx.credit_line.is_active);
    assert_eq!(repay_credit(&mut ctx, 1).map(|t| t.amount), Ok(1));
    assert!(!ctx.credit_line.is_active);
    assert_eq!(ctx.credit_line.credit_repaid, 900);
    assert_eq!(ctx.label.total_repaid, 900);
    assert_eq!(repay_credit(&mut ctx, 1), Err(LabelError::CreditLineInactive));
}

#[test]
fn repay_rejections() {
    let mut owing = line(1_000);
    owing.credit_used = 500;
    let mut ctx = repay_ctx(label(0), owing.clone());
    assert_eq!(repay_credit(&mut ctx, 0), Err(LabelError::InvalidAmount));

    let mut ctx = repay_ctx(label(0), owing.clone());
    ctx.artist = id(OTHER);
    assert_eq!(repay_credit(&mut ctx, 10), Err(LabelError::Unauthorized));

    let mut ctx = repay_ctx(label(0), owing.clone());
    ctx.artist_account.owner = id(OTHER);
    assert_eq!(repay_credit(&mut ctx, 10), Err(LabelError::InvalidTokenAccountOwner));

    let mut broken = owing.clone();
    broken.credit_repaid = 501;
    let mut ctx = repay_ctx(label(0), broken);
    assert_eq!(repay_credit(&mut ctx, 10), Err(LabelError::MathOverflow));

    let mut rich = label(0);
    rich.total_repaid = u64::MAX - 5;
    let mut ctx = repay_ctx(rich, owing);
    let before = ctx.clone();
    assert_eq!(repay_credit(&mut ctx, 10), Err(LabelError::MathOverflow));
    assert_eq!(ctx, before);
    assert_eq!(repay_credit(&mut ctx, 5).map(|t| t.amount), Ok(5));
}

#[test]
fn repaying_a_line_that_owes_nothing_closes_it() {
    let mut ctx = repay_ctx(label(1_000), line(1_000));
    assert_eq!(repay_credit(&mut ctx, 50).map(|t| t.amount), Ok(0));
    assert!(!ctx.credit_line.is_active);
    assert_eq!(ctx.credit_line.credit_repaid, 0);
}

#[test]
fn outstanding_balance_follows_the_transfers() {
    let mut label_state = label(1_000);
    let mut credit_line = line(1_000);
    let mut paid_out: i128 = 0;
    let steps: [(bool, u64); 9] = [
        (true, 400),
        (false, 150),
        (true, 700),
        (true, 600),
        (false, 0),
        (false, 100),
        (true, 50),
        (false, 10_000),
        (true, 1),
    ];
    for (is_draw, amount) in steps {
        let owed_before = credit_line.credit_used - credit_line.credit_repaid;
        if is_draw {
            let mut ctx = draw_ctx(label_state.clone(), credit_line.clone());
            if let Ok(t) = draw_credit(&mut ctx, amount) {
                paid_out += t.amount as i128;
                assert!(ctx.credit_line.credit_used - ctx.credit_line.credit_repaid >= owed_before);
            }
            label_state = ctx.label;
            credit_line = ctx.credit_line;
        } else {
            let mut ctx = repay_ctx(label_state.clone(), credit_line.clone());
            if let Ok(t) = repay_credit(&mut ctx, amount) {
                paid_out -= t.amount as i128;
                assert!(ctx.credit_line.credit_used - ctx.credit_line.credit_repaid <= owed_before);
            }
            label_state = ctx.label;
            credit_line = ctx.credit_line;
        }
        assert!(credit_line.is_well_formed());
        assert_eq!((credit_line.credit_used - credit_line.credit_repaid) as i128, paid_out);
    }
    // 400 drawn, 150 repaid, 700 refused, 600 drawn, 100 repaid, 50 refused (the limit is
    // used up), 750 repaid (cut down from 10,000); then the line is closed
    assert_eq!(credit_line.credit_used, 1_000);
    assert_eq!(credit_line.credit_repaid, 1_000);
    assert!(!credit_line.is_active);
    assert_eq!(paid_out, 0);
}

#[test]
fn settle_pays_out_only_what_is_not_committed() {
    let ctx = settle_ctx(label(6_000), 10_000);
    assert_eq!(
        settle_with_dao(&ctx, 4_000),
        Ok(Transfer {
            from: id(LABEL_TREASURY),
            to: id(DAO_TREASURY),
            authority: id(LABEL),
            amount: 4_000,
        })
    );
    assert_eq!(settle_with_dao(&ctx, 4_001), Err(LabelError::InsufficientLabelFunds));
    assert_eq!(settle_with_dao(&ctx, 10_000), Err(LabelError::InsufficientLabelFunds));
}

#[test]
fn settle_rejections() {
    let ctx = settle_ctx(label(0), 10_000);
    assert_eq!(settle_with_dao(&ctx, 0), Err(LabelError::InvalidAmount));
    assert_eq!(settle_with_dao(&ctx, 10_001), Err(LabelError::InsufficientLabelFunds));
    assert!(settle_with_dao(&ctx, 10_000).is_ok());

    let mut inactive = label(0);
    inactive.is_active = false;
    assert_eq!(settle_with_dao(&settle_ctx(inactive, 10_000), 1), Err(LabelError::LabelInactive));

    let mut elsewhere = settle_ctx(label(0), 10_000);
    elsewhere.dao_treasury.owner = id(OTHER);
    assert_eq!(settle_with_dao(&elsewhere, 1), Err(LabelError::Unauthorized));

    let mut wrong = settle_ctx(label(0), 10_000);
    wrong.label_treasury.key = id(OTHER);
    assert_eq!(settle_with_dao(&wrong, 0), Err(LabelError::Unauthorized));

    assert_eq!(settle_with_dao(&settle_ctx(label(10_001), 10_000), 1), Err(LabelError::MathOverflow));
}

#[test]
fn commitments_stay_covered_through_a_life_of_a_label() {
    let mut balance: u64 = 10_000;
    let mut state = label(0);
    // two artists are funded
    let first = submit(&submit_ctx(state.clone(), balance), 6_000).unwrap();
    let mut first_run = execute_ctx(state, balance, first);
    let mut line1 = execute_artist_funding(&mut first_run).unwrap();
    state = first_run.label;
    assert!(state.committed_amount <= balance);
    let second = submit(&submit_ctx(state.clone(), balance), 4_000).unwrap();
    let mut second_run = execute_ctx(state, balance, second);
    let _line2 = execute_artist_funding(&mut second_run).unwrap();
    state = second_run.label;
    assert_eq!(state.committed_amount, 10_000);
    assert!(state.committed_amount <= balance);
    // nothing is left to settle or to promise
    assert_eq!(settle_with_dao(&settle_ctx(state.clone(), balance), 1), Err(LabelError::InsufficientLabelFunds));
    assert_eq!(submit(&submit_ctx(state.clone(), balance), 1), Err(LabelError::InsufficientLabelFunds));
    // the first artist draws
    let mut d = draw_ctx(state, line1);
    d.label_treasury.amount = balance;
    let t = draw_credit(&mut d, 2_500).unwrap();
    balance -= t.amount;
    state = d.label;
    line1 = d.credit_line;
    assert_eq!(state.committed_amount, 7_500);
    assert_eq!(balance, 7_500);
    // and repays
    let mut r = repay_ctx(state, line1);
    let t = repay_credit(&mut r, 1_000).unwrap();
    balance += t.amount;
    state = r.label;
    assert_eq!(state.committed_amount, 7_500);
    assert_eq!(balance, 8_500);
    // what came back can be settled, and no more
    assert_eq!(settle_with_dao(&settle_ctx(state.clone(), balance), 1_001), Err(LabelError::InsufficientLabelFunds));
    let t = settle_with_dao(&settle_ctx(state.clone(), balance), 1_000).unwrap();
    balance -= t.amount;
    assert!(state.committed_amount <= balance);
    assert_eq!(state.total_deployed, 10_000);
    assert_eq!(state.total_repaid, 1_000);
}

#[test]
fn label_errors_have_one_cause_each() {
    assert_eq!(LabelError::NameTooLong.kind(), ErrorKind::Validation);
    assert_eq!(LabelError::IdTooLong.kind(), ErrorKind::Validation);
    assert_eq!(LabelError::DescriptionTooLong.kind(), ErrorKind::Validation);
    assert_eq!(LabelError::ReasonTooLong.kind(), ErrorKind::Validation);
    assert_eq!(LabelError::InvalidAmount.kind(), ErrorKind::Validation);
    assert_eq!(LabelError::LabelInactive.kind(), ErrorKind::State);
    assert_eq!(LabelError::ProposalNotPending.kind(), ErrorKind::State);
    assert_eq!(LabelError::ProposalNotPassed.kind(), ErrorKind::State);
    assert_eq!(LabelError::CreditLineInactive.kind(), ErrorKind::State);
    assert_eq!(LabelError::InsufficientLabelFunds.kind(), ErrorKind::Capacity);
    assert_eq!(LabelError::InsufficientCredit.kind(), ErrorKind::Capacity);
    assert_eq!(LabelError::InvalidTokenAccountOwner.kind(), ErrorKind::Authorization);
    assert_eq!(LabelError::Unauthorized.kind(), ErrorKind::Authorization);
    assert_eq!(LabelError::MathOverflow.kind(), ErrorKind::Arithmetic);
}

#[test]
fn credit_line_well_formedness_is_checked_exactly() {
    let mut l = line(100);
    assert!(l.is_well_formed());
    l.credit_used = 101;
    assert!(!l.is_well_formed());
    l.credit_used = 50;
    l.credit_repaid = 51;
    assert!(!l.is_well_formed());
    l.credit_repaid = 49;
    l.is_active = false;
    assert!(!l.is_well_formed());
    l.credit_repaid = 50;
    assert!(l.is_well_formed());
}

fn reject_ctx(proposal: ArtistProposal) -> RejectProposal {
    RejectProposal { label: label(0), label_key: id(LABEL), proposal, oracle: id(DAO) }
}

#[test]
fn rejection_closes_a_pending_proposal() {
    let proposal = submit(&submit_ctx(label(0), 10_000), 6_000).unwrap();
    let mut ctx = reject_ctx(proposal.clone());
    assert_eq!(reject_artist_proposal(&mut ctx, String::from("no audience")), Ok(()));
    let mut expected = proposal;
    expected.status = ArtistProposalStatus::Rejected;
    expected.rejection_reason = Some(String::from("no audience"));
    assert_eq!(ctx.proposal, expected);
    assert_eq!(ctx.label, label(0));

    // a rejected proposal is never funded, and not rejected twice
    let mut run = execute_ctx(label(0), 10_000, ctx.proposal.clone());
    assert_eq!(execute_artist_funding(&mut run), Err(LabelError::ProposalNotPending));
    let before = ctx.clone();
    assert_eq!(
        reject_artist_proposal(&mut ctx, String::from("again")),
        Err(LabelError::ProposalNotPending)
    );
    assert_eq!(ctx, before);
}

#[test]
fn rejection_rejections() {
    let proposal = submit(&submit_ctx(label(0), 10_000), 6_000).unwrap();

    let mut ctx = reject_ctx(proposal.clone());
    let before = ctx.clone();
    assert_eq!(reject_artist_proposal(&mut ctx, "r".repeat(201)), Err(LabelError::ReasonTooLong));
    assert_eq!(ctx, before);
    assert_eq!(reject_artist_proposal(&mut ctx, "r".repeat(200)), Ok(()));

    let mut stranger = reject_ctx(proposal.clone());
    stranger.oracle = id(OTHER);
    assert_eq!(
        reject_artist_proposal(&mut stranger, String::from("no")),
        Err(LabelError::Unauthorized)
    );
    assert_eq!(stranger.proposal.status, ArtistProposalStatus::Pending);

    let mut foreign = reject_ctx(proposal.clone());
    foreign.label_key = id(OTHER);
    assert_eq!(
        reject_artist_proposal(&mut foreign, String::from("no")),
        Err(LabelError::Unauthorized)
    );

    // a funded proposal is not rejected any more
    let mut run = execute_ctx(label(0), 10_000, proposal);
    execute_artist_funding(&mut run).unwrap();
    let mut late = reject_ctx(run.proposal);
    assert_eq!(
        reject_artist_proposal(&mut late, String::from("no")),
        Err(LabelError::ProposalNotPending)
    );
}

#[test]
fn executed_proposal_is_marked_executed_and_keeps_what_was_asked() {
    let proposal = submit(&submit_ctx(label(0), 10_000), 2_500).unwrap();
    let mut ctx = execute_ctx(label(0), 10_000, proposal.clone());
    execute_artist_funding(&mut ctx).unwrap();
    assert_eq!(ctx.proposal.status, ArtistProposalStatus::Executed);
    assert_ne!(ctx.proposal.status, ArtistProposalStatus::Approved);
    assert_eq!(ctx.proposal.credit_line, Some(id(CREDIT_LINE)));
    assert_eq!(ctx.proposal.approved_at, Some(NOW + 10));
    assert_eq!(ctx.proposal.requested_amount, proposal.requested_amount);
    assert_eq!(ctx.proposal.artist, proposal.artist);
    assert_eq!(ctx.proposal.campaign_id, proposal.campaign_id);
    assert_eq!(ctx.proposal.submitted_at, proposal.submitted_at);
    assert_eq!(ctx.proposal.rejection_reason, None);
}

#[test]
fn execution_never_commits_more_than_is_held() {
    // 10,000 held, 6,000 committed, a pending proposal of 6,000
    let proposal = submit(&submit_ctx(label(0), 10_000), 6_000).unwrap();
    let mut ctx = execute_ctx(label(6_000), 10_000, proposal);
    let before = ctx.clone();
    assert_eq!(execute_artist_funding(&mut ctx), Err(LabelError::InsufficientLabelFunds));
    assert_eq!(ctx, before);
    assert!(ctx.label.committed_amount <= ctx.label_treasury.amount);
}

#[test]
fn settlement_never_sweeps_committed_funds() {
    // 1,000 held, 800 committed
    let ctx = settle_ctx(label(800), 1_000);
    assert_eq!(settle_with_dao(&ctx, 300), Err(LabelError::InsufficientLabelFunds));
    assert_eq!(settle_with_dao(&ctx, 201), Err(LabelError::InsufficientLabelFunds));
    assert_eq!(settle_with_dao(&ctx, 200).map(|t| t.amount), Ok(200));
    assert_eq!(ctx.label.committed_amount, 800);
}
