//! The DAO ledger: a treasury that funds labels after a governance verdict.
//!
//! A proposal is submitted, receives the oracle's verdict and, if it passed,
//! is executed once: the funding leaves the DAO treasury for the treasury of
//! the new label, the label's governance token is handed out in fixed shares,
//! and the right to mint it is given up.

use vstd::prelude::*;
use crate::asset::{Mint, MintTo, RevokeMintAuthority, TokenAccount, Transfer};
use crate::error::ErrorKind;
use crate::governance::Verdict;
use crate::identity::Address;
use crate::text::{byte_len, stored_len};

verus! {

/// Longest label name, in stored bytes.
pub const MAX_LABEL_NAME_LEN: usize = 50;

/// Longest reason for a rejection, in stored bytes.
pub const MAX_REASON_LEN: usize = 200;

/// Highest protocol fee, in basis points.
pub const MAX_FEE_BPS: u16 = 1000;

/// One hundred percent, in basis points.
pub const BPS_DENOMINATOR: u16 = 10000;

/// The founding curator's share of a label's token supply, in percent.
pub const CURATOR_TOKEN_PERCENT: u64 = 50;

/// The DAO's share of a label's token supply, in percent.
pub const DAO_TOKEN_PERCENT: u64 = 10;

/// Why the DAO ledger refused an operation.
#[derive(Clone, Copy, Debug, PartialEq, Eq, Structural)]
pub enum SuperfanError {
    /// The protocol fee is above [`MAX_FEE_BPS`].
    FeeTooHigh,
    /// The label name is longer than [`MAX_LABEL_NAME_LEN`].
    NameTooLong,
    /// The amount is zero.
    InvalidAmount,
    /// The curator's share is above one hundred percent.
    InvalidShare,
    /// The repayment target is above one hundred percent.
    InvalidTarget,
    /// The treasury does not hold the amount.
    InsufficientTreasuryFunds,
    /// The proposal has not passed.
    ProposalNotPassed,
    /// The proposal already has its verdict.
    ProposalNotPending,
    /// A rejection came without a reason.
    ReasonMissing,
    /// The reason is longer than [`MAX_REASON_LEN`].
    ReasonTooLong,
    /// The label is not active.
    LabelInactive,
    /// An identity or an account is not the one that the records name.
    Unauthorized,
    /// A counter would overflow.
    MathOverflow,
}

impl SuperfanError {
    /// The cause of the error.
    pub open spec fn spec_kind(self) -> ErrorKind {
        match self {
            SuperfanError::FeeTooHigh
            | SuperfanError::NameTooLong
            | SuperfanError::InvalidAmount
            | SuperfanError::InvalidShare
            | SuperfanError::InvalidTarget
            | SuperfanError::ReasonMissing
            | SuperfanError::ReasonTooLong => ErrorKind::Validation,
            SuperfanError::ProposalNotPassed
            | SuperfanError::ProposalNotPending
            | SuperfanError::LabelInactive => ErrorKind::State,
            SuperfanError::InsufficientTreasuryFunds => ErrorKind::Capacity,
            SuperfanError::Unauthorized => ErrorKind::Authorization,
            SuperfanError::MathOverflow => ErrorKind::Arithmetic,
        }
    }

    /// The cause of the error.
    #[verifier::when_used_as_spec(spec_kind)]
    pub fn kind(self) -> (kind: ErrorKind)
        ensures
            kind == self.spec_kind(),
    {
        match self {
            SuperfanError::FeeTooHigh
            | SuperfanError::NameTooLong
            | SuperfanError::InvalidAmount
            | SuperfanError::InvalidShare
            | SuperfanError::InvalidTarget
            | SuperfanError::ReasonMissing
            | SuperfanError::ReasonTooLong => ErrorKind::Validation,
            SuperfanError::ProposalNotPassed
            | SuperfanError::ProposalNotPending
            | SuperfanError::LabelInactive => ErrorKind::State,
            SuperfanError::InsufficientTreasuryFunds => ErrorKind::Capacity,
            SuperfanError::Unauthorized => ErrorKind::Authorization,
            SuperfanError::MathOverflow => ErrorKind::Arithmetic,
        }
    }
}

/// The DAO: its treasury's counters and its parameters.
#[derive(Clone, Debug, PartialEq, Eq)]
pub struct SuperfanDAO {
    /// Who speaks for the DAO; its word is the governance verdict.
    pub authority: Address,
    /// The balance account that holds the DAO's funds.
    pub treasury: Address,
    /// The token in which the treasury is held.
    pub usdc_mint: Address,
    /// The protocol fee on repayments, in basis points.
    pub metadao_fee_bps: u16,
    /// How many labels were funded.
    pub total_labels_funded: u64,
    /// How much was deployed to labels.
    pub total_deployed_capital: u64,
    /// How much came back from labels.
    pub total_repayments: u64,
    pub bump: u8,
}

/// Where a label proposal stands.
#[derive(Clone, Copy, Debug, PartialEq, Eq, Structural)]
pub enum ProposalStatus {
    /// Waiting for the verdict.
    Pending,
    /// The verdict was yes; the funding can be executed.
    Passed,
    /// The verdict was no.
    Failed,
    /// The funding was deployed and the label created.
    Executed,
    /// Withdrawn.
    Cancelled,
}

/// A request to fund a new label. It is kept for good, as the record of what
/// was asked and decided.
#[derive(Clone, Debug, PartialEq, Eq)]
pub struct LabelProposal {
    pub dao: Address,
    /// Who proposed; the label's founding curator if it is funded.
    pub proposer: Address,
    pub label_name: String,
    pub funding_amount: u64,
    /// The share that the label keeps after repayment, in basis points.
    pub curator_share_bps: u16,
    /// The part of the funding that is to be repaid, in basis points.
    pub repayment_target_bps: u16,
    pub status: ProposalStatus,
    pub created_at: i64,
    /// When the verdict was recorded.
    pub decided_at: Option<i64>,
    /// Why the proposal was rejected.
    pub rejection_reason: Option<String>,
    /// The label that the execution created.
    pub label: Option<Address>,
    /// The oracle's own record of the proposal.
    pub metadao_proposal: Option<Address>,
    pub bump: u8,
}

/// A label as the DAO sees it.
#[derive(Clone, Debug, PartialEq, Eq)]
pub struct LabelSubDAO {
    pub dao: Address,
    pub proposal: Address,
    pub name: String,
    pub label_token_mint: Address,
    pub treasury: Address,
    pub initial_funding: u64,
    pub curator_share_bps: u16,
    pub total_deployed: u64,
    /// How much the label has sent back to the DAO.
    pub total_repaid: u64,
    pub created_at: i64,
    pub is_active: bool,
    pub bump: u8,
}

/// What the creation of the DAO reads.
#[derive(Clone, Copy, Debug, PartialEq, Eq)]
pub struct InitializeDAO {
    pub authority: Address,
    /// The balance account, newly opened in the DAO's name, that will hold
    /// its funds.
    pub treasury: Address,
    pub usdc_mint: Address,
    pub dao_bump: u8,
}

/// Creates the DAO, with empty counters.
///
/// The protocol fee may be at most [`MAX_FEE_BPS`].
pub fn initialize_dao(ctx: &InitializeDAO, metadao_fee_bps: u16) -> (res: Result<
    SuperfanDAO,
    SuperfanError,
>)
    ensures
        metadao_fee_bps > MAX_FEE_BPS ==> res == Err::<SuperfanDAO, SuperfanError>(
            SuperfanError::FeeTooHigh,
        ),
        metadao_fee_bps <= MAX_FEE_BPS ==> res == Ok::<SuperfanDAO, SuperfanError>(
            SuperfanDAO {
                authority: ctx.authority,
                treasury: ctx.treasury,
                usdc_mint: ctx.usdc_mint,
                metadao_fee_bps,
                total_labels_funded: 0,
                total_deployed_capital: 0,
                total_repayments: 0,
                bump: ctx.dao_bump,
            },
        ),
{
    if metadao_fee_bps > MAX_FEE_BPS {
        return Err(SuperfanError::FeeTooHigh);
    }
    Ok(
        SuperfanDAO {
            authority: ctx.authority,
            treasury: ctx.treasury,
            usdc_mint: ctx.usdc_mint,
            metadao_fee_bps,
            total_labels_funded: 0,
            total_deployed_capital: 0,
            total_repayments: 0,
            bump: ctx.dao_bump,
        },
    )
}

/// What the submission of a label proposal reads.
#[derive(Clone, Debug, PartialEq, Eq)]
pub struct ProposeLabel {
    pub dao: SuperfanDAO,
    pub dao_key: Address,
    /// The DAO's treasury, as the asset service reports it now.
    pub treasury: TokenAccount,
    pub proposer: Address,
    pub proposal_bump: u8,
    /// The clock's reading.
    pub unix_timestamp: i64,
}

impl ProposeLabel {
    /// Why the submission is refused, if it is. The checks come in this
    /// order, and the first that fails gives the error.
    pub open spec fn failure(
        self,
        label_name: Seq<char>,
        funding_amount: u64,
        curator_share_bps: u16,
        repayment_target_bps: u16,
    ) -> Option<SuperfanError> {
        if self.treasury.key != self.dao.treasury {
            Some(SuperfanError::Unauthorized)
        } else if stored_len(label_name) > MAX_LABEL_NAME_LEN {
            Some(SuperfanError::NameTooLong)
        } else if funding_amount == 0 {
            Some(SuperfanError::InvalidAmount)
        } else if curator_share_bps > BPS_DENOMINATOR {
            Some(SuperfanError::InvalidShare)
        } else if repayment_target_bps > BPS_DENOMINATOR {
            Some(SuperfanError::InvalidTarget)
        } else if funding_amount > self.treasury.amount {
            Some(SuperfanError::InsufficientTreasuryFunds)
        } else {
            None
        }
    }
}

/// Submits a proposal to fund a new label with `funding_amount`.
///
/// The DAO's treasury must hold the amount now: what was deployed earlier has
/// left the treasury and cannot be promised again. The proposal starts as
/// `Pending`.
pub fn propose_label(
    ctx: &ProposeLabel,
    label_name: String,
    funding_amount: u64,
    curator_share_bps: u16,
    repayment_target_bps: u16,
) -> (res: Result<LabelProposal, SuperfanError>)
    ensures
        match res {
            Ok(proposal) => {
                &&& ctx.failure(
                    label_name@,
                    funding_amount,
                    curator_share_bps,
                    repayment_target_bps,
                ) is None
                &&& proposal == (LabelProposal {
                    dao: ctx.dao_key,
                    proposer: ctx.proposer,
                    label_name,
                    funding_amount,
                    curator_share_bps,
                    repayment_target_bps,
                    status: ProposalStatus::Pending,
                    created_at: ctx.unix_timestamp,
                    decided_at: None,
                    rejection_reason: None,
                    label: None,
                    metadao_proposal: None,
                    bump: ctx.proposal_bump,
                })
            },
            Err(e) => ctx.failure(
                label_name@,
                funding_amount,
                curator_share_bps,
                repayment_target_bps,
            ) == Some(e),
        },
{
    if !ctx.treasury.key.equals(&ctx.dao.treasury) {
        return Err(SuperfanError::Unauthorized);
    }
    if byte_len(&label_name) > MAX_LABEL_NAME_LEN {
        return Err(SuperfanError::NameTooLong);
    }
    if funding_amount == 0 {
        return Err(SuperfanError::InvalidAmount);
    }
    if curator_share_bps > BPS_DENOMINATOR {
        return Err(SuperfanError::InvalidShare);
    }
    if repayment_target_bps > BPS_DENOMINATOR {
        return Err(SuperfanError::InvalidTarget);
    }
    if funding_amount > ctx.treasury.amount {
        return Err(SuperfanError::InsufficientTreasuryFunds);
    }
    Ok(
        LabelProposal {
            dao: ctx.dao_key,
            proposer: ctx.proposer,
            label_name,
            funding_amount,
            curator_share_bps,
            repayment_target_bps,
            status: ProposalStatus::Pending,
            created_at: ctx.unix_timestamp,
            decided_at: None,
            rejection_reason: None,
            label: None,
            metadao_proposal: None,
            bump: ctx.proposal_bump,
        },
    )
}

/// What the recording of a verdict reads and changes.
#[derive(Clone, Debug, PartialEq, Eq)]
pub struct RecordVerdict {
    pub dao: SuperfanDAO,
    pub dao_key: Address,
    pub proposal: LabelProposal,
    /// Who brings the verdict.
    pub oracle: Address,
    /// The clock's reading.
    pub unix_timestamp: i64,
}

impl RecordVerdict {
    /// Why the verdict is refused, if it is. The checks come in this order,
    /// and the first that fails gives the error.
    pub open spec fn failure(self, verdict: Verdict, reason: Option<String>) -> Option<
        SuperfanError,
    > {
        if self.proposal.dao != self.dao_key || self.oracle != self.dao.authority {
            Some(SuperfanError::Unauthorized)
        } else if self.proposal.status != ProposalStatus::Pending {
            Some(SuperfanError::ProposalNotPending)
        } else if verdict == Verdict::Failed && reason is None {
            Some(SuperfanError::ReasonMissing)
        } else if verdict == Verdict::Failed && stored_len(reason->0@) > MAX_REASON_LEN {
            Some(SuperfanError::ReasonTooLong)
        } else {
            None
        }
    }

    /// The proposal once the verdict is recorded. A reason given with a
    /// verdict that passed is not kept.
    pub open spec fn decided(self, verdict: Verdict, reason: Option<String>) -> LabelProposal {
        match verdict {
            Verdict::Passed => LabelProposal {
                status: ProposalStatus::Passed,
                decided_at: Some(self.unix_timestamp),
                ..self.proposal
            },
            Verdict::Failed => LabelProposal {
                status: ProposalStatus::Failed,
                decided_at: Some(self.unix_timestamp),
                rejection_reason: reason,
                ..self.proposal
            },
        }
    }
}

/// Records the oracle's verdict on a pending proposal.
///
/// Only the DAO's authority brings verdicts. A proposal that passed can be
/// executed; one that failed is closed for good, and keeps the reason, which
/// must be given and be at most [`MAX_REASON_LEN`] long.
pub fn record_verdict(ctx: &mut RecordVerdict, verdict: Verdict, reason: Option<String>) -> (res:
    Result<(), SuperfanError>)
    ensures
        match res {
            Ok(_) => {
                &&& old(ctx).failure(verdict, reason) is None
                &&& *final(ctx) == (RecordVerdict {
                    proposal: old(ctx).decided(verdict, reason),
                    ..*old(ctx)
                })
            },
            Err(e) => {
                &&& old(ctx).failure(verdict, reason) == Some(e)
                &&& *final(ctx) == *old(ctx)
            },
        },
{
    if !(ctx.proposal.dao.equals(&ctx.dao_key) && ctx.oracle.equals(&ctx.dao.authority)) {
        return Err(SuperfanError::Unauthorized);
    }
    if ctx.proposal.status != ProposalStatus::Pending {
        return Err(SuperfanError::ProposalNotPending);
    }
    match verdict {
        Verdict::Passed => {
            ctx.proposal.status = ProposalStatus::Passed;
            ctx.proposal.decided_at = Some(ctx.unix_timestamp);
        },
        Verdict::Failed => {
            match &reason {
                None => { return Err(SuperfanError::ReasonMissing); },
                Some(text) => {
                    if byte_len(text) > MAX_REASON_LEN {
                        return Err(SuperfanError::ReasonTooLong);
                    }
                },
            }
            ctx.proposal.status = ProposalStatus::Failed;
            ctx.proposal.decided_at = Some(ctx.unix_timestamp);
            ctx.proposal.rejection_reason = reason;
        },
    }
    Ok(())
}

/// `percent` hundredths of `supply`, rounded down.
pub open spec fn token_share(supply: u64, percent: u64) -> int {
    (supply * percent) / 100
}

/// What the execution of a label's funding reads and changes.
#[derive(Clone, Debug, PartialEq, Eq)]
pub struct ExecuteLabelFunding {
    pub dao: SuperfanDAO,
    pub dao_key: Address,
    pub proposal: LabelProposal,
    pub proposal_key: Address,
    /// Where the new label will live.
    pub label_key: Address,
    pub label_bump: u8,
    /// The label's governance token, newly created with the label as the one
    /// that may mint it.
    pub label_token_mint: Mint,
    pub dao_treasury: TokenAccount,
    /// The new label's treasury.
    pub label_treasury: TokenAccount,
    /// Where the curator's share of the tokens goes.
    pub curator_token_account: TokenAccount,
    /// Where the DAO's share of the tokens goes.
    pub dao_token_account: TokenAccount,
    /// The clock's reading.
    pub unix_timestamp: i64,
}

/// What the execution of a label's funding hands back: the new label, and the
/// instructions for the asset service, in the order in which they are due.
#[derive(Clone, Debug, PartialEq, Eq)]
pub struct LabelFunding {
    pub label: LabelSubDAO,
    /// The funding, from the DAO treasury to the label's.
    pub funding: Transfer,
    pub curator_grant: MintTo,
    pub dao_grant: MintTo,
    /// The end of all minting of the label's token.
    pub revocation: RevokeMintAuthority,
}

impl ExecuteLabelFunding {
    /// The accounts are those that the records name: the proposal is the
    /// DAO's, the paying treasury is the DAO's, the new treasury belongs to the
    /// new label, the new label may mint the token, and the two token accounts
    /// belong to the proposer and to the DAO.
    pub open spec fn accounts_match(self) -> bool {
        &&& self.proposal.dao == self.dao_key
        &&& self.dao_treasury.key == self.dao.treasury
        &&& self.label_treasury.owner == self.label_key
        &&& self.label_token_mint.may_be_minted_by(self.label_key)
        &&& self.curator_token_account.owner == self.proposal.proposer
        &&& self.dao_token_account.owner == self.dao_key
    }

    /// Why the execution is refused, if it is. The checks come in this order,
    /// and the first that fails gives the error.
    pub open spec fn failure(self, label_token_supply: u64) -> Option<SuperfanError> {
        if !self.accounts_match() {
            Some(SuperfanError::Unauthorized)
        } else if self.proposal.status != ProposalStatus::Passed {
            Some(SuperfanError::ProposalNotPassed)
        } else if self.proposal.funding_amount > self.dao_treasury.amount {
            Some(SuperfanError::InsufficientTreasuryFunds)
        } else if label_token_supply * CURATOR_TOKEN_PERCENT > u64::MAX {
            Some(SuperfanError::MathOverflow)
        } else if self.dao.total_labels_funded + 1 > u64::MAX {
            Some(SuperfanError::MathOverflow)
        } else if self.dao.total_deployed_capital + self.proposal.funding_amount > u64::MAX {
            Some(SuperfanError::MathOverflow)
        } else {
            None
        }
    }

    /// The label that the execution creates.
    pub open spec fn new_label(self) -> LabelSubDAO {
        LabelSubDAO {
            dao: self.dao_key,
            proposal: self.proposal_key,
            name: self.proposal.label_name,
            label_token_mint: self.label_token_mint.key,
            treasury: self.label_treasury.key,
            initial_funding: self.proposal.funding_amount,
            curator_share_bps: self.proposal.curator_share_bps,
            total_deployed: 0,
            total_repaid: 0,
            created_at: self.unix_timestamp,
            is_active: true,
            bump: self.label_bump,
        }
    }

    /// What the execution hands back.
    pub open spec fn outcome(self, label_token_supply: u64) -> LabelFunding {
        LabelFunding {
            label: self.new_label(),
            funding: Transfer {
                from: self.dao.treasury,
                to: self.label_treasury.key,
                authority: self.dao_key,
                amount: self.proposal.funding_amount,
            },
            curator_grant: MintTo {
                mint: self.label_token_mint.key,
                to: self.curator_token_account.key,
                authority: self.label_key,
                amount: token_share(label_token_supply, CURATOR_TOKEN_PERCENT) as u64,
            },
            dao_grant: MintTo {
                mint: self.label_token_mint.key,
                to: self.dao_token_account.key,
                authority: self.label_key,
                amount: token_share(label_token_supply, DAO_TOKEN_PERCENT) as u64,
            },
            revocation: RevokeMintAuthority {
                mint: self.label_token_mint.key,
                current_authority: self.label_key,
            },
        }
    }

    /// The context after the execution: the DAO has counted the label and the
    /// funding, and the proposal is executed and points to its label.
    pub open spec fn executed(self) -> ExecuteLabelFunding {
        ExecuteLabelFunding {
            dao: SuperfanDAO {
                total_labels_funded: (self.dao.total_labels_funded + 1) as u64,
                total_deployed_capital: (self.dao.total_deployed_capital
                    + self.proposal.funding_amount) as u64,
                ..self.dao
            },
            proposal: LabelProposal {
                status: ProposalStatus::Executed,
                label: Some(self.label_key),
                ..self.proposal
            },
            ..self
        }
    }
}

/// Executes the funding of a label whose proposal has passed.
///
/// The funding moves from the DAO treasury to the new label's treasury. Of
/// `label_token_supply`, half is minted to the proposer and a tenth to the
/// DAO, each rounded down; then the right to mint is given up, so that the
/// supply is fixed for good. The rest of the supply is not this ledger's to
/// hand out. The DAO counts the label and the funding, and the proposal
/// becomes `Executed`, from where no operation leads on: a proposal is
/// executed at most once.
pub fn execute_label_funding(ctx: &mut ExecuteLabelFunding, label_token_supply: u64) -> (res:
    Result<LabelFunding, SuperfanError>)
    ensures
        match res {
            Ok(funding) => {
                &&& old(ctx).failure(label_token_supply) is None
                &&& funding == old(ctx).outcome(label_token_supply)
                &&& *final(ctx) == old(ctx).executed()
            },
            Err(e) => {
                &&& old(ctx).failure(label_token_supply) == Some(e)
                &&& *final(ctx) == *old(ctx)
            },
        },
{
    if !(ctx.proposal.dao.equals(&ctx.dao_key) && ctx.dao_treasury.key.equals(&ctx.dao.treasury)
        && ctx.label_treasury.owner.equals(&ctx.label_key) && ctx.label_token_mint.is_minted_by(
        &ctx.label_key) && ctx.curator_token_account.owner.equals(
        &ctx.proposal.proposer) && ctx.dao_token_account.owner.equals(&ctx.dao_key)) {
        return Err(SuperfanError::Unauthorized);
    }
    if ctx.proposal.status != ProposalStatus::Passed {
        return Err(SuperfanError::ProposalNotPassed);
    }
    let funding_amount: u64 = ctx.proposal.funding_amount;
    if funding_amount > ctx.dao_treasury.amount {
        return Err(SuperfanError::InsufficientTreasuryFunds);
    }
    let curator_tokens: u64 = match label_token_supply.checked_mul(CURATOR_TOKEN_PERCENT) {
        Some(scaled) => scaled / 100,
        None => { return Err(SuperfanError::MathOverflow); },
    };
    let dao_tokens: u64 = label_token_supply * DAO_TOKEN_PERCENT / 100;
    let labels_funded: u64 = match ctx.dao.total_labels_funded.checked_add(1) {
        Some(n) => n,
        None => { return Err(SuperfanError::MathOverflow); },
    };
    let deployed: u64 = match ctx.dao.total_deployed_capital.checked_add(funding_amount) {
        Some(n) => n,
        None => { return Err(SuperfanError::MathOverflow); },
    };
    let label = LabelSubDAO {
        dao: ctx.dao_key,
        proposal: ctx.proposal_key,
        name: ctx.proposal.label_name.clone(),
        label_token_mint: ctx.label_token_mint.key,
        treasury: ctx.label_treasury.key,
        initial_funding: funding_amount,
        curator_share_bps: ctx.proposal.curator_share_bps,
        total_deployed: 0,
        total_repaid: 0,
        created_at: ctx.unix_timestamp,
        is_active: true,
        bump: ctx.label_bump,
    };
    let outcome = LabelFunding {
        label,
        funding: Transfer {
            from: ctx.dao.treasury,
            to: ctx.label_treasury.key,
            authority: ctx.dao_key,
            amount: funding_amount,
        },
        curator_grant: MintTo {
            mint: ctx.label_token_mint.key,
            to: ctx.curator_token_account.key,
            authority: ctx.label_key,
            amount: curator_tokens,
        },
        dao_grant: MintTo {
            mint: ctx.label_token_mint.key,
            to: ctx.dao_token_account.key,
            authority: ctx.label_key,
            amount: dao_tokens,
        },
        revocation: RevokeMintAuthority {
            mint: ctx.label_token_mint.key,
            current_authority: ctx.label_key,
        },
    };
    ctx.dao.total_labels_funded = labels_funded;
    ctx.dao.total_deployed_capital = deployed;
    ctx.proposal.status = ProposalStatus::Executed;
    ctx.proposal.label = Some(ctx.label_key);
    Ok(outcome)
}

/// `fee_bps` ten-thousandths of `amount`, rounded down.
pub open spec fn protocol_fee(amount: u64, fee_bps: u16) -> int {
    (amount * fee_bps) / 10000
}

/// What the recording of a label's repayment reads and changes.
#[derive(Clone, Debug, PartialEq, Eq)]
pub struct RecordRepayment {
    pub dao: SuperfanDAO,
    pub dao_key: Address,
    pub label: LabelSubDAO,
    pub label_key: Address,
    /// The label's treasury, as the asset service reports it now.
    pub label_treasury: TokenAccount,
    pub dao_treasury: TokenAccount,
}

/// What the recording of a repayment hands back.
#[derive(Clone, Copy, Debug, PartialEq, Eq)]
pub struct Repayment {
    /// The repayment, from the label's treasury to the DAO's.
    pub transfer: Transfer,
    /// The part of the repayment that the DAO owes as protocol fee. It is
    /// not moved here.
    pub protocol_fee: u64,
}

impl RecordRepayment {
    /// The accounts are those that the records name: the label is the DAO's,
    /// and the two treasuries are the label's and the DAO's.
    pub open spec fn accounts_match(self) -> bool {
        &&& self.label.dao == self.dao_key
        &&& self.label_treasury.key == self.label.treasury
        &&& self.dao_treasury.key == self.dao.treasury
    }

    /// Why the repayment is refused, if it is. The checks come in this
    /// order, and the first that fails gives the error.
    pub open spec fn failure(self, amount: u64) -> Option<SuperfanError> {
        if !self.accounts_match() {
            Some(SuperfanError::Unauthorized)
        } else if amount == 0 {
            Some(SuperfanError::InvalidAmount)
        } else if !self.label.is_active {
            Some(SuperfanError::LabelInactive)
        } else if amount > self.label_treasury.amount {
            Some(SuperfanError::InsufficientTreasuryFunds)
        } else if protocol_fee(amount, self.dao.metadao_fee_bps) > u64::MAX {
            Some(SuperfanError::MathOverflow)
        } else if self.label.total_repaid + amount > u64::MAX {
            Some(SuperfanError::MathOverflow)
        } else if self.dao.total_repayments + amount > u64::MAX {
            Some(SuperfanError::MathOverflow)
        } else {
            None
        }
    }

    /// The context after the repayment: label and DAO have counted it.
    pub open spec fn repaid(self, amount: u64) -> RecordRepayment {
        RecordRepayment {
            dao: SuperfanDAO {
                total_repayments: (self.dao.total_repayments + amount) as u64,
                ..self.dao
            },
            label: LabelSubDAO {
                total_repaid: (self.label.total_repaid + amount) as u64,
                ..self.label
            },
            ..self
        }
    }

    /// What the repayment hands back.
    pub open spec fn outcome(self, amount: u64) -> Repayment {
        Repayment {
            transfer: Transfer {
                from: self.label.treasury,
                to: self.dao.treasury,
                authority: self.label_key,
                amount,
            },
            protocol_fee: protocol_fee(amount, self.dao.metadao_fee_bps) as u64,
        }
    }
}

/// Sends `amount` from an active label's treasury back to the DAO's, and
/// counts it on both sides.
///
/// The label's treasury must hold the amount now. The protocol fee that falls
/// on the repayment is computed and handed back, not moved.
pub fn record_label_repayment(ctx: &mut RecordRepayment, amount: u64) -> (res: Result<
    Repayment,
    SuperfanError,
>)
    ensures
        match res {
            Ok(repayment) => {
                &&& old(ctx).failure(amount) is None
                &&& repayment == old(ctx).outcome(amount)
                &&& *final(ctx) == old(ctx).repaid(amount)
            },
            Err(e) => {
                &&& old(ctx).failure(amount) == Some(e)
                &&& *final(ctx) == *old(ctx)
            },
        },
{
    if !(ctx.label.dao.equals(&ctx.dao_key) && ctx.label_treasury.key.equals(&ctx.label.treasury)
        && ctx.dao_treasury.key.equals(&ctx.dao.treasury)) {
        return Err(SuperfanError::Unauthorized);
    }
    if amount == 0 {
        return Err(SuperfanError::InvalidAmount);
    }
    if !ctx.label.is_active {
        return Err(SuperfanError::LabelInactive);
    }
    if amount > ctx.label_treasury.amount {
        return Err(SuperfanError::InsufficientTreasuryFunds);
    }
    let fee_bps: u16 = ctx.dao.metadao_fee_bps;
    assert(amount * fee_bps <= u64::MAX * u16::MAX) by (nonlinear_arith)
        requires
            amount <= u64::MAX,
            fee_bps <= u16::MAX,
    ;
    let scaled: u128 = (amount as u128) * (fee_bps as u128);
    let fee_wide: u128 = scaled / 10000;
    if fee_wide > u64::MAX as u128 {
        return Err(SuperfanError::MathOverflow);
    }
    let fee: u64 = fee_wide as u64;
    let label_repaid: u64 = match ctx.label.total_repaid.checked_add(amount) {
        Some(n) => n,
        None => { return Err(SuperfanError::MathOverflow); },
    };
    let dao_repayments: u64 = match ctx.dao.total_repayments.checked_add(amount) {
        Some(n) => n,
        None => { return Err(SuperfanError::MathOverflow); },
    };
    let outcome = Repayment {
        transfer: Transfer {
            from: ctx.label.treasury,
            to: ctx.dao.treasury,
            authority: ctx.label_key,
            amount,
        },
        protocol_fee: fee,
    };
    ctx.label.total_repaid = label_repaid;
    ctx.dao.total_repayments = dao_repayments;
    Ok(outcome)
}

/// What the payment of the protocol fee reads.
#[derive(Clone, Debug, PartialEq, Eq)]
pub struct PayProtocolFee {
    pub dao: SuperfanDAO,
    pub dao_key: Address,
    pub dao_treasury: TokenAccount,
    /// Where the fee goes.
    pub metadao_treasury: TokenAccount,
}

impl PayProtocolFee {
    /// Why the payment is refused, if it is.
    pub open spec fn failure(self, amount: u64) -> Option<SuperfanError> {
        if self.dao_treasury.key != self.dao.treasury {
            Some(SuperfanError::Unauthorized)
        } else if amount == 0 {
            Some(SuperfanError::InvalidAmount)
        } else {
            None
        }
    }
}

/// Pays `amount` of protocol fee out of the DAO's treasury.
///
/// No counter of the ledger follows the fee: whether the treasury holds the
/// amount is for the asset service to say.
pub fn pay_protocol_fee(ctx: &PayProtocolFee, amount: u64) -> (res: Result<
    Transfer,
    SuperfanError,
>)
    ensures
        match res {
            Ok(transfer) => {
                &&& ctx.failure(amount) is None
                &&& transfer == (Transfer {
                    from: ctx.dao.treasury,
                    to: ctx.metadao_treasury.key,
                    authority: ctx.dao_key,
                    amount,
                })
            },
            Err(e) => ctx.failure(amount) == Some(e),
        },
{
    if !ctx.dao_treasury.key.equals(&ctx.dao.treasury) {
        return Err(SuperfanError::Unauthorized);
    }
    if amount == 0 {
        return Err(SuperfanError::InvalidAmount);
    }
    Ok(
        Transfer {
            from: ctx.dao.treasury,
            to: ctx.metadao_treasury.key,
            authority: ctx.dao_key,
            amount,
        },
    )
}

/// The tokens that an execution hands out are the two shares, to the unit,
/// and together no more than the supply: nothing is minted beyond it.
pub proof fn lemma_grants_within_supply(ctx: ExecuteLabelFunding, label_token_supply: u64)
    requires
        ctx.failure(label_token_supply) is None,
    ensures
        ctx.outcome(label_token_supply).curator_grant.amount == token_share(
            label_token_supply,
            CURATOR_TOKEN_PERCENT,
        ),
        ctx.outcome(label_token_supply).dao_grant.amount == token_share(
            label_token_supply,
            DAO_TOKEN_PERCENT,
        ),
        ctx.outcome(label_token_supply).curator_grant.amount + ctx.outcome(
            label_token_supply,
        ).dao_grant.amount <= label_token_supply,
{
}

/// The instructions of an execution, carried out in their order, leave the
/// label's token without anybody who may mint it: the service accepts the two
/// grants and the revocation, and after them no instruction to mint the
/// token. The ledger itself then refuses every execution that would mint it.
pub proof fn lemma_label_token_supply_is_fixed(
    ctx: ExecuteLabelFunding,
    label_token_supply: u64,
    later_grant: MintTo,
    later: ExecuteLabelFunding,
    later_supply: u64,
)
    requires
        ctx.failure(label_token_supply) is None,
        later.label_token_mint == ctx.outcome(label_token_supply).revocation.applied_to(
            ctx.label_token_mint,
        ),
    ensures
        ctx.outcome(label_token_supply).curator_grant.accepted_by(ctx.label_token_mint),
        ctx.outcome(label_token_supply).dao_grant.accepted_by(ctx.label_token_mint),
        ctx.outcome(label_token_supply).revocation.accepted_by(ctx.label_token_mint),
        !later_grant.accepted_by(
            ctx.outcome(label_token_supply).revocation.applied_to(ctx.label_token_mint),
        ),
        later.failure(later_supply) == Some(SuperfanError::Unauthorized),
{
}

/// A label is funded at most once, and so its token is minted at most once:
/// the context that an execution leaves refuses another, and so does every
/// context that holds the proposal as the execution left it.
pub proof fn lemma_label_is_funded_once(
    ctx: ExecuteLabelFunding,
    label_token_supply: u64,
    later: ExecuteLabelFunding,
    later_supply: u64,
)
    requires
        ctx.failure(label_token_supply) is None,
        later.proposal == ctx.executed().proposal,
    ensures
        later.failure(later_supply) is Some,
        ctx.executed().failure(later_supply) == Some(SuperfanError::ProposalNotPassed),
{
}

/// A verdict is final: a proposal that has its verdict takes no other.
pub proof fn lemma_verdict_is_final(
    ctx: RecordVerdict,
    verdict: Verdict,
    reason: Option<String>,
    later: RecordVerdict,
    later_verdict: Verdict,
    later_reason: Option<String>,
)
    requires
        ctx.failure(verdict, reason) is None,
        later.proposal == ctx.decided(verdict, reason),
    ensures
        later.failure(later_verdict, later_reason) is Some,
{
}

/// A proposal that was rejected is never funded.
pub proof fn lemma_rejected_proposal_is_not_funded(
    ctx: RecordVerdict,
    reason: Option<String>,
    later: ExecuteLabelFunding,
    label_token_supply: u64,
)
    requires
        ctx.failure(Verdict::Failed, reason) is None,
        later.proposal == ctx.decided(Verdict::Failed, reason),
    ensures
        later.failure(label_token_supply) is Some,
{
}

} // verus!
