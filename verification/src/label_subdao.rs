//! The label ledger: a label lends what it holds to artists.
//!
//! An artist asks for funding; if the verdict is yes, the label opens a
//! revolving credit line and sets the amount aside as committed. Drawing moves
//! funds from the label's treasury to the artist and from committed to drawn;
//! repaying moves them back, never more than is owed. What is committed is
//! held: no operation promises or pays out funds that stand behind a credit
//! line.

use vstd::prelude::*;
use crate::asset::{TokenAccount, Transfer};
use crate::error::ErrorKind;
use crate::governance::Verdict;
use crate::identity::Address;
use crate::text::{byte_len, stored_len};

verus! {

/// Longest artist name, in stored bytes.
pub const MAX_ARTIST_NAME_LEN: usize = 50;

/// Longest campaign identifier, in stored bytes.
pub const MAX_CAMPAIGN_ID_LEN: usize = 50;

/// Longest campaign description, in stored bytes.
pub const MAX_DESCRIPTION_LEN: usize = 500;

/// Longest reason for a rejection, in stored bytes.
pub const MAX_REASON_LEN: usize = 200;

/// Why the label ledger refused an operation.
#[derive(Clone, Copy, Debug, PartialEq, Eq, Structural)]
pub enum LabelError {
    /// The artist name is longer than [`MAX_ARTIST_NAME_LEN`].
    NameTooLong,
    /// The campaign identifier is longer than [`MAX_CAMPAIGN_ID_LEN`].
    IdTooLong,
    /// The description is longer than [`MAX_DESCRIPTION_LEN`].
    DescriptionTooLong,
    /// The reason is longer than [`MAX_REASON_LEN`].
    ReasonTooLong,
    /// The amount is zero.
    InvalidAmount,
    /// The label is not active.
    LabelInactive,
    /// The label's treasury does not hold the amount beyond what is committed.
    InsufficientLabelFunds,
    /// The proposal is not waiting for its verdict.
    ProposalNotPending,
    /// The verdict on the proposal was not yes.
    ProposalNotPassed,
    /// The credit line is closed.
    CreditLineInactive,
    /// The credit line does not have the credit left.
    InsufficientCredit,
    /// A counter would leave the range of its type.
    MathOverflow,
    /// The artist's balance account is not the artist's.
    InvalidTokenAccountOwner,
    /// An identity or an account is not the one that the records name.
    Unauthorized,
}

impl LabelError {
    /// The cause of the error.
    pub open spec fn spec_kind(self) -> ErrorKind {
        match self {
            LabelError::NameTooLong
            | LabelError::IdTooLong
            | LabelError::DescriptionTooLong
            | LabelError::ReasonTooLong
            | LabelError::InvalidAmount => ErrorKind::Validation,
            LabelError::LabelInactive
            | LabelError::ProposalNotPending
            | LabelError::ProposalNotPassed
            | LabelError::CreditLineInactive => ErrorKind::State,
            LabelError::InsufficientLabelFunds | LabelError::InsufficientCredit => {
                ErrorKind::Capacity
            },
            LabelError::InvalidTokenAccountOwner | LabelError::Unauthorized => {
                ErrorKind::Authorization
            },
            LabelError::MathOverflow => ErrorKind::Arithmetic,
        }
    }

    /// The cause of the error.
    #[verifier::when_used_as_spec(spec_kind)]
    pub fn kind(self) -> (kind: ErrorKind)
        ensures
            kind == self.spec_kind(),
    {
        match self {
            LabelError::NameTooLong
            | LabelError::IdTooLong
            | LabelError::DescriptionTooLong
            | LabelError::ReasonTooLong
            | LabelError::InvalidAmount => ErrorKind::Validation,
            LabelError::LabelInactive
            | LabelError::ProposalNotPending
            | LabelError::ProposalNotPassed
            | LabelError::CreditLineInactive => ErrorKind::State,
            LabelError::InsufficientLabelFunds | LabelError::InsufficientCredit => {
                ErrorKind::Capacity
            },
            LabelError::InvalidTokenAccountOwner | LabelError::Unauthorized => {
                ErrorKind::Authorization
            },
            LabelError::MathOverflow => ErrorKind::Arithmetic,
        }
    }
}

/// A label as its own ledger sees it: the counters of its treasury.
#[derive(Clone, Debug, PartialEq, Eq)]
pub struct LabelExternal {
    /// The DAO that funded the label.
    pub dao: Address,
    pub name: String,
    pub label_token_mint: Address,
    /// The balance account that holds the label's funds.
    pub treasury: Address,
    pub initial_funding: u64,
    /// How much was granted to artists as credit.
    pub total_deployed: u64,
    /// How much artists paid back.
    pub total_repaid: u64,
    /// How much of the treasury stands behind credit that was granted and not
    /// yet drawn.
    pub committed_amount: u64,
    pub is_active: bool,
    pub bump: u8,
}

impl LabelExternal {
    /// The treasury, holding `balance`, holds what is committed.
    pub open spec fn covered_by(self, balance: int) -> bool {
        self.committed_amount <= balance
    }

    /// What a treasury that holds `balance` has beyond what is committed.
    pub open spec fn available_funds(self, balance: int) -> int {
        balance - self.committed_amount
    }

    /// Why `amount` cannot be taken from what is available in a treasury that
    /// holds `balance`, if it cannot.
    pub open spec fn funds_failure(self, balance: u64, amount: u64) -> Option<LabelError> {
        if self.committed_amount > balance {
            Some(LabelError::MathOverflow)
        } else if amount > self.available_funds(balance as int) {
            Some(LabelError::InsufficientLabelFunds)
        } else {
            None
        }
    }

    /// Why a credit of `requested` cannot be granted out of a treasury that
    /// holds `balance`, if it cannot.
    pub open spec fn grant_failure(self, balance: u64, requested: u64) -> Option<LabelError> {
        if self.funds_failure(balance, requested) is Some {
            self.funds_failure(balance, requested)
        } else if self.total_deployed + requested > u64::MAX {
            Some(LabelError::MathOverflow)
        } else {
            None
        }
    }

    /// The label after it granted a credit of `requested`: the amount is
    /// deployed, and committed until it is drawn.
    pub open spec fn granted(self, requested: u64) -> LabelExternal {
        LabelExternal {
            total_deployed: (self.total_deployed + requested) as u64,
            committed_amount: (self.committed_amount + requested) as u64,
            ..self
        }
    }

    /// The label after `amount` of granted credit was drawn: that much is no
    /// longer committed.
    pub open spec fn released(self, amount: u64) -> LabelExternal {
        LabelExternal { committed_amount: (self.committed_amount - amount) as u64, ..self }
    }

    /// The label after an artist paid back `amount`.
    pub open spec fn credited(self, amount: u64) -> LabelExternal {
        LabelExternal { total_repaid: (self.total_repaid + amount) as u64, ..self }
    }

    /// Computes what the treasury has beyond what is committed, or says why
    /// `amount` cannot be taken from it.
    fn check_funds(&self, balance: u64, amount: u64) -> (res: Result<(), LabelError>)
        ensures
            match res {
                Ok(_) => self.funds_failure(balance, amount) is None,
                Err(e) => self.funds_failure(balance, amount) == Some(e),
            },
    {
        let available: u64 = match balance.checked_sub(self.committed_amount) {
            Some(rest) => rest,
            None => { return Err(LabelError::MathOverflow); },
        };
        if amount > available {
            return Err(LabelError::InsufficientLabelFunds);
        }
        Ok(())
    }
}

/// Where an artist's proposal stands.
#[derive(Clone, Copy, Debug, PartialEq, Eq, Structural)]
pub enum ArtistProposalStatus {
    /// Waiting for the verdict.
    Pending,
    /// The verdict was yes; the funding is not yet executed.
    Approved,
    /// The verdict was no.
    Rejected,
    /// The campaign is live.
    Active,
    /// The campaign is over and the credit repaid.
    Completed,
    /// The funding was executed and the credit line opened.
    Executed,
}

/// An artist's request for funding. It is kept for good, as the record of
/// what was asked and decided.
#[derive(Clone, Debug, PartialEq, Eq)]
pub struct ArtistProposal {
    pub label: Address,
    pub artist: Address,
    pub artist_name: String,
    pub campaign_id: String,
    pub requested_amount: u64,
    pub campaign_description: String,
    pub revenue_projection: u64,
    pub status: ArtistProposalStatus,
    pub submitted_at: i64,
    /// When the oracle's yes was acted on.
    pub approved_at: Option<i64>,
    /// Why the proposal was rejected.
    pub rejection_reason: Option<String>,
    /// The credit line that the execution opened.
    pub credit_line: Option<Address>,
    /// The oracle's own record of the proposal.
    pub metadao_proposal: Option<Address>,
    pub bump: u8,
}

/// A revolving credit between a label and an artist.
#[derive(Clone, Debug, PartialEq, Eq)]
pub struct CreditLine {
    pub label: Address,
    pub proposal: Address,
    pub artist: Address,
    pub campaign_id: String,
    /// The most that may be drawn in all.
    pub credit_limit: u64,
    /// What was drawn so far.
    pub credit_used: u64,
    /// What was paid back so far.
    pub credit_repaid: u64,
    pub created_at: i64,
    /// Whether the line can still be used. Once `false` it stays so.
    pub is_active: bool,
    pub bump: u8,
}

/// Something that the artist tries on a credit line.
#[derive(Clone, Copy, Debug, PartialEq, Eq, Structural)]
pub enum CreditEvent {
    Draw { amount: u64 },
    Repay { amount: u64 },
}

impl CreditLine {
    /// What every credit line of this ledger satisfies: no more is drawn than
    /// the limit, no more is paid back than was drawn, and a closed line owes
    /// nothing.
    pub open spec fn wf(self) -> bool {
        &&& self.credit_used <= self.credit_limit
        &&& self.credit_repaid <= self.credit_used
        &&& (!self.is_active ==> self.credit_repaid == self.credit_used)
    }

    /// What the artist owes: what was drawn and not paid back.
    pub open spec fn outstanding(self) -> int {
        self.credit_used - self.credit_repaid
    }

    /// What the artist may still draw. A repayment does not bring credit
    /// back: the limit is on all that is ever drawn.
    pub open spec fn available_credit(self) -> int {
        self.credit_limit - self.credit_used
    }

    /// Why the line refuses a draw of `amount`, if it does. The checks come
    /// in this order, and the first that fails gives the error.
    pub open spec fn draw_failure(self, amount: u64) -> Option<LabelError> {
        if amount == 0 {
            Some(LabelError::InvalidAmount)
        } else if !self.is_active {
            Some(LabelError::CreditLineInactive)
        } else if self.credit_used > self.credit_limit {
            Some(LabelError::MathOverflow)
        } else if amount > self.available_credit() {
            Some(LabelError::InsufficientCredit)
        } else {
            None
        }
    }

    /// The line after a draw of `amount`.
    pub open spec fn drawn(self, amount: u64) -> CreditLine {
        CreditLine { credit_used: (self.credit_used + amount) as u64, ..self }
    }

    /// Why the line refuses a repayment of `amount`, if it does. The checks
    /// come in this order, and the first that fails gives the error.
    pub open spec fn repay_failure(self, amount: u64) -> Option<LabelError> {
        if amount == 0 {
            Some(LabelError::InvalidAmount)
        } else if !self.is_active {
            Some(LabelError::CreditLineInactive)
        } else if self.credit_repaid > self.credit_used {
            Some(LabelError::MathOverflow)
        } else {
            None
        }
    }

    /// What a repayment of `amount` really pays: the amount, or what is owed
    /// if that is less. An overpayment is cut down, not refused.
    pub open spec fn actual_repayment(self, amount: u64) -> int {
        if amount <= self.outstanding() {
            amount as int
        } else {
            self.outstanding()
        }
    }

    /// The line after a repayment of `amount`. It closes when nothing is owed
    /// any more.
    pub open spec fn repaid(self, amount: u64) -> CreditLine {
        CreditLine {
            credit_repaid: (self.credit_repaid + self.actual_repayment(amount)) as u64,
            is_active: self.credit_repaid + self.actual_repayment(amount) < self.credit_used,
            ..self
        }
    }

    /// Why the line refuses what the artist tries, if it does.
    pub open spec fn failure(self, event: CreditEvent) -> Option<LabelError> {
        match event {
            CreditEvent::Draw { amount } => self.draw_failure(amount),
            CreditEvent::Repay { amount } => self.repay_failure(amount),
        }
    }

    /// What passes from the label's treasury to the artist when the artist
    /// tries `event`: what is drawn, or the negative of what is really paid
    /// back, or nothing if the line refuses.
    pub open spec fn paid_out(self, event: CreditEvent) -> int {
        if self.failure(event) is Some {
            0
        } else {
            match event {
                CreditEvent::Draw { amount } => amount as int,
                CreditEvent::Repay { amount } => -self.actual_repayment(amount),
            }
        }
    }

    /// The line after the artist tried `event`: what the line refuses leaves
    /// it as it was.
    pub open spec fn after(self, event: CreditEvent) -> CreditLine {
        if self.failure(event) is Some {
            self
        } else {
            match event {
                CreditEvent::Draw { amount } => self.drawn(amount),
                CreditEvent::Repay { amount } => self.repaid(amount),
            }
        }
    }

    /// The line after the artist tried each of `events`, in turn.
    pub open spec fn after_all(self, events: Seq<CreditEvent>) -> CreditLine
        decreases events.len(),
    {
        if events.len() == 0 {
            self
        } else {
            self.after_all(events.drop_last()).after(events.last())
        }
    }

    /// What passed in all from the label's treasury to the artist while the
    /// artist tried each of `events`, in turn.
    pub open spec fn paid_out_in_all(self, events: Seq<CreditEvent>) -> int
        decreases events.len(),
    {
        if events.len() == 0 {
            0
        } else {
            self.paid_out_in_all(events.drop_last()) + self.after_all(
                events.drop_last(),
            ).paid_out(events.last())
        }
    }

    /// Checks [`CreditLine::wf`].
    pub fn is_well_formed(&self) -> (ok: bool)
        ensures
            ok == self.wf(),
    {
        self.credit_used <= self.credit_limit && self.credit_repaid <= self.credit_used && (
        self.is_active || self.credit_repaid == self.credit_used)
    }
}

/// One step on a credit line: the line stays well-formed, its limit stays,
/// and what is owed moves by exactly what passed between treasury and artist.
/// So what is owed rises only by a draw, falls only by a repayment, and is
/// never negative.
pub proof fn lemma_credit_step_conserves(line: CreditLine, event: CreditEvent)
    requires
        line.wf(),
    ensures
        line.after(event).wf(),
        line.after(event).credit_limit == line.credit_limit,
        line.after(event).outstanding() == line.outstanding() + line.paid_out(event),
        0 <= line.after(event).outstanding() <= line.credit_limit,
        line.after(event).outstanding() > line.outstanding() ==> event is Draw,
        line.after(event).outstanding() < line.outstanding() ==> event is Repay,
        line.after(event).credit_used >= line.credit_used,
        line.after(event).credit_repaid >= line.credit_repaid,
{
}

/// Whatever the artist tries and in whatever order, what is owed on a credit
/// line is what was owed before plus what passed from the treasury to the
/// artist since, and it lies between nothing and the limit.
pub proof fn lemma_credit_line_conservation(line: CreditLine, events: Seq<CreditEvent>)
    requires
        line.wf(),
    ensures
        line.after_all(events).wf(),
        line.after_all(events).credit_limit == line.credit_limit,
        line.after_all(events).outstanding() == line.outstanding() + line.paid_out_in_all(
            events,
        ),
        0 <= line.after_all(events).outstanding() <= line.credit_limit,
    decreases events.len(),
{
    if events.len() > 0 {
        lemma_credit_line_conservation(line, events.drop_last());
        lemma_credit_step_conserves(line.after_all(events.drop_last()), events.last());
    }
}

/// A closed credit line stays closed and as it is: whatever the artist
/// tries, nothing is drawn and nothing is paid.
pub proof fn lemma_closed_line_stays_closed(line: CreditLine, events: Seq<CreditEvent>)
    requires
        !line.is_active,
    ensures
        line.after_all(events) == line,
        line.paid_out_in_all(events) == 0,
    decreases events.len(),
{
    if events.len() > 0 {
        lemma_closed_line_stays_closed(line, events.drop_last());
    }
}

/// Once a credit line is closed it is never active again, whatever follows.
pub proof fn lemma_credit_line_never_reopens(
    line: CreditLine,
    before: Seq<CreditEvent>,
    after: Seq<CreditEvent>,
)
    requires
        !line.after_all(before).is_active,
    ensures
        line.after_all(before + after) == line.after_all(before),
    decreases after.len(),
{
    if after.len() == 0 {
        assert(before + after =~= before);
    } else {
        assert((before + after).drop_last() =~= before + after.drop_last());
        assert((before + after).last() == after.last());
        lemma_credit_line_never_reopens(line, before, after.drop_last());
    }
}

/// What the submission of an artist's proposal reads.
#[derive(Clone, Debug, PartialEq, Eq)]
pub struct SubmitProposal {
    pub label: LabelExternal,
    pub label_key: Address,
    /// The label's treasury, as the asset service reports it now.
    pub label_treasury: TokenAccount,
    /// Who submits, and would receive the credit.
    pub artist: Address,
    pub proposal_bump: u8,
    /// The clock's reading.
    pub unix_timestamp: i64,
}

impl SubmitProposal {
    /// Why the submission is refused, if it is. The checks come in this
    /// order, and the first that fails gives the error.
    pub open spec fn failure(
        self,
        artist_name: Seq<char>,
        campaign_id: Seq<char>,
        requested_amount: u64,
        campaign_description: Seq<char>,
    ) -> Option<LabelError> {
        if self.label_treasury.key != self.label.treasury {
            Some(LabelError::Unauthorized)
        } else if stored_len(artist_name) > MAX_ARTIST_NAME_LEN {
            Some(LabelError::NameTooLong)
        } else if stored_len(campaign_id) > MAX_CAMPAIGN_ID_LEN {
            Some(LabelError::IdTooLong)
        } else if requested_amount == 0 {
            Some(LabelError::InvalidAmount)
        } else if stored_len(campaign_description) > MAX_DESCRIPTION_LEN {
            Some(LabelError::DescriptionTooLong)
        } else if !self.label.is_active {
            Some(LabelError::LabelInactive)
        } else {
            self.label.funds_failure(self.label_treasury.amount, requested_amount)
        }
    }
}

/// Submits an artist's proposal for a credit of `requested_amount`.
///
/// The label must be active, and its treasury must hold the amount beyond
/// what is already committed: funds that stand behind a granted credit are
/// not promised twice. The proposal starts as `Pending`; the label does not
/// change.
pub fn submit_artist_proposal(
    ctx: &SubmitProposal,
    artist_name: String,
    campaign_id: String,
    requested_amount: u64,
    campaign_description: String,
    revenue_projection: u64,
) -> (res: Result<ArtistProposal, LabelError>)
    ensures
        match res {
            Ok(proposal) => {
                &&& ctx.failure(
                    artist_name@,
                    campaign_id@,
                    requested_amount,
                    campaign_description@,
                ) is None
                &&& requested_amount + ctx.label.committed_amount <= ctx.label_treasury.amount
                &&& proposal == (ArtistProposal {
                    label: ctx.label_key,
                    artist: ctx.artist,
                    artist_name,
                    campaign_id,
                    requested_amount,
                    campaign_description,
                    revenue_projection,
                    status: ArtistProposalStatus::Pending,
                    submitted_at: ctx.unix_timestamp,
                    approved_at: None,
                    rejection_reason: None,
                    credit_line: None,
                    metadao_proposal: None,
                    bump: ctx.proposal_bump,
                })
            },
            Err(e) => ctx.failure(
                artist_name@,
                campaign_id@,
                requested_amount,
                campaign_description@,
            ) == Some(e),
        },
{
    if !ctx.label_treasury.key.equals(&ctx.label.treasury) {
        return Err(LabelError::Unauthorized);
    }
    if byte_len(&artist_name) > MAX_ARTIST_NAME_LEN {
        return Err(LabelError::NameTooLong);
    }
    if byte_len(&campaign_id) > MAX_CAMPAIGN_ID_LEN {
        return Err(LabelError::IdTooLong);
    }
    if requested_amount == 0 {
        return Err(LabelError::InvalidAmount);
    }
    if byte_len(&campaign_description) > MAX_DESCRIPTION_LEN {
        return Err(LabelError::DescriptionTooLong);
    }
    if !ctx.label.is_active {
        return Err(LabelError::LabelInactive);
    }
    match ctx.label.check_funds(ctx.label_treasury.amount, requested_amount) {
        Ok(_) => {},
        Err(e) => { return Err(e); },
    }
    Ok(
        ArtistProposal {
            label: ctx.label_key,
            artist: ctx.artist,
            artist_name,
            campaign_id,
            requested_amount,
            campaign_description,
            revenue_projection,
            status: ArtistProposalStatus::Pending,
            submitted_at: ctx.unix_timestamp,
            approved_at: None,
            rejection_reason: None,
            credit_line: None,
            metadao_proposal: None,
            bump: ctx.proposal_bump,
        },
    )
}

/// What the execution of an artist's funding reads and changes.
#[derive(Clone, Debug, PartialEq, Eq)]
pub struct ExecuteFunding {
    pub label: LabelExternal,
    pub label_key: Address,
    /// The label's treasury, as the asset service reports it now.
    pub label_treasury: TokenAccount,
    pub proposal: ArtistProposal,
    pub proposal_key: Address,
    /// Where the new credit line will live.
    pub credit_line_key: Address,
    pub credit_line_bump: u8,
    /// Who brings the verdict.
    pub oracle: Address,
    /// The oracle's verdict on the proposal.
    pub verdict: Verdict,
    /// The clock's reading.
    pub unix_timestamp: i64,
}

impl ExecuteFunding {
    /// The proposal is the label's, the treasury is the label's, and the
    /// verdict comes from the DAO that funded the label, which speaks for the
    /// oracle.
    pub open spec fn accounts_match(self) -> bool {
        &&& self.proposal.label == self.label_key
        &&& self.label_treasury.key == self.label.treasury
        &&& self.oracle == self.label.dao
    }

    /// Why the execution is refused, if it is. The checks come in this order,
    /// and the first that fails gives the error.
    pub open spec fn failure(self) -> Option<LabelError> {
        if !self.accounts_match() {
            Some(LabelError::Unauthorized)
        } else if self.proposal.status != ArtistProposalStatus::Pending {
            Some(LabelError::ProposalNotPending)
        } else if self.verdict != Verdict::Passed {
            Some(LabelError::ProposalNotPassed)
        } else {
            self.label.grant_failure(self.label_treasury.amount, self.proposal.requested_amount)
        }
    }

    /// The credit line that the execution opens.
    pub open spec fn new_credit_line(self) -> CreditLine {
        CreditLine {
            label: self.label_key,
            proposal: self.proposal_key,
            artist: self.proposal.artist,
            campaign_id: self.proposal.campaign_id,
            credit_limit: self.proposal.requested_amount,
            credit_used: 0,
            credit_repaid: 0,
            created_at: self.unix_timestamp,
            is_active: true,
            bump: self.credit_line_bump,
        }
    }

    /// The context after the execution: the proposal is executed and points
    /// to its credit line, and the label has deployed and committed the
    /// amount.
    pub open spec fn executed(self) -> ExecuteFunding {
        ExecuteFunding {
            label: self.label.granted(self.proposal.requested_amount),
            proposal: ArtistProposal {
                status: ArtistProposalStatus::Executed,
                approved_at: Some(self.unix_timestamp),
                credit_line: Some(self.credit_line_key),
                ..self.proposal
            },
            ..self
        }
    }
}

/// Executes the funding of an artist whose proposal is pending and has the
/// oracle's yes.
///
/// No funds move: the label opens a credit line over the requested amount and
/// sets the amount aside as committed, so the treasury must, now, hold it
/// beyond what is committed already. The proposal becomes `Executed`, from
/// where no operation leads on: a proposal is executed at most once.
pub fn execute_artist_funding(ctx: &mut ExecuteFunding) -> (res: Result<CreditLine, LabelError>)
    ensures
        match res {
            Ok(credit_line) => {
                &&& old(ctx).failure() is None
                &&& credit_line == old(ctx).new_credit_line()
                &&& credit_line.wf()
                &&& *final(ctx) == old(ctx).executed()
                &&& final(ctx).label.covered_by(final(ctx).label_treasury.amount as int)
            },
            Err(e) => {
                &&& old(ctx).failure() == Some(e)
                &&& *final(ctx) == *old(ctx)
            },
        },
        final(ctx).label_treasury == old(ctx).label_treasury,
        old(ctx).label.covered_by(old(ctx).label_treasury.amount as int)
            ==> final(ctx).label.covered_by(final(ctx).label_treasury.amount as int),
        old(ctx).label.committed_amount + old(ctx).proposal.requested_amount
            > old(ctx).label_treasury.amount ==> res is Err,
{
    if !(ctx.proposal.label.equals(&ctx.label_key) && ctx.label_treasury.key.equals(
        &ctx.label.treasury) && ctx.oracle.equals(&ctx.label.dao)) {
        return Err(LabelError::Unauthorized);
    }
    if ctx.proposal.status != ArtistProposalStatus::Pending {
        return Err(LabelError::ProposalNotPending);
    }
    if ctx.verdict != Verdict::Passed {
        return Err(LabelError::ProposalNotPassed);
    }
    let requested: u64 = ctx.proposal.requested_amount;
    match ctx.label.check_funds(ctx.label_treasury.amount, requested) {
        Ok(_) => {},
        Err(e) => { return Err(e); },
    }
    let deployed: u64 = match ctx.label.total_deployed.checked_add(requested) {
        Some(n) => n,
        None => { return Err(LabelError::MathOverflow); },
    };
    let committed: u64 = ctx.label.committed_amount + requested;
    let credit_line = CreditLine {
        label: ctx.label_key,
        proposal: ctx.proposal_key,
        artist: ctx.proposal.artist,
        campaign_id: ctx.proposal.campaign_id.clone(),
        credit_limit: requested,
        credit_used: 0,
        credit_repaid: 0,
        created_at: ctx.unix_timestamp,
        is_active: true,
        bump: ctx.credit_line_bump,
    };
    ctx.proposal.status = ArtistProposalStatus::Executed;
    ctx.proposal.approved_at = Some(ctx.unix_timestamp);
    ctx.proposal.credit_line = Some(ctx.credit_line_key);
    ctx.label.total_deployed = deployed;
    ctx.label.committed_amount = committed;
    Ok(credit_line)
}

/// What the rejection of an artist's proposal reads and changes.
#[derive(Clone, Debug, PartialEq, Eq)]
pub struct RejectProposal {
    pub label: LabelExternal,
    pub label_key: Address,
    pub proposal: ArtistProposal,
    /// Who brings the verdict.
    pub oracle: Address,
}

impl RejectProposal {
    /// Why the rejection is refused, if it is. The checks come in this
    /// order, and the first that fails gives the error.
    pub open spec fn failure(self, reason: Seq<char>) -> Option<LabelError> {
        if self.proposal.label != self.label_key || self.oracle != self.label.dao {
            Some(LabelError::Unauthorized)
        } else if self.proposal.status != ArtistProposalStatus::Pending {
            Some(LabelError::ProposalNotPending)
        } else if stored_len(reason) > MAX_REASON_LEN {
            Some(LabelError::ReasonTooLong)
        } else {
            None
        }
    }

    /// The context after the rejection.
    pub open spec fn rejected(self, reason: String) -> RejectProposal {
        RejectProposal {
            proposal: ArtistProposal {
                status: ArtistProposalStatus::Rejected,
                rejection_reason: Some(reason),
                ..self.proposal
            },
            ..self
        }
    }
}

/// Records the oracle's no on a pending proposal, with its reason.
///
/// The oracle's yes is not recorded but acted on, by
/// [`execute_artist_funding`]. The verdict comes from the DAO that funded the
/// label. The proposal becomes `Rejected`, from where no operation leads on;
/// the label does not change.
pub fn reject_artist_proposal(ctx: &mut RejectProposal, reason: String) -> (res: Result<
    (),
    LabelError,
>)
    ensures
        match res {
            Ok(_) => {
                &&& old(ctx).failure(reason@) is None
                &&& *final(ctx) == old(ctx).rejected(reason)
            },
            Err(e) => {
                &&& old(ctx).failure(reason@) == Some(e)
                &&& *final(ctx) == *old(ctx)
            },
        },
{
    if !(ctx.proposal.label.equals(&ctx.label_key) && ctx.oracle.equals(&ctx.label.dao)) {
        return Err(LabelError::Unauthorized);
    }
    if ctx.proposal.status != ArtistProposalStatus::Pending {
        return Err(LabelError::ProposalNotPending);
    }
    if byte_len(&reason) > MAX_REASON_LEN {
        return Err(LabelError::ReasonTooLong);
    }
    ctx.proposal.status = ArtistProposalStatus::Rejected;
    ctx.proposal.rejection_reason = Some(reason);
    Ok(())
}

/// What a draw reads and changes.
#[derive(Clone, Debug, PartialEq, Eq)]
pub struct DrawCredit {
    pub label: LabelExternal,
    pub label_key: Address,
    pub credit_line: CreditLine,
    pub label_treasury: TokenAccount,
    /// Where the funds go.
    pub artist_account: TokenAccount,
    /// Who draws.
    pub artist: Address,
}

impl DrawCredit {
    /// The credit line is the label's, the one who draws is its artist, and
    /// the treasury is the label's.
    pub open spec fn accounts_match(self) -> bool {
        &&& self.credit_line.label == self.label_key
        &&& self.credit_line.artist == self.artist
        &&& self.label_treasury.key == self.label.treasury
    }

    /// Why the draw is refused, if it is. The checks come in this order, and
    /// the first that fails gives the error.
    pub open spec fn failure(self, amount: u64) -> Option<LabelError> {
        if !self.accounts_match() {
            Some(LabelError::Unauthorized)
        } else if self.artist_account.owner != self.artist {
            Some(LabelError::InvalidTokenAccountOwner)
        } else if self.credit_line.draw_failure(amount) is Some {
            self.credit_line.draw_failure(amount)
        } else if amount > self.label.committed_amount {
            Some(LabelError::MathOverflow)
        } else {
            None
        }
    }

    /// The instruction that carries the draw out.
    pub open spec fn transfer(self, amount: u64) -> Transfer {
        Transfer {
            from: self.label.treasury,
            to: self.artist_account.key,
            authority: self.label_key,
            amount,
        }
    }

    /// The context after the draw.
    pub open spec fn executed(self, amount: u64) -> DrawCredit {
        DrawCredit {
            label: self.label.released(amount),
            credit_line: self.credit_line.drawn(amount),
            ..self
        }
    }
}

/// Draws `amount` on a credit line, for its artist.
///
/// The line must be active and have the credit left. The amount moves from
/// the label's treasury to the artist, and from committed to drawn.
pub fn draw_credit(ctx: &mut DrawCredit, amount: u64) -> (res: Result<Transfer, LabelError>)
    ensures
        match res {
            Ok(transfer) => {
                &&& old(ctx).failure(amount) is None
                &&& transfer == old(ctx).transfer(amount)
                &&& *final(ctx) == old(ctx).executed(amount)
                &&& final(ctx).credit_line == old(ctx).credit_line.after(
                    CreditEvent::Draw { amount },
                )
            },
            Err(e) => {
                &&& old(ctx).failure(amount) == Some(e)
                &&& *final(ctx) == *old(ctx)
            },
        },
        old(ctx).credit_line.wf() ==> final(ctx).credit_line.wf(),
        !old(ctx).credit_line.is_active ==> res is Err && !final(ctx).credit_line.is_active,
{
    if !(ctx.credit_line.label.equals(&ctx.label_key) && ctx.credit_line.artist.equals(
        &ctx.artist) && ctx.label_treasury.key.equals(&ctx.label.treasury)) {
        return Err(LabelError::Unauthorized);
    }
    if !ctx.artist_account.owner.equals(&ctx.artist) {
        return Err(LabelError::InvalidTokenAccountOwner);
    }
    if amount == 0 {
        return Err(LabelError::InvalidAmount);
    }
    if !ctx.credit_line.is_active {
        return Err(LabelError::CreditLineInactive);
    }
    let available_credit: u64 = match ctx.credit_line.credit_limit.checked_sub(
        ctx.credit_line.credit_used,
    ) {
        Some(rest) => rest,
        None => { return Err(LabelError::MathOverflow); },
    };
    if amount > available_credit {
        return Err(LabelError::InsufficientCredit);
    }
    let committed: u64 = match ctx.label.committed_amount.checked_sub(amount) {
        Some(rest) => rest,
        None => { return Err(LabelError::MathOverflow); },
    };
    let transfer = Transfer {
        from: ctx.label.treasury,
        to: ctx.artist_account.key,
        authority: ctx.label_key,
        amount,
    };
    ctx.credit_line.credit_used = ctx.credit_line.credit_used + amount;
    ctx.label.committed_amount = committed;
    Ok(transfer)
}

/// What a repayment reads and changes.
#[derive(Clone, Debug, PartialEq, Eq)]
pub struct RepayCredit {
    pub label: LabelExternal,
    pub label_key: Address,
    pub credit_line: CreditLine,
    /// From where the artist pays.
    pub artist_account: TokenAccount,
    pub label_treasury: TokenAccount,
    /// Who repays.
    pub artist: Address,
}

impl RepayCredit {
    /// The credit line is the label's, the one who repays is its artist, and
    /// the treasury is the label's.
    pub open spec fn accounts_match(self) -> bool {
        &&& self.credit_line.label == self.label_key
        &&& self.credit_line.artist == self.artist
        &&& self.label_treasury.key == self.label.treasury
    }

    /// Why the repayment is refused, if it is. The checks come in this
    /// order, and the first that fails gives the error.
    pub open spec fn failure(self, amount: u64) -> Option<LabelError> {
        if !self.accounts_match() {
            Some(LabelError::Unauthorized)
        } else if self.artist_account.owner != self.artist {
            Some(LabelError::InvalidTokenAccountOwner)
        } else if self.credit_line.repay_failure(amount) is Some {
            self.credit_line.repay_failure(amount)
        } else if self.label.total_repaid + self.credit_line.actual_repayment(amount)
            > u64::MAX {
            Some(LabelError::MathOverflow)
        } else {
            None
        }
    }

    /// The instruction that carries the repayment out: it moves what is
    /// really paid, not what was offered.
    pub open spec fn transfer(self, amount: u64) -> Transfer {
        Transfer {
            from: self.artist_account.key,
            to: self.label.treasury,
            authority: self.artist,
            amount: self.credit_line.actual_repayment(amount) as u64,
        }
    }

    /// The context after the repayment.
    pub open spec fn executed(self, amount: u64) -> RepayCredit {
        RepayCredit {
            label: self.label.credited(self.credit_line.actual_repayment(amount) as u64),
            credit_line: self.credit_line.repaid(amount),
            ..self
        }
    }
}

/// Repays up to `amount` on a credit line, for its artist.
///
/// The line must be active. What is really paid is `amount` or what is owed,
/// whichever is less: an overpayment is cut down, not refused. That much
/// moves from the artist to the label's treasury. When nothing is owed any
/// more the line closes, for good.
pub fn repay_credit(ctx: &mut RepayCredit, amount: u64) -> (res: Result<Transfer, LabelError>)
    ensures
        match res {
            Ok(transfer) => {
                &&& old(ctx).failure(amount) is None
                &&& transfer == old(ctx).transfer(amount)
                &&& transfer.amount <= amount
                &&& *final(ctx) == old(ctx).executed(amount)
                &&& final(ctx).credit_line == old(ctx).credit_line.after(
                    CreditEvent::Repay { amount },
                )
            },
            Err(e) => {
                &&& old(ctx).failure(amount) == Some(e)
                &&& *final(ctx) == *old(ctx)
            },
        },
        old(ctx).credit_line.wf() ==> final(ctx).credit_line.wf(),
        !old(ctx).credit_line.is_active ==> res is Err && !final(ctx).credit_line.is_active,
{
    if !(ctx.credit_line.label.equals(&ctx.label_key) && ctx.credit_line.artist.equals(
        &ctx.artist) && ctx.label_treasury.key.equals(&ctx.label.treasury)) {
        return Err(LabelError::Unauthorized);
    }
    if !ctx.artist_account.owner.equals(&ctx.artist) {
        return Err(LabelError::InvalidTokenAccountOwner);
    }
    if amount == 0 {
        return Err(LabelError::InvalidAmount);
    }
    if !ctx.credit_line.is_active {
        return Err(LabelError::CreditLineInactive);
    }
    let remaining_balance: u64 = match ctx.credit_line.credit_used.checked_sub(
        ctx.credit_line.credit_repaid,
    ) {
        Some(rest) => rest,
        None => { return Err(LabelError::MathOverflow); },
    };
    let actual_repayment: u64 = if amount <= remaining_balance {
        amount
    } else {
        remaining_balance
    };
    let label_repaid: u64 = match ctx.label.total_repaid.checked_add(actual_repayment) {
        Some(n) => n,
        None => { return Err(LabelError::MathOverflow); },
    };
    let transfer = Transfer {
        from: ctx.artist_account.key,
        to: ctx.label.treasury,
        authority: ctx.artist,
        amount: actual_repayment,
    };
    let credit_repaid: u64 = ctx.credit_line.credit_repaid + actual_repayment;
    ctx.credit_line.credit_repaid = credit_repaid;
    if credit_repaid >= ctx.credit_line.credit_used {
        ctx.credit_line.is_active = false;
    }
    ctx.label.total_repaid = label_repaid;
    Ok(transfer)
}

/// What a settlement with the DAO reads.
#[derive(Clone, Debug, PartialEq, Eq)]
pub struct SettleWithDAO {
    pub label: LabelExternal,
    pub label_key: Address,
    /// The label's treasury, as the asset service reports it now.
    pub label_treasury: TokenAccount,
    /// Where the funds go.
    pub dao_treasury: TokenAccount,
    /// Who asks for the settlement. Anybody may.
    pub caller: Address,
}

impl SettleWithDAO {
    /// The paying treasury is the label's, and the receiving account belongs
    /// to the DAO that funded the label.
    pub open spec fn accounts_match(self) -> bool {
        &&& self.label_treasury.key == self.label.treasury
        &&& self.dao_treasury.owner == self.label.dao
    }

    /// Why the settlement is refused, if it is. The checks come in this
    /// order, and the first that fails gives the error.
    pub open spec fn failure(self, amount: u64) -> Option<LabelError> {
        if !self.accounts_match() {
            Some(LabelError::Unauthorized)
        } else if amount == 0 {
            Some(LabelError::InvalidAmount)
        } else if !self.label.is_active {
            Some(LabelError::LabelInactive)
        } else {
            self.label.funds_failure(self.label_treasury.amount, amount)
        }
    }
}

/// Sends `amount` from an active label's treasury to its DAO's.
///
/// Anybody may ask for it. The treasury must hold the amount beyond what is
/// committed: a settlement never pays out funds that stand behind a credit
/// line. No counter follows the settlement.
pub fn settle_with_dao(ctx: &SettleWithDAO, amount: u64) -> (res: Result<Transfer, LabelError>)
    ensures
        match res {
            Ok(transfer) => {
                &&& ctx.failure(amount) is None
                &&& transfer == (Transfer {
                    from: ctx.label.treasury,
                    to: ctx.dao_treasury.key,
                    authority: ctx.label_key,
                    amount,
                })
                &&& ctx.label.covered_by(ctx.label_treasury.amount - amount)
            },
            Err(e) => ctx.failure(amount) == Some(e),
        },
        amount + ctx.label.committed_amount > ctx.label_treasury.amount ==> res is Err,
{
    if !(ctx.label_treasury.key.equals(&ctx.label.treasury) && ctx.dao_treasury.owner.equals(
        &ctx.label.dao)) {
        return Err(LabelError::Unauthorized);
    }
    if amount == 0 {
        return Err(LabelError::InvalidAmount);
    }
    if !ctx.label.is_active {
        return Err(LabelError::LabelInactive);
    }
    match ctx.label.check_funds(ctx.label_treasury.amount, amount) {
        Ok(_) => {},
        Err(e) => { return Err(e); },
    }
    Ok(
        Transfer {
            from: ctx.label.treasury,
            to: ctx.dao_treasury.key,
            authority: ctx.label_key,
            amount,
        },
    )
}

/// Something that moves a label's funds or its commitments.
#[derive(Clone, Copy, Debug, PartialEq, Eq, Structural)]
pub enum TreasuryEvent {
    /// The funding of an artist is executed, over `requested`.
    Grant { requested: u64 },
    /// An artist draws `amount` of granted credit.
    Draw { amount: u64 },
    /// An artist really pays back `amount`.
    Repay { amount: u64 },
    /// `amount` is settled with the DAO.
    Settle { amount: u64 },
    /// The treasury receives `amount` from anywhere else.
    Deposit { amount: u64 },
}

/// A label's counters together with what its treasury holds.
pub struct LabelFunds {
    pub label: LabelExternal,
    pub balance: u64,
}

impl LabelFunds {
    /// The treasury holds what is committed.
    pub open spec fn covered(self) -> bool {
        self.label.covered_by(self.balance as int)
    }

    /// Whether `event` is refused: by the label's own checks, or by the asset
    /// service, which moves no more than an account holds and no more into an
    /// account than it can hold.
    pub open spec fn refuses(self, event: TreasuryEvent) -> bool {
        match event {
            TreasuryEvent::Grant { requested } => self.label.grant_failure(
                self.balance,
                requested,
            ) is Some,
            TreasuryEvent::Draw { amount } => amount > self.label.committed_amount || amount
                > self.balance,
            TreasuryEvent::Repay { amount } => self.label.total_repaid + amount > u64::MAX
                || self.balance + amount > u64::MAX,
            TreasuryEvent::Settle { amount } => amount == 0 || !self.label.is_active
                || self.label.funds_failure(self.balance, amount) is Some,
            TreasuryEvent::Deposit { amount } => self.balance + amount > u64::MAX,
        }
    }

    /// Counters and balance after `event`: what is refused leaves both as
    /// they were.
    pub open spec fn after(self, event: TreasuryEvent) -> LabelFunds {
        if self.refuses(event) {
            self
        } else {
            match event {
                TreasuryEvent::Grant { requested } => LabelFunds {
                    label: self.label.granted(requested),
                    balance: self.balance,
                },
                TreasuryEvent::Draw { amount } => LabelFunds {
                    label: self.label.released(amount),
                    balance: (self.balance - amount) as u64,
                },
                TreasuryEvent::Repay { amount } => LabelFunds {
                    label: self.label.credited(amount),
                    balance: (self.balance + amount) as u64,
                },
                TreasuryEvent::Settle { amount } => LabelFunds {
                    label: self.label,
                    balance: (self.balance - amount) as u64,
                },
                TreasuryEvent::Deposit { amount } => LabelFunds {
                    label: self.label,
                    balance: (self.balance + amount) as u64,
                },
            }
        }
    }

    /// Counters and balance after each of `events`, in turn.
    pub open spec fn after_all(self, events: Seq<TreasuryEvent>) -> LabelFunds
        decreases events.len(),
    {
        if events.len() == 0 {
            self
        } else {
            self.after_all(events.drop_last()).after(events.last())
        }
    }
}

/// What is committed rises only when a funding is executed, and then by what
/// was requested; it falls only when credit is drawn, and then by what was
/// drawn. If the treasury held what was committed, it still does.
pub proof fn lemma_commitment_moves_only_by_grant_and_draw(
    funds: LabelFunds,
    event: TreasuryEvent,
)
    ensures
        funds.after(event).label.committed_amount > funds.label.committed_amount ==> {
            &&& event matches TreasuryEvent::Grant { requested }
            &&& funds.after(event).label.committed_amount == funds.label.committed_amount
                + requested
        },
        funds.after(event).label.committed_amount < funds.label.committed_amount ==> {
            &&& event matches TreasuryEvent::Draw { amount }
            &&& funds.after(event).label.committed_amount == funds.label.committed_amount
                - amount
        },
        funds.covered() ==> funds.after(event).covered(),
{
}

/// Whatever happens to a label's treasury and in whatever order, what is
/// committed stays held: it is never more than the treasury's balance.
pub proof fn lemma_commitments_stay_covered(funds: LabelFunds, events: Seq<TreasuryEvent>)
    requires
        funds.covered(),
    ensures
        funds.after_all(events).covered(),
        0 <= funds.after_all(events).label.committed_amount <= funds.after_all(events).balance,
    decreases events.len(),
{
    if events.len() > 0 {
        lemma_commitments_stay_covered(funds, events.drop_last());
        lemma_commitment_moves_only_by_grant_and_draw(
            funds.after_all(events.drop_last()),
            events.last(),
        );
    }
}

/// An executed funding is the event `Grant` on the label's funds.
pub proof fn lemma_execution_is_a_grant(ctx: ExecuteFunding)
    requires
        ctx.failure() is None,
    ensures
        (LabelFunds { label: ctx.label, balance: ctx.label_treasury.amount }).after(
            TreasuryEvent::Grant { requested: ctx.proposal.requested_amount },
        ) == (LabelFunds { label: ctx.executed().label, balance: ctx.label_treasury.amount }),
{
}

/// A draw that the asset service carries out is the event `Draw` on the
/// label's funds.
pub proof fn lemma_draw_is_a_draw(ctx: DrawCredit, amount: u64)
    requires
        ctx.failure(amount) is None,
        amount <= ctx.label_treasury.amount,
        ctx.artist_account.key != ctx.label.treasury,
    ensures
        (LabelFunds { label: ctx.label, balance: ctx.label_treasury.amount }).after(
            TreasuryEvent::Draw { amount },
        ) == (LabelFunds {
            label: ctx.executed(amount).label,
            balance: ctx.transfer(amount).balance_after(
                ctx.label.treasury,
                ctx.label_treasury.amount as int,
            ) as u64,
        }),
{
}

/// A repayment that the asset service carries out is the event `Repay`, over
/// what is really paid, on the label's funds.
pub proof fn lemma_repayment_is_a_repay(ctx: RepayCredit, amount: u64)
    requires
        ctx.failure(amount) is None,
        ctx.label_treasury.amount + ctx.transfer(amount).amount <= u64::MAX,
        ctx.artist_account.key != ctx.label.treasury,
    ensures
        (LabelFunds { label: ctx.label, balance: ctx.label_treasury.amount }).after(
            TreasuryEvent::Repay { amount: ctx.transfer(amount).amount },
        ) == (LabelFunds {
            label: ctx.executed(amount).label,
            balance: ctx.transfer(amount).balance_after(
                ctx.label.treasury,
                ctx.label_treasury.amount as int,
            ) as u64,
        }),
{
}

/// A settlement is the event `Settle` on the label's funds.
pub proof fn lemma_settlement_is_a_settle(ctx: SettleWithDAO, amount: u64)
    requires
        ctx.failure(amount) is None,
        ctx.dao_treasury.key != ctx.label.treasury,
    ensures
        (LabelFunds { label: ctx.label, balance: ctx.label_treasury.amount }).after(
            TreasuryEvent::Settle { amount },
        ) == (LabelFunds {
            label: ctx.label,
            balance: (Transfer {
                from: ctx.label.treasury,
                to: ctx.dao_treasury.key,
                authority: ctx.label_key,
                amount,
            }).balance_after(ctx.label.treasury, ctx.label_treasury.amount as int) as u64,
        }),
{
}

/// The sum of the amounts that the waiting proposals ask for.
pub open spec fn total_requested(waiting: Seq<u64>) -> int
    decreases waiting.len(),
{
    if waiting.len() == 0 {
        0
    } else {
        total_requested(waiting.drop_last()) + waiting.last()
    }
}

/// What is committed and what all waiting proposals ask for is, together,
/// held by a treasury with `balance`.
pub open spec fn fully_backed(label: LabelExternal, balance: int, waiting: Seq<u64>) -> bool {
    label.committed_amount + total_requested(waiting) <= balance
}

/// Taking one amount out of the waiting ones takes it out of their sum.
pub proof fn lemma_total_requested_remove(waiting: Seq<u64>, i: int)
    requires
        0 <= i < waiting.len(),
    ensures
        total_requested(waiting.remove(i)) == total_requested(waiting) - waiting[i],
    decreases waiting.len(),
{
    if i == waiting.len() - 1 {
        assert(waiting.remove(i) =~= waiting.drop_last());
    } else {
        assert(waiting.remove(i).drop_last() =~= waiting.drop_last().remove(i));
        assert(waiting.remove(i).last() == waiting.last());
        lemma_total_requested_remove(waiting.drop_last(), i);
    }
}

/// A proposal that is accepted is backed beside everything that is
/// committed. Beside the proposals that already wait it is backed exactly if
/// its amount is within what is available less what they ask for: the
/// submission looks at what is committed, not at what waits, so together the
/// waiting proposals can ask for more than the treasury holds.
pub proof fn lemma_submission_backing(
    ctx: SubmitProposal,
    waiting: Seq<u64>,
    artist_name: Seq<char>,
    campaign_id: Seq<char>,
    requested_amount: u64,
    campaign_description: Seq<char>,
)
    requires
        ctx.failure(artist_name, campaign_id, requested_amount, campaign_description) is None,
    ensures
        fully_backed(ctx.label, ctx.label_treasury.amount as int, seq![requested_amount]),
        fully_backed(
            ctx.label,
            ctx.label_treasury.amount as int,
            waiting.push(requested_amount),
        ) <==> requested_amount <= ctx.label.available_funds(ctx.label_treasury.amount as int)
            - total_requested(waiting),
{
    assert(waiting.push(requested_amount).drop_last() =~= waiting);
    assert(total_requested(seq![requested_amount]) == requested_amount) by {
        reveal_with_fuel(total_requested, 2);
    }
}

/// The execution of a waiting proposal keeps everything backed: what it
/// commits no longer waits.
pub proof fn lemma_execution_keeps_backing(ctx: ExecuteFunding, waiting: Seq<u64>, i: int)
    requires
        ctx.failure() is None,
        0 <= i < waiting.len(),
        waiting[i] == ctx.proposal.requested_amount,
        fully_backed(ctx.label, ctx.label_treasury.amount as int, waiting),
    ensures
        fully_backed(ctx.executed().label, ctx.label_treasury.amount as int, waiting.remove(i)),
{
    lemma_total_requested_remove(waiting, i);
}

/// A proposal is executed at most once: the context that an execution leaves
/// refuses another, and so does every context that holds the proposal as the
/// execution left it.
pub proof fn lemma_artist_is_funded_once(ctx: ExecuteFunding, later: ExecuteFunding)
    requires
        ctx.failure() is None,
        later.proposal == ctx.executed().proposal,
    ensures
        later.failure() is Some,
        ctx.executed().failure() == Some(LabelError::ProposalNotPending),
{
}

/// A verdict is final: a proposal that was rejected is never funded and
/// never rejected again, and one that was funded is never rejected.
pub proof fn lemma_artist_verdict_is_final(
    rejection: RejectProposal,
    reason: String,
    execution: ExecuteFunding,
    later_execution: ExecuteFunding,
    later_rejection: RejectProposal,
    later_reason: Seq<char>,
)
    requires
        rejection.failure(reason@) is None,
        execution.failure() is None,
        later_execution.proposal == rejection.rejected(reason).proposal,
        later_rejection.proposal == rejection.rejected(reason).proposal
            || later_rejection.proposal == execution.executed().proposal,
    ensures
        later_execution.failure() is Some,
        later_rejection.failure(later_reason) is Some,
{
}

/// An execution never commits more than the treasury holds: where what is
/// committed and what is requested together pass the balance, the execution
/// is refused, whatever the accounts and the proposal. For a pending proposal
/// with the oracle's yes, the accounts that the records name and commitments
/// that are covered, the refusal is `InsufficientLabelFunds`.
pub proof fn lemma_execution_never_overcommits(ctx: ExecuteFunding)
    requires
        ctx.label.committed_amount + ctx.proposal.requested_amount > ctx.label_treasury.amount,
    ensures
        ctx.failure() is Some,
        (ctx.accounts_match() && ctx.proposal.status == ArtistProposalStatus::Pending
            && ctx.verdict == Verdict::Passed && ctx.label.covered_by(
            ctx.label_treasury.amount as int,
        )) ==> ctx.failure() == Some(LabelError::InsufficientLabelFunds),
{
}

/// Every execution, refused or not, leaves the commitments covered if they
/// were: the treasury is not touched, and what is newly committed was
/// available.
pub proof fn lemma_execution_keeps_commitments_covered(ctx: ExecuteFunding)
    requires
        ctx.label.covered_by(ctx.label_treasury.amount as int),
    ensures
        ctx.failure() is None ==> ctx.executed().label.covered_by(
            ctx.executed().label_treasury.amount as int,
        ),
        ctx.failure() is None ==> ctx.executed().label.committed_amount
            == ctx.label.committed_amount + ctx.proposal.requested_amount,
{
}

/// A closed credit line refuses every draw, whatever the amount and whatever
/// the accounts; to its artist, with the accounts that the records name and
/// an amount that is not zero, the refusal is `CreditLineInactive`. Nothing
/// opens the line again: the line after the attempt is the line before.
pub proof fn lemma_closed_line_refuses_every_draw(ctx: DrawCredit, amount: u64)
    requires
        !ctx.credit_line.is_active,
    ensures
        ctx.failure(amount) is Some,
        (ctx.accounts_match() && ctx.artist_account.owner == ctx.artist && amount > 0)
            ==> ctx.failure(amount) == Some(LabelError::CreditLineInactive),
        ctx.credit_line.after(CreditEvent::Draw { amount }) == ctx.credit_line,
{
}

/// A closed credit line refuses every repayment, in the same way.
pub proof fn lemma_closed_line_refuses_every_repayment(ctx: RepayCredit, amount: u64)
    requires
        !ctx.credit_line.is_active,
    ensures
        ctx.failure(amount) is Some,
        (ctx.accounts_match() && ctx.artist_account.owner == ctx.artist && amount > 0)
            ==> ctx.failure(amount) == Some(LabelError::CreditLineInactive),
        ctx.credit_line.after(CreditEvent::Repay { amount }) == ctx.credit_line,
{
}

/// No draw and no repayment makes a line active that was not, and none
/// changes the limit.
pub proof fn lemma_no_operation_reopens_a_line(line: CreditLine, event: CreditEvent)
    ensures
        !line.is_active ==> line.after(event) == line,
        line.after(event).is_active ==> line.is_active,
        line.after(event).credit_limit == line.credit_limit,
{
}

/// A settlement never pays out what is committed: an amount beyond what the
/// treasury holds over its commitments is refused, whatever the accounts and
/// the label. For an active label with the accounts that the records name,
/// commitments that are covered and an amount that is not zero, the refusal
/// is `InsufficientLabelFunds`. A settlement changes no counter, so what is
/// committed is the same before and after.
pub proof fn lemma_settlement_spares_commitments(ctx: SettleWithDAO, amount: u64)
    requires
        amount > ctx.label.available_funds(ctx.label_treasury.amount as int),
    ensures
        ctx.failure(amount) is Some,
        (ctx.accounts_match() && amount > 0 && ctx.label.is_active && ctx.label.covered_by(
            ctx.label_treasury.amount as int,
        )) ==> ctx.failure(amount) == Some(LabelError::InsufficientLabelFunds),
{
}

/// A settlement that is accepted leaves the commitments covered by what the
/// treasury holds after the transfer.
pub proof fn lemma_settlement_keeps_commitments_covered(ctx: SettleWithDAO, amount: u64)
    requires
        ctx.failure(amount) is None,
    ensures
        0 <= ctx.label.committed_amount <= ctx.label_treasury.amount - amount,
{
}

} // verus!
