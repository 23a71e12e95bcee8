//! The campaign ledger: a sale of tokens at a fixed price.
//!
//! A payment buys as many whole tokens as it covers. The buyer is charged for
//! those tokens exactly, never for more; what the payment held beyond that is
//! reported and stays with the buyer. A campaign with a supply cap never sells
//! past it, and what it has raised is at every moment the price of what it has
//! sold.

use vstd::prelude::*;
use crate::asset::{Mint, MintTo, TokenAccount, Transfer};
use crate::error::ErrorKind;
use crate::identity::Address;
use crate::text::{byte_len, stored_len};

verus! {

/// Longest campaign identifier, in stored bytes.
pub const MAX_CAMPAIGN_ID_LEN: usize = 50;

/// Why the campaign ledger refused an operation.
#[derive(Clone, Copy, Debug, PartialEq, Eq, Structural)]
pub enum PresaleError {
    /// The campaign identifier is empty.
    CampaignIdEmpty,
    /// The campaign identifier is longer than [`MAX_CAMPAIGN_ID_LEN`].
    CampaignIdTooLong,
    /// The price is zero.
    InvalidPrice,
    /// The amount is zero, or does not pay for a single token.
    InvalidAmount,
    /// The campaign is closed.
    CampaignInactive,
    /// The sale would pass the supply cap.
    SupplyExceeded,
    /// The treasury does not hold the amount.
    InsufficientFunds,
    /// An identity or an account is not the one that the campaign names.
    Unauthorized,
    /// A counter would overflow.
    MathOverflow,
}

impl PresaleError {
    /// The cause of the error.
    pub open spec fn spec_kind(self) -> ErrorKind {
        match self {
            PresaleError::CampaignIdEmpty
            | PresaleError::CampaignIdTooLong
            | PresaleError::InvalidPrice
            | PresaleError::InvalidAmount => ErrorKind::Validation,
            PresaleError::CampaignInactive => ErrorKind::State,
            PresaleError::SupplyExceeded | PresaleError::InsufficientFunds => ErrorKind::Capacity,
            PresaleError::Unauthorized => ErrorKind::Authorization,
            PresaleError::MathOverflow => ErrorKind::Arithmetic,
        }
    }

    /// The cause of the error.
    #[verifier::when_used_as_spec(spec_kind)]
    pub fn kind(self) -> (kind: ErrorKind)
        ensures
            kind == self.spec_kind(),
    {
        match self {
            PresaleError::CampaignIdEmpty
            | PresaleError::CampaignIdTooLong
            | PresaleError::InvalidPrice
            | PresaleError::InvalidAmount => ErrorKind::Validation,
            PresaleError::CampaignInactive => ErrorKind::State,
            PresaleError::SupplyExceeded | PresaleError::InsufficientFunds => ErrorKind::Capacity,
            PresaleError::Unauthorized => ErrorKind::Authorization,
            PresaleError::MathOverflow => ErrorKind::Arithmetic,
        }
    }
}

/// A sale of tokens at a fixed price.
#[derive(Clone, Debug, PartialEq, Eq)]
pub struct Campaign {
    /// Who created the campaign, and alone may withdraw from it and close it.
    pub authority: Address,
    pub campaign_id: String,
    /// The token that the campaign sells.
    pub token_mint: Address,
    /// The balance account that holds what the campaign raised.
    pub treasury: Address,
    /// The price of one token.
    pub price_per_token_usdc: u64,
    /// The most tokens that the campaign may sell; `None` for no limit.
    pub total_supply: Option<u64>,
    pub tokens_sold: u64,
    pub usdc_raised: u64,
    /// For how long sold tokens stay locked, in seconds.
    pub lock_duration: Option<i64>,
    pub created_at: i64,
    /// Whether the campaign still sells. Once `false` it stays so.
    pub is_active: bool,
    pub bump: u8,
}

impl Campaign {
    /// What every campaign of this ledger satisfies: it has a price, it sold
    /// no more than its cap, and it raised the price of what it sold, to the
    /// unit.
    pub open spec fn wf(self) -> bool {
        &&& self.price_per_token_usdc > 0
        &&& self.usdc_raised == self.tokens_sold * self.price_per_token_usdc
        &&& (self.total_supply matches Some(cap) ==> self.tokens_sold <= cap)
    }

    /// The whole tokens that `payment` buys.
    pub open spec fn units_for(self, payment: u64) -> int {
        payment as int / self.price_per_token_usdc as int
    }

    /// What the buyer of `payment` is charged: the price of the whole tokens.
    pub open spec fn exact_cost(self, payment: u64) -> int {
        self.units_for(payment) * self.price_per_token_usdc
    }

    /// Why the campaign refuses to sell for `payment`, if it does. The checks
    /// come in this order, and the first that fails gives the error.
    pub open spec fn buy_failure(self, payment: u64) -> Option<PresaleError> {
        if !self.is_active {
            Some(PresaleError::CampaignInactive)
        } else if payment == 0 {
            Some(PresaleError::InvalidAmount)
        } else if self.price_per_token_usdc == 0 {
            Some(PresaleError::MathOverflow)
        } else if self.units_for(payment) == 0 {
            Some(PresaleError::InvalidAmount)
        } else if self.tokens_sold + self.units_for(payment) > u64::MAX {
            Some(PresaleError::MathOverflow)
        } else if self.total_supply is Some && self.tokens_sold + self.units_for(payment)
            > self.total_supply->0 {
            Some(PresaleError::SupplyExceeded)
        } else if self.usdc_raised + self.exact_cost(payment) > u64::MAX {
            Some(PresaleError::MathOverflow)
        } else {
            None
        }
    }

    /// The campaign after it sold for `payment`.
    pub open spec fn bought(self, payment: u64) -> Campaign {
        Campaign {
            tokens_sold: (self.tokens_sold + self.units_for(payment)) as u64,
            usdc_raised: (self.usdc_raised + self.exact_cost(payment)) as u64,
            ..self
        }
    }

    /// The campaign after an attempt to buy for `payment`: a sale that is
    /// refused leaves it as it was.
    pub open spec fn after_buy(self, payment: u64) -> Campaign {
        if self.buy_failure(payment) is None {
            self.bought(payment)
        } else {
            self
        }
    }

    /// The campaign after the attempts to buy for each of `payments`, in turn.
    pub open spec fn after_buys(self, payments: Seq<u64>) -> Campaign
        decreases payments.len(),
    {
        if payments.len() == 0 {
            self
        } else {
            self.after_buys(payments.drop_last()).after_buy(payments.last())
        }
    }

    /// Checks [`Campaign::wf`].
    pub fn is_well_formed(&self) -> (ok: bool)
        ensures
            ok == self.wf(),
    {
        if self.price_per_token_usdc == 0 {
            return false;
        }
        match self.total_supply {
            Some(cap) => {
                if self.tokens_sold > cap {
                    return false;
                }
            },
            None => {},
        }
        match self.tokens_sold.checked_mul(self.price_per_token_usdc) {
            Some(value) => value == self.usdc_raised,
            None => false,
        }
    }
}

/// The whole tokens cost no more than the payment, and the payment holds
/// less than one further token beyond them.
pub proof fn lemma_exact_cost_within_payment(campaign: Campaign, payment: u64)
    requires
        campaign.price_per_token_usdc > 0,
    ensures
        0 <= campaign.exact_cost(payment) <= payment,
        payment - campaign.exact_cost(payment) < campaign.price_per_token_usdc,
        campaign.exact_cost(payment) == payment <==> payment as int
            % campaign.price_per_token_usdc as int == 0,
{
    let p = campaign.price_per_token_usdc as int;
    let a = payment as int;
    assert(0 <= (a / p) * p <= a && a - (a / p) * p < p && a - (a / p) * p == a % p)
        by (nonlinear_arith)
        requires
            p > 0,
            a >= 0,
    ;
}

/// A sale keeps the campaign well-formed: the cap holds, and what was raised
/// is still the price of what was sold.
pub proof fn lemma_buy_keeps_campaign_well_formed(campaign: Campaign, payment: u64)
    requires
        campaign.wf(),
    ensures
        campaign.after_buy(payment).wf(),
        campaign.after_buy(payment).tokens_sold >= campaign.tokens_sold,
{
    if campaign.buy_failure(payment) is None {
        let p = campaign.price_per_token_usdc as int;
        let sold = campaign.tokens_sold as int;
        let units = campaign.units_for(payment);
        lemma_exact_cost_within_payment(campaign, payment);
        assert(sold * p + units * p == (sold + units) * p) by (nonlinear_arith);
        assert(units >= 0) by (nonlinear_arith)
            requires
                units == (payment as int) / p,
                p > 0,
        ;
    }
}

/// Whatever is bought and in whatever order, a well-formed campaign stays
/// well-formed: a capped campaign never sells past its cap, and a campaign
/// has always raised exactly the price of what it sold.
pub proof fn lemma_supply_cap_holds_after_any_buys(campaign: Campaign, payments: Seq<u64>)
    requires
        campaign.wf(),
    ensures
        campaign.after_buys(payments).wf(),
        campaign.after_buys(payments).total_supply == campaign.total_supply,
        campaign.total_supply matches Some(cap) ==> campaign.after_buys(payments).tokens_sold
            <= cap,
        campaign.after_buys(payments).tokens_sold >= campaign.tokens_sold,
    decreases payments.len(),
{
    if payments.len() > 0 {
        lemma_supply_cap_holds_after_any_buys(campaign, payments.drop_last());
        lemma_buy_keeps_campaign_well_formed(
            campaign.after_buys(payments.drop_last()),
            payments.last(),
        );
    }
}

/// A closed campaign sells nothing any more: whatever is tried, it stays as
/// it is.
pub proof fn lemma_closed_campaign_sells_nothing(campaign: Campaign, payments: Seq<u64>)
    requires
        !campaign.is_active,
    ensures
        campaign.after_buys(payments) == campaign,
    decreases payments.len(),
{
    if payments.len() > 0 {
        lemma_closed_campaign_sells_nothing(campaign, payments.drop_last());
    }
}

/// A closed campaign refuses every purchase, whatever the payment and
/// whatever the accounts; with the accounts that the campaign names the
/// refusal is `CampaignInactive`. The campaign stays as it is, closed.
pub proof fn lemma_closed_campaign_refuses_every_purchase(ctx: BuyPresale, usdc_amount: u64)
    requires
        !ctx.campaign.is_active,
    ensures
        ctx.failure(usdc_amount) is Some,
        ctx.accounts_match() ==> ctx.failure(usdc_amount) == Some(
            PresaleError::CampaignInactive,
        ),
        ctx.campaign.after_buy(usdc_amount) == ctx.campaign,
{
}

/// A closed campaign refuses every withdrawal, whatever the amount and
/// whoever asks; to its authority, with the accounts that the campaign names,
/// the refusal is `CampaignInactive`.
pub proof fn lemma_closed_campaign_pays_nothing_out(ctx: WithdrawFunds, amount: u64)
    requires
        !ctx.campaign.is_active,
    ensures
        ctx.failure(amount) is Some,
        ctx.accounts_match() ==> ctx.failure(amount) == Some(PresaleError::CampaignInactive),
{
}

/// What a campaign's authority closed stays closed: after the closing every
/// purchase and every withdrawal is refused.
pub proof fn lemma_closing_is_final(
    ctx: CloseCampaign,
    purchase: BuyPresale,
    usdc_amount: u64,
    withdrawal: WithdrawFunds,
    amount: u64,
)
    requires
        ctx.campaign.authority == ctx.authority,
        purchase.campaign == (Campaign { is_active: false, ..ctx.campaign }),
        withdrawal.campaign == (Campaign { is_active: false, ..ctx.campaign }),
    ensures
        purchase.failure(usdc_amount) is Some,
        withdrawal.failure(amount) is Some,
{
}

/// A token that nobody may mint is never sold: whatever the campaign and the
/// payment, the purchase is refused.
pub proof fn lemma_no_sale_without_the_right_to_mint(ctx: BuyPresale, usdc_amount: u64)
    requires
        ctx.campaign_token_mint.mint_authority is None,
    ensures
        ctx.failure(usdc_amount) == Some(PresaleError::Unauthorized),
{
}

/// What the creation of a campaign reads.
#[derive(Clone, Copy, Debug, PartialEq, Eq)]
pub struct InitializeCampaign {
    pub authority: Address,
    /// The campaign's token, newly created with the campaign as the one that
    /// may mint it.
    pub campaign_token_mint: Address,
    /// The balance account, newly opened in the campaign's name, for what it
    /// raises.
    pub treasury: Address,
    pub campaign_bump: u8,
    /// The clock's reading.
    pub unix_timestamp: i64,
}

/// Why a campaign with this identifier and price cannot be created, if it
/// cannot.
pub open spec fn initialize_campaign_failure(campaign_id: Seq<char>, price_per_token_usdc: u64)
    -> Option<PresaleError> {
    if stored_len(campaign_id) == 0 {
        Some(PresaleError::CampaignIdEmpty)
    } else if stored_len(campaign_id) > MAX_CAMPAIGN_ID_LEN {
        Some(PresaleError::CampaignIdTooLong)
    } else if price_per_token_usdc == 0 {
        Some(PresaleError::InvalidPrice)
    } else {
        None
    }
}

/// Creates a campaign that sells at `price_per_token_usdc`, up to
/// `total_supply` tokens if that is given.
///
/// The identifier must be neither empty nor longer than
/// [`MAX_CAMPAIGN_ID_LEN`], and the price not zero. The new campaign is
/// active and has sold nothing.
pub fn initialize_campaign(
    ctx: &InitializeCampaign,
    campaign_id: String,
    price_per_token_usdc: u64,
    total_supply: Option<u64>,
    lock_duration: Option<i64>,
) -> (res: Result<Campaign, PresaleError>)
    ensures
        match res {
            Ok(campaign) => {
                &&& initialize_campaign_failure(campaign_id@, price_per_token_usdc) is None
                &&& campaign == (Campaign {
                    authority: ctx.authority,
                    campaign_id,
                    token_mint: ctx.campaign_token_mint,
                    treasury: ctx.treasury,
                    price_per_token_usdc,
                    total_supply,
                    tokens_sold: 0,
                    usdc_raised: 0,
                    lock_duration,
                    created_at: ctx.unix_timestamp,
                    is_active: true,
                    bump: ctx.campaign_bump,
                })
                &&& campaign.wf()
            },
            Err(e) => initialize_campaign_failure(campaign_id@, price_per_token_usdc) == Some(e),
        },
{
    let id_len: usize = byte_len(&campaign_id);
    if id_len == 0 {
        return Err(PresaleError::CampaignIdEmpty);
    }
    if id_len > MAX_CAMPAIGN_ID_LEN {
        return Err(PresaleError::CampaignIdTooLong);
    }
    if price_per_token_usdc == 0 {
        return Err(PresaleError::InvalidPrice);
    }
    assert(0 * price_per_token_usdc == 0) by (nonlinear_arith);
    Ok(
        Campaign {
            authority: ctx.authority,
            campaign_id,
            token_mint: ctx.campaign_token_mint,
            treasury: ctx.treasury,
            price_per_token_usdc,
            total_supply,
            tokens_sold: 0,
            usdc_raised: 0,
            lock_duration,
            created_at: ctx.unix_timestamp,
            is_active: true,
            bump: ctx.campaign_bump,
        },
    )
}

/// What a purchase reads and changes.
#[derive(Clone, Debug, PartialEq, Eq)]
pub struct BuyPresale {
    pub campaign: Campaign,
    pub campaign_key: Address,
    /// The campaign's token.
    pub campaign_token_mint: Mint,
    /// The campaign's treasury.
    pub treasury: TokenAccount,
    pub buyer: Address,
    /// The account from which the buyer pays.
    pub buyer_usdc_account: TokenAccount,
    /// The account that receives the tokens.
    pub buyer_token_account: TokenAccount,
}

/// What a purchase hands back: the two instructions for the asset service,
/// and what is left of the payment.
#[derive(Clone, Copy, Debug, PartialEq, Eq)]
pub struct Purchase {
    /// The charge, from the buyer to the campaign's treasury: the price of
    /// the whole tokens, whatever the payment was.
    pub payment: Transfer,
    /// The tokens, minted to the buyer.
    pub grant: MintTo,
    /// The part of the payment that bought nothing. It is not charged, and
    /// nothing is sent back for it.
    pub surplus: u64,
}

impl BuyPresale {
    /// The accounts are those that the campaign names, the campaign may
    /// mint its token, and the buyer's two accounts are the buyer's.
    pub open spec fn accounts_match(self) -> bool {
        &&& self.campaign_token_mint.key == self.campaign.token_mint
        &&& self.campaign_token_mint.may_be_minted_by(self.campaign_key)
        &&& self.treasury.key == self.campaign.treasury
        &&& self.buyer_usdc_account.owner == self.buyer
        &&& self.buyer_token_account.owner == self.buyer
    }

    /// Why the purchase is refused, if it is.
    pub open spec fn failure(self, usdc_amount: u64) -> Option<PresaleError> {
        if !self.accounts_match() {
            Some(PresaleError::Unauthorized)
        } else {
            self.campaign.buy_failure(usdc_amount)
        }
    }

    /// What the purchase hands back.
    pub open spec fn outcome(self, usdc_amount: u64) -> Purchase {
        Purchase {
            payment: Transfer {
                from: self.buyer_usdc_account.key,
                to: self.campaign.treasury,
                authority: self.buyer,
                amount: self.campaign.exact_cost(usdc_amount) as u64,
            },
            grant: MintTo {
                mint: self.campaign.token_mint,
                to: self.buyer_token_account.key,
                authority: self.campaign_key,
                amount: self.campaign.units_for(usdc_amount) as u64,
            },
            surplus: (usdc_amount - self.campaign.exact_cost(usdc_amount)) as u64,
        }
    }
}

/// Buys tokens of an active campaign for up to `usdc_amount`.
///
/// The buyer gets `usdc_amount / price` tokens, rounded down, and is charged
/// their price exactly. A payment that buys no token is refused, and so is
/// one that would take a capped campaign past its cap. The campaign counts
/// the tokens and the charge.
pub fn buy_presale(ctx: &mut BuyPresale, usdc_amount: u64) -> (res: Result<
    Purchase,
    PresaleError,
>)
    ensures
        match res {
            Ok(purchase) => {
                &&& old(ctx).failure(usdc_amount) is None
                &&& purchase == old(ctx).outcome(usdc_amount)
                &&& purchase.payment.amount == (usdc_amount as int / old(
                    ctx,
                ).campaign.price_per_token_usdc as int) * old(ctx).campaign.price_per_token_usdc
                &&& purchase.payment.amount + purchase.surplus == usdc_amount
                &&& purchase.grant.accepted_by(old(ctx).campaign_token_mint)
                &&& final(ctx).campaign == old(ctx).campaign.after_buy(usdc_amount)
                &&& *final(ctx) == (BuyPresale {
                    campaign: old(ctx).campaign.bought(usdc_amount),
                    ..*old(ctx)
                })
            },
            Err(e) => {
                &&& old(ctx).failure(usdc_amount) == Some(e)
                &&& *final(ctx) == *old(ctx)
            },
        },
        old(ctx).campaign.wf() ==> final(ctx).campaign.wf(),
        !old(ctx).campaign.is_active ==> res is Err && !final(ctx).campaign.is_active,
{
    proof {
        if old(ctx).campaign.wf() {
            lemma_buy_keeps_campaign_well_formed(old(ctx).campaign, usdc_amount);
        }
    }
    if !(ctx.campaign_token_mint.key.equals(&ctx.campaign.token_mint)
        && ctx.campaign_token_mint.is_minted_by(&ctx.campaign_key) && ctx.treasury.key.equals(
        &ctx.campaign.treasury) && ctx.buyer_usdc_account.owner.equals(&ctx.buyer)
        && ctx.buyer_token_account.owner.equals(&ctx.buyer)) {
        return Err(PresaleError::Unauthorized);
    }
    if !ctx.campaign.is_active {
        return Err(PresaleError::CampaignInactive);
    }
    if usdc_amount == 0 {
        return Err(PresaleError::InvalidAmount);
    }
    let price: u64 = ctx.campaign.price_per_token_usdc;
    let tokens_to_mint: u64 = match usdc_amount.checked_div(price) {
        Some(units) => units,
        None => { return Err(PresaleError::MathOverflow); },
    };
    if tokens_to_mint == 0 {
        return Err(PresaleError::InvalidAmount);
    }
    let tokens_sold: u64 = match ctx.campaign.tokens_sold.checked_add(tokens_to_mint) {
        Some(total) => total,
        None => { return Err(PresaleError::MathOverflow); },
    };
    match ctx.campaign.total_supply {
        Some(cap) => {
            if tokens_sold > cap {
                return Err(PresaleError::SupplyExceeded);
            }
        },
        None => {},
    }
    proof {
        lemma_exact_cost_within_payment(ctx.campaign, usdc_amount);
    }
    let actual_usdc_amount: u64 = tokens_to_mint * price;
    let surplus: u64 = usdc_amount - actual_usdc_amount;
    let usdc_raised: u64 = match ctx.campaign.usdc_raised.checked_add(actual_usdc_amount) {
        Some(total) => total,
        None => { return Err(PresaleError::MathOverflow); },
    };
    let purchase = Purchase {
        payment: Transfer {
            from: ctx.buyer_usdc_account.key,
            to: ctx.campaign.treasury,
            authority: ctx.buyer,
            amount: actual_usdc_amount,
        },
        grant: MintTo {
            mint: ctx.campaign.token_mint,
            to: ctx.buyer_token_account.key,
            authority: ctx.campaign_key,
            amount: tokens_to_mint,
        },
        surplus,
    };
    ctx.campaign.tokens_sold = tokens_sold;
    ctx.campaign.usdc_raised = usdc_raised;
    Ok(purchase)
}

/// What a withdrawal reads.
#[derive(Clone, Debug, PartialEq, Eq)]
pub struct WithdrawFunds {
    pub campaign: Campaign,
    pub campaign_key: Address,
    /// The campaign's treasury, as the asset service reports it now.
    pub treasury: TokenAccount,
    /// Who asks for the withdrawal.
    pub authority: Address,
    /// Where the funds go.
    pub authority_usdc_account: TokenAccount,
}

impl WithdrawFunds {
    /// The one who asks is the campaign's authority, the treasury is the
    /// campaign's, and the receiving account is the authority's.
    pub open spec fn accounts_match(self) -> bool {
        &&& self.campaign.authority == self.authority
        &&& self.treasury.key == self.campaign.treasury
        &&& self.authority_usdc_account.owner == self.authority
    }

    /// Why the withdrawal is refused, if it is. The checks come in this
    /// order, and the first that fails gives the error.
    pub open spec fn failure(self, amount: u64) -> Option<PresaleError> {
        if !self.accounts_match() {
            Some(PresaleError::Unauthorized)
        } else if !self.campaign.is_active {
            Some(PresaleError::CampaignInactive)
        } else if amount == 0 {
            Some(PresaleError::InvalidAmount)
        } else if amount > self.treasury.amount {
            Some(PresaleError::InsufficientFunds)
        } else {
            None
        }
    }
}

/// Withdraws `amount` of what an active campaign raised, to its authority.
///
/// Only the campaign's authority may withdraw, and no more than the treasury
/// holds. A closed campaign pays nothing out: what it raised is withdrawn
/// before it is closed.
pub fn withdraw_funds(ctx: &WithdrawFunds, amount: u64) -> (res: Result<Transfer, PresaleError>)
    ensures
        match res {
            Ok(transfer) => {
                &&& ctx.failure(amount) is None
                &&& transfer == (Transfer {
                    from: ctx.campaign.treasury,
                    to: ctx.authority_usdc_account.key,
                    authority: ctx.campaign_key,
                    amount,
                })
            },
            Err(e) => ctx.failure(amount) == Some(e),
        },
        !ctx.campaign.is_active ==> res is Err,
{
    if !(ctx.campaign.authority.equals(&ctx.authority) && ctx.treasury.key.equals(
        &ctx.campaign.treasury) && ctx.authority_usdc_account.owner.equals(&ctx.authority)) {
        return Err(PresaleError::Unauthorized);
    }
    if !ctx.campaign.is_active {
        return Err(PresaleError::CampaignInactive);
    }
    if amount == 0 {
        return Err(PresaleError::InvalidAmount);
    }
    if amount > ctx.treasury.amount {
        return Err(PresaleError::InsufficientFunds);
    }
    Ok(
        Transfer {
            from: ctx.campaign.treasury,
            to: ctx.authority_usdc_account.key,
            authority: ctx.campaign_key,
            amount,
        },
    )
}

/// What the closing of a campaign reads and changes.
#[derive(Clone, Debug, PartialEq, Eq)]
pub struct CloseCampaign {
    pub campaign: Campaign,
    /// Who asks for the closing.
    pub authority: Address,
}

/// Closes the campaign: it sells nothing and pays nothing out from now on.
///
/// Only the campaign's authority may close it. No operation opens it again.
pub fn close_campaign(ctx: &mut CloseCampaign) -> (res: Result<(), PresaleError>)
    ensures
        old(ctx).campaign.authority != old(ctx).authority ==> res == Err::<(), PresaleError>(
            PresaleError::Unauthorized,
        ) && *final(ctx) == *old(ctx),
        old(ctx).campaign.authority == old(ctx).authority ==> res.is_ok() && *final(ctx) == (
        CloseCampaign {
            campaign: Campaign { is_active: false, ..old(ctx).campaign },
            ..*old(ctx)
        }),
        old(ctx).campaign.wf() ==> final(ctx).campaign.wf(),
{
    if !ctx.campaign.authority.equals(&ctx.authority) {
        return Err(PresaleError::Unauthorized);
    }
    ctx.campaign.is_active = false;
    Ok(())
}

} // verus!
