use vstd::prelude::*;
use crate::identity::Identity;

verus! {

/// Longest campaign name accepted, in characters.
pub const MAX_NAME_LEN: usize = 50;

/// Longest campaign description accepted, in characters.
pub const MAX_DESCRIPTION_LEN: usize = 100;

/// Bytes of account storage reserved for one campaign record: an 8-byte
/// account tag, the admin key, then name and description each as a 4-byte
/// length and up to four bytes per character, then the accumulator.
pub const CAMPAIGN_SPACE: usize = 8 + 32 + 4 + 50 * 4 + 4 + 100 * 4 + 8;

/// Why an operation on a campaign was refused. A refused operation changes
/// nothing.
#[derive(Clone, Copy, Debug, PartialEq, Eq, Structural)]
pub enum ErrorCode {
    /// The name has more than `MAX_NAME_LEN` characters.
    NameTooLong,
    /// The description has more than `MAX_DESCRIPTION_LEN` characters.
    DescriptionTooLong,
    /// A withdrawal was asked for by someone other than the admin.
    Unauthorized,
    /// A withdrawal asked for more than the donations still held.
    InsufficientDonatedFunds,
    /// A withdrawal would leave the record below its reserve.
    InsufficientFunds,
    /// A balance or the accumulator would leave the range of `u64`.
    ArithmeticOverflow,
}

/// One crowdfunding campaign record.
#[derive(Clone, Debug)]
pub struct Campaign {
    /// The only identity allowed to withdraw; set once at creation.
    pub admin: Identity,
    pub name: String,
    pub description: String,
    /// Donations received and not yet withdrawn, in the ledger's smallest unit.
    pub amount_donated: u64,
}

impl Campaign {
    /// The record's name and description are within their bounds.
    pub open spec fn wf(&self) -> bool {
        &&& self.name@.len() <= MAX_NAME_LEN
        &&& self.description@.len() <= MAX_DESCRIPTION_LEN
    }
}

/// What `create` works on: the record being initialised and the
/// authenticated caller, who becomes its admin.
#[derive(Clone, Debug)]
pub struct Create {
    pub campaign: Campaign,
    pub user: Identity,
}

/// What `withdraw` works on: the campaign with the balance its account
/// holds, and the authenticated caller with the balance of theirs.
#[derive(Clone, Debug)]
pub struct Withdraw {
    pub campaign: Campaign,
    pub campaign_lamports: u64,
    pub user: Identity,
    pub user_lamports: u64,
}

/// What `donate` works on: the campaign and the authenticated donor. The
/// transfer of the donated funds into the campaign's account is made by the
/// host's transfer primitive.
#[derive(Clone, Debug)]
pub struct Donate {
    pub campaign: Campaign,
    pub user: Identity,
}

/// The campaign that `admin` creates with `name` and `description`, or the
/// first validation error: the name is checked before the description.
pub open spec fn creation(admin: Identity, name: String, description: String) -> Result<
    Campaign,
    ErrorCode,
> {
    if name@.len() > MAX_NAME_LEN {
        Err(ErrorCode::NameTooLong)
    } else if description@.len() > MAX_DESCRIPTION_LEN {
        Err(ErrorCode::DescriptionTooLong)
    } else {
        Ok(Campaign { admin, name, description, amount_donated: 0 })
    }
}

/// `c` after a donation of `amount`, or the error when the accumulator
/// would overflow.
pub open spec fn donation(c: Campaign, amount: u64) -> Result<Campaign, ErrorCode> {
    if c.amount_donated + amount > u64::MAX {
        Err(ErrorCode::ArithmeticOverflow)
    } else {
        Ok(Campaign { amount_donated: (c.amount_donated + amount) as u64, ..c })
    }
}

/// `w` after its caller withdraws `amount` from a campaign that must keep
/// `minimum_reserve` in its account, or the first check that fails: the
/// caller is the admin, the amount is covered by donations, the reserve is
/// kept, and the caller's balance can take the amount.
pub open spec fn withdrawal(w: Withdraw, amount: u64, minimum_reserve: u64) -> Result<
    Withdraw,
    ErrorCode,
> {
    if w.user != w.campaign.admin {
        Err(ErrorCode::Unauthorized)
    } else if amount > w.campaign.amount_donated {
        Err(ErrorCode::InsufficientDonatedFunds)
    } else if w.campaign_lamports - amount < minimum_reserve {
        Err(ErrorCode::InsufficientFunds)
    } else if w.user_lamports + amount > u64::MAX {
        Err(ErrorCode::ArithmeticOverflow)
    } else {
        Ok(
            Withdraw {
                campaign: Campaign {
                    amount_donated: (w.campaign.amount_donated - amount) as u64,
                    ..w.campaign
                },
                campaign_lamports: (w.campaign_lamports - amount) as u64,
                user: w.user,
                user_lamports: (w.user_lamports + amount) as u64,
            },
        )
    }
}

/// Initialises `ctx.campaign` as a new campaign administered by `ctx.user`,
/// with the given name and description and nothing donated yet.
pub fn create(ctx: &mut Create, name: String, description: String) -> (r: Result<(), ErrorCode>)
    ensures
        match creation(old(ctx).user, name, description) {
            Ok(c) => r == Ok::<(), ErrorCode>(()) && final(ctx).campaign == c && final(ctx).user
                == old(ctx).user,
            Err(e) => r == Err::<(), ErrorCode>(e) && *final(ctx) == *old(ctx),
        },
        r is Ok ==> final(ctx).campaign.wf(),
{
    if name.as_str().unicode_len() > MAX_NAME_LEN {
        return Err(ErrorCode::NameTooLong);
    }
    if description.as_str().unicode_len() > MAX_DESCRIPTION_LEN {
        return Err(ErrorCode::DescriptionTooLong);
    }
    ctx.campaign = Campaign { admin: ctx.user, name, description, amount_donated: 0 };
    Ok(())
}

/// Moves `amount` from the campaign's account to the caller's and takes it
/// off the donations still held. Only the admin may withdraw, at most what
/// was donated, and never so much that the campaign's account drops below
/// `minimum_reserve`; the checks are made in that order.
pub fn withdraw(ctx: &mut Withdraw, amount: u64, minimum_reserve: u64) -> (r: Result<(), ErrorCode>)
    ensures
        match withdrawal(*old(ctx), amount, minimum_reserve) {
            Ok(w) => r == Ok::<(), ErrorCode>(()) && *final(ctx) == w,
            Err(e) => r == Err::<(), ErrorCode>(e) && *final(ctx) == *old(ctx),
        },
{
    if ctx.campaign.admin != ctx.user {
        return Err(ErrorCode::Unauthorized);
    }
    if ctx.campaign.amount_donated < amount {
        return Err(ErrorCode::InsufficientDonatedFunds);
    }
    if ctx.campaign_lamports < amount || ctx.campaign_lamports - amount < minimum_reserve {
        return Err(ErrorCode::InsufficientFunds);
    }
    if ctx.user_lamports > u64::MAX - amount {
        return Err(ErrorCode::ArithmeticOverflow);
    }
    ctx.campaign_lamports = ctx.campaign_lamports - amount;
    ctx.user_lamports = ctx.user_lamports + amount;
    ctx.campaign.amount_donated = ctx.campaign.amount_donated - amount;
    Ok(())
}

/// Records a donation of `amount` to the campaign. Anyone may donate; the
/// funds themselves reach the campaign's account through the host's
/// transfer, which the host applies together with this update or not at all.
pub fn donate(ctx: &mut Donate, amount: u64) -> (r: Result<(), ErrorCode>)
    ensures
        match donation(old(ctx).campaign, amount) {
            Ok(c) => r == Ok::<(), ErrorCode>(()) && final(ctx).campaign == c && final(ctx).user
                == old(ctx).user,
            Err(e) => r == Err::<(), ErrorCode>(e) && *final(ctx) == *old(ctx),
        },
{
    match ctx.campaign.amount_donated.checked_add(amount) {
        Some(total) => {
            ctx.campaign.amount_donated = total;
            Ok(())
        },
        None => Err(ErrorCode::ArithmeticOverflow),
    }
}

} // verus!
