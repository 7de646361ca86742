use vstd::prelude::*;
use crate::campaign::{creation, donation, withdrawal, Campaign, ErrorCode, Withdraw};
use crate::identity::Identity;

verus! {

/// The sum of `amounts`.
pub open spec fn total(amounts: Seq<u64>) -> nat
    decreases amounts.len(),
{
    if amounts.len() == 0 {
        0
    } else {
        (total(amounts.drop_last()) + amounts.last()) as nat
    }
}

/// `c` after a donation of each of `amounts` in turn, where a refused
/// donation leaves the campaign as it was.
pub open spec fn after_donations(c: Campaign, amounts: Seq<u64>) -> Campaign
    decreases amounts.len(),
{
    if amounts.len() == 0 {
        c
    } else {
        let prev = after_donations(c, amounts.drop_last());
        match donation(prev, amounts.last()) {
            Ok(next) => next,
            Err(_) => prev,
        }
    }
}

/// Names within their bounds always give a new campaign, administered by its
/// creator, holding the given text and nothing donated.
pub proof fn valid_text_creates(admin: Identity, name: String, description: String)
    requires
        name@.len() <= 50,
        description@.len() <= 100,
    ensures
        creation(admin, name, description) matches Ok(c) && c.amount_donated == 0 && c.admin
            == admin && c.name == name && c.description == description && c.wf(),
{
}

/// A name that is too long is refused as such, whatever the description.
pub proof fn long_name_refused(admin: Identity, name: String, description: String)
    requires
        name@.len() > 50,
    ensures
        creation(admin, name, description) == Err::<Campaign, ErrorCode>(ErrorCode::NameTooLong),
{
}

/// With a valid name, a description that is too long is refused as such.
pub proof fn long_description_refused(admin: Identity, name: String, description: String)
    requires
        name@.len() <= 50,
        description@.len() > 100,
    ensures
        creation(admin, name, description) == Err::<Campaign, ErrorCode>(
            ErrorCode::DescriptionTooLong,
        ),
{
}

/// Donations to a new campaign add up: whenever their sum fits in `u64`,
/// the campaign afterwards holds exactly that sum, whatever their order.
pub proof fn donations_add_up(
    admin: Identity,
    name: String,
    description: String,
    c: Campaign,
    amounts: Seq<u64>,
)
    requires
        creation(admin, name, description) == Ok::<Campaign, ErrorCode>(c),
        total(amounts) <= u64::MAX,
    ensures
        after_donations(c, amounts) == (Campaign { amount_donated: total(amounts) as u64, ..c }),
    decreases amounts.len(),
{
    if amounts.len() > 0 {
        let rest = amounts.drop_last();
        donations_add_up(admin, name, description, c, rest);
    }
}

/// A donation of `x` followed by the admin's withdrawal of `x`, where the
/// reserve allows it, gives back the campaign as it was before the donation.
pub proof fn donate_then_withdraw_restores(
    c: Campaign,
    x: u64,
    campaign_lamports: u64,
    admin_lamports: u64,
    minimum_reserve: u64,
)
    requires
        c.amount_donated + x <= u64::MAX,
        campaign_lamports - x >= minimum_reserve,
        admin_lamports + x <= u64::MAX,
    ensures
        donation(c, x) matches Ok(d) && withdrawal(
            Withdraw { campaign: d, campaign_lamports, user: c.admin, user_lamports: admin_lamports },
            x,
            minimum_reserve,
        ) matches Ok(w) && w.campaign == c,
{
}

/// Anyone but the admin is refused a withdrawal of any amount, and the
/// refusal changes nothing.
pub proof fn non_admin_withdraw_refused(w: Withdraw, amount: u64, minimum_reserve: u64)
    requires
        w.user != w.campaign.admin,
    ensures
        withdrawal(w, amount, minimum_reserve) == Err::<Withdraw, ErrorCode>(
            ErrorCode::Unauthorized,
        ),
{
}

/// The admin is refused a withdrawal of more than the donations held.
pub proof fn overdrawn_withdraw_refused(w: Withdraw, amount: u64, minimum_reserve: u64)
    requires
        w.user == w.campaign.admin,
        amount > w.campaign.amount_donated,
    ensures
        withdrawal(w, amount, minimum_reserve) == Err::<Withdraw, ErrorCode>(
            ErrorCode::InsufficientDonatedFunds,
        ),
{
}

/// The admin is refused a withdrawal covered by donations that would leave
/// the campaign's account below its reserve.
pub proof fn reserve_breaching_withdraw_refused(w: Withdraw, amount: u64, minimum_reserve: u64)
    requires
        w.user == w.campaign.admin,
        amount <= w.campaign.amount_donated,
        w.campaign_lamports - amount < minimum_reserve,
    ensures
        withdrawal(w, amount, minimum_reserve) == Err::<Withdraw, ErrorCode>(
            ErrorCode::InsufficientFunds,
        ),
{
}

/// A withdrawal keeps the donations held within what the campaign's
/// account holds above its reserve, and keeps the admin and the text.
pub proof fn withdrawal_keeps_funds_covered(w: Withdraw, amount: u64, minimum_reserve: u64)
    requires
        w.campaign.amount_donated + minimum_reserve <= w.campaign_lamports,
    ensures
        withdrawal(w, amount, minimum_reserve) matches Ok(n) ==> {
            &&& n.campaign.amount_donated + minimum_reserve <= n.campaign_lamports
            &&& n.campaign.admin == w.campaign.admin
            &&& n.campaign.name == w.campaign.name
            &&& n.campaign.description == w.campaign.description
        },
{
}

/// A donation, with its funds moved into the campaign's account, keeps the
/// donations held within what that account holds above its reserve, and
/// keeps the admin and the text.
pub proof fn donation_keeps_funds_covered(
    c: Campaign,
    amount: u64,
    campaign_lamports: u64,
    minimum_reserve: u64,
)
    requires
        c.amount_donated + minimum_reserve <= campaign_lamports,
    ensures
        donation(c, amount) matches Ok(n) ==> {
            &&& n.amount_donated + minimum_reserve <= campaign_lamports + amount
            &&& n.admin == c.admin
            &&& n.name == c.name
            &&& n.description == c.description
        },
{
}

} // verus!
