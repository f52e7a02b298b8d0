use vstd::prelude::*;

use crate::errors::SolRaiserError;
use crate::states::{Campaign, CampaignView};

verus! {

/// Parameters of a donation: the amount to contribute and the id of the
/// target campaign (the id addresses the record; the store resolves it).
pub struct DonateData {
    pub amount: u64,
    pub campaign_id: Vec<u8>,
}

/// What donating `amount` at time `now` does to a campaign record: either
/// the record with the amount credited, or the exact error, with the checks
/// in the order the operation performs them.
pub open spec fn donate_result(c: CampaignView, now: i64, amount: u64) -> Result<
    CampaignView,
    SolRaiserError,
> {
    if amount == 0 {
        Err(SolRaiserError::InvalidAmount)
    } else if !c.active {
        Err(SolRaiserError::CampaignNotActive)
    } else if now > c.deadline {
        Err(SolRaiserError::DeadlineExpired)
    } else if c.total_raised + amount > u64::MAX {
        Err(SolRaiserError::InvalidAmount)
    } else {
        Ok(CampaignView { total_raised: (c.total_raised + amount) as u64, ..c })
    }
}

/// Credit a donation to an active, unexpired campaign.
///
/// The host transfers `data.amount` from the donor into the record's
/// custodied balance within the same atomic unit; this function makes every
/// decision and does the accounting. Accumulation is overflow-checked, and
/// overflow is rejected as InvalidAmount. On any error the record is left
/// unchanged.
pub fn donate(campaign: &mut Campaign, now: i64, data: &DonateData) -> (r: Result<
    (),
    SolRaiserError,
>)
    ensures
        r is Ok <==> donate_result(old(campaign)@, now, data.amount) is Ok,
        (donate_result(old(campaign)@, now, data.amount) matches Ok(c) ==> final(campaign)@
            == c),
        (donate_result(old(campaign)@, now, data.amount) matches Err(e) ==> r == Err::<
            (),
            SolRaiserError,
        >(e) && final(campaign)@ == old(campaign)@),
{
    if data.amount == 0 {
        return Err(SolRaiserError::InvalidAmount);
    }
    if !campaign.active {
        return Err(SolRaiserError::CampaignNotActive);
    }
    if now > campaign.deadline {
        return Err(SolRaiserError::DeadlineExpired);
    }
    match campaign.total_raised.checked_add(data.amount) {
        Some(total) => {
            campaign.total_raised = total;
            Ok(())
        },
        None => Err(SolRaiserError::InvalidAmount),
    }
}

/// While a campaign is active, `total_raised` is non-decreasing: a donation
/// only ever adds to it and touches no other field. Once a campaign is no
/// longer active it is never mutated: every donation to it fails.
pub proof fn lemma_total_raised_monotonic(c: CampaignView, now: i64, amount: u64)
    ensures
        (donate_result(c, now, amount) matches Ok(c2) ==> c2.total_raised >= c.total_raised
            && c2.creator == c.creator && c2.goal == c.goal && c2.deadline == c.deadline
            && c2.active == c.active && c2.bump == c.bump && c2.campaign_id == c.campaign_id),
        !c.active ==> donate_result(c, now, amount) is Err,
{
}

/// Donating after the deadline always fails and leaves the record unchanged;
/// on an active campaign with a non-zero amount the error is DeadlineExpired.
/// (With `amount == 0` the amount check fires first, with InvalidAmount.)
pub proof fn lemma_donate_after_deadline_fails(c: CampaignView, now: i64, amount: u64)
    requires
        now > c.deadline,
    ensures
        donate_result(c, now, amount) is Err,
        amount > 0 && c.active ==> donate_result(c, now, amount) == Err::<
            CampaignView,
            SolRaiserError,
        >(SolRaiserError::DeadlineExpired),
{
}

/// A zero donation is always rejected as InvalidAmount, whatever the
/// campaign's state and whatever the time.
pub proof fn lemma_zero_donation_rejected(c: CampaignView, now: i64)
    ensures
        donate_result(c, now, 0) == Err::<CampaignView, SolRaiserError>(
            SolRaiserError::InvalidAmount,
        ),
{
}

} // verus!
