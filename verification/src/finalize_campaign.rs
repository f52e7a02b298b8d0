use vstd::prelude::*;

use crate::errors::SolRaiserError;
use crate::states::{Campaign, CampaignView};

verus! {

/// Parameters of the success/expiry close: the id of the campaign to close.
pub struct FinalizeCampaignData {
    pub campaign_id: Vec<u8>,
}

/// What finalizing at time `now` by `caller` does to a campaign record:
/// either the record closed (active cleared, everything else kept) or the
/// exact error, with the checks in the order the operation performs them.
pub open spec fn finalize_result(c: CampaignView, caller: u64, now: i64) -> Result<
    CampaignView,
    SolRaiserError,
> {
    if c.creator != caller {
        Err(SolRaiserError::InvalidCreator)
    } else if !c.active {
        Err(SolRaiserError::CampaignNotActive)
    } else if !(c.total_raised >= c.goal || now > c.deadline) {
        Err(SolRaiserError::DeadlineNotPassed)
    } else {
        Ok(CampaignView { active: false, ..c })
    }
}

/// Close a campaign on the success-or-expiry path.
///
/// Only the creator may close, and only while the campaign is active and
/// either the goal has been met or the deadline has passed. On success the
/// record becomes inactive; the store then reclaims it and the host pays the
/// whole custodied balance to the creator. On any error the record is left
/// unchanged.
pub fn finalize_campaign(campaign: &mut Campaign, caller: u64, now: i64) -> (r: Result<
    (),
    SolRaiserError,
>)
    ensures
        r is Ok <==> finalize_result(old(campaign)@, caller, now) is Ok,
        (finalize_result(old(campaign)@, caller, now) matches Ok(c) ==> final(campaign)@ == c),
        (finalize_result(old(campaign)@, caller, now) matches Err(e) ==> r == Err::<
            (),
            SolRaiserError,
        >(e) && final(campaign)@ == old(campaign)@),
{
    if campaign.creator != caller {
        return Err(SolRaiserError::InvalidCreator);
    }
    if !campaign.active {
        return Err(SolRaiserError::CampaignNotActive);
    }
    let goal_met = campaign.total_raised >= campaign.goal;
    if !(goal_met || now > campaign.deadline) {
        return Err(SolRaiserError::DeadlineNotPassed);
    }
    campaign.active = false;
    Ok(())
}

/// Finalizing succeeds exactly when the caller is the creator, the campaign
/// is active, and the goal is met or the deadline has passed; otherwise it
/// fails with InvalidCreator, CampaignNotActive or DeadlineNotPassed, in that
/// order of checks. Success clears `active` and touches nothing else.
pub proof fn lemma_finalize_exact(c: CampaignView, caller: u64, now: i64)
    ensures
        finalize_result(c, caller, now) is Ok <==> caller == c.creator && c.active && (
        c.total_raised >= c.goal || now > c.deadline),
        caller != c.creator ==> finalize_result(c, caller, now) == Err::<
            CampaignView,
            SolRaiserError,
        >(SolRaiserError::InvalidCreator),
        caller == c.creator && !c.active ==> finalize_result(c, caller, now) == Err::<
            CampaignView,
            SolRaiserError,
        >(SolRaiserError::CampaignNotActive),
        caller == c.creator && c.active && !(c.total_raised >= c.goal || now > c.deadline)
            ==> finalize_result(c, caller, now) == Err::<CampaignView, SolRaiserError>(
            SolRaiserError::DeadlineNotPassed,
        ),
        (finalize_result(c, caller, now) matches Ok(c2) ==> !c2.active && c2.total_raised
            == c.total_raised && c2.creator == c.creator && c2.goal == c.goal && c2.deadline
            == c.deadline && c2.bump == c.bump && c2.campaign_id == c.campaign_id),
{
}

} // verus!
