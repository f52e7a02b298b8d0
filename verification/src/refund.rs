use vstd::prelude::*;

use crate::errors::SolRaiserError;
use crate::states::{Campaign, CampaignView};

verus! {

/// Parameters of the failure-path close: the id of the campaign to close.
pub struct RefundData {
    pub campaign_id: Vec<u8>,
}

/// What the refund close at time `now` by `caller` does to a campaign
/// record: either the record closed (active cleared, everything else kept)
/// or the exact error, with the checks in the order the operation performs
/// them.
pub open spec fn refund_result(c: CampaignView, caller: u64, now: i64) -> Result<
    CampaignView,
    SolRaiserError,
> {
    if c.creator != caller {
        Err(SolRaiserError::InvalidCreator)
    } else if !c.active {
        Err(SolRaiserError::CampaignNotActive)
    } else if now <= c.deadline {
        Err(SolRaiserError::DeadlineNotPassed)
    } else if c.total_raised >= c.goal {
        Err(SolRaiserError::GoalNotReached)
    } else {
        Ok(CampaignView { active: false, ..c })
    }
}

/// Close a campaign on the failure path: deadline passed, goal unmet.
///
/// Only the creator may close, and only while the campaign is active. On
/// success the record becomes inactive; the store then reclaims it and the
/// host pays the whole custodied balance to the creator (not to individual
/// donors: the record keeps no per-donor ledger). On any error the record is
/// left unchanged.
pub fn refund(campaign: &mut Campaign, caller: u64, now: i64) -> (r: Result<
    (),
    SolRaiserError,
>)
    ensures
        r is Ok <==> refund_result(old(campaign)@, caller, now) is Ok,
        (refund_result(old(campaign)@, caller, now) matches Ok(c) ==> final(campaign)@ == c),
        (refund_result(old(campaign)@, caller, now) matches Err(e) ==> r == Err::<
            (),
            SolRaiserError,
        >(e) && final(campaign)@ == old(campaign)@),
{
    if campaign.creator != caller {
        return Err(SolRaiserError::InvalidCreator);
    }
    if !campaign.active {
        return Err(SolRaiserError::CampaignNotActive);
    }
    if now <= campaign.deadline {
        return Err(SolRaiserError::DeadlineNotPassed);
    }
    if campaign.total_raised >= campaign.goal {
        return Err(SolRaiserError::GoalNotReached);
    }
    campaign.active = false;
    Ok(())
}

/// Refunding succeeds exactly when the caller is the creator, the campaign
/// is active, the deadline has passed and the goal was not reached;
/// otherwise it fails with InvalidCreator, CampaignNotActive,
/// DeadlineNotPassed or GoalNotReached, in that order of checks. Success
/// clears `active` and touches nothing else.
pub proof fn lemma_refund_exact(c: CampaignView, caller: u64, now: i64)
    ensures
        refund_result(c, caller, now) is Ok <==> caller == c.creator && c.active && now
            > c.deadline && c.total_raised < c.goal,
        caller != c.creator ==> refund_result(c, caller, now) == Err::<
            CampaignView,
            SolRaiserError,
        >(SolRaiserError::InvalidCreator),
        caller == c.creator && !c.active ==> refund_result(c, caller, now) == Err::<
            CampaignView,
            SolRaiserError,
        >(SolRaiserError::CampaignNotActive),
        caller == c.creator && c.active && now <= c.deadline ==> refund_result(c, caller, now)
            == Err::<CampaignView, SolRaiserError>(SolRaiserError::DeadlineNotPassed),
        caller == c.creator && c.active && now > c.deadline && c.total_raised >= c.goal
            ==> refund_result(c, caller, now) == Err::<CampaignView, SolRaiserError>(
            SolRaiserError::GoalNotReached,
        ),
        (refund_result(c, caller, now) matches Ok(c2) ==> !c2.active && c2.total_raised
            == c.total_raised && c2.creator == c.creator && c2.goal == c.goal && c2.deadline
            == c.deadline && c2.bump == c.bump && c2.campaign_id == c.campaign_id),
{
}

/// A record is closed at most once: either close operation leaves the
/// record inactive, and on an inactive record every further close — by
/// either path — fails.
pub proof fn lemma_close_paths(c: CampaignView, caller: u64, now: i64)
    ensures
        (crate::finalize_campaign::finalize_result(c, caller, now) matches Ok(c2)
            ==> crate::finalize_campaign::finalize_result(c2, caller, now) is Err
            && refund_result(c2, caller, now) is Err),
        (refund_result(c, caller, now) matches Ok(c2) ==> refund_result(c2, caller, now) is Err
            && crate::finalize_campaign::finalize_result(c2, caller, now) is Err),
{
}

} // verus!
