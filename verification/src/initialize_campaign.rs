use vstd::prelude::*;

use crate::errors::SolRaiserError;
use crate::states::{valid_campaign_id, Campaign, CampaignView};

verus! {

/// Parameters for opening a new campaign.
pub struct InitializeCampaignData {
    pub goal: u64,
    pub deadline: i64,
    pub campaign_id: Vec<u8>,
}

/// What initializing a campaign at time `now` produces: either the fresh
/// record (active, nothing raised yet) or the exact validation error, with
/// the checks in the order the operation performs them.
pub open spec fn initialize_result(
    creator: u64,
    now: i64,
    bump: u8,
    goal: u64,
    deadline: i64,
    campaign_id: Seq<u8>,
) -> Result<CampaignView, SolRaiserError> {
    if goal == 0 {
        Err(SolRaiserError::InvalidAmount)
    } else if deadline <= now {
        Err(SolRaiserError::InvalidDeadline)
    } else if !valid_campaign_id(campaign_id) {
        Err(SolRaiserError::InvalidCampaignId)
    } else {
        Ok(
            CampaignView {
                creator,
                goal,
                deadline,
                total_raised: 0,
                active: true,
                bump,
                campaign_id,
            },
        )
    }
}

/// Build a new campaign record after validating the inputs.
///
/// `creator` is the caller's verified identity key, `now` the host clock's
/// current time, and `bump` the derivation nonce the host used for the
/// record's deterministic address. The store (not this function) refuses a
/// key that is already taken.
pub fn initialize_campaign(
    creator: u64,
    now: i64,
    bump: u8,
    data: InitializeCampaignData,
) -> (r: Result<Campaign, SolRaiserError>)
    ensures
        (initialize_result(creator, now, bump, data.goal, data.deadline, data.campaign_id@)
            matches Ok(c) ==> r matches Ok(record) && record@ == c),
        (initialize_result(creator, now, bump, data.goal, data.deadline, data.campaign_id@)
            matches Err(e) ==> r matches Err(e2) && e2 == e),
{
    if data.goal == 0 {
        return Err(SolRaiserError::InvalidAmount);
    }
    if data.deadline <= now {
        return Err(SolRaiserError::InvalidDeadline);
    }
    let id_len = data.campaign_id.len();
    if id_len == 0 || id_len > Campaign::MAX_CAMPAIGN_ID_LEN {
        return Err(SolRaiserError::InvalidCampaignId);
    }
    Ok(
        Campaign {
            creator,
            goal: data.goal,
            deadline: data.deadline,
            total_raised: 0,
            active: true,
            bump,
            campaign_id: data.campaign_id,
        },
    )
}

/// Every successfully initialized campaign has a positive goal, a deadline
/// strictly after its creation time, nothing raised, and is active; a zero
/// goal is rejected as InvalidAmount, and a deadline not in the future is
/// rejected as InvalidDeadline (the goal check comes first).
pub proof fn lemma_initialized_campaign_valid(
    creator: u64,
    now: i64,
    bump: u8,
    goal: u64,
    deadline: i64,
    campaign_id: Seq<u8>,
)
    ensures
        (initialize_result(creator, now, bump, goal, deadline, campaign_id) matches Ok(c)
            ==> c.goal > 0 && c.deadline > now && c.total_raised == 0 && c.active
            && c.well_formed()),
        goal == 0 ==> initialize_result(creator, now, bump, goal, deadline, campaign_id)
            == Err::<CampaignView, SolRaiserError>(SolRaiserError::InvalidAmount),
        goal > 0 && deadline <= now ==> initialize_result(
            creator,
            now,
            bump,
            goal,
            deadline,
            campaign_id,
        ) == Err::<CampaignView, SolRaiserError>(SolRaiserError::InvalidDeadline),
{
}

/// A freshly initialized campaign is immediately donatable: any positive
/// amount offered at its creation time is accepted (it is active, its
/// deadline lies ahead, and with nothing raised yet no sum can overflow).
pub proof fn lemma_new_campaign_donatable(
    creator: u64,
    now: i64,
    bump: u8,
    goal: u64,
    deadline: i64,
    campaign_id: Seq<u8>,
    amount: u64,
)
    requires
        amount > 0,
    ensures
        (initialize_result(creator, now, bump, goal, deadline, campaign_id) matches Ok(c)
            ==> crate::donate::donate_result(c, now, amount) is Ok),
{
}

/// A campaign id whose length lies outside 1 to 24 bytes always rejects
/// initialization; when the goal and deadline checks (which come first) pass,
/// the error is InvalidCampaignId.
pub proof fn lemma_invalid_id_rejected(
    creator: u64,
    now: i64,
    bump: u8,
    goal: u64,
    deadline: i64,
    campaign_id: Seq<u8>,
)
    requires
        !valid_campaign_id(campaign_id),
    ensures
        initialize_result(creator, now, bump, goal, deadline, campaign_id) is Err,
        goal > 0 && deadline > now ==> initialize_result(
            creator,
            now,
            bump,
            goal,
            deadline,
            campaign_id,
        ) == Err::<CampaignView, SolRaiserError>(SolRaiserError::InvalidCampaignId),
{
}

} // verus!
