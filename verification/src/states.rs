use vstd::prelude::*;

verus! {

/// Durable state of one fundraising campaign.
///
/// A record is addressed by the pair (creator, campaign_id); the store in
/// `crate::store` enforces that at most one record exists per pair.
pub struct Campaign {
    /// Identity key of the caller who created the campaign; immutable, and
    /// the only identity allowed to finalize or refund.
    pub creator: u64,
    /// Target amount to raise; positive and fixed at creation.
    pub goal: u64,
    /// Timestamp after which donations are rejected; fixed at creation.
    pub deadline: i64,
    /// Sum of all accepted donations; starts at 0.
    pub total_raised: u64,
    /// True from creation until exactly one close operation succeeds.
    pub active: bool,
    /// Derivation nonce recorded at creation so that the record's
    /// deterministic address can be reproduced by the host.
    pub bump: u8,
    /// Identifier chosen by the creator: 1 to 24 bytes.
    pub campaign_id: Vec<u8>,
}

/// Mathematical abstraction of a `Campaign`: the same fields, with the id as
/// a sequence of bytes. All contracts speak of this view.
pub ghost struct CampaignView {
    pub creator: u64,
    pub goal: u64,
    pub deadline: i64,
    pub total_raised: u64,
    pub active: bool,
    pub bump: u8,
    pub campaign_id: Seq<u8>,
}

impl View for Campaign {
    type V = CampaignView;

    open spec fn view(&self) -> CampaignView {
        CampaignView {
            creator: self.creator,
            goal: self.goal,
            deadline: self.deadline,
            total_raised: self.total_raised,
            active: self.active,
            bump: self.bump,
            campaign_id: self.campaign_id@,
        }
    }
}

impl Campaign {
    /// Longest campaign id the record accepts, in bytes.
    pub const MAX_CAMPAIGN_ID_LEN: usize = 24;
}

/// A campaign id is valid when it is non-empty and at most 24 bytes long.
pub open spec fn valid_campaign_id(id: Seq<u8>) -> bool {
    1 <= id.len() <= Campaign::MAX_CAMPAIGN_ID_LEN
}

impl CampaignView {
    /// What every record that initialization accepts satisfies, and every
    /// later operation preserves: a positive goal and a valid id.
    pub open spec fn well_formed(self) -> bool {
        &&& self.goal > 0
        &&& valid_campaign_id(self.campaign_id)
    }
}

} // verus!
