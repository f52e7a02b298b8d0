use sol_raiser::donate::{donate, DonateData};
use sol_raiser::errors::{InitializeError, SolRaiserError};
use sol_raiser::finalize_campaign::{finalize_campaign, FinalizeCampaignData};
use sol_raiser::initialize_campaign::{initialize_campaign, InitializeCampaignData};
use sol_raiser::refund::{refund, RefundData};
use sol_raiser::states::Campaign;
use sol_raiser::store::CampaignStore;

const CREATOR: u64 = 1;
const STRANGER: u64 = 2;
const T: i64 = 1_000_000;
const BUMP: u8 = 254;

fn id(s: &str) -> Vec<u8> {
    s.as_bytes().to_vec()
}

fn campaign(goal: u64, deadline: i64, total_raised: u64, active: bool) -> Campaign {
    Campaign {
        creator: CREATOR,
        goal,
        deadline,
        total_raised,
        active,
        bump: BUMP,
        campaign_id: id("camp"),
    }
}

#[test]
fn initialize_zero_goal_rejected() {
    let r = initialize_campaign(CREATOR, T, BUMP, InitializeCampaignData {
        goal: 0,
        deadline: T + 100,
        campaign_id: id("camp"),
    });
    assert!(matches!(r, Err(SolRaiserError::InvalidAmount)));
    // the goal check comes first, even when the deadline is bad too
    let r = initialize_campaign(CREATOR, T, BUMP, InitializeCampaignData {
        goal: 0,
        deadline: T - 100,
        campaign_id: id("camp"),
    });
    assert!(matches!(r, Err(SolRaiserError::InvalidAmount)));
}

#[test]
fn initialize_deadline_not_in_future_rejected() {
    for deadline in [T - 1, T] {
        let r = initialize_campaign(CREATOR, T, BUMP, InitializeCampaignData {
            goal: 5,
            deadline,
            campaign_id: id("camp"),
        });
        assert!(matches!(r, Err(SolRaiserError::InvalidDeadline)));
    }
}

#[test]
fn initialize_id_length_bounds() {
    let empty = initialize_campaign(CREATOR, T, BUMP, InitializeCampaignData {
        goal: 5,
        deadline: T + 1,
        campaign_id: Vec::new(),
    });
    assert!(matches!(empty, Err(SolRaiserError::InvalidCampaignId)));
    let too_long = initialize_campaign(CREATOR, T, BUMP, InitializeCampaignData {
        goal: 5,
        deadline: T + 1,
        campaign_id: vec![b'x'; 25],
    });
    assert!(matches!(too_long, Err(SolRaiserError::InvalidCampaignId)));
    let longest = initialize_campaign(CREATOR, T, BUMP, InitializeCampaignData {
        goal: 5,
        deadline: T + 1,
        campaign_id: vec![b'x'; 24],
    });
    let c = longest.expect("24 bytes are allowed");
    assert_eq!(c.campaign_id.len(), 24);
    let shortest = initialize_campaign(CREATOR, T, BUMP, InitializeCampaignData {
        goal: 5,
        deadline: T + 1,
        campaign_id: vec![b'x'],
    });
    assert!(shortest.is_ok());
}

#[test]
fn donate_zero_amount_always_invalid() {
    // on a live record
    let mut c = campaign(1000, T + 100, 0, true);
    let r = donate(&mut c, T, &DonateData { amount: 0, campaign_id: id("camp") });
    assert_eq!(r, Err(SolRaiserError::InvalidAmount));
    assert_eq!(c.total_raised, 0);
    // on an expired one the amount check still fires first
    let r = donate(&mut c, T + 200, &DonateData { amount: 0, campaign_id: id("camp") });
    assert_eq!(r, Err(SolRaiserError::InvalidAmount));
    // and even when no record exists at all
    let mut store = CampaignStore::new();
    let r = store.donate(CREATOR, T, DonateData { amount: 0, campaign_id: id("camp") });
    assert_eq!(r, Err(SolRaiserError::InvalidAmount));
}

#[test]
fn donate_missing_record_not_active() {
    let mut store = CampaignStore::new();
    let r = store.donate(CREATOR, T, DonateData { amount: 5, campaign_id: id("camp") });
    assert_eq!(r, Err(SolRaiserError::CampaignNotActive));
}

#[test]
fn donate_inactive_record_unchanged() {
    let mut c = campaign(1000, T + 100, 300, false);
    let r = donate(&mut c, T, &DonateData { amount: 5, campaign_id: id("camp") });
    assert_eq!(r, Err(SolRaiserError::CampaignNotActive));
    assert_eq!(c.total_raised, 300);
    assert!(!c.active);
}

#[test]
fn donate_at_deadline_still_accepted() {
    let mut c = campaign(1000, T + 100, 0, true);
    let r = donate(&mut c, T + 100, &DonateData { amount: 7, campaign_id: id("camp") });
    assert_eq!(r, Ok(()));
    assert_eq!(c.total_raised, 7);
    // one tick later donations are rejected
    let r = donate(&mut c, T + 101, &DonateData { amount: 7, campaign_id: id("camp") });
    assert_eq!(r, Err(SolRaiserError::DeadlineExpired));
    assert_eq!(c.total_raised, 7);
}

#[test]
fn donate_overflow_rejected_as_invalid_amount() {
    let mut c = campaign(1000, T + 100, u64::MAX - 2, true);
    let r = donate(&mut c, T, &DonateData { amount: 3, campaign_id: id("camp") });
    assert_eq!(r, Err(SolRaiserError::InvalidAmount));
    assert_eq!(c.total_raised, u64::MAX - 2);
    // the exact remaining headroom is still accepted
    let r = donate(&mut c, T, &DonateData { amount: 2, campaign_id: id("camp") });
    assert_eq!(r, Ok(()));
    assert_eq!(c.total_raised, u64::MAX);
}

#[test]
fn finalize_requires_creator() {
    let mut c = campaign(1000, T + 100, 1000, true);
    let r = finalize_campaign(&mut c, STRANGER, T);
    assert_eq!(r, Err(SolRaiserError::InvalidCreator));
    assert!(c.active);
}

#[test]
fn finalize_needs_goal_or_expiry() {
    // goal unmet and deadline not yet passed: refused
    let mut c = campaign(1000, T + 100, 999, true);
    assert_eq!(finalize_campaign(&mut c, CREATOR, T + 100), Err(
        SolRaiserError::DeadlineNotPassed,
    ));
    assert!(c.active);
    // goal met before the deadline: allowed
    let mut c = campaign(1000, T + 100, 1000, true);
    assert_eq!(finalize_campaign(&mut c, CREATOR, T), Ok(()));
    assert!(!c.active);
    assert_eq!(c.total_raised, 1000);
    // goal unmet but expired: allowed as well
    let mut c = campaign(1000, T + 100, 1, true);
    assert_eq!(finalize_campaign(&mut c, CREATOR, T + 101), Ok(()));
    assert!(!c.active);
}

#[test]
fn finalize_inactive_record_refused() {
    let mut c = campaign(1000, T + 100, 1000, false);
    assert_eq!(finalize_campaign(&mut c, CREATOR, T), Err(SolRaiserError::CampaignNotActive));
}

#[test]
fn refund_success_iff_expired_and_goal_unmet() {
    // the happy path
    let mut c = campaign(1000, T + 100, 999, true);
    assert_eq!(refund(&mut c, CREATOR, T + 101), Ok(()));
    assert!(!c.active);
    assert_eq!(c.total_raised, 999);
    // wrong caller
    let mut c = campaign(1000, T + 100, 999, true);
    assert_eq!(refund(&mut c, STRANGER, T + 101), Err(SolRaiserError::InvalidCreator));
    // already closed
    let mut c = campaign(1000, T + 100, 999, false);
    assert_eq!(refund(&mut c, CREATOR, T + 101), Err(SolRaiserError::CampaignNotActive));
    // the deadline itself has not passed yet
    let mut c = campaign(1000, T + 100, 999, true);
    assert_eq!(refund(&mut c, CREATOR, T + 100), Err(SolRaiserError::DeadlineNotPassed));
    assert!(c.active);
    // goal reached exactly: the failure path is refused
    let mut c = campaign(1000, T + 100, 1000, true);
    assert_eq!(refund(&mut c, CREATOR, T + 101), Err(SolRaiserError::GoalNotReached));
    assert!(c.active);
}

#[test]
fn goal_boundary_prefers_finalize() {
    // with total_raised exactly at goal, finalize succeeds and refund refuses
    let mut a = campaign(500, T + 100, 500, true);
    let mut b = campaign(500, T + 100, 500, true);
    assert_eq!(refund(&mut b, CREATOR, T + 101), Err(SolRaiserError::GoalNotReached));
    assert_eq!(finalize_campaign(&mut a, CREATOR, T + 101), Ok(()));
}

#[test]
fn close_is_terminal() {
    let mut c = campaign(1000, T + 100, 1000, true);
    assert_eq!(finalize_campaign(&mut c, CREATOR, T), Ok(()));
    assert_eq!(finalize_campaign(&mut c, CREATOR, T), Err(SolRaiserError::CampaignNotActive));
    assert_eq!(refund(&mut c, CREATOR, T + 101), Err(SolRaiserError::CampaignNotActive));
    assert_eq!(donate(&mut c, T, &DonateData { amount: 1, campaign_id: id("camp") }), Err(
        SolRaiserError::CampaignNotActive,
    ));
    assert_eq!(c.total_raised, 1000);
}

#[test]
fn store_initialize_validation_reported() {
    let mut store = CampaignStore::new();
    let r = store.initialize_campaign(CREATOR, T, BUMP, InitializeCampaignData {
        goal: 0,
        deadline: T + 100,
        campaign_id: id("camp"),
    });
    assert_eq!(r, Err(InitializeError::Rejected(SolRaiserError::InvalidAmount)));
    // a failed initialization allocates nothing
    assert_eq!(store.campaign_count(), 0);
    assert!(!store.contains_campaign(CREATOR, &id("camp")));
}

#[test]
fn store_close_by_stranger_does_not_resolve() {
    // records are addressed by (caller, id): a stranger's close never reaches
    // another creator's record
    let mut store = CampaignStore::new();
    store.initialize_campaign(CREATOR, T, BUMP, InitializeCampaignData {
        goal: 1000,
        deadline: T + 100,
        campaign_id: id("camp"),
    }).unwrap();
    let r = store.finalize_campaign(STRANGER, T + 200, FinalizeCampaignData {
        campaign_id: id("camp"),
    });
    assert_eq!(r, Err(SolRaiserError::CampaignNotActive));
    let r = store.refund(STRANGER, T + 200, RefundData { campaign_id: id("camp") });
    assert_eq!(r, Err(SolRaiserError::CampaignNotActive));
    assert!(store.get_campaign(CREATOR, &id("camp")).unwrap().active);
}
