use vstd::prelude::*;

use crate::donate::{donate_result, DonateData};
use crate::errors::{InitializeError, SolRaiserError};
use crate::finalize_campaign::{finalize_result, FinalizeCampaignData};
use crate::initialize_campaign::{initialize_result, InitializeCampaignData};
use crate::refund::{refund_result, RefundData};
use crate::states::{Campaign, CampaignView};

verus! {

/// The key a record is addressed by: its creator's identity and its id.
pub open spec fn key_of(c: CampaignView) -> (u64, Seq<u8>) {
    (c.creator, c.campaign_id)
}

/// Whether record `c` is addressed by the key (creator, campaign_id).
pub open spec fn key_matches(c: CampaignView, creator: u64, campaign_id: Seq<u8>) -> bool {
    c.creator == creator && c.campaign_id == campaign_id
}

/// Whether some record in `s` is addressed by the key (creator, campaign_id).
pub open spec fn has_key(s: Seq<CampaignView>, creator: u64, campaign_id: Seq<u8>) -> bool {
    exists|i: int| 0 <= i < s.len() && #[trigger] key_matches(s[i], creator, campaign_id)
}

/// The position of the record addressed by (creator, campaign_id);
/// meaningful when `has_key` holds, and unique under `unique_keys`.
pub open spec fn index_of_key(s: Seq<CampaignView>, creator: u64, campaign_id: Seq<u8>) -> int {
    choose|i: int| 0 <= i < s.len() && #[trigger] key_matches(s[i], creator, campaign_id)
}

/// At most one record exists per (creator, campaign_id) key.
pub open spec fn unique_keys(s: Seq<CampaignView>) -> bool {
    forall|i: int, j: int|
        0 <= i < s.len() && 0 <= j < s.len() && i != j ==> key_of(#[trigger] s[i]) != key_of(
            #[trigger] s[j],
        )
}

/// Every record in `s` satisfies the record invariant.
pub open spec fn all_well_formed(s: Seq<CampaignView>) -> bool {
    forall|i: int| 0 <= i < s.len() ==> (#[trigger] s[i]).well_formed()
}

/// The abstraction of a sequence of stored records.
pub open spec fn views_of(s: Seq<Campaign>) -> Seq<CampaignView> {
    s.map_values(|c: Campaign| c@)
}

/// The record store: the host's content-addressed account storage, modelled
/// as a lookup table keyed by (creator, campaign_id) with insert-if-absent
/// semantics. Each operation applies atomically: it either commits in full
/// or reports an error and leaves every record unchanged.
pub struct CampaignStore {
    records: Vec<Campaign>,
}

impl View for CampaignStore {
    type V = Seq<CampaignView>;

    closed spec fn view(&self) -> Seq<CampaignView> {
        views_of(self.records@)
    }
}

impl CampaignStore {
    /// The store invariant: keys are unique and every record satisfies the
    /// record invariant.
    pub open spec fn wf(&self) -> bool {
        &&& unique_keys(self@)
        &&& all_well_formed(self@)
    }

    /// An empty store.
    pub fn new() -> (s: Self)
        ensures
            s@ == Seq::<CampaignView>::empty(),
            s.wf(),
    {
        let s = CampaignStore { records: Vec::new() };
        proof {
            assert(s@ =~= Seq::<CampaignView>::empty());
        }
        s
    }

    /// How many records the store holds.
    pub fn campaign_count(&self) -> (n: usize)
        ensures
            n == self@.len(),
    {
        self.records.len()
    }

    /// Locate the record addressed by (creator, campaign_id), if any.
    fn find(&self, creator: u64, campaign_id: &Vec<u8>) -> (r: Option<usize>)
        requires
            self.wf(),
        ensures
            (r matches Some(i) ==> 0 <= i < self@.len() && key_matches(
                self@[i as int],
                creator,
                campaign_id@,
            ) && i as int == index_of_key(self@, creator, campaign_id@) && has_key(
                self@,
                creator,
                campaign_id@,
            )),
            r is None ==> !has_key(self@, creator, campaign_id@),
    {
        let n = self.records.len();
        proof {
            assert(self@.len() == self.records@.len());
        }
        let mut i: usize = 0;
        while i < n
            invariant
                self.wf(),
                n == self.records@.len(),
                self@.len() == n,
                0 <= i <= n,
                forall|k: int| 0 <= k < i ==> !#[trigger] key_matches(self@[k], creator, campaign_id@),
            decreases n - i,
        {
            proof {
                assert(self@[i as int] == self.records@[i as int]@);
            }
            if self.records[i].creator == creator && ids_equal(
                &self.records[i].campaign_id,
                campaign_id,
            ) {
                proof {
                    assert(key_matches(self@[i as int], creator, campaign_id@));
                    let j = index_of_key(self@, creator, campaign_id@);
                    assert(0 <= j < self@.len() && key_matches(self@[j], creator, campaign_id@));
                    if j != i as int {
                        assert(key_of(self@[j]) != key_of(self@[i as int]));
                        assert(false);
                    }
                }
                return Some(i);
            }
            i += 1;
        }
        None
    }

    /// Open a new campaign: validate the inputs, then allocate a record at
    /// the key (creator, data.campaign_id) unless one already exists there.
    ///
    /// `creator` is the caller's verified identity, `now` the host clock's
    /// time, and `bump` the derivation nonce of the record's address.
    pub fn initialize_campaign(
        &mut self,
        creator: u64,
        now: i64,
        bump: u8,
        data: InitializeCampaignData,
    ) -> (r: Result<(), InitializeError>)
        requires
            old(self).wf(),
        ensures
            final(self).wf(),
            r is Ok <==> initialize_result(
                creator,
                now,
                bump,
                data.goal,
                data.deadline,
                data.campaign_id@,
            ) is Ok && !has_key(old(self)@, creator, data.campaign_id@),
            (initialize_result(creator, now, bump, data.goal, data.deadline, data.campaign_id@)
                matches Err(e) ==> r == Err::<(), InitializeError>(InitializeError::Rejected(e))
                && final(self)@ == old(self)@),
            (initialize_result(creator, now, bump, data.goal, data.deadline, data.campaign_id@)
                matches Ok(c) ==> (if has_key(old(self)@, creator, data.campaign_id@) {
                r == Err::<(), InitializeError>(InitializeError::RecordExists) && final(self)@
                    == old(self)@
            } else {
                final(self)@ == old(self)@.push(c)
            })),
    {
        let campaign = match crate::initialize_campaign::initialize_campaign(
            creator,
            now,
            bump,
            data,
        ) {
            Ok(c) => c,
            Err(e) => {
                return Err(InitializeError::Rejected(e));
            },
        };
        match self.find(creator, &campaign.campaign_id) {
            Some(_) => Err(InitializeError::RecordExists),
            None => {
                proof {
                    lemma_views_push(self.records@, campaign);
                    lemma_wf_after_push(self@, campaign@);
                }
                self.records.push(campaign);
                Ok(())
            },
        }
    }

    /// Credit a donation to the campaign addressed by
    /// (creator, data.campaign_id). The host moves the funds in the same
    /// atomic unit; a missing record reports CampaignNotActive, and any error
    /// leaves every record unchanged.
    pub fn donate(&mut self, creator: u64, now: i64, data: DonateData) -> (r: Result<
        (),
        SolRaiserError,
    >)
        requires
            old(self).wf(),
        ensures
            final(self).wf(),
            data.amount == 0 ==> r == Err::<(), SolRaiserError>(SolRaiserError::InvalidAmount)
                && final(self)@ == old(self)@,
            data.amount != 0 && !has_key(old(self)@, creator, data.campaign_id@) ==> r == Err::<
                (),
                SolRaiserError,
            >(SolRaiserError::CampaignNotActive) && final(self)@ == old(self)@,
            data.amount != 0 && has_key(old(self)@, creator, data.campaign_id@) ==> (
            match donate_result(
                old(self)@[index_of_key(old(self)@, creator, data.campaign_id@)],
                now,
                data.amount,
            ) {
                Ok(c2) => r is Ok && final(self)@ == old(self)@.update(
                    index_of_key(old(self)@, creator, data.campaign_id@),
                    c2,
                ),
                Err(e) => r == Err::<(), SolRaiserError>(e) && final(self)@ == old(self)@,
            }),
    {
        if data.amount == 0 {
            return Err(SolRaiserError::InvalidAmount);
        }
        let idx = match self.find(creator, &data.campaign_id) {
            Some(i) => i,
            None => {
                return Err(SolRaiserError::CampaignNotActive);
            },
        };
        proof {
            assert(self@[idx as int] == self.records@[idx as int]@);
        }
        let ghost pre = self.records@;
        let campaign = &mut self.records[idx];
        let r = crate::donate::donate(campaign, now, &data);
        proof {
            lemma_views_update(pre, idx as int, *campaign);
            if r is Ok {
                lemma_wf_after_update(views_of(pre), idx as int, campaign@);
            } else {
                assert(views_of(pre).update(idx as int, campaign@) =~= views_of(pre));
            }
        }
        r
    }

    /// Close the campaign addressed by (caller, data.campaign_id) on the
    /// success-or-expiry path and reclaim its record. On success the whole
    /// custodied balance is released to the creator; the returned amount is
    /// the donation total the host pays out (its storage deposit comes back
    /// with it). A missing record reports CampaignNotActive.
    pub fn finalize_campaign(&mut self, caller: u64, now: i64, data: FinalizeCampaignData) -> (r:
        Result<u64, SolRaiserError>)
        requires
            old(self).wf(),
        ensures
            final(self).wf(),
            !has_key(old(self)@, caller, data.campaign_id@) ==> r == Err::<u64, SolRaiserError>(
                SolRaiserError::CampaignNotActive,
            ) && final(self)@ == old(self)@,
            has_key(old(self)@, caller, data.campaign_id@) ==> (match finalize_result(
                old(self)@[index_of_key(old(self)@, caller, data.campaign_id@)],
                caller,
                now,
            ) {
                Ok(c2) => r == Ok::<u64, SolRaiserError>(
                    old(self)@[index_of_key(old(self)@, caller, data.campaign_id@)].total_raised,
                ) && final(self)@ == old(self)@.remove(
                    index_of_key(old(self)@, caller, data.campaign_id@),
                ) && !has_key(final(self)@, caller, data.campaign_id@),
                Err(e) => r == Err::<u64, SolRaiserError>(e) && final(self)@ == old(self)@,
            }),
    {
        let idx = match self.find(caller, &data.campaign_id) {
            Some(i) => i,
            None => {
                return Err(SolRaiserError::CampaignNotActive);
            },
        };
        proof {
            assert(self@[idx as int] == self.records@[idx as int]@);
        }
        let ghost pre = self.records@;
        let campaign = &mut self.records[idx];
        let r = crate::finalize_campaign::finalize_campaign(campaign, caller, now);
        match r {
            Ok(()) => {
                proof {
                    lemma_views_update(pre, idx as int, *campaign);
                    lemma_update_remove(views_of(pre), idx as int, campaign@);
                    lemma_views_remove(pre.update(idx as int, *campaign), idx as int);
                    assert(views_of(pre.update(idx as int, *campaign)).remove(idx as int)
                        =~= views_of(pre).remove(idx as int));
                    lemma_wf_after_remove(views_of(pre), idx as int);
                }
                let closed = self.records.remove(idx);
                Ok(closed.total_raised)
            },
            Err(e) => {
                proof {
                    lemma_views_update(pre, idx as int, *campaign);
                    assert(views_of(pre).update(idx as int, campaign@) =~= views_of(pre));
                }
                Err(e)
            },
        }
    }

    /// Close the campaign addressed by (caller, data.campaign_id) on the
    /// failure path (deadline passed, goal unmet) and reclaim its record.
    /// The whole custodied balance goes to the creator — the record keeps no
    /// per-donor ledger — and the returned amount is the donation total the
    /// host pays out. A missing record reports CampaignNotActive.
    pub fn refund(&mut self, caller: u64, now: i64, data: RefundData) -> (r: Result<
        u64,
        SolRaiserError,
    >)
        requires
            old(self).wf(),
        ensures
            final(self).wf(),
            !has_key(old(self)@, caller, data.campaign_id@) ==> r == Err::<u64, SolRaiserError>(
                SolRaiserError::CampaignNotActive,
            ) && final(self)@ == old(self)@,
            has_key(old(self)@, caller, data.campaign_id@) ==> (match refund_result(
                old(self)@[index_of_key(old(self)@, caller, data.campaign_id@)],
                caller,
                now,
            ) {
                Ok(c2) => r == Ok::<u64, SolRaiserError>(
                    old(self)@[index_of_key(old(self)@, caller, data.campaign_id@)].total_raised,
                ) && final(self)@ == old(self)@.remove(
                    index_of_key(old(self)@, caller, data.campaign_id@),
                ) && !has_key(final(self)@, caller, data.campaign_id@),
                Err(e) => r == Err::<u64, SolRaiserError>(e) && final(self)@ == old(self)@,
            }),
    {
        let idx = match self.find(caller, &data.campaign_id) {
            Some(i) => i,
            None => {
                return Err(SolRaiserError::CampaignNotActive);
            },
        };
        proof {
            assert(self@[idx as int] == self.records@[idx as int]@);
        }
        let ghost pre = self.records@;
        let campaign = &mut self.records[idx];
        let r = crate::refund::refund(campaign, caller, now);
        match r {
            Ok(()) => {
                proof {
                    lemma_views_update(pre, idx as int, *campaign);
                    lemma_update_remove(views_of(pre), idx as int, campaign@);
                    lemma_views_remove(pre.update(idx as int, *campaign), idx as int);
                    assert(views_of(pre.update(idx as int, *campaign)).remove(idx as int)
                        =~= views_of(pre).remove(idx as int));
                    lemma_wf_after_remove(views_of(pre), idx as int);
                }
                let closed = self.records.remove(idx);
                Ok(closed.total_raised)
            },
            Err(e) => {
                proof {
                    lemma_views_update(pre, idx as int, *campaign);
                    assert(views_of(pre).update(idx as int, campaign@) =~= views_of(pre));
                }
                Err(e)
            },
        }
    }

    /// Whether a record is addressed by (creator, campaign_id).
    pub fn contains_campaign(&self, creator: u64, campaign_id: &Vec<u8>) -> (r: bool)
        requires
            self.wf(),
        ensures
            r == has_key(self@, creator, campaign_id@),
    {
        match self.find(creator, campaign_id) {
            Some(_) => true,
            None => false,
        }
    }

    /// Read the record addressed by (creator, campaign_id), if any.
    pub fn get_campaign(&self, creator: u64, campaign_id: &Vec<u8>) -> (r: Option<&Campaign>)
        requires
            self.wf(),
        ensures
            (r matches Some(c) ==> has_key(self@, creator, campaign_id@) && c@ == self@[
                index_of_key(self@, creator, campaign_id@)]),
            r is None <==> !has_key(self@, creator, campaign_id@),
    {
        match self.find(creator, campaign_id) {
            Some(i) => {
                proof {
                    assert(self@[i as int] == self.records@[i as int]@);
                }
                Some(&self.records[i])
            },
            None => None,
        }
    }
}

proof fn lemma_views_push(s: Seq<Campaign>, c: Campaign)
    ensures
        views_of(s.push(c)) =~= views_of(s).push(c@),
{
    assert forall|k: int| 0 <= k < s.len() + 1 implies views_of(s.push(c))[k] == views_of(
        s,
    ).push(c@)[k] by {
        if k < s.len() {
            assert(s.push(c)[k] == s[k]);
        } else {
            assert(s.push(c)[k] == c);
        }
    }
}

proof fn lemma_views_update(s: Seq<Campaign>, i: int, c: Campaign)
    requires
        0 <= i < s.len(),
    ensures
        views_of(s.update(i, c)) =~= views_of(s).update(i, c@),
{
    assert forall|k: int| 0 <= k < s.len() implies views_of(s.update(i, c))[k] == views_of(
        s,
    ).update(i, c@)[k] by {
        if k == i {
            assert(s.update(i, c)[k] == c);
        } else {
            assert(s.update(i, c)[k] == s[k]);
        }
    }
}

proof fn lemma_views_remove(s: Seq<Campaign>, i: int)
    requires
        0 <= i < s.len(),
    ensures
        views_of(s.remove(i)) =~= views_of(s).remove(i),
{
    s.remove_ensures(i);
    views_of(s).remove_ensures(i);
    assert forall|k: int| 0 <= k < s.len() - 1 implies views_of(s.remove(i))[k] == views_of(
        s,
    ).remove(i)[k] by {
        if k < i {
            assert(s.remove(i)[k] == s[k]);
            assert(views_of(s).remove(i)[k] == views_of(s)[k]);
        } else {
            assert(s.remove(i)[k] == s[k + 1]);
            assert(views_of(s).remove(i)[k] == views_of(s)[k + 1]);
        }
    }
}

proof fn lemma_update_remove<A>(s: Seq<A>, i: int, x: A)
    requires
        0 <= i < s.len(),
    ensures
        s.update(i, x).remove(i) =~= s.remove(i),
{
    s.remove_ensures(i);
    s.update(i, x).remove_ensures(i);
    assert forall|k: int| 0 <= k < s.len() - 1 implies s.update(i, x).remove(i)[k] == s.remove(
        i,
    )[k] by {
        if k < i {
            assert(s.update(i, x).remove(i)[k] == s.update(i, x)[k]);
            assert(s.remove(i)[k] == s[k]);
        } else {
            assert(s.update(i, x).remove(i)[k] == s.update(i, x)[k + 1]);
            assert(s.remove(i)[k] == s[k + 1]);
        }
    }
}

proof fn lemma_wf_after_update(s: Seq<CampaignView>, i: int, c: CampaignView)
    requires
        unique_keys(s),
        all_well_formed(s),
        0 <= i < s.len(),
        key_of(c) == key_of(s[i]),
        c.well_formed(),
    ensures
        unique_keys(s.update(i, c)),
        all_well_formed(s.update(i, c)),
{
    let t = s.update(i, c);
    assert forall|p: int, q: int|
        0 <= p < t.len() && 0 <= q < t.len() && p != q implies key_of(#[trigger] t[p]) != key_of(
        #[trigger] t[q],
    ) by {
        assert(key_of(s[p]) != key_of(s[q]));
        if p == i {
            assert(t[p] == c && t[q] == s[q]);
        } else if q == i {
            assert(t[p] == s[p] && t[q] == c);
        } else {
            assert(t[p] == s[p] && t[q] == s[q]);
        }
    }
    assert forall|k: int| 0 <= k < t.len() implies (#[trigger] t[k]).well_formed() by {
        if k != i {
            assert(t[k] == s[k]);
            assert(s[k].well_formed());
        }
    }
}

proof fn lemma_wf_after_remove(s: Seq<CampaignView>, i: int)
    requires
        unique_keys(s),
        all_well_formed(s),
        0 <= i < s.len(),
    ensures
        unique_keys(s.remove(i)),
        all_well_formed(s.remove(i)),
        !has_key(s.remove(i), s[i].creator, s[i].campaign_id),
{
    let t = s.remove(i);
    s.remove_ensures(i);
    assert forall|p: int, q: int|
        0 <= p < t.len() && 0 <= q < t.len() && p != q implies key_of(#[trigger] t[p]) != key_of(
        #[trigger] t[q],
    ) by {
        let p0: int = if p < i { p } else { p + 1 };
        let q0: int = if q < i { q } else { q + 1 };
        assert(t[p] == s[p0]);
        assert(t[q] == s[q0]);
        assert(key_of(s[p0]) != key_of(s[q0]));
    }
    assert forall|k: int| 0 <= k < t.len() implies (#[trigger] t[k]).well_formed() by {
        let k0: int = if k < i { k } else { k + 1 };
        assert(t[k] == s[k0]);
        assert(s[k0].well_formed());
    }
    assert forall|k: int| 0 <= k < t.len() implies !#[trigger] key_matches(
        t[k],
        s[i].creator,
        s[i].campaign_id,
    ) by {
        let k0: int = if k < i { k } else { k + 1 };
        assert(t[k] == s[k0]);
        if key_matches(s[k0], s[i].creator, s[i].campaign_id) {
            assert(key_of(s[k0]) == key_of(s[i]));
            assert(false);
        }
    }
}

proof fn lemma_wf_after_push(s: Seq<CampaignView>, c: CampaignView)
    requires
        unique_keys(s),
        all_well_formed(s),
        !has_key(s, c.creator, c.campaign_id),
        c.well_formed(),
    ensures
        unique_keys(s.push(c)),
        all_well_formed(s.push(c)),
{
    let t = s.push(c);
    assert forall|p: int, q: int|
        0 <= p < t.len() && 0 <= q < t.len() && p != q implies key_of(#[trigger] t[p]) != key_of(
        #[trigger] t[q],
    ) by {
        if p < s.len() && q < s.len() {
            assert(t[p] == s[p] && t[q] == s[q]);
            assert(key_of(s[p]) != key_of(s[q]));
        } else if p < s.len() {
            assert(t[p] == s[p] && t[q] == c);
            if key_of(s[p]) == key_of(c) {
                assert(key_matches(s[p], c.creator, c.campaign_id));
                assert(false);
            }
        } else {
            assert(t[p] == c && t[q] == s[q]);
            if key_of(s[q]) == key_of(c) {
                assert(key_matches(s[q], c.creator, c.campaign_id));
                assert(false);
            }
        }
    }
    assert forall|k: int| 0 <= k < t.len() implies (#[trigger] t[k]).well_formed() by {
        if k < s.len() {
            assert(t[k] == s[k]);
            assert(s[k].well_formed());
        } else {
            assert(t[k] == c);
        }
    }
}

/// After a successful close the record is gone: removing position `i` frees
/// the key (creator, campaign_id) of the record that stood there, so the
/// store no longer resolves it; and a fresh initialization under that key
/// then succeeds — its validation passes whenever the new goal and deadline
/// do, since a stored id is always valid — and starts over from an active
/// record with nothing raised.
pub proof fn lemma_closed_key_reusable(
    s: Seq<CampaignView>,
    i: int,
    now: i64,
    bump: u8,
    goal: u64,
    deadline: i64,
)
    requires
        unique_keys(s),
        all_well_formed(s),
        0 <= i < s.len(),
    ensures
        !has_key(s.remove(i), s[i].creator, s[i].campaign_id),
        goal > 0 && deadline > now ==> (initialize_result(
            s[i].creator,
            now,
            bump,
            goal,
            deadline,
            s[i].campaign_id,
        ) matches Ok(c) && c.total_raised == 0 && c.active && key_matches(
            c,
            s[i].creator,
            s[i].campaign_id,
        )),
{
    lemma_wf_after_remove(s, i);
}

/// Byte-for-byte equality of two campaign ids.
fn ids_equal(a: &Vec<u8>, b: &Vec<u8>) -> (r: bool)
    ensures
        r <==> a@ == b@,
{
    if a.len() != b.len() {
        return false;
    }
    let n = a.len();
    let mut i: usize = 0;
    while i < n
        invariant
            n == a@.len(),
            a@.len() == b@.len(),
            0 <= i <= n,
            forall|k: int| 0 <= k < i ==> a@[k] == b@[k],
        decreases n - i,
    {
        if a[i] != b[i] {
            return false;
        }
        i += 1;
    }
    proof {
        assert(a@ =~= b@);
    }
    true
}

} // verus!
