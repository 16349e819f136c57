use vstd::prelude::*;
use crate::campaign::Campaign;
use crate::leaderboard::{ledger_distinct, FinderStats, ProjectStats};
use crate::submission::{Submission, SubmissionStatus};

verus! {

/// The whole state of the escrow. The campaign with id `i` is
/// `campaigns[i - 1]`, the submission with id `j` is `submissions[j - 1]`, and
/// `campaign_submissions[i - 1]` lists the submissions of campaign `i` in the
/// order in which they came. The two tables of figures hold one record per
/// account, in the order in which the accounts were first written.
#[derive(Debug)]
pub struct Contract {
    pub campaigns: Vec<Campaign>,
    pub next_campaign_id: u64,
    pub submissions: Vec<Submission>,
    pub next_submission_id: u64,
    pub campaign_submissions: Vec<Vec<u64>>,
    pub finder_stats: Vec<(String, FinderStats)>,
    pub project_stats: Vec<(String, ProjectStats)>,
    pub admin: String,
    pub treasury: String,
    pub paused: bool,
}

/// What the submission `s` has taken out of the pool of campaign `cid`: its
/// reward where it was accepted under that campaign, nothing otherwise.
pub open spec fn reward_drawn(s: Submission, cid: u64) -> nat {
    if s.campaign_id == cid && s.status == SubmissionStatus::Accepted {
        match s.reward_amount {
            Some(r) => r as nat,
            None => 0,
        }
    } else {
        0
    }
}

/// The sum of the rewards of the accepted submissions of campaign `cid`.
pub open spec fn accepted_total(subs: Seq<Submission>, cid: u64) -> nat
    decreases subs.len(),
{
    if subs.len() == 0 {
        0
    } else {
        accepted_total(subs.drop_last(), cid) + reward_drawn(subs.last(), cid)
    }
}

/// A further submission adds what it has drawn.
pub proof fn lemma_accepted_total_push(subs: Seq<Submission>, s: Submission, cid: u64)
    ensures
        accepted_total(subs.push(s), cid) == accepted_total(subs, cid) + reward_drawn(s, cid),
{
    assert(subs.push(s).drop_last() =~= subs);
}

/// Replacing one submission replaces what it has drawn.
pub proof fn lemma_accepted_total_update(subs: Seq<Submission>, j: int, s: Submission, cid: u64)
    requires
        0 <= j < subs.len(),
    ensures
        accepted_total(subs.update(j, s), cid) + reward_drawn(subs[j], cid) == accepted_total(
            subs,
            cid,
        ) + reward_drawn(s, cid),
    decreases subs.len(),
{
    if j == subs.len() - 1 {
        assert(subs.update(j, s).drop_last() =~= subs.drop_last());
    } else {
        lemma_accepted_total_update(subs.drop_last(), j, s, cid);
        assert(subs.update(j, s).drop_last() =~= subs.drop_last().update(j, s));
    }
}

/// What holds of the campaign stored at place `i`: its id, the bounds of its
/// pool, fee and tiers, and that a cancelled campaign holds nothing.
pub open spec fn campaign_wf(c: Campaign, i: int) -> bool {
    &&& c.id == i + 1
    &&& c.remaining_pool <= c.total_pool
    &&& c.platform_fee_percent <= 100
    &&& c.severity_levels@.len() >= 1
    &&& c.cancelled ==> c.remaining_pool == 0
    &&& forall|k: int|
        0 <= k < c.severity_levels@.len() ==> {
            &&& (#[trigger] c.severity_levels@[k]).id == k % 256
            &&& c.severity_levels@[k].max_reward_pct <= 100
        }
}

/// The pool's books: what a running campaign still holds and what its
/// accepted submissions have drawn make up what was paid in, but for `owed`,
/// the reward of a submission that is accepted and not yet paid. A cancelled
/// campaign has drawn no more than was paid in and owes nothing.
pub open spec fn pool_balanced(c: Campaign, subs: Seq<Submission>, owed: nat) -> bool {
    if c.cancelled {
        accepted_total(subs, c.id) <= c.total_pool && owed == 0
    } else {
        c.remaining_pool + accepted_total(subs, c.id) == c.total_pool + owed
    }
}

/// What holds of the submission stored at place `j` while there are `n`
/// campaigns.
pub open spec fn submission_wf(s: Submission, j: int, n: int) -> bool {
    &&& s.id == j + 1
    &&& 1 <= s.campaign_id <= n
    &&& s.status == SubmissionStatus::Accepted ==> s.reward_amount.is_some()
}

/// Every id that a campaign's list holds is the id of a submission.
pub open spec fn index_wf(list: Seq<u64>, n_subs: int) -> bool {
    forall|k: int| 0 <= k < list.len() ==> 1 <= #[trigger] list[k] <= n_subs
}

/// `gross` for the campaign stored at place `i` if that is campaign `cid`,
/// nothing otherwise.
pub open spec fn owed_at(i: int, cid: u64, gross: u128) -> nat {
    if i + 1 == cid {
        gross as nat
    } else {
        0
    }
}

impl Contract {
    /// The state is well formed but for the reward `gross`, which campaign
    /// `cid` has granted and not yet taken out of its pool.
    pub open spec fn wf_owing(&self, cid: u64, gross: u128) -> bool {
        &&& self.next_campaign_id == self.campaigns@.len() + 1
        &&& self.next_submission_id == self.submissions@.len() + 1
        &&& self.campaign_submissions@.len() == self.campaigns@.len()
        &&& forall|i: int|
            0 <= i < self.campaigns@.len() ==> {
                &&& campaign_wf(#[trigger] self.campaigns@[i], i)
                &&& pool_balanced(self.campaigns@[i], self.submissions@, owed_at(i, cid, gross))
            }
        &&& forall|j: int|
            0 <= j < self.submissions@.len() ==> submission_wf(
                #[trigger] self.submissions@[j],
                j,
                self.campaigns@.len() as int,
            )
        &&& forall|i: int|
            0 <= i < self.campaign_submissions@.len() ==> index_wf(
                (#[trigger] self.campaign_submissions@[i])@,
                self.submissions@.len() as int,
            )
        &&& ledger_distinct(self.finder_stats@)
        &&& ledger_distinct(self.project_stats@)
    }

    /// The state is well formed: ids are dense from 1, every pool is within
    /// its bounds and its books balance, and no account has two records.
    pub open spec fn wf(&self) -> bool {
        self.wf_owing(0, 0)
    }

    /// Whether `id` is the id of a campaign.
    pub open spec fn has_campaign(&self, id: u64) -> bool {
        1 <= id <= self.campaigns@.len()
    }

    /// The campaign with the id `id`.
    pub open spec fn campaign(&self, id: u64) -> Campaign
        recommends
            self.has_campaign(id),
    {
        self.campaigns@[id - 1]
    }

    /// Whether `id` is the id of a submission.
    pub open spec fn has_submission(&self, id: u64) -> bool {
        1 <= id <= self.submissions@.len()
    }

    /// The submission with the id `id`.
    pub open spec fn submission(&self, id: u64) -> Submission
        recommends
            self.has_submission(id),
    {
        self.submissions@[id - 1]
    }

    /// An empty escrow, running, with its administrator and its fee sink.
    pub fn new(admin: String, treasury: String) -> (c: Contract)
        ensures
            c.wf(),
            c.campaigns@.len() == 0,
            c.submissions@.len() == 0,
            c.campaign_submissions@.len() == 0,
            c.finder_stats@.len() == 0,
            c.project_stats@.len() == 0,
            c.next_campaign_id == 1,
            c.next_submission_id == 1,
            c.admin == admin,
            c.treasury == treasury,
            !c.paused,
    {
        Contract {
            campaigns: Vec::new(),
            next_campaign_id: 1,
            submissions: Vec::new(),
            next_submission_id: 1,
            campaign_submissions: Vec::new(),
            finder_stats: Vec::new(),
            project_stats: Vec::new(),
            admin,
            treasury,
            paused: false,
        }
    }

    /// Place of the campaign `id` in the table, where there is such a campaign.
    pub fn campaign_slot(&self, id: u64) -> (r: Option<usize>)
        ensures
            r.is_some() == self.has_campaign(id),
            r matches Some(i) ==> i == id - 1,
    {
        if id == 0 || id - 1 >= self.campaigns.len() as u64 {
            None
        } else {
            Some((id - 1) as usize)
        }
    }

    /// Place of the submission `id` in the table, where there is such a
    /// submission.
    pub fn submission_slot(&self, id: u64) -> (r: Option<usize>)
        ensures
            r.is_some() == self.has_submission(id),
            r matches Some(i) ==> i == id - 1,
    {
        if id == 0 || id - 1 >= self.submissions.len() as u64 {
            None
        } else {
            Some((id - 1) as usize)
        }
    }

    pub fn get_campaign(&self, campaign_id: u64) -> (r: Option<&Campaign>)
        ensures
            r.is_some() == self.has_campaign(campaign_id),
            r matches Some(c) ==> *c == self.campaign(campaign_id),
    {
        match self.campaign_slot(campaign_id) {
            Some(i) => Some(&self.campaigns[i]),
            None => None,
        }
    }

    pub fn get_submission(&self, submission_id: u64) -> (r: Option<&Submission>)
        ensures
            r.is_some() == self.has_submission(submission_id),
            r matches Some(s) ==> *s == self.submission(submission_id),
    {
        match self.submission_slot(submission_id) {
            Some(i) => Some(&self.submissions[i]),
            None => None,
        }
    }
}

/// First place of a page that starts at `from`, in a table of `len` entries.
pub open spec fn page_lo(from: Option<u64>, len: int) -> int {
    let f: int = match from {
        Some(f) => f as int,
        None => 0,
    };
    if f <= len {
        f
    } else {
        len
    }
}

/// The place after the last of a page of at most `limit` entries (ten where
/// none is given) that starts at `from`, in a table of `len` entries.
pub open spec fn page_hi(from: Option<u64>, limit: Option<u64>, len: int) -> int {
    let l: int = match limit {
        Some(l) => l as int,
        None => 10,
    };
    if page_lo(from, len) + l <= len {
        page_lo(from, len) + l
    } else {
        len
    }
}

/// Computes the bounds of a page: `page_lo` and `page_hi`.
pub fn page_bounds(from: Option<u64>, limit: Option<u64>, len: usize) -> (r: (usize, usize))
    ensures
        r.0 == page_lo(from, len as int),
        r.1 == page_hi(from, limit, len as int),
        r.0 <= r.1 <= len,
{
    let f: u64 = match from {
        Some(f) => f,
        None => 0,
    };
    let l: u64 = match limit {
        Some(l) => l,
        None => 10,
    };
    let n: u64 = len as u64;
    let lo: u64 = if f <= n { f } else { n };
    let hi: u64 = if l <= n - lo { lo + l } else { n };
    (lo as usize, hi as usize)
}

impl Contract {
    /// A page of the campaigns, in the order of their ids.
    pub fn get_campaigns(&self, from_index: Option<u64>, limit: Option<u64>) -> (r: Vec<&Campaign>)
        ensures
            r@.len() == page_hi(from_index, limit, self.campaigns@.len() as int) - page_lo(
                from_index,
                self.campaigns@.len() as int,
            ),
            forall|k: int|
                0 <= k < r@.len() ==> *(#[trigger] r@[k]) == self.campaigns@[page_lo(
                    from_index,
                    self.campaigns@.len() as int,
                ) + k],
    {
        let (lo, hi) = page_bounds(from_index, limit, self.campaigns.len());
        let mut out: Vec<&Campaign> = Vec::new();
        let mut i: usize = lo;
        while i < hi
            invariant
                lo <= i <= hi <= self.campaigns@.len(),
                out@.len() == i - lo,
                forall|k: int| 0 <= k < out@.len() ==> *(#[trigger] out@[k]) == self.campaigns@[lo + k],
            decreases hi - i,
        {
            out.push(&self.campaigns[i]);
            i += 1;
        }
        out
    }

    /// The ids that the list of campaign `campaign_id` holds; none where
    /// there is no such campaign.
    pub open spec fn submission_ids_of(&self, campaign_id: u64) -> Seq<u64> {
        if 1 <= campaign_id <= self.campaign_submissions@.len() {
            self.campaign_submissions@[campaign_id - 1]@
        } else {
            Seq::empty()
        }
    }

    /// A page of the submissions of one campaign, in the order in which they
    /// came; empty where there is no such campaign.
    pub fn get_campaign_submissions(&self, campaign_id: u64, from: Option<u64>, limit: Option<u64>) -> (r:
        Vec<&Submission>)
        requires
            self.wf(),
        ensures
            r@.len() == page_hi(from, limit, self.submission_ids_of(campaign_id).len() as int)
                - page_lo(from, self.submission_ids_of(campaign_id).len() as int),
            forall|k: int|
                0 <= k < r@.len() ==> *(#[trigger] r@[k]) == self.submission(
                    self.submission_ids_of(campaign_id)[page_lo(
                        from,
                        self.submission_ids_of(campaign_id).len() as int,
                    ) + k],
                ),
    {
        let mut out: Vec<&Submission> = Vec::new();
        if campaign_id == 0 || campaign_id - 1 >= self.campaign_submissions.len() as u64 {
            return out;
        }
        let list = &self.campaign_submissions[(campaign_id - 1) as usize];
        assert(list@ == self.submission_ids_of(campaign_id));
        assert(index_wf(list@, self.submissions@.len() as int));
        let (lo, hi) = page_bounds(from, limit, list.len());
        let mut i: usize = lo;
        while i < hi
            invariant
                lo <= i <= hi <= list@.len(),
                index_wf(list@, self.submissions@.len() as int),
                out@.len() == i - lo,
                forall|k: int|
                    0 <= k < out@.len() ==> *(#[trigger] out@[k]) == self.submission(list@[lo + k]),
            decreases hi - i,
        {
            let id: u64 = list[i];
            assert(1 <= list@[i as int] <= self.submissions@.len());
            let n: usize = self.submissions.len();
            assert(id - 1 < n);
            let at: usize = (id - 1) as usize;
            let ghost before = out@;
            out.push(&self.submissions[at]);
            assert forall|k: int| 0 <= k < out@.len() implies *(#[trigger] out@[k])
                == self.submission(list@[lo + k]) by {
                if k < before.len() {
                    assert(out@[k] == before[k]);
                }
            }
            i += 1;
        }
        out
    }

    /// The first `limit` records of the researchers' table, in the order in
    /// which the accounts were first written.
    pub fn get_top_finders(&self, limit: u32) -> (r: Vec<(String, FinderStats)>)
        ensures
            r@ == self.finder_stats@.take(
                if limit <= self.finder_stats@.len() {
                    limit as int
                } else {
                    self.finder_stats@.len() as int
                },
            ),
    {
        let mut out: Vec<(String, FinderStats)> = Vec::new();
        let mut i: usize = 0;
        while i < self.finder_stats.len() && i < limit as usize
            invariant
                i <= self.finder_stats@.len(),
                i <= limit,
                out@ == self.finder_stats@.take(i as int),
            decreases self.finder_stats@.len() - i,
        {
            let e = &self.finder_stats[i];
            out.push((e.0.clone(), e.1));
            assert(out@ =~= self.finder_stats@.take(i + 1));
            i += 1;
        }
        out
    }

    /// The first `limit` records of the projects' table, in the order in
    /// which the accounts were first written.
    pub fn get_top_projects(&self, limit: u32) -> (r: Vec<(String, ProjectStats)>)
        ensures
            r@ == self.project_stats@.take(
                if limit <= self.project_stats@.len() {
                    limit as int
                } else {
                    self.project_stats@.len() as int
                },
            ),
    {
        let mut out: Vec<(String, ProjectStats)> = Vec::new();
        let mut i: usize = 0;
        while i < self.project_stats.len() && i < limit as usize
            invariant
                i <= self.project_stats@.len(),
                i <= limit,
                out@ == self.project_stats@.take(i as int),
            decreases self.project_stats@.len() - i,
        {
            let e = &self.project_stats[i];
            out.push((e.0.clone(), e.1));
            assert(out@ =~= self.project_stats@.take(i + 1));
            i += 1;
        }
        out
    }
}

} // verus!
