use vstd::prelude::*;
use crate::campaign::Campaign;
use crate::contract::{
    accepted_total, campaign_wf, index_wf, pool_balanced, reward_drawn, submission_wf, Contract,
};
use crate::leaderboard::ledger_distinct;
use crate::submission::{Submission, SubmissionStatus};

verus! {

/// What the first submissions have drawn is no more than what all have drawn.
pub proof fn lemma_accepted_total_prefix(subs: Seq<Submission>, k: int, cid: u64)
    requires
        0 <= k <= subs.len(),
    ensures
        accepted_total(subs.take(k), cid) <= accepted_total(subs, cid),
    decreases subs.len() - k,
{
    if k == subs.len() {
        assert(subs.take(k) =~= subs);
    } else {
        lemma_accepted_total_prefix(subs, k + 1, cid);
        assert(subs.take(k + 1).drop_last() =~= subs.take(k));
    }
}

/// What the submission `s` has drawn from the pool of campaign `cid`.
pub fn drawn(s: &Submission, cid: u64) -> (r: u128)
    ensures
        r == reward_drawn(*s, cid),
{
    if s.campaign_id != cid {
        return 0;
    }
    match s.status {
        SubmissionStatus::Accepted => match s.reward_amount {
            Some(r) => r,
            None => 0,
        },
        _ => 0,
    }
}

/// Adds up the rewards of the accepted submissions of campaign `cid`;
/// `None` where the sum is more than any pool can hold.
pub fn accepted_sum(subs: &Vec<Submission>, cid: u64) -> (r: Option<u128>)
    ensures
        match r {
            Some(t) => t == accepted_total(subs@, cid),
            None => accepted_total(subs@, cid) > u128::MAX,
        },
{
    let mut total: u128 = 0;
    let mut j: usize = 0;
    while j < subs.len()
        invariant
            j <= subs@.len(),
            total == accepted_total(subs@.take(j as int), cid),
        decreases subs@.len() - j,
    {
        let d: u128 = drawn(&subs[j], cid);
        proof {
            assert(subs@.take(j + 1).drop_last() =~= subs@.take(j as int));
            assert(subs@.take(j + 1).last() == subs@[j as int]);
            lemma_accepted_total_prefix(subs@, j + 1, cid);
        }
        if d > u128::MAX - total {
            return None;
        }
        total = total + d;
        j += 1;
    }
    proof {
        assert(subs@.take(j as int) =~= subs@);
    }
    Some(total)
}

/// Decides what holds of the campaign stored at place `i`.
pub fn campaign_ok(c: &Campaign, i: usize, subs: &Vec<Submission>) -> (b: bool)
    ensures
        b == (campaign_wf(*c, i as int) && pool_balanced(*c, subs@, 0)),
{
    if c.id == 0 || c.id - 1 != i as u64 {
        return false;
    }
    if c.remaining_pool > c.total_pool || c.platform_fee_percent > 100 || c.severity_levels.len() == 0 {
        return false;
    }
    if c.cancelled && c.remaining_pool != 0 {
        return false;
    }
    let mut k: usize = 0;
    while k < c.severity_levels.len()
        invariant
            k <= c.severity_levels@.len(),
            forall|m: int|
                0 <= m < k ==> {
                    &&& (#[trigger] c.severity_levels@[m]).id == m % 256
                    &&& c.severity_levels@[m].max_reward_pct <= 100
                },
        decreases c.severity_levels@.len() - k,
    {
        let level = &c.severity_levels[k];
        if level.id as usize != k % 256 || level.max_reward_pct > 100 {
            return false;
        }
        k += 1;
    }
    match accepted_sum(subs, c.id) {
        None => false,
        Some(t) => {
            if c.cancelled {
                t <= c.total_pool
            } else {
                t <= c.total_pool && c.remaining_pool == c.total_pool - t
            }
        },
    }
}

/// Decides what holds of the submission stored at place `j` while there are
/// `n` campaigns.
pub fn submission_ok(s: &Submission, j: usize, n: usize) -> (b: bool)
    ensures
        b == submission_wf(*s, j as int, n as int),
{
    if s.id == 0 || s.id - 1 != j as u64 {
        return false;
    }
    if s.campaign_id == 0 || s.campaign_id - 1 >= n as u64 {
        return false;
    }
    match s.status {
        SubmissionStatus::Accepted => s.reward_amount.is_some(),
        _ => true,
    }
}

/// Decides whether every id of the list is the id of one of `n` submissions.
pub fn index_ok(list: &Vec<u64>, n: usize) -> (b: bool)
    ensures
        b == index_wf(list@, n as int),
{
    let mut k: usize = 0;
    while k < list.len()
        invariant
            k <= list@.len(),
            forall|m: int| 0 <= m < k ==> 1 <= #[trigger] list@[m] <= n,
        decreases list@.len() - k,
    {
        let id: u64 = list[k];
        if id == 0 || id - 1 >= n as u64 {
            return false;
        }
        k += 1;
    }
    true
}

/// Decides whether no account has two records.
pub fn accounts_distinct<S>(t: &Vec<(String, S)>) -> (b: bool)
    ensures
        b == ledger_distinct(t@),
{
    let mut j: usize = 0;
    while j < t.len()
        invariant
            j <= t@.len(),
            forall|a: int, b: int| 0 <= a < b < j ==> (#[trigger] t@[a]).0@ != (#[trigger] t@[b]).0@,
        decreases t@.len() - j,
    {
        let mut i: usize = 0;
        while i < j
            invariant
                i <= j < t@.len(),
                forall|a: int| 0 <= a < i ==> (#[trigger] t@[a]).0@ != t@[j as int].0@,
            decreases j - i,
        {
            if t[i].0 == t[j].0 {
                return false;
            }
            i += 1;
        }
        j += 1;
    }
    true
}

impl Contract {
    /// Decides whether the state is well formed, as it is after `new` and
    /// after every call: for a state that comes from elsewhere, such as
    /// storage.
    pub fn is_well_formed(&self) -> (b: bool)
        ensures
            b == self.wf(),
    {
        let n: usize = self.campaigns.len();
        let m: usize = self.submissions.len();
        if self.next_campaign_id == 0 || self.next_campaign_id - 1 != n as u64 {
            return false;
        }
        if self.next_submission_id == 0 || self.next_submission_id - 1 != m as u64 {
            return false;
        }
        if self.campaign_submissions.len() != n {
            return false;
        }
        let mut i: usize = 0;
        while i < n
            invariant
                i <= n,
                n == self.campaigns@.len(),
                forall|k: int|
                    0 <= k < i ==> {
                        &&& campaign_wf(#[trigger] self.campaigns@[k], k)
                        &&& pool_balanced(self.campaigns@[k], self.submissions@, 0)
                    },
            decreases n - i,
        {
            if !campaign_ok(&self.campaigns[i], i, &self.submissions) {
                return false;
            }
            i += 1;
        }
        let mut j: usize = 0;
        while j < m
            invariant
                j <= m,
                m == self.submissions@.len(),
                n == self.campaigns@.len(),
                forall|k: int| 0 <= k < j ==> submission_wf(#[trigger] self.submissions@[k], k, n as int),
            decreases m - j,
        {
            if !submission_ok(&self.submissions[j], j, n) {
                return false;
            }
            j += 1;
        }
        let mut i: usize = 0;
        while i < n
            invariant
                i <= n,
                n == self.campaign_submissions@.len(),
                m == self.submissions@.len(),
                forall|k: int| 0 <= k < i ==> index_wf((#[trigger] self.campaign_submissions@[k])@, m as int),
            decreases n - i,
        {
            if !index_ok(&self.campaign_submissions[i], m) {
                return false;
            }
            i += 1;
        }
        accounts_distinct(&self.finder_stats) && accounts_distinct(&self.project_stats)
    }
}

} // verus!
