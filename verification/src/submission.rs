use vstd::prelude::*;
use crate::arith::{lemma_percent_bounded, percent_floor, percent_of};
use crate::campaign::Campaign;
use crate::contract::{
    campaign_wf, index_wf, lemma_accepted_total_push, lemma_accepted_total_update,
    owed_at, pool_balanced, reward_drawn, submission_wf, Contract,
};
use crate::events::{
    emit_payout, emit_submission_created, submission_created_event, Effects, Event, Transfer,
    REFUND_TGAS, REWARD_TGAS,
};
use crate::leaderboard::{ledger_put, lemma_ledger_put};
use crate::types::{Entity, Error, SubmitBugInput};

verus! {

/// Where a submission stands. The last four are terminal.
#[derive(Debug, Clone, Copy, PartialEq, Eq, Structural)]
pub enum SubmissionStatus {
    Pending,
    UnderReview,
    Accepted,
    Rejected,
    Duplicate,
    Informative,
}

impl SubmissionStatus {
    /// No review may change a submission in a terminal status.
    pub open spec fn is_terminal(self) -> bool {
        !(self == SubmissionStatus::Pending || self == SubmissionStatus::UnderReview)
    }

    pub fn terminal(&self) -> (r: bool)
        ensures
            r == self.is_terminal(),
    {
        match self {
            SubmissionStatus::Pending => false,
            SubmissionStatus::UnderReview => false,
            _ => true,
        }
    }
}

/// One finding against one campaign.
#[derive(Debug, Clone)]
pub struct Submission {
    pub id: u64,
    pub campaign_id: u64,
    pub submitter: String,
    pub title: String,
    pub description_hash: String,
    pub poc_link: String,
    pub severity_claim: u8,
    pub status: SubmissionStatus,
    pub review_comments: Option<String>,
    pub reward_amount: Option<u128>,
    pub reviewer: Option<String>,
    pub created_at: u64,
    pub updated_at: u64,
}

/// The submission that `submitter` makes against campaign `campaign_id` at
/// the time `now`: pending, with no review and no reward.
pub open spec fn new_submission(
    id: u64,
    campaign_id: u64,
    submitter: String,
    now: u64,
    input: SubmitBugInput,
) -> Submission {
    Submission {
        id,
        campaign_id,
        submitter,
        title: input.title,
        description_hash: input.description_hash,
        poc_link: input.poc_link,
        severity_claim: input.severity_claim,
        status: SubmissionStatus::Pending,
        review_comments: None,
        reward_amount: None,
        reviewer: None,
        created_at: now,
        updated_at: now,
    }
}

/// `post` is `pre` after a submission against campaign `campaign_id`, which
/// got the id `id`: it stands last, the campaign's list ends with its id,
/// and nothing else has changed.
pub open spec fn submitted(
    pre: Contract,
    post: Contract,
    submitter: String,
    campaign_id: u64,
    now: u64,
    input: SubmitBugInput,
    id: u64,
) -> bool {
    &&& pre.has_campaign(campaign_id)
    &&& id == pre.next_submission_id
    &&& post.next_submission_id == id + 1
    &&& post.submissions@ == pre.submissions@.push(new_submission(id, campaign_id, submitter, now, input))
    &&& post.campaign_submissions@.len() == pre.campaign_submissions@.len()
    &&& forall|i: int|
        0 <= i < pre.campaign_submissions@.len() ==> (#[trigger] post.campaign_submissions@[i])@ == (if i
            == campaign_id - 1 {
            pre.campaign_submissions@[i]@.push(id)
        } else {
            pre.campaign_submissions@[i]@
        })
    &&& post.campaigns == pre.campaigns
    &&& post.next_campaign_id == pre.next_campaign_id
    &&& post.finder_stats == pre.finder_stats
    &&& post.project_stats == pre.project_stats
    &&& post.admin == pre.admin
    &&& post.treasury == pre.treasury
    &&& post.paused == pre.paused
}

/// The platform's share of the reward `gross` at `pct` percent.
pub open spec fn fee_of(gross: u128, pct: u8) -> u128 {
    percent_floor(gross as nat, pct as nat) as u128
}

/// What the researcher gets of the reward `gross`: all but the platform's
/// share.
pub open spec fn net_of(gross: u128, pct: u8) -> u128 {
    (gross - fee_of(gross, pct)) as u128
}

/// The most that campaign `c` may grant to a finding of tier `tier`.
pub open spec fn reward_cap(c: Campaign, tier: u8) -> nat
    recommends
        tier < c.severity_levels@.len(),
{
    percent_floor(c.remaining_pool as nat, c.severity_levels@[tier as int].max_reward_pct as nat)
}

/// The transfers of one payout from campaign `c`: the researcher's part,
/// then the platform's share where it is not nothing.
pub open spec fn payout_transfers(c: Campaign, receiver: String, treasury: String, gross: u128) -> Seq<
    Transfer,
> {
    let fee = fee_of(gross, c.platform_fee_percent);
    let reward_leg = seq![
        (Transfer {
            token: c.token,
            receiver,
            amount: net_of(gross, c.platform_fee_percent),
            gas_tgas: REWARD_TGAS,
        }),
    ];
    if fee > 0 {
        reward_leg.push((Transfer { token: c.token, receiver: treasury, amount: fee, gas_tgas: REFUND_TGAS }))
    } else {
        reward_leg
    }
}

/// `post` is `pre` after `gross` was paid from campaign `cid` for the
/// submission `sid`: the pool holds `gross` less, the researcher's figures
/// have grown by the net reward, one finding and the finding's tier, the
/// owner's by the gross reward and one fix, and nothing else has changed.
pub open spec fn paid(pre: Contract, post: Contract, cid: u64, sid: u64, receiver: String, gross: u128) -> bool {
    let c = pre.campaign(cid);
    &&& post.campaigns@ == pre.campaigns@.update(
        cid - 1,
        (Campaign { remaining_pool: (c.remaining_pool - gross) as u128, ..c }),
    )
    &&& post.finder_stats@ == ledger_put(
        pre.finder_stats@,
        receiver,
        pre.finder(receiver@).plus(net_of(gross, c.platform_fee_percent), 1, pre.submission(sid).severity_claim),
    )
    &&& post.project_stats@ == ledger_put(
        pre.project_stats@,
        c.owner,
        pre.project(c.owner@).plus(gross, 0, 1),
    )
    &&& post.submissions == pre.submissions
    &&& post.campaign_submissions == pre.campaign_submissions
    &&& post.next_campaign_id == pre.next_campaign_id
    &&& post.next_submission_id == pre.next_submission_id
    &&& post.admin == pre.admin
    &&& post.treasury == pre.treasury
    &&& post.paused == pre.paused
}

/// What becomes of the submission `s` when its status is set to `status` at
/// the time `now`; the reward is recorded where the status is `Accepted`.
pub open spec fn reviewed_submission(
    s: Submission,
    reviewer: String,
    status: SubmissionStatus,
    reward: Option<u128>,
    comments: Option<String>,
    now: u64,
) -> Submission {
    Submission {
        status,
        review_comments: comments,
        reviewer: Some(reviewer),
        updated_at: now,
        reward_amount: if status == SubmissionStatus::Accepted {
            reward
        } else {
            s.reward_amount
        },
        ..s
    }
}

/// `post` is `pre` after the review of submission `sid`: the submission
/// carries the review, and where it was accepted the reward was paid from
/// its campaign's pool; nothing else has changed.
pub open spec fn reviewed(
    pre: Contract,
    post: Contract,
    reviewer: String,
    sid: u64,
    status: SubmissionStatus,
    reward: Option<u128>,
    comments: Option<String>,
    now: u64,
) -> bool {
    let marked = Contract {
        submissions: post.submissions,
        ..pre
    };
    &&& pre.has_submission(sid)
    &&& post.submissions@ == pre.submissions@.update(
        sid - 1,
        reviewed_submission(pre.submission(sid), reviewer, status, reward, comments, now),
    )
    &&& if status == SubmissionStatus::Accepted {
        &&& reward.is_some()
        &&& paid(
            marked,
            post,
            pre.submission(sid).campaign_id,
            sid,
            pre.submission(sid).submitter,
            reward.unwrap(),
        )
    } else {
        post == marked
    }
}

impl Contract {
    /// Why a finding cannot be submitted against campaign `id` at the time
    /// `now`, if anything stands against it.
    pub open spec fn submit_check(&self, id: u64, now: u64) -> Option<Error> {
        if self.paused {
            Some(Error::Paused)
        } else if !self.has_campaign(id) {
            Some(Error::NotFound(Entity::Campaign))
        } else if self.campaign(id).cancelled {
            Some(Error::Cancelled)
        } else if self.campaign(id).end_time.is_some() && now >= self.campaign(id).end_time.unwrap() {
            Some(Error::Ended)
        } else {
            None
        }
    }

    /// Why `caller` may not give submission `sid` the status `status` with
    /// the reward `reward`, if anything stands against it.
    pub open spec fn review_check(
        &self,
        caller: Seq<char>,
        sid: u64,
        status: SubmissionStatus,
        reward: Option<u128>,
    ) -> Option<Error> {
        if self.paused {
            Some(Error::Paused)
        } else if !self.has_submission(sid) {
            Some(Error::NotFound(Entity::Submission))
        } else if !self.has_campaign(self.submission(sid).campaign_id) {
            Some(Error::NotFound(Entity::Campaign))
        } else {
            let s = self.submission(sid);
            let c = self.campaign(s.campaign_id);
            if c.owner@ != caller {
                Some(Error::NotOwner)
            } else if c.cancelled {
                Some(Error::Cancelled)
            } else if s.status.is_terminal() {
                Some(Error::InvalidTransition)
            } else if status != SubmissionStatus::Accepted {
                None
            } else if reward.is_none() {
                Some(Error::RewardRequired)
            } else if s.severity_claim >= c.severity_levels@.len() {
                Some(Error::BadSeverity)
            } else if reward.unwrap() > reward_cap(c, s.severity_claim) {
                Some(Error::RewardExceedsMax)
            } else {
                None
            }
        }
    }

    /// Whether the figures have room for what the review would add to them.
    /// A review that is refused, or that does not accept, adds nothing.
    pub open spec fn review_fits(
        &self,
        caller: Seq<char>,
        sid: u64,
        status: SubmissionStatus,
        reward: Option<u128>,
    ) -> bool {
        self.review_check(caller, sid, status, reward).is_none() && status == SubmissionStatus::Accepted ==> {
            let s = self.submission(sid);
            let c = self.campaign(s.campaign_id);
            self.payout_fits(
                s.submitter@,
                c.owner@,
                net_of(reward.unwrap(), c.platform_fee_percent),
                reward.unwrap(),
                s.severity_claim,
            )
        }
    }

    /// Decides whether a finding can be submitted against campaign `id` at
    /// the time `now`.
    pub fn check_submit(&self, id: u64, now: u64) -> (r: Option<Error>)
        ensures
            r == self.submit_check(id, now),
    {
        if self.paused {
            return Some(Error::Paused);
        }
        let ci: usize = match self.campaign_slot(id) {
            Some(i) => i,
            None => { return Some(Error::NotFound(Entity::Campaign)); },
        };
        if self.campaigns[ci].cancelled {
            return Some(Error::Cancelled);
        }
        match self.campaigns[ci].end_time {
            Some(end) => {
                if now >= end {
                    return Some(Error::Ended);
                }
            },
            None => {},
        }
        None
    }

    /// Records a finding of `caller` against campaign `campaign_id` and
    /// returns its id.
    pub fn submit_bug(
        &mut self,
        caller: String,
        campaign_id: u64,
        now: u64,
        input: SubmitBugInput,
        fx: &mut Effects,
    ) -> (r: Result<u64, Error>)
        requires
            old(self).wf(),
            old(self).submit_check(campaign_id, now).is_none() ==> old(self).next_submission_id < u64::MAX,
        ensures
            final(self).wf(),
            match r {
                Ok(id) => {
                    &&& old(self).submit_check(campaign_id, now).is_none()
                    &&& submitted(*old(self), *final(self), caller, campaign_id, now, input, id)
                    &&& final(fx).events@ == old(fx).events@.push(
                        submission_created_event(final(self).submission(id)),
                    )
                    &&& final(fx).transfers@ == old(fx).transfers@
                },
                Err(e) => {
                    &&& old(self).submit_check(campaign_id, now) == Some(e)
                    &&& *final(self) == *old(self)
                    &&& *final(fx) == *old(fx)
                },
            },
    {
        match self.check_submit(campaign_id, now) {
            Some(e) => { return Err(e); },
            None => {},
        }
        let ci: usize = self.campaign_slot(campaign_id).unwrap();
        let submission_id: u64 = self.next_submission_id;
        self.next_submission_id = submission_id + 1;
        let submission = Submission {
            id: submission_id,
            campaign_id,
            submitter: caller,
            title: input.title,
            description_hash: input.description_hash,
            poc_link: input.poc_link,
            severity_claim: input.severity_claim,
            status: SubmissionStatus::Pending,
            review_comments: None,
            reward_amount: None,
            reviewer: None,
            created_at: now,
            updated_at: now,
        };
        emit_submission_created(&submission, fx);
        self.submissions.push(submission);
        self.campaign_submissions[ci].push(submission_id);
        proof {
            let subs = old(self).submissions@;
            let added = final(self).submissions@.last();
            assert forall|k: int| 0 <= k < final(self).campaigns@.len() implies {
                &&& campaign_wf(#[trigger] final(self).campaigns@[k], k)
                &&& pool_balanced(final(self).campaigns@[k], final(self).submissions@, 0)
            } by {
                assert(campaign_wf(old(self).campaigns@[k], k));
                assert(pool_balanced(old(self).campaigns@[k], subs, 0));
                lemma_accepted_total_push(subs, added, old(self).campaigns@[k].id);
            }
            assert forall|j: int| 0 <= j < final(self).submissions@.len() implies submission_wf(
                #[trigger] final(self).submissions@[j],
                j,
                final(self).campaigns@.len() as int,
            ) by {
                if j < subs.len() {
                    assert(submission_wf(subs[j], j, old(self).campaigns@.len() as int));
                }
            }
            assert forall|i: int| 0 <= i < final(self).campaign_submissions@.len() implies index_wf(
                (#[trigger] final(self).campaign_submissions@[i])@,
                final(self).submissions@.len() as int,
            ) by {
                assert(index_wf(old(self).campaign_submissions@[i]@, subs.len() as int));
            }
        }
        Ok(submission_id)
    }

    /// Decides whether `caller` may give submission `sid` the status
    /// `status` with the reward `reward`.
    pub fn check_review(
        &self,
        caller: &String,
        sid: u64,
        status: SubmissionStatus,
        reward: Option<u128>,
    ) -> (r: Option<Error>)
        requires
            self.wf(),
        ensures
            r == self.review_check(caller@, sid, status, reward),
    {
        if self.paused {
            return Some(Error::Paused);
        }
        let si: usize = match self.submission_slot(sid) {
            Some(i) => i,
            None => { return Some(Error::NotFound(Entity::Submission)); },
        };
        let s = &self.submissions[si];
        let ci: usize = match self.campaign_slot(s.campaign_id) {
            Some(i) => i,
            None => { return Some(Error::NotFound(Entity::Campaign)); },
        };
        let c = &self.campaigns[ci];
        assert(campaign_wf(self.campaigns@[ci as int], ci as int));
        if !(c.owner == *caller) {
            return Some(Error::NotOwner);
        }
        if c.cancelled {
            return Some(Error::Cancelled);
        }
        if s.status.terminal() {
            return Some(Error::InvalidTransition);
        }
        match status {
            SubmissionStatus::Accepted => {},
            _ => { return None; },
        }
        let gross: u128 = match reward {
            Some(g) => g,
            None => { return Some(Error::RewardRequired); },
        };
        let tier: usize = s.severity_claim as usize;
        if tier >= c.severity_levels.len() {
            return Some(Error::BadSeverity);
        }
        let max_allowed: u128 = percent_of(c.remaining_pool, c.severity_levels[tier].max_reward_pct);
        if gross > max_allowed {
            return Some(Error::RewardExceedsMax);
        }
        None
    }

    /// Whether the figures have room for what the review would add to them:
    /// the condition under which `review_submission` may be called.
    pub fn review_has_room(
        &self,
        caller: &String,
        sid: u64,
        status: SubmissionStatus,
        reward: Option<u128>,
    ) -> (b: bool)
        requires
            self.wf(),
        ensures
            b == self.review_fits(caller@, sid, status, reward),
    {
        match status {
            SubmissionStatus::Accepted => {},
            _ => { return true; },
        }
        if self.check_review(caller, sid, status, reward).is_some() {
            return true;
        }
        let s = &self.submissions[self.submission_slot(sid).unwrap()];
        let c = &self.campaigns[self.campaign_slot(s.campaign_id).unwrap()];
        assert(campaign_wf(self.campaigns@[s.campaign_id - 1], s.campaign_id - 1));
        let gross: u128 = reward.unwrap();
        let fee: u128 = percent_of(gross, c.platform_fee_percent);
        let net: u128 = gross - fee;
        let f = self.finder_stats_for(&s.submitter);
        let p = self.project_stats_for(&c.owner);
        f.total_rewards_earned <= u128::MAX - net && f.total_bugs_found < u32::MAX
            && f.total_severity_score <= u32::MAX - s.severity_claim as u32
            && p.total_rewards_paid <= u128::MAX - gross && p.total_bugs_fixed < u32::MAX
    }

    /// Reviews submission `submission_id` for the owner of its campaign. A
    /// submission that is accepted is paid at once.
    pub fn review_submission(
        &mut self,
        caller: &String,
        submission_id: u64,
        status: SubmissionStatus,
        reward_amount: Option<u128>,
        comments: Option<String>,
        now: u64,
        fx: &mut Effects,
    ) -> (r: Result<(), Error>)
        requires
            old(self).wf(),
            old(self).review_fits(caller@, submission_id, status, reward_amount),
        ensures
            final(self).wf(),
            match r {
                Ok(()) => {
                    &&& old(self).review_check(caller@, submission_id, status, reward_amount).is_none()
                    &&& reviewed(
                        *old(self),
                        *final(self),
                        *caller,
                        submission_id,
                        status,
                        reward_amount,
                        comments,
                        now,
                    )
                    &&& if status == SubmissionStatus::Accepted {
                        let s = old(self).submission(submission_id);
                        let c = old(self).campaign(s.campaign_id);
                        &&& reward_amount.unwrap() <= reward_cap(c, s.severity_claim)
                        &&& final(fx).events@ == old(fx).events@.push(
                            (Event::Payout {
                                campaign_id: c.id,
                                submission_id,
                                receiver: s.submitter,
                                gross_reward: reward_amount.unwrap(),
                                platform_fee: fee_of(reward_amount.unwrap(), c.platform_fee_percent),
                            }),
                        )
                        &&& final(fx).transfers@ == old(fx).transfers@ + payout_transfers(
                            c,
                            s.submitter,
                            old(self).treasury,
                            reward_amount.unwrap(),
                        )
                    } else {
                        *final(fx) == *old(fx)
                    }
                },
                Err(e) => {
                    &&& old(self).review_check(caller@, submission_id, status, reward_amount) == Some(e)
                    &&& *final(self) == *old(self)
                    &&& *final(fx) == *old(fx)
                },
            },
    {
        match self.check_review(caller, submission_id, status, reward_amount) {
            Some(e) => { return Err(e); },
            None => {},
        }
        let si: usize = self.submission_slot(submission_id).unwrap();
        let cid: u64 = self.submissions[si].campaign_id;
        let ghost before = self.submissions@[si as int];
        let ghost after = reviewed_submission(before, *caller, status, reward_amount, comments, now);
        assert(campaign_wf(self.campaigns@[cid - 1], cid - 1));
        assert(submission_wf(before, si as int, self.campaigns@.len() as int));
        self.submissions[si].status = status;
        self.submissions[si].review_comments = comments;
        self.submissions[si].reviewer = Some(caller.clone());
        self.submissions[si].updated_at = now;
        let accepted: bool = match status {
            SubmissionStatus::Accepted => true,
            _ => false,
        };
        if accepted {
            self.submissions[si].reward_amount = reward_amount;
        }
        let gross: u128 = if accepted { reward_amount.unwrap() } else { 0 };
        proof {
            assert(self.submissions@ =~= old(self).submissions@.update(si as int, after));
            assert forall|k: int| 0 <= k < self.campaigns@.len() implies {
                &&& campaign_wf(#[trigger] self.campaigns@[k], k)
                &&& pool_balanced(self.campaigns@[k], self.submissions@, owed_at(k, cid, gross))
            } by {
                assert(campaign_wf(old(self).campaigns@[k], k));
                assert(pool_balanced(old(self).campaigns@[k], old(self).submissions@, 0));
                lemma_accepted_total_update(old(self).submissions@, si as int, after, old(self).campaigns@[k].id);
                assert(reward_drawn(before, old(self).campaigns@[k].id) == 0);
            }
            assert forall|j: int| 0 <= j < self.submissions@.len() implies submission_wf(
                #[trigger] self.submissions@[j],
                j,
                self.campaigns@.len() as int,
            ) by {
                assert(submission_wf(old(self).submissions@[j], j, old(self).campaigns@.len() as int));
            }
            assert forall|i: int| 0 <= i < self.campaign_submissions@.len() implies index_wf(
                (#[trigger] self.campaign_submissions@[i])@,
                self.submissions@.len() as int,
            ) by {
                assert(index_wf(old(self).campaign_submissions@[i]@, old(self).submissions@.len() as int));
            }
        }
        if accepted {
            proof {
                let c = old(self).campaign(cid);
                lemma_percent_bounded(
                    c.remaining_pool as nat,
                    c.severity_levels@[before.severity_claim as int].max_reward_pct as nat,
                );
            }
            let receiver = self.submissions[si].submitter.clone();
            self.process_payout(cid, submission_id, receiver, gross, fx);
        }
        Ok(())
    }

    /// Pays the reward `gross`, which campaign `campaign_id` has granted to
    /// submission `submission_id`: takes it out of the pool, adds it to the
    /// figures, and asks for the transfers to `receiver` and to the treasury.
    pub fn process_payout(
        &mut self,
        campaign_id: u64,
        submission_id: u64,
        receiver: String,
        gross_reward: u128,
        fx: &mut Effects,
    )
        requires
            old(self).wf_owing(campaign_id, gross_reward),
            old(self).has_campaign(campaign_id),
            old(self).has_submission(submission_id),
            !old(self).campaign(campaign_id).cancelled,
            gross_reward <= old(self).campaign(campaign_id).remaining_pool,
            old(self).payout_fits(
                receiver@,
                old(self).campaign(campaign_id).owner@,
                net_of(gross_reward, old(self).campaign(campaign_id).platform_fee_percent),
                gross_reward,
                old(self).submission(submission_id).severity_claim,
            ),
        ensures
            final(self).wf(),
            paid(*old(self), *final(self), campaign_id, submission_id, receiver, gross_reward),
            final(fx).events@ == old(fx).events@.push(
                (Event::Payout {
                    campaign_id,
                    submission_id,
                    receiver,
                    gross_reward,
                    platform_fee: fee_of(gross_reward, old(self).campaign(campaign_id).platform_fee_percent),
                }),
            ),
            final(fx).transfers@ == old(fx).transfers@ + payout_transfers(
                old(self).campaign(campaign_id),
                receiver,
                old(self).treasury,
                gross_reward,
            ),
    {
        let ci: usize = self.campaign_slot(campaign_id).unwrap();
        let si: usize = self.submission_slot(submission_id).unwrap();
        assert(campaign_wf(self.campaigns@[ci as int], ci as int));
        let fee: u128 = percent_of(gross_reward, self.campaigns[ci].platform_fee_percent);
        let net_reward: u128 = gross_reward - fee;
        let severity: u8 = self.submissions[si].severity_claim;
        let owner = self.campaigns[ci].owner.clone();
        let token = match &self.campaigns[ci].token {
            Some(t) => Some(t.clone()),
            None => None,
        };
        let fee_token = match &self.campaigns[ci].token {
            Some(t) => Some(t.clone()),
            None => None,
        };
        self.campaigns[ci].remaining_pool -= gross_reward;
        proof {
            lemma_ledger_put(
                self.finder_stats@,
                receiver,
                self.finder(receiver@).plus(net_reward, 1, severity),
            );
            lemma_ledger_put(self.project_stats@, owner, self.project(owner@).plus(gross_reward, 0, 1));
        }
        self.update_finder_stats(&receiver, net_reward, 1, severity);
        self.update_project_stats(&owner, gross_reward, 0, 1);
        fx.send(token, receiver.clone(), net_reward, REWARD_TGAS);
        if fee > 0 {
            fx.send(fee_token, self.treasury.clone(), fee, REFUND_TGAS);
        }
        emit_payout(campaign_id, submission_id, receiver, gross_reward, fee, fx);
        proof {
            assert(final(self).campaigns@ =~= old(self).campaigns@.update(
                ci as int,
                (Campaign {
                    remaining_pool: (old(self).campaign(campaign_id).remaining_pool - gross_reward) as u128,
                    ..old(self).campaign(campaign_id)
                }),
            ));
            assert forall|k: int| 0 <= k < final(self).campaigns@.len() implies {
                &&& campaign_wf(#[trigger] final(self).campaigns@[k], k)
                &&& pool_balanced(final(self).campaigns@[k], final(self).submissions@, 0)
            } by {
                assert(campaign_wf(old(self).campaigns@[k], k));
                assert(pool_balanced(
                    old(self).campaigns@[k],
                    old(self).submissions@,
                    owed_at(k, campaign_id, gross_reward),
                ));
            }
            assert(final(fx).transfers@ =~= old(fx).transfers@ + payout_transfers(
                old(self).campaign(campaign_id),
                receiver,
                old(self).treasury,
                gross_reward,
            ));
        }
    }
}

} // verus!
