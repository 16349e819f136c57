use vstd::prelude::*;
use crate::arith::lemma_percent_bounded;
use crate::campaign::{cancelled_step, created, refund_transfer, Campaign};
use crate::contract::{accepted_total, campaign_wf, pool_balanced, submission_wf, Contract};
use crate::leaderboard::{ledger_distinct, lemma_ledger_put};
use crate::owner::pause_set;
use crate::submission::{
    fee_of, net_of, paid, reviewed, reward_cap, submitted, Submission, SubmissionStatus,
};
use crate::types::{CreateCampaignInput, Error, SubmitBugInput};

verus! {

/// What may become of a campaign: who owns it, what it holds in which asset
/// and under which tiers never changes, its pool never grows, and once
/// cancelled it stays cancelled.
pub open spec fn campaign_evolves(a: Campaign, b: Campaign) -> bool {
    &&& b.id == a.id
    &&& b.owner == a.owner
    &&& b.token == a.token
    &&& b.total_pool == a.total_pool
    &&& b.severity_levels == a.severity_levels
    &&& b.platform_fee_percent == a.platform_fee_percent
    &&& b.remaining_pool <= a.remaining_pool
    &&& a.cancelled ==> b.cancelled
}

/// What may become of a submission: it stays with its campaign and its
/// submitter, and in a terminal status it never changes again.
pub open spec fn submission_evolves(a: Submission, b: Submission) -> bool {
    &&& b.id == a.id
    &&& b.campaign_id == a.campaign_id
    &&& b.submitter == a.submitter
    &&& a.status.is_terminal() ==> b == a
}

/// `post` is a later state of `pre`: every campaign and every submission of
/// `pre` is still there under its id and has only changed as it may, and no
/// id was given back.
pub open spec fn evolves(pre: Contract, post: Contract) -> bool {
    &&& pre.campaigns@.len() <= post.campaigns@.len()
    &&& pre.submissions@.len() <= post.submissions@.len()
    &&& pre.next_campaign_id <= post.next_campaign_id
    &&& pre.next_submission_id <= post.next_submission_id
    &&& forall|i: int|
        0 <= i < pre.campaigns@.len() ==> campaign_evolves(#[trigger] pre.campaigns@[i], post.campaigns@[i])
    &&& forall|j: int|
        0 <= j < pre.submissions@.len() ==> submission_evolves(
            #[trigger] pre.submissions@[j],
            post.submissions@[j],
        )
}

/// Every pool is between nothing and what was paid in, and a cancelled
/// campaign holds nothing.
pub proof fn law_pool_within_bounds(c: Contract, id: u64)
    requires
        c.wf(),
        c.has_campaign(id),
    ensures
        0 <= c.campaign(id).remaining_pool <= c.campaign(id).total_pool,
        c.campaign(id).cancelled ==> c.campaign(id).remaining_pool == 0,
{
    assert(campaign_wf(c.campaigns@[id - 1], id - 1));
}

/// The books of every campaign balance: while it runs, what it holds and
/// what its accepted submissions were granted make up what was paid in; once
/// cancelled, its accepted submissions were granted no more than that.
pub proof fn law_books_balance(c: Contract, id: u64)
    requires
        c.wf(),
        c.has_campaign(id),
    ensures
        !c.campaign(id).cancelled ==> c.campaign(id).remaining_pool + accepted_total(c.submissions@, id)
            == c.campaign(id).total_pool,
        c.campaign(id).cancelled ==> accepted_total(c.submissions@, id) <= c.campaign(id).total_pool,
{
    assert(campaign_wf(c.campaigns@[id - 1], id - 1));
    assert(pool_balanced(c.campaigns@[id - 1], c.submissions@, 0));
}

/// A cancellation sends back exactly what the accepted submissions have
/// left of the pool: the rewards granted and the refund make up what was
/// paid in.
pub proof fn law_cancel_settles(pre: Contract, post: Contract, id: u64)
    requires
        pre.wf(),
        !pre.campaign(id).cancelled,
        cancelled_step(pre, post, id),
    ensures
        accepted_total(post.submissions@, id) + refund_transfer(pre.campaign(id)).amount == post.campaign(
            id,
        ).total_pool,
        post.campaign(id).cancelled,
        post.campaign(id).remaining_pool == 0,
{
    law_books_balance(pre, id);
}

/// No review of a submission of a cancelled campaign goes through.
pub proof fn law_cancelled_grants_nothing(
    c: Contract,
    caller: Seq<char>,
    sid: u64,
    status: SubmissionStatus,
    reward: Option<u128>,
)
    requires
        c.has_submission(sid),
        c.has_campaign(c.submission(sid).campaign_id),
        c.campaign(c.submission(sid).campaign_id).cancelled,
    ensures
        c.review_check(caller, sid, status, reward).is_some(),
{
}

/// A reward that was granted is within the cap of its tier: that share of
/// what the pool held before.
pub proof fn law_reward_within_cap(
    c: Contract,
    caller: Seq<char>,
    sid: u64,
    reward: u128,
)
    requires
        c.wf(),
        c.review_check(caller, sid, SubmissionStatus::Accepted, Some(reward)).is_none(),
    ensures
        c.submission(sid).severity_claim < c.campaign(c.submission(sid).campaign_id).severity_levels@.len(),
        reward <= reward_cap(c.campaign(c.submission(sid).campaign_id), c.submission(sid).severity_claim),
        reward <= c.campaign(c.submission(sid).campaign_id).remaining_pool,
{
    let s = c.submission(sid);
    let cid = s.campaign_id;
    let camp = c.campaign(cid);
    assert(campaign_wf(c.campaigns@[cid - 1], cid - 1));
    lemma_percent_bounded(
        camp.remaining_pool as nat,
        camp.severity_levels@[s.severity_claim as int].max_reward_pct as nat,
    );
}

/// The platform's share is the reward times the rate over a hundred, rounded
/// down; the researcher gets the rest; neither is negative, and together
/// they are the reward.
pub proof fn law_fee_split(gross: u128, pct: u8)
    requires
        pct <= 100,
    ensures
        fee_of(gross, pct) == (gross * pct) / 100,
        net_of(gross, pct) == gross - fee_of(gross, pct),
        0 <= fee_of(gross, pct) <= gross,
        0 <= net_of(gross, pct) <= gross,
{
    lemma_percent_bounded(gross as nat, pct as nat);
}

/// Ids are dense from 1: the `n` campaigns have the ids 1 to `n` in the order
/// in which they were made, the next one gets `n + 1`, and likewise the
/// submissions.
pub proof fn law_ids_dense(c: Contract)
    requires
        c.wf(),
    ensures
        c.next_campaign_id == c.campaigns@.len() + 1,
        c.next_submission_id == c.submissions@.len() + 1,
        forall|i: int| 0 <= i < c.campaigns@.len() ==> (#[trigger] c.campaigns@[i]).id == i + 1,
        forall|j: int| 0 <= j < c.submissions@.len() ==> (#[trigger] c.submissions@[j]).id == j + 1,
{
    assert forall|i: int| 0 <= i < c.campaigns@.len() implies (#[trigger] c.campaigns@[i]).id == i + 1 by {
        assert(campaign_wf(c.campaigns@[i], i));
    }
    assert forall|j: int| 0 <= j < c.submissions@.len() implies (#[trigger] c.submissions@[j]).id == j
        + 1 by {
        assert(submission_wf(c.submissions@[j], j, c.campaigns@.len() as int));
    }
}

/// Nothing has changed since the state itself.
pub proof fn law_evolves_reflexive(c: Contract)
    ensures
        evolves(c, c),
{
}

/// What holds from one state to a later one and from that to a third holds
/// from the first to the third: pools only shrink, cancellations and
/// terminal statuses stay, over any number of calls.
pub proof fn law_evolves_transitive(a: Contract, b: Contract, c: Contract)
    requires
        evolves(a, b),
        evolves(b, c),
    ensures
        evolves(a, c),
{
    assert forall|i: int| 0 <= i < a.campaigns@.len() implies campaign_evolves(
        #[trigger] a.campaigns@[i],
        c.campaigns@[i],
    ) by {
        assert(campaign_evolves(a.campaigns@[i], b.campaigns@[i]));
        assert(campaign_evolves(b.campaigns@[i], c.campaigns@[i]));
    }
    assert forall|j: int| 0 <= j < a.submissions@.len() implies submission_evolves(
        #[trigger] a.submissions@[j],
        c.submissions@[j],
    ) by {
        assert(submission_evolves(a.submissions@[j], b.submissions@[j]));
        assert(submission_evolves(b.submissions@[j], c.submissions@[j]));
    }
}

/// A call that touches neither a campaign nor a submission, such as a change
/// of the pause switch or of the treasury, leaves what was there as it was.
pub proof fn law_settings_evolve(pre: Contract, post: Contract)
    requires
        post.campaigns == pre.campaigns,
        post.submissions == pre.submissions,
        post.next_campaign_id == pre.next_campaign_id,
        post.next_submission_id == pre.next_submission_id,
    ensures
        evolves(pre, post),
{
}

/// Funding a campaign leaves what was there as it was.
pub proof fn law_create_evolves(
    pre: Contract,
    post: Contract,
    owner: String,
    amount: u128,
    token: Option<String>,
    now: u64,
    input: CreateCampaignInput,
    id: u64,
)
    requires
        pre.wf(),
        created(pre, post, owner, amount, token, now, input, id),
    ensures
        evolves(pre, post),
        id == pre.next_campaign_id,
        post.campaign(id).id == id,
{
    assert forall|i: int| 0 <= i < pre.campaigns@.len() implies campaign_evolves(
        #[trigger] pre.campaigns@[i],
        post.campaigns@[i],
    ) by {
        assert(post.campaigns@.drop_last()[i] == post.campaigns@[i]);
    }
}

/// Cancelling a campaign empties its pool, marks it, and leaves all else as
/// it was.
pub proof fn law_cancel_evolves(pre: Contract, post: Contract, id: u64)
    requires
        cancelled_step(pre, post, id),
    ensures
        evolves(pre, post),
        post.campaign(id).cancelled,
        post.campaign(id).remaining_pool == 0,
{
}

/// A submission leaves what was there as it was.
pub proof fn law_submit_evolves(
    pre: Contract,
    post: Contract,
    submitter: String,
    campaign_id: u64,
    now: u64,
    input: SubmitBugInput,
    id: u64,
)
    requires
        pre.wf(),
        submitted(pre, post, submitter, campaign_id, now, input, id),
    ensures
        evolves(pre, post),
        post.submission(id).id == id,
        post.submission(id).status == SubmissionStatus::Pending,
{
}

/// A review that goes through changes one submission that was not in a
/// terminal status, and takes from no pool but, where it accepts, the reward
/// from the pool of the submission's campaign.
pub proof fn law_review_evolves(
    pre: Contract,
    post: Contract,
    reviewer: String,
    sid: u64,
    status: SubmissionStatus,
    reward: Option<u128>,
    comments: Option<String>,
    now: u64,
)
    requires
        pre.wf(),
        pre.review_check(reviewer@, sid, status, reward).is_none(),
        reviewed(pre, post, reviewer, sid, status, reward, comments, now),
    ensures
        evolves(pre, post),
        status == SubmissionStatus::Accepted ==> post.campaign(pre.submission(sid).campaign_id).remaining_pool
            == pre.campaign(pre.submission(sid).campaign_id).remaining_pool - reward.unwrap(),
{
    if status == SubmissionStatus::Accepted {
        law_reward_within_cap(pre, reviewer@, sid, reward.unwrap());
    }
}

/// A submission in a terminal status cannot be reviewed again: whoever asks
/// is refused, and the owner of its running campaign, while the escrow runs,
/// with `InvalidTransition`.
pub proof fn law_terminal_is_final(
    c: Contract,
    caller: Seq<char>,
    sid: u64,
    status: SubmissionStatus,
    reward: Option<u128>,
)
    requires
        c.has_submission(sid),
        c.submission(sid).status.is_terminal(),
    ensures
        c.review_check(caller, sid, status, reward).is_some(),
        !c.paused && c.has_campaign(c.submission(sid).campaign_id) && c.campaign(
            c.submission(sid).campaign_id,
        ).owner@ == caller && !c.campaign(c.submission(sid).campaign_id).cancelled ==> c.review_check(
            caller,
            sid,
            status,
            reward,
        ) == Some(Error::InvalidTransition),
{
}

/// Funding a campaign and cancelling it at once sends the owner exactly what
/// was paid in, in the asset in which it was paid.
pub proof fn law_create_then_cancel(
    s0: Contract,
    s1: Contract,
    s2: Contract,
    owner: String,
    amount: u128,
    token: Option<String>,
    now: u64,
    input: CreateCampaignInput,
    id: u64,
)
    requires
        s0.wf(),
        created(s0, s1, owner, amount, token, now, input, id),
        cancelled_step(s1, s2, id),
    ensures
        refund_transfer(s1.campaign(id)).amount == amount,
        refund_transfer(s1.campaign(id)).receiver == owner,
        refund_transfer(s1.campaign(id)).token == token,
        s1.cancel_check(owner@, id).is_none() <==> !s1.paused,
{
}

/// Setting the pause switch twice to the same value gives the state that
/// setting it once gives.
pub proof fn law_pause_idempotent(s0: Contract, s1: Contract, s2: Contract, paused: bool)
    requires
        pause_set(s0, s1, paused),
        pause_set(s1, s2, paused),
    ensures
        s2 == s1,
{
}

/// While the escrow is paused nothing is funded, submitted or reviewed, and
/// no fees are withdrawn; the owner of a campaign cannot cancel it.
pub proof fn law_paused_blocks(
    c: Contract,
    caller: Seq<char>,
    id: u64,
    deposit: u128,
    now: u64,
    input: CreateCampaignInput,
    status: SubmissionStatus,
    reward: Option<u128>,
)
    requires
        c.paused,
    ensures
        c.create_check(deposit, input) == Some(Error::Paused),
        c.submit_check(id, now) == Some(Error::Paused),
        c.review_check(caller, id, status, reward) == Some(Error::Paused),
        c.is_admin(caller) ==> c.withdraw_check(caller) == Some(Error::Paused),
        c.has_campaign(id) && c.campaign(id).owner@ == caller ==> c.cancel_check(caller, id) == Some(
            Error::Paused,
        ),
{
}

/// A payout adds the net reward, one finding and the finding's tier to the
/// figures of the researcher, the gross reward and one fix to those of the
/// campaign's owner, and changes the figures of no other account.
pub proof fn law_payout_figures(
    pre: Contract,
    post: Contract,
    cid: u64,
    sid: u64,
    receiver: String,
    gross: u128,
    other: Seq<char>,
)
    requires
        ledger_distinct(pre.finder_stats@),
        ledger_distinct(pre.project_stats@),
        paid(pre, post, cid, sid, receiver, gross),
    ensures
        post.finder(receiver@) == pre.finder(receiver@).plus(
            net_of(gross, pre.campaign(cid).platform_fee_percent),
            1,
            pre.submission(sid).severity_claim,
        ),
        post.project(pre.campaign(cid).owner@) == pre.project(pre.campaign(cid).owner@).plus(gross, 0, 1),
        other != receiver@ ==> post.finder(other) == pre.finder(other),
        other != pre.campaign(cid).owner@ ==> post.project(other) == pre.project(other),
        ledger_distinct(post.finder_stats@),
        ledger_distinct(post.project_stats@),
{
    let c = pre.campaign(cid);
    lemma_ledger_put(
        pre.finder_stats@,
        receiver,
        pre.finder(receiver@).plus(net_of(gross, c.platform_fee_percent), 1, pre.submission(sid).severity_claim),
    );
    lemma_ledger_put(pre.project_stats@, c.owner, pre.project(c.owner@).plus(gross, 0, 1));
}

/// Funding a campaign counts one more campaign for its owner and changes
/// the figures of no other account.
pub proof fn law_create_figures(
    pre: Contract,
    post: Contract,
    owner: String,
    amount: u128,
    token: Option<String>,
    now: u64,
    input: CreateCampaignInput,
    id: u64,
    other: Seq<char>,
)
    requires
        ledger_distinct(pre.project_stats@),
        created(pre, post, owner, amount, token, now, input, id),
    ensures
        post.project(owner@) == pre.project(owner@).plus(0, 1, 0),
        other != owner@ ==> post.project(other) == pre.project(other),
        post.finder(other) == pre.finder(other),
{
    lemma_ledger_put(pre.project_stats@, owner, pre.project(owner@).plus(0, 1, 0));
}

} // verus!
