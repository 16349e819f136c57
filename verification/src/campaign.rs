use vstd::prelude::*;
use crate::contract::{accepted_total, campaign_wf, pool_balanced, submission_wf, Contract};
use crate::events::{
    campaign_created_event, emit_campaign_cancelled, emit_campaign_created, Effects, Event, Transfer,
    REFUND_TGAS,
};
use crate::leaderboard::{ledger_put, lemma_ledger_put};
use crate::submission::Submission;
use crate::types::{CampaignType, CreateCampaignInput, Entity, Error, SeverityConfigInput};

verus! {

/// A severity tier of a campaign: its index, its name, and the largest share
/// of the remaining pool, in percent, that one finding of this tier may get.
#[derive(Debug, Clone)]
pub struct SeverityConfig {
    pub id: u8,
    pub name: String,
    pub max_reward_pct: u8,
}

/// Free-form description of a campaign.
#[derive(Debug, Clone)]
pub struct CampaignMetadata {
    pub name: String,
    pub description: String,
    pub repo_link: Option<String>,
    pub scope: Option<String>,
    pub rules: Option<String>,
    pub contact: Option<String>,
}

/// A funded bounty program. `token` is `None` for the native asset.
#[derive(Debug, Clone)]
pub struct Campaign {
    pub id: u64,
    pub owner: String,
    pub token: Option<String>,
    pub total_pool: u128,
    pub remaining_pool: u128,
    pub severity_levels: Vec<SeverityConfig>,
    pub platform_fee_percent: u8,
    pub campaign_type: CampaignType,
    pub metadata: CampaignMetadata,
    pub start_time: u64,
    pub end_time: Option<u64>,
    pub cancelled: bool,
}

/// The platform's share of every reward, in percent.
pub const PLATFORM_FEE_PERCENT: u8 = 1;

/// The tiers are acceptable: there is one at least, and none allows more
/// than a hundred percent.
pub open spec fn config_ok(levels: Seq<SeverityConfigInput>) -> bool {
    &&& levels.len() >= 1
    &&& forall|k: int| 0 <= k < levels.len() ==> (#[trigger] levels[k]).max_reward_pct <= 100
}

/// Decides whether the tiers are acceptable.
pub fn levels_ok(levels: &Vec<SeverityConfigInput>) -> (b: bool)
    ensures
        b == config_ok(levels@),
{
    if levels.len() == 0 {
        return false;
    }
    let mut i: usize = 0;
    while i < levels.len()
        invariant
            i <= levels@.len(),
            forall|k: int| 0 <= k < i ==> (#[trigger] levels@[k]).max_reward_pct <= 100,
        decreases levels@.len() - i,
    {
        if levels[i].max_reward_pct > 100 {
            return false;
        }
        i += 1;
    }
    true
}

/// The stored tiers are the given ones in their order, each numbered by its
/// place (the number is kept in eight bits).
pub open spec fn levels_match(levels: Seq<SeverityConfig>, given: Seq<SeverityConfigInput>) -> bool {
    &&& levels.len() == given.len()
    &&& forall|k: int|
        0 <= k < levels.len() ==> {
            &&& (#[trigger] levels[k]).id == k % 256
            &&& levels[k].name == given[k].name
            &&& levels[k].max_reward_pct == given[k].max_reward_pct
        }
}

/// `c` is the campaign that `owner` has just funded with `amount` of the
/// asset `token` at the time `now`.
pub open spec fn is_new_campaign(
    c: Campaign,
    id: u64,
    owner: String,
    amount: u128,
    token: Option<String>,
    now: u64,
    input: CreateCampaignInput,
) -> bool {
    &&& c.id == id
    &&& c.owner == owner
    &&& c.token == token
    &&& c.total_pool == amount
    &&& c.remaining_pool == amount
    &&& levels_match(c.severity_levels@, input.severity_levels@)
    &&& c.platform_fee_percent == PLATFORM_FEE_PERCENT
    &&& c.campaign_type == input.campaign_type
    &&& c.metadata == (CampaignMetadata {
        name: input.name,
        description: input.description,
        repo_link: input.repo_link,
        scope: input.scope,
        rules: input.rules,
        contact: input.contact,
    })
    &&& c.start_time == now
    &&& c.end_time == input.end_time
    &&& !c.cancelled
}

/// `post` is `pre` after `owner` has funded a campaign, which got the id `id`:
/// the campaign stands last with an empty list of submissions, the owner's
/// count of campaigns is one higher, and nothing else has changed.
pub open spec fn created(
    pre: Contract,
    post: Contract,
    owner: String,
    amount: u128,
    token: Option<String>,
    now: u64,
    input: CreateCampaignInput,
    id: u64,
) -> bool {
    &&& id == pre.next_campaign_id
    &&& post.next_campaign_id == id + 1
    &&& post.campaigns@.len() == pre.campaigns@.len() + 1
    &&& post.campaigns@.drop_last() == pre.campaigns@
    &&& is_new_campaign(post.campaigns@.last(), id, owner, amount, token, now, input)
    &&& post.campaign_submissions@.len() == pre.campaign_submissions@.len() + 1
    &&& post.campaign_submissions@.drop_last() == pre.campaign_submissions@
    &&& post.campaign_submissions@.last()@.len() == 0
    &&& post.project_stats@ == ledger_put(pre.project_stats@, owner, pre.project(owner@).plus(0, 1, 0))
    &&& post.submissions == pre.submissions
    &&& post.next_submission_id == pre.next_submission_id
    &&& post.finder_stats == pre.finder_stats
    &&& post.admin == pre.admin
    &&& post.treasury == pre.treasury
    &&& post.paused == pre.paused
}

/// The refund that the cancellation of `c` sends to its owner.
pub open spec fn refund_transfer(c: Campaign) -> Transfer {
    Transfer { token: c.token, receiver: c.owner, amount: c.remaining_pool, gas_tgas: REFUND_TGAS }
}

/// `post` is `pre` after campaign `id` was cancelled: the campaign is marked
/// and holds nothing, and nothing else has changed.
pub open spec fn cancelled_step(pre: Contract, post: Contract, id: u64) -> bool {
    &&& pre.has_campaign(id)
    &&& post.campaigns@ == pre.campaigns@.update(
        id - 1,
        (Campaign { cancelled: true, remaining_pool: 0, ..pre.campaign(id) }),
    )
    &&& post == (Contract { campaigns: post.campaigns, ..pre })
}

impl Contract {
    /// Why `caller` may not cancel campaign `id`, if anything stands against it.
    pub open spec fn cancel_check(&self, caller: Seq<char>, id: u64) -> Option<Error> {
        if !self.has_campaign(id) {
            Some(Error::NotFound(Entity::Campaign))
        } else if self.campaign(id).owner@ != caller {
            Some(Error::NotOwner)
        } else if self.paused {
            Some(Error::Paused)
        } else if self.campaign(id).cancelled {
            Some(Error::AlreadyCancelled)
        } else {
            None
        }
    }

    /// Whether one more campaign of `owner` can be counted: the next id and
    /// the owner's count of campaigns are below the largest that they can hold.
    pub open spec fn has_room_for_campaign(&self, owner: Seq<char>) -> bool {
        &&& self.next_campaign_id < u64::MAX
        &&& self.project(owner).fits(0, 1, 0)
    }

    /// Computes `has_room_for_campaign`.
    pub fn room_for_campaign(&self, owner: &String) -> (b: bool)
        requires
            self.wf(),
        ensures
            b == self.has_room_for_campaign(owner@),
    {
        self.next_campaign_id < u64::MAX && self.project_stats_for(owner).total_campaigns_created < u32::MAX
    }

    /// Why a campaign cannot be funded with the native asset, if anything
    /// stands against it.
    pub open spec fn create_check(&self, deposit: u128, input: CreateCampaignInput) -> Option<Error> {
        if self.paused {
            Some(Error::Paused)
        } else if deposit == 0 {
            Some(Error::DepositTooSmall)
        } else if !config_ok(input.severity_levels@) {
            Some(Error::BadConfig)
        } else {
            None
        }
    }

    /// Decides whether a campaign can be funded with the native asset.
    pub fn check_create(&self, deposit: u128, input: &CreateCampaignInput) -> (r: Option<Error>)
        ensures
            r == self.create_check(deposit, *input),
    {
        if self.paused {
            Some(Error::Paused)
        } else if deposit == 0 {
            Some(Error::DepositTooSmall)
        } else if !levels_ok(&input.severity_levels) {
            Some(Error::BadConfig)
        } else {
            None
        }
    }

    /// Funds a campaign with the native asset: `caller` has attached
    /// `deposit` to the call, which becomes the pool.
    pub fn create_campaign_near(
        &mut self,
        caller: String,
        deposit: u128,
        now: u64,
        input: CreateCampaignInput,
        fx: &mut Effects,
    ) -> (r: Result<u64, Error>)
        requires
            old(self).wf(),
            old(self).create_check(deposit, input).is_none() ==> old(self).has_room_for_campaign(caller@),
        ensures
            final(self).wf(),
            match r {
                Ok(id) => {
                    &&& old(self).create_check(deposit, input).is_none()
                    &&& created(*old(self), *final(self), caller, deposit, None, now, input, id)
                    &&& final(fx).events@ == old(fx).events@.push(
                        campaign_created_event(final(self).campaign(id)),
                    )
                    &&& final(fx).transfers@ == old(fx).transfers@
                },
                Err(e) => {
                    &&& old(self).create_check(deposit, input) == Some(e)
                    &&& *final(self) == *old(self)
                    &&& *final(fx) == *old(fx)
                },
            },
    {
        if self.paused {
            return Err(Error::Paused);
        }
        if deposit == 0 {
            return Err(Error::DepositTooSmall);
        }
        self.internal_create_campaign(caller, deposit, None, now, input, fx)
    }

    /// Stores a campaign that `owner` has funded with `amount` of the asset
    /// `token`. The tiers are checked here; whether the escrow is paused is
    /// for the entry point to check.
    pub fn internal_create_campaign(
        &mut self,
        owner: String,
        amount: u128,
        token: Option<String>,
        now: u64,
        input: CreateCampaignInput,
        fx: &mut Effects,
    ) -> (r: Result<u64, Error>)
        requires
            old(self).wf(),
            config_ok(input.severity_levels@) ==> old(self).has_room_for_campaign(owner@),
        ensures
            final(self).wf(),
            match r {
                Ok(id) => {
                    &&& config_ok(input.severity_levels@)
                    &&& created(*old(self), *final(self), owner, amount, token, now, input, id)
                    &&& final(fx).events@ == old(fx).events@.push(
                        campaign_created_event(final(self).campaign(id)),
                    )
                    &&& final(fx).transfers@ == old(fx).transfers@
                },
                Err(e) => {
                    &&& e == Error::BadConfig
                    &&& !config_ok(input.severity_levels@)
                    &&& *final(self) == *old(self)
                    &&& *final(fx) == *old(fx)
                },
            },
    {
        let CreateCampaignInput {
            name,
            description,
            repo_link,
            scope,
            rules,
            contact,
            severity_levels: given,
            campaign_type,
            end_time,
        } = input;
        if given.len() == 0 {
            return Err(Error::BadConfig);
        }
        let mut levels: Vec<SeverityConfig> = Vec::new();
        let mut i: usize = 0;
        while i < given.len()
            invariant
                *self == *old(self),
                *fx == *old(fx),
                self.wf(),
                given == input.severity_levels,
                i <= given@.len(),
                levels@.len() == i,
                forall|k: int| 0 <= k < i ==> (#[trigger] given@[k]).max_reward_pct <= 100,
                forall|k: int|
                    0 <= k < i ==> {
                        &&& (#[trigger] levels@[k]).id == k % 256
                        &&& levels@[k].name == given@[k].name
                        &&& levels@[k].max_reward_pct == given@[k].max_reward_pct
                    },
            decreases given@.len() - i,
        {
            let pct: u8 = given[i].max_reward_pct;
            if pct > 100 {
                return Err(Error::BadConfig);
            }
            levels.push(SeverityConfig { id: (i % 256) as u8, name: given[i].name.clone(), max_reward_pct: pct });
            i += 1;
        }
        let campaign_id: u64 = self.next_campaign_id;
        let campaign = Campaign {
            id: campaign_id,
            owner,
            token,
            total_pool: amount,
            remaining_pool: amount,
            severity_levels: levels,
            platform_fee_percent: PLATFORM_FEE_PERCENT,
            campaign_type,
            metadata: CampaignMetadata { name, description, repo_link, scope, rules, contact },
            start_time: now,
            end_time,
            cancelled: false,
        };
        emit_campaign_created(&campaign, fx);
        proof {
            lemma_ledger_put(
                self.project_stats@,
                campaign.owner,
                self.project(campaign.owner@).plus(0, 1, 0),
            );
            lemma_new_campaign_balanced(self.submissions@, campaign, self.campaigns@.len() as int);
        }
        self.increment_project_campaigns(&campaign.owner);
        self.next_campaign_id = campaign_id + 1;
        self.campaigns.push(campaign);
        self.campaign_submissions.push(Vec::new());
        proof {
            assert(final(self).campaigns@.drop_last() =~= old(self).campaigns@);
            assert(final(self).campaign_submissions@.drop_last() =~= old(self).campaign_submissions@);
            assert forall|i: int| 0 <= i < final(self).campaigns@.len() implies {
                &&& campaign_wf(#[trigger] final(self).campaigns@[i], i)
                &&& pool_balanced(final(self).campaigns@[i], final(self).submissions@, 0)
            } by {
                if i < old(self).campaigns@.len() {
                    assert(final(self).campaigns@[i] == old(self).campaigns@[i]);
                }
            }
        }
        Ok(campaign_id)
    }

    /// Cancels campaign `campaign_id` for its owner: the campaign is marked,
    /// what its pool still held is sent back to the owner, and the amount is
    /// returned.
    pub fn cancel_campaign(&mut self, caller: &String, campaign_id: u64, fx: &mut Effects) -> (r: Result<
        u128,
        Error,
    >)
        requires
            old(self).wf(),
        ensures
            final(self).wf(),
            match r {
                Ok(refund) => {
                    &&& old(self).cancel_check(caller@, campaign_id).is_none()
                    &&& cancelled_step(*old(self), *final(self), campaign_id)
                    &&& refund == old(self).campaign(campaign_id).remaining_pool
                    &&& refund + accepted_total(old(self).submissions@, campaign_id) == old(self).campaign(
                        campaign_id,
                    ).total_pool
                    &&& final(fx).events@ == old(fx).events@.push(
                        (Event::CampaignCancelled { campaign_id, refund_amount: refund }),
                    )
                    &&& final(fx).transfers@ == old(fx).transfers@.push(
                        refund_transfer(old(self).campaign(campaign_id)),
                    )
                },
                Err(e) => {
                    &&& old(self).cancel_check(caller@, campaign_id) == Some(e)
                    &&& *final(self) == *old(self)
                    &&& *final(fx) == *old(fx)
                },
            },
    {
        let i: usize = match self.campaign_slot(campaign_id) {
            Some(i) => i,
            None => { return Err(Error::NotFound(Entity::Campaign)); },
        };
        if !(self.campaigns[i].owner == *caller) {
            return Err(Error::NotOwner);
        }
        if self.paused {
            return Err(Error::Paused);
        }
        if self.campaigns[i].cancelled {
            return Err(Error::AlreadyCancelled);
        }
        assert(campaign_wf(self.campaigns@[i as int], i as int));
        assert(pool_balanced(self.campaigns@[i as int], self.submissions@, 0));
        let refund_amount: u128 = self.campaigns[i].remaining_pool;
        let owner = self.campaigns[i].owner.clone();
        let token = match &self.campaigns[i].token {
            Some(t) => Some(t.clone()),
            None => None,
        };
        self.campaigns[i].cancelled = true;
        self.campaigns[i].remaining_pool = 0;
        emit_campaign_cancelled(campaign_id, refund_amount, fx);
        fx.send(token, owner, refund_amount, REFUND_TGAS);
        proof {
            assert(final(self).campaigns@ =~= old(self).campaigns@.update(
                i as int,
                (Campaign { cancelled: true, remaining_pool: 0, ..old(self).campaign(campaign_id) }),
            ));
            assert forall|k: int| 0 <= k < final(self).campaigns@.len() implies {
                &&& campaign_wf(#[trigger] final(self).campaigns@[k], k)
                &&& pool_balanced(final(self).campaigns@[k], final(self).submissions@, 0)
            } by {
                assert(campaign_wf(old(self).campaigns@[k], k));
                assert(pool_balanced(old(self).campaigns@[k], old(self).submissions@, 0));
            }
        }
        Ok(refund_amount)
    }
}

/// A campaign that is stored behind all others has no submissions yet: its
/// books balance with nothing drawn.
pub proof fn lemma_new_campaign_balanced(subs: Seq<Submission>, c: Campaign, n: int)
    requires
        c.id == n + 1,
        c.remaining_pool == c.total_pool,
        !c.cancelled,
        forall|j: int| 0 <= j < subs.len() ==> submission_wf(#[trigger] subs[j], j, n),
    ensures
        accepted_total(subs, c.id) == 0,
        pool_balanced(c, subs, 0),
    decreases subs.len(),
{
    if subs.len() > 0 {
        let front = subs.drop_last();
        assert forall|j: int| 0 <= j < front.len() implies submission_wf(
            #[trigger] front[j],
            j,
            n,
        ) by {
            assert(front[j] == subs[j]);
        }
        lemma_new_campaign_balanced(front, c, n);
        assert(submission_wf(subs[subs.len() - 1], subs.len() - 1, n));
    }
}

} // verus!
