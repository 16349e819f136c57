use vstd::prelude::*;
use crate::campaign::Campaign;
use crate::submission::Submission;

verus! {

/// One record of the event stream. Accounts are held as text, balances as
/// integers in the asset's smallest unit.
#[derive(Debug)]
pub enum Event {
    CampaignCreated { campaign_id: u64, owner: String, total_pool: u128, token: Option<String>, name: String },
    SubmissionCreated { submission_id: u64, campaign_id: u64, submitter: String, severity_claim: u8 },
    Payout { campaign_id: u64, submission_id: u64, receiver: String, gross_reward: u128, platform_fee: u128 },
    CampaignCancelled { campaign_id: u64, refund_amount: u128 },
    PauseToggle { paused: bool },
}

/// An outbound transfer that the host carries out after the call has
/// committed. `token` is `None` for the native asset and names the token
/// contract otherwise; `gas_tgas` is the allowance given to a token call.
#[derive(Debug)]
pub struct Transfer {
    pub token: Option<String>,
    pub receiver: String,
    pub amount: u128,
    pub gas_tgas: u64,
}

/// What a call asks the host to do after it has committed: the records to
/// log and the transfers to schedule, each in the order in which they were
/// asked for.
#[derive(Debug)]
pub struct Effects {
    pub events: Vec<Event>,
    pub transfers: Vec<Transfer>,
}

/// Gas allowance of a refund or of a fee leg, in Tgas.
pub const REFUND_TGAS: u64 = 5;

/// Gas allowance of a reward leg, in Tgas.
pub const REWARD_TGAS: u64 = 10;

impl Event {
    /// The tag under which the record is logged.
    pub open spec fn spec_name(self) -> Seq<char> {
        match self {
            Event::CampaignCreated { .. } => "campaign_created"@,
            Event::SubmissionCreated { .. } => "submission_created"@,
            Event::Payout { .. } => "payout"@,
            Event::CampaignCancelled { .. } => "campaign_cancelled"@,
            Event::PauseToggle { .. } => "pause_toggle"@,
        }
    }

    pub fn name(&self) -> (t: &'static str)
        ensures
            t@ == self.spec_name(),
    {
        match self {
            Event::CampaignCreated { .. } => "campaign_created",
            Event::SubmissionCreated { .. } => "submission_created",
            Event::Payout { .. } => "payout",
            Event::CampaignCancelled { .. } => "campaign_cancelled",
            Event::PauseToggle { .. } => "pause_toggle",
        }
    }
}

impl Effects {
    /// Nothing asked for yet.
    pub fn new() -> (fx: Effects)
        ensures
            fx.events@.len() == 0,
            fx.transfers@.len() == 0,
    {
        Effects { events: Vec::new(), transfers: Vec::new() }
    }

    /// Asks for `amount` of the asset `token` to be sent to `receiver`.
    pub fn send(&mut self, token: Option<String>, receiver: String, amount: u128, gas_tgas: u64)
        ensures
            final(self).events@ == old(self).events@,
            final(self).transfers@ == old(self).transfers@.push(
                (Transfer { token, receiver, amount, gas_tgas }),
            ),
    {
        self.transfers.push(Transfer { token, receiver, amount, gas_tgas });
    }
}

/// The record of a campaign's creation.
pub open spec fn campaign_created_event(c: Campaign) -> Event {
    Event::CampaignCreated {
        campaign_id: c.id,
        owner: c.owner,
        total_pool: c.total_pool,
        token: c.token,
        name: c.metadata.name,
    }
}

/// The record of a submission's creation.
pub open spec fn submission_created_event(s: Submission) -> Event {
    Event::SubmissionCreated {
        submission_id: s.id,
        campaign_id: s.campaign_id,
        submitter: s.submitter,
        severity_claim: s.severity_claim,
    }
}

pub fn emit_campaign_created(campaign: &Campaign, fx: &mut Effects)
    ensures
        final(fx).events@ == old(fx).events@.push(campaign_created_event(*campaign)),
        final(fx).transfers@ == old(fx).transfers@,
{
    let token = match &campaign.token {
        Some(t) => Some(t.clone()),
        None => None,
    };
    fx.events.push(
        Event::CampaignCreated {
            campaign_id: campaign.id,
            owner: campaign.owner.clone(),
            total_pool: campaign.total_pool,
            token,
            name: campaign.metadata.name.clone(),
        },
    );
}

pub fn emit_submission_created(submission: &Submission, fx: &mut Effects)
    ensures
        final(fx).events@ == old(fx).events@.push(submission_created_event(*submission)),
        final(fx).transfers@ == old(fx).transfers@,
{
    fx.events.push(
        Event::SubmissionCreated {
            submission_id: submission.id,
            campaign_id: submission.campaign_id,
            submitter: submission.submitter.clone(),
            severity_claim: submission.severity_claim,
        },
    );
}

pub fn emit_payout(
    campaign_id: u64,
    submission_id: u64,
    receiver: String,
    gross: u128,
    fee: u128,
    fx: &mut Effects,
)
    ensures
        final(fx).events@ == old(fx).events@.push(
            (Event::Payout { campaign_id, submission_id, receiver, gross_reward: gross, platform_fee: fee }),
        ),
        final(fx).transfers@ == old(fx).transfers@,
{
    fx.events.push(
        Event::Payout { campaign_id, submission_id, receiver, gross_reward: gross, platform_fee: fee },
    );
}

pub fn emit_pause_toggle(paused: bool, fx: &mut Effects)
    ensures
        final(fx).events@ == old(fx).events@.push((Event::PauseToggle { paused })),
        final(fx).transfers@ == old(fx).transfers@,
{
    fx.events.push(Event::PauseToggle { paused });
}

pub fn emit_campaign_cancelled(campaign_id: u64, refund_amount: u128, fx: &mut Effects)
    ensures
        final(fx).events@ == old(fx).events@.push(
            (Event::CampaignCancelled { campaign_id, refund_amount }),
        ),
        final(fx).transfers@ == old(fx).transfers@,
{
    fx.events.push(Event::CampaignCancelled { campaign_id, refund_amount });
}

} // verus!
