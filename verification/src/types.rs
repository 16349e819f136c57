use vstd::prelude::*;

verus! {

/// Visibility of a campaign.
#[derive(Debug, Clone, Copy, PartialEq, Eq, Structural)]
pub enum CampaignType {
    Public,
    Private,
}

/// One severity tier as the creator of a campaign gives it.
#[derive(Debug, Clone)]
pub struct SeverityConfigInput {
    pub name: String,
    pub max_reward_pct: u8,
}

/// What the creator of a campaign supplies.
#[derive(Debug, Clone)]
pub struct CreateCampaignInput {
    pub name: String,
    pub description: String,
    pub repo_link: Option<String>,
    pub scope: Option<String>,
    pub rules: Option<String>,
    pub contact: Option<String>,
    pub severity_levels: Vec<SeverityConfigInput>,
    pub campaign_type: CampaignType,
    pub end_time: Option<u64>,
}

/// What a researcher supplies with a finding.
#[derive(Debug, Clone)]
pub struct SubmitBugInput {
    pub title: String,
    pub description_hash: String,
    pub poc_link: String,
    pub severity_claim: u8,
}

/// The kind of record that a lookup did not find.
#[derive(Debug, Clone, Copy, PartialEq, Eq, Structural)]
pub enum Entity {
    Campaign,
    Submission,
}

/// Every way in which a call can be refused. A refused call changes nothing.
/// `NotPaused` is the refusal of an emergency withdrawal while the escrow runs.
#[derive(Debug, Clone, Copy, PartialEq, Eq, Structural)]
pub enum Error {
    Paused,
    NotFound(Entity),
    NotOwner,
    NotAdmin,
    BadConfig,
    AlreadyCancelled,
    Cancelled,
    Ended,
    InvalidTransition,
    BadSeverity,
    RewardRequired,
    RewardExceedsMax,
    BadMessage,
    DepositTooSmall,
    NotPaused,
}

impl Error {
    /// The short tag under which the fault is reported.
    pub open spec fn spec_tag(self) -> Seq<char> {
        match self {
            Error::Paused => "Paused"@,
            Error::NotFound(Entity::Campaign) => "NotFound(campaign)"@,
            Error::NotFound(Entity::Submission) => "NotFound(submission)"@,
            Error::NotOwner => "NotOwner"@,
            Error::NotAdmin => "NotAdmin"@,
            Error::BadConfig => "BadConfig"@,
            Error::AlreadyCancelled => "AlreadyCancelled"@,
            Error::Cancelled => "Cancelled"@,
            Error::Ended => "Ended"@,
            Error::InvalidTransition => "InvalidTransition"@,
            Error::BadSeverity => "BadSeverity"@,
            Error::RewardRequired => "RewardRequired"@,
            Error::RewardExceedsMax => "RewardExceedsMax"@,
            Error::BadMessage => "BadMessage"@,
            Error::DepositTooSmall => "DepositTooSmall"@,
            Error::NotPaused => "NotPaused"@,
        }
    }

    pub fn tag(&self) -> (t: &'static str)
        ensures
            t@ == self.spec_tag(),
    {
        match self {
            Error::Paused => "Paused",
            Error::NotFound(Entity::Campaign) => "NotFound(campaign)",
            Error::NotFound(Entity::Submission) => "NotFound(submission)",
            Error::NotOwner => "NotOwner",
            Error::NotAdmin => "NotAdmin",
            Error::BadConfig => "BadConfig",
            Error::AlreadyCancelled => "AlreadyCancelled",
            Error::Cancelled => "Cancelled",
            Error::Ended => "Ended",
            Error::InvalidTransition => "InvalidTransition",
            Error::BadSeverity => "BadSeverity",
            Error::RewardRequired => "RewardRequired",
            Error::RewardExceedsMax => "RewardExceedsMax",
            Error::BadMessage => "BadMessage",
            Error::DepositTooSmall => "DepositTooSmall",
            Error::NotPaused => "NotPaused",
        }
    }
}

} // verus!
