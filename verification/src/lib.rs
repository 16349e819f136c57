//! A bug-bounty escrow: campaigns hold a reward pool, researchers submit
//! findings, and accepted findings are paid out of the pool less a platform fee.
//!
//! The contract state is a plain value. Every entry point takes the caller, the
//! time and the attached funds as arguments and appends the events and the
//! outbound transfers that it asks for to an [`Effects`] value, which the host
//! carries out after the call.

pub mod arith;
pub mod audit;
pub mod campaign;
pub mod contract;
pub mod deposit;
pub mod events;
pub mod laws;
pub mod leaderboard;
pub mod owner;
pub mod submission;
pub mod types;
pub mod wire;

pub use arith::percent_of;
pub use contract::Contract;
pub use campaign::{Campaign, CampaignMetadata, SeverityConfig};
pub use events::{
    emit_campaign_cancelled, emit_campaign_created, emit_pause_toggle, emit_payout,
    emit_submission_created, Effects, Event, Transfer,
};
pub use leaderboard::{FinderStats, ProjectStats};
pub use submission::{Submission, SubmissionStatus};
pub use types::{CampaignType, CreateCampaignInput, Entity, Error, SeverityConfigInput, SubmitBugInput};
