use vstd::prelude::*;
use crate::campaign::{config_ok, created, levels_ok};
use crate::contract::Contract;
use crate::events::{campaign_created_event, Effects};
use crate::types::{CreateCampaignInput, Error};

verus! {

/// What the deposit of a token answers: the amount that the token contract
/// is to give back to the sender, or the refusal of the call.
pub open spec fn deposit_answer(paused: bool, amount: u128, parsed: Option<CreateCampaignInput>) -> Result<
    u128,
    Error,
> {
    if paused {
        Err(Error::Paused)
    } else if parsed.is_none() {
        Ok(amount)
    } else if !config_ok(parsed.unwrap().severity_levels@) {
        Err(Error::BadConfig)
    } else {
        Ok(0u128)
    }
}

/// Whether the deposit makes a campaign: the escrow runs and the message was
/// read as the description of a campaign with acceptable tiers.
pub open spec fn deposit_creates(paused: bool, parsed: Option<CreateCampaignInput>) -> bool {
    !paused && parsed.is_some() && config_ok(parsed.unwrap().severity_levels@)
}

impl Contract {
    /// Decides whether the deposit makes a campaign.
    pub fn check_deposit(&self, parsed: &Option<CreateCampaignInput>) -> (b: bool)
        ensures
            b == deposit_creates(self.paused, *parsed),
    {
        match parsed {
            Some(input) => !self.paused && levels_ok(&input.severity_levels),
            None => false,
        }
    }

    /// Funds a campaign of `sender_id` with `amount` of the token whose
    /// contract, `token_contract`, makes the call. `parsed` is the message of
    /// the deposit read as the description of a campaign, `None` where it
    /// could not be read so.
    pub fn process_ft_deposit(
        &mut self,
        token_contract: String,
        sender_id: String,
        amount: u128,
        parsed: Option<CreateCampaignInput>,
        now: u64,
        fx: &mut Effects,
    ) -> (r: Result<u64, Error>)
        requires
            old(self).wf(),
            parsed.is_some() && config_ok(parsed.unwrap().severity_levels@) ==> old(self).has_room_for_campaign(
                sender_id@,
            ),
        ensures
            final(self).wf(),
            match r {
                Ok(id) => {
                    &&& parsed.is_some()
                    &&& config_ok(parsed.unwrap().severity_levels@)
                    &&& created(
                        *old(self),
                        *final(self),
                        sender_id,
                        amount,
                        Some(token_contract),
                        now,
                        parsed.unwrap(),
                        id,
                    )
                    &&& final(fx).events@ == old(fx).events@.push(
                        campaign_created_event(final(self).campaign(id)),
                    )
                    &&& final(fx).transfers@ == old(fx).transfers@
                },
                Err(e) => {
                    &&& e == if parsed.is_none() {
                        Error::BadMessage
                    } else {
                        Error::BadConfig
                    }
                    &&& parsed.is_some() ==> !config_ok(parsed.unwrap().severity_levels@)
                    &&& *final(self) == *old(self)
                    &&& *final(fx) == *old(fx)
                },
            },
    {
        match parsed {
            None => Err(Error::BadMessage),
            Some(input) => self.internal_create_campaign(sender_id, amount, Some(token_contract), now, input, fx),
        }
    }

    /// The deposit callback: the token contract `token_contract` has credited
    /// the escrow with `amount` on behalf of `sender_id`. Returns the amount
    /// to give back: all of it where the message could not be read, nothing
    /// where the campaign was made.
    pub fn ft_on_transfer(
        &mut self,
        token_contract: String,
        sender_id: String,
        amount: u128,
        parsed: Option<CreateCampaignInput>,
        now: u64,
        fx: &mut Effects,
    ) -> (r: Result<u128, Error>)
        requires
            old(self).wf(),
            deposit_creates(old(self).paused, parsed) ==> old(self).has_room_for_campaign(sender_id@),
        ensures
            final(self).wf(),
            r == deposit_answer(old(self).paused, amount, parsed),
            deposit_creates(old(self).paused, parsed) ==> {
                &&& created(
                    *old(self),
                    *final(self),
                    sender_id,
                    amount,
                    Some(token_contract),
                    now,
                    parsed.unwrap(),
                    old(self).next_campaign_id,
                )
                &&& final(fx).events@ == old(fx).events@.push(
                    campaign_created_event(final(self).campaign(old(self).next_campaign_id)),
                )
                &&& final(fx).transfers@ == old(fx).transfers@
            },
            !deposit_creates(old(self).paused, parsed) ==> *final(self) == *old(self) && *final(fx) == *old(fx),
    {
        if self.paused {
            return Err(Error::Paused);
        }
        match self.process_ft_deposit(token_contract, sender_id, amount, parsed, now, fx) {
            Ok(_) => Ok(0),
            Err(Error::BadMessage) => Ok(amount),
            Err(e) => Err(e),
        }
    }
}

} // verus!
