use vstd::prelude::*;
use crate::contract::Contract;
use crate::events::{emit_pause_toggle, Effects, Event, Transfer, REFUND_TGAS};
use crate::types::Error;

verus! {

/// `post` is `pre` with the pause switch at `paused`.
pub open spec fn pause_set(pre: Contract, post: Contract, paused: bool) -> bool {
    post == (Contract { paused, ..pre })
}

impl Contract {
    /// Whether `caller` is the administrator.
    pub open spec fn is_admin(&self, caller: Seq<char>) -> bool {
        self.admin@ == caller
    }

    /// Refuses everyone but the administrator.
    pub fn assert_admin(&self, caller: &String) -> (r: Result<(), Error>)
        ensures
            r == if self.is_admin(caller@) {
                Ok::<(), Error>(())
            } else {
                Err::<(), Error>(Error::NotAdmin)
            },
    {
        if self.admin == *caller {
            Ok(())
        } else {
            Err(Error::NotAdmin)
        }
    }

    /// Sets the pause switch for the administrator.
    pub fn set_paused(&mut self, caller: &String, paused: bool, fx: &mut Effects) -> (r: Result<(), Error>)
        ensures
            old(self).wf() ==> final(self).wf(),
            match r {
                Ok(()) => {
                    &&& old(self).is_admin(caller@)
                    &&& pause_set(*old(self), *final(self), paused)
                    &&& final(fx).events@ == old(fx).events@.push((Event::PauseToggle { paused }))
                    &&& final(fx).transfers@ == old(fx).transfers@
                },
                Err(e) => {
                    &&& e == Error::NotAdmin
                    &&& !old(self).is_admin(caller@)
                    &&& *final(self) == *old(self)
                    &&& *final(fx) == *old(fx)
                },
            },
    {
        match self.assert_admin(caller) {
            Err(e) => { return Err(e); },
            Ok(()) => {},
        }
        self.paused = paused;
        emit_pause_toggle(paused, fx);
        Ok(())
    }

    /// Names another fee sink for the administrator.
    pub fn set_treasury(&mut self, caller: &String, new_treasury: String) -> (r: Result<(), Error>)
        ensures
            old(self).wf() ==> final(self).wf(),
            match r {
                Ok(()) => {
                    &&& old(self).is_admin(caller@)
                    &&& *final(self) == (Contract { treasury: new_treasury, ..*old(self) })
                },
                Err(e) => {
                    &&& e == Error::NotAdmin
                    &&& !old(self).is_admin(caller@)
                    &&& *final(self) == *old(self)
                },
            },
    {
        match self.assert_admin(caller) {
            Err(e) => { return Err(e); },
            Ok(()) => {},
        }
        self.treasury = new_treasury;
        Ok(())
    }

    /// Why `caller` may not withdraw fees, if anything stands against it.
    pub open spec fn withdraw_check(&self, caller: Seq<char>) -> Option<Error> {
        if !self.is_admin(caller) {
            Some(Error::NotAdmin)
        } else if self.paused {
            Some(Error::Paused)
        } else {
            None
        }
    }

    /// Why `caller` may not withdraw in an emergency, if anything stands
    /// against it.
    pub open spec fn emergency_check(&self, caller: Seq<char>) -> Option<Error> {
        if !self.is_admin(caller) {
            Some(Error::NotAdmin)
        } else if !self.paused {
            Some(Error::NotPaused)
        } else {
            None
        }
    }

    /// Sends `amount` of the asset `token` to the treasury for the
    /// administrator and returns the amount sent. Where no amount is given,
    /// `account_balance` is sent: the whole balance that the host reports for
    /// the escrow's account, which includes the pools of running campaigns.
    pub fn withdraw_fees(
        &self,
        caller: &String,
        amount: Option<u128>,
        token: Option<String>,
        account_balance: u128,
        fx: &mut Effects,
    ) -> (r: Result<u128, Error>)
        ensures
            match r {
                Ok(sent) => {
                    &&& self.withdraw_check(caller@).is_none()
                    &&& sent == match amount {
                        Some(a) => a,
                        None => account_balance,
                    }
                    &&& final(fx).events@ == old(fx).events@
                    &&& final(fx).transfers@ == old(fx).transfers@.push(
                        (Transfer { token, receiver: self.treasury, amount: sent, gas_tgas: REFUND_TGAS }),
                    )
                },
                Err(e) => {
                    &&& self.withdraw_check(caller@) == Some(e)
                    &&& *final(fx) == *old(fx)
                },
            },
    {
        match self.assert_admin(caller) {
            Err(e) => { return Err(e); },
            Ok(()) => {},
        }
        if self.paused {
            return Err(Error::Paused);
        }
        let sent: u128 = match amount {
            Some(a) => a,
            None => account_balance,
        };
        fx.send(token, self.treasury.clone(), sent, REFUND_TGAS);
        Ok(sent)
    }

    /// Sends `amount` of the asset `token` to `receiver` for the
    /// administrator while the escrow is paused.
    pub fn emergency_withdraw(
        &self,
        caller: &String,
        token: Option<String>,
        amount: u128,
        receiver: String,
        fx: &mut Effects,
    ) -> (r: Result<(), Error>)
        ensures
            match r {
                Ok(()) => {
                    &&& self.emergency_check(caller@).is_none()
                    &&& final(fx).events@ == old(fx).events@
                    &&& final(fx).transfers@ == old(fx).transfers@.push(
                        (Transfer { token, receiver, amount, gas_tgas: REFUND_TGAS }),
                    )
                },
                Err(e) => {
                    &&& self.emergency_check(caller@) == Some(e)
                    &&& *final(fx) == *old(fx)
                },
            },
    {
        match self.assert_admin(caller) {
            Err(e) => { return Err(e); },
            Ok(()) => {},
        }
        if !self.paused {
            return Err(Error::NotPaused);
        }
        fx.send(token, receiver, amount, REFUND_TGAS);
        Ok(())
    }
}

} // verus!
