use vstd::prelude::*;

use crate::User;
use crate::UserView;
use crate::data::ChangeTwoFA;
use crate::store::Store;

verus! {

/// The commands available to an authenticated session: toggle the
/// second-factor requirement, or end the session.
pub enum Action {
    Switch2FA,
    Logout,
}

/// The record after a second-factor toggle: only the flag flips.
pub open spec fn switched_two_fa(u: UserView) -> UserView {
    UserView { two_fa: !u.two_fa, ..u }
}

impl Action {
    /// Runs one post-login command on the authenticated record. Returns
    /// whether the session goes on, and the message that tells the peer the
    /// new state of its second-factor flag: a logout ends the session and
    /// changes nothing, a toggle flips the flag, persists the record, keeps
    /// the session, and reports the new state.
    pub fn perform(self, user: &mut User, store: &mut Store) -> (r: (bool, Option<ChangeTwoFA>))
        requires
            old(store).wf(),
        ensures
            final(store).wf(),
            self is Logout ==> !r.0 && r.1 is None && final(user)@ == old(user)@ && final(store)@
                == old(store)@,
            self is Switch2FA ==> r.0 && final(user)@ == switched_two_fa(old(user)@)
                && final(store)@ == old(store)@.insert(final(user)@.email, final(user)@) && (
            match r.1 {
                Some(change) => change.two_fa_status == final(user).two_fa,
                None => false,
            }),
    {
        match self {
            Action::Switch2FA => Action::switch_2fa(user, store),
            Action::Logout => (false, None),
        }
    }

    /// Flips the account's second-factor flag, persists the new record and
    /// builds the status message for the peer.
    fn switch_2fa(user: &mut User, store: &mut Store) -> (r: (bool, Option<ChangeTwoFA>))
        requires
            old(store).wf(),
        ensures
            final(store).wf(),
            r.0,
            final(user)@ == switched_two_fa(old(user)@),
            final(store)@ == old(store)@.insert(final(user)@.email, final(user)@),
            match r.1 {
                Some(change) => change.two_fa_status == final(user).two_fa,
                None => false,
            },
    {
        user.two_fa = !user.two_fa;
        proof {
            assert(user@ =~= switched_two_fa(old(user)@));
        }
        store.insert(user.duplicate());
        (true, Some(ChangeTwoFA { two_fa_status: user.two_fa }))
    }
}

} // verus!
