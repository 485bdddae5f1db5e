use vstd::prelude::*;

use crate::User;
use crate::UserView;
use crate::crypto::constant_time_str_eq;

verus! {

/// The credential store: one record per email, addressed by the record's
/// email. Viewed as a map from email to the record's view; `insert` is an
/// upsert, matching last-writer-wins per key.
pub struct Store {
    users: Vec<User>,
}

/// No two records share an email.
pub open spec fn unique_emails(s: Seq<User>) -> bool {
    forall|i: int, j: int| 0 <= i < j < s.len() ==> s[i]@.email != s[j]@.email
}

/// The map a record sequence denotes: later records override earlier ones.
pub open spec fn as_map(s: Seq<User>) -> Map<Seq<char>, UserView>
    decreases s.len(),
{
    if s.len() == 0 {
        Map::empty()
    } else {
        as_map(s.drop_last()).insert(s.last()@.email, s.last()@)
    }
}

proof fn lemma_as_map_contains(s: Seq<User>, e: Seq<char>)
    ensures
        as_map(s).contains_key(e) <==> (exists|i: int| 0 <= i < s.len() && s[i]@.email == e),
    decreases s.len(),
{
    if s.len() > 0 {
        lemma_as_map_contains(s.drop_last(), e);
        assert(forall|i: int| 0 <= i < s.len() - 1 ==> s.drop_last()[i] == s[i]);
        if s.last()@.email == e {
            assert(s[s.len() - 1]@.email == e);
        }
    }
}

proof fn lemma_as_map_value(s: Seq<User>, i: int)
    requires
        unique_emails(s),
        0 <= i < s.len(),
    ensures
        as_map(s).contains_key(s[i]@.email),
        as_map(s)[s[i]@.email] == s[i]@,
    decreases s.len(),
{
    if i < s.len() - 1 {
        assert(unique_emails(s.drop_last()));
        assert(s.drop_last()[i] == s[i]);
        lemma_as_map_value(s.drop_last(), i);
        assert(s[i]@.email != s.last()@.email);
    }
}

proof fn lemma_as_map_update(s: Seq<User>, i: int, u: User)
    requires
        unique_emails(s),
        0 <= i < s.len(),
        s[i]@.email == u@.email,
    ensures
        as_map(s.update(i, u)) == as_map(s).insert(u@.email, u@),
    decreases s.len(),
{
    let t = s.update(i, u);
    if i == s.len() - 1 {
        assert(t.drop_last() =~= s.drop_last());
        assert(t.last() == u);
        assert(as_map(t) =~= as_map(s).insert(u@.email, u@));
    } else {
        assert(t.drop_last() =~= s.drop_last().update(i, u));
        assert(t.last() == s.last());
        assert(unique_emails(s.drop_last()));
        assert(s.drop_last()[i] == s[i]);
        lemma_as_map_update(s.drop_last(), i, u);
        assert(s[i]@.email != s.last()@.email);
        assert(as_map(t) == as_map(s.drop_last()).insert(u@.email, u@).insert(
            s.last()@.email,
            s.last()@,
        ));
        assert(as_map(s.drop_last()).insert(u@.email, u@).insert(s.last()@.email, s.last()@)
            =~= as_map(s.drop_last()).insert(s.last()@.email, s.last()@).insert(u@.email, u@));
    }
}

impl Store {
    /// The records keep pairwise distinct emails.
    pub closed spec fn wf(&self) -> bool {
        unique_emails(self.users@)
    }

    pub closed spec fn view(&self) -> Map<Seq<char>, UserView> {
        as_map(self.users@)
    }

    /// An empty store.
    pub fn new() -> (r: Store)
        ensures
            r.wf(),
            r@ == Map::<Seq<char>, UserView>::empty(),
    {
        Store { users: Vec::new() }
    }

    /// Looks a record up by email.
    pub fn get(&self, email: &str) -> (r: Option<&User>)
        requires
            self.wf(),
        ensures
            match r {
                Some(u) => self@.contains_key(email@) && u@ == self@[email@],
                None => !self@.contains_key(email@),
            },
    {
        let mut i: usize = 0;
        while i < self.users.len()
            invariant
                self.wf(),
                i <= self.users@.len(),
                forall|j: int| 0 <= j < i ==> self.users@[j]@.email != email@,
            decreases self.users@.len() - i,
        {
            if constant_time_str_eq(self.users[i].email.as_str(), email) {
                proof {
                    lemma_as_map_value(self.users@, i as int);
                }
                return Some(&self.users[i]);
            }
            i += 1;
        }
        proof {
            lemma_as_map_contains(self.users@, email@);
        }
        None
    }

    /// Inserts or replaces the record stored under `user.email`.
    pub fn insert(&mut self, user: User)
        requires
            old(self).wf(),
        ensures
            final(self).wf(),
            final(self)@ == old(self)@.insert(user@.email, user@),
    {
        let ghost s0 = self.users@;
        let mut i: usize = 0;
        while i < self.users.len()
            invariant
                old(self).users@ == s0,
                self.users@ == s0,
                unique_emails(s0),
                i <= s0.len(),
                forall|j: int| 0 <= j < i ==> s0[j]@.email != user@.email,
            decreases s0.len() - i,
        {
            if constant_time_str_eq(self.users[i].email.as_str(), user.email.as_str()) {
                proof {
                    lemma_as_map_update(s0, i as int, user);
                }
                self.users.set(i, user);
                assert(unique_emails(self.users@));
                return ;
            }
            i += 1;
        }
        proof {
            lemma_as_map_contains(s0, user@.email);
        }
        self.users.push(user);
        assert(self.users@.drop_last() =~= s0);
        assert(unique_emails(self.users@));
    }
}

} // verus!
