use vstd::prelude::*;

pub mod action;
pub mod authentication;
pub mod authentication_tools;
pub mod client;
pub mod crypto;
pub mod data;
pub mod laws;
pub mod messages;
pub mod store;
pub mod validation;

verus! {

/// The mathematical value of a credential record: every field as a sequence
/// or a plain value. Contracts and the store's map speak of this view.
#[verifier::ext_equal]
pub ghost struct UserView {
    pub email: Seq<char>,
    pub salt: Seq<u8>,
    pub hash_password: Seq<char>,
    pub public_yubikey: Seq<u8>,
    pub two_fa: bool,
}

/// One registered account: the unique email, the password salt and encoded
/// password hash (always replaced together), the immutable hardware public
/// key, and whether the second factor is required at login.
pub struct User {
    pub email: String,
    pub salt: [u8; 16],
    pub hash_password: String,
    pub public_yubikey: Vec<u8>,
    pub two_fa: bool,
}

impl View for User {
    type V = UserView;

    open spec fn view(&self) -> UserView {
        UserView {
            email: self.email@,
            salt: self.salt@,
            hash_password: self.hash_password@,
            public_yubikey: self.public_yubikey@,
            two_fa: self.two_fa,
        }
    }
}

/// Copies a byte vector element by element.
pub fn clone_bytes(v: &Vec<u8>) -> (r: Vec<u8>)
    ensures
        r@ == v@,
{
    let mut r: Vec<u8> = Vec::new();
    let mut i: usize = 0;
    while i < v.len()
        invariant
            i <= v@.len(),
            r@ == v@.subrange(0, i as int),
        decreases v@.len() - i,
    {
        r.push(v[i]);
        assert(r@ =~= v@.subrange(0, i + 1));
        i += 1;
    }
    assert(r@ =~= v@);
    r
}

impl User {
    /// An owned copy with the same view.
    pub fn duplicate(&self) -> (r: User)
        ensures
            r@ == self@,
    {
        User {
            email: self.email.clone(),
            salt: self.salt,
            hash_password: self.hash_password.clone(),
            public_yubikey: clone_bytes(&self.public_yubikey),
            two_fa: self.two_fa,
        }
    }
}

} // verus!
