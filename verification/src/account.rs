//! The credentials of a wallabag account.

use vstd::prelude::*;

verus! {

/// The instance and the credentials with which the reader logs in.
#[derive(Clone, Debug, PartialEq, Eq)]
pub struct Account {
    pub instance_url: String,
    pub client_id: String,
    pub client_secret: String,
    pub username: String,
    pub password: String,
}

impl Default for Account {
    fn default() -> (r: Self)
        ensures
            r.instance_url@ == Seq::<char>::empty(),
            r.client_id@ == Seq::<char>::empty(),
            r.client_secret@ == Seq::<char>::empty(),
            r.username@ == Seq::<char>::empty(),
            r.password@ == Seq::<char>::empty(),
    {
        Account {
            instance_url: String::new(),
            client_id: String::new(),
            client_secret: String::new(),
            username: String::new(),
            password: String::new(),
        }
    }
}

} // verus!
