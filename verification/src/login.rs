//! The account that the login form describes.

use vstd::prelude::*;
use vstd::string::*;

use crate::account::Account;
use crate::text::{chars_of, string_of, trim_end_char, trim_end_matches_char};
use crate::web::{parse_url, parsed_url};

verus! {

/// The account of the login form: the instance address without its trailing
/// slashes, which must parse as a URL, and the other fields as typed.
pub fn get_account(
    instance: &str,
    client_id: &str,
    client_secret: &str,
    username: &str,
    password: &str,
) -> (r: Option<Account>)
    ensures
        r is Some <==> parsed_url(trim_end_char(instance@, '/')) is Some,
        r matches Some(account) ==> {
            &&& account.instance_url@ == trim_end_char(instance@, '/')
            &&& account.client_id@ == client_id@
            &&& account.client_secret@ == client_secret@
            &&& account.username@ == username@
            &&& account.password@ == password@
        },
{
    let trimmed = trim_end_matches_char(chars_of(instance).as_slice(), '/');
    let instance = string_of(trimmed.as_slice());
    if parse_url(instance.as_str()).is_none() {
        return None;
    }
    Some(
        Account {
            instance_url: instance,
            client_id: String::from_str(client_id),
            client_secret: String::from_str(client_secret),
            username: String::from_str(username),
            password: String::from_str(password),
        },
    )
}

} // verus!
