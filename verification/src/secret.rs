//! The account credentials kept in the desktop's secret collection.
//!
//! The collection is modelled by its items; the items of one account carry
//! the attribute `wallabag_username` with the account's user name and the
//! attribute `attr` with the name of the credential they hold.

use vstd::prelude::*;
use vstd::string::*;
use vstd::utf8::{
    decode_utf8, encode_utf8, encode_utf8_decode_utf8, encode_utf8_valid_utf8, valid_utf8,
};

use crate::account::Account;
use crate::text::same_text;

verus! {

/// An item of the secret collection.
pub struct SecretItem {
    pub label: String,
    pub attributes: Vec<(String, String)>,
    pub secret: Vec<u8>,
    /// The media type of the secret.
    pub content_type: String,
    pub unlocked: bool,
}

/// Why a credential could not be read.
#[derive(Clone, Copy, Debug, PartialEq, Eq)]
pub enum SecretError {
    /// No unlocked item holds the credential.
    NoResult,
    /// The secret service could not be reached or refused the request.
    Service,
}

/// The name of the attribute that holds the user name.
pub open spec fn username_attribute() -> Seq<char> {
    "wallabag_username"@
}

/// The name of the attribute that names the credential.
pub open spec fn credential_attribute() -> Seq<char> {
    "attr"@
}

/// The credential names, in the order in which they are stored.
pub open spec fn credential_name(j: int) -> Seq<char> {
    if j == 0 {
        "WALLABAG_USERNAME"@
    } else if j == 1 {
        "WALLABAG_CLIENT_ID"@
    } else if j == 2 {
        "WALLABAG_CLIENT_SECRET"@
    } else if j == 3 {
        "WALLABAG_PASSWORD"@
    } else {
        "WALLABAG_URL"@
    }
}

/// The value of the credential `j` of an account.
pub open spec fn credential_value(account: Account, j: int) -> Seq<char> {
    if j == 0 {
        account.username@
    } else if j == 1 {
        account.client_id@
    } else if j == 2 {
        account.client_secret@
    } else if j == 3 {
        account.password@
    } else {
        account.instance_url@
    }
}

/// Whether `item` has the attribute `name` with the value `value`.
pub open spec fn has_attribute(item: SecretItem, name: Seq<char>, value: Seq<char>) -> bool {
    exists|i: int|
        #![trigger item.attributes@[i]]
        0 <= i < item.attributes@.len() && item.attributes@[i].0@ == name && item.attributes@[i].1@
            == value
}

/// Whether `item` belongs to the account `username`.
pub open spec fn of_account(item: SecretItem, username: Seq<char>) -> bool {
    has_attribute(item, username_attribute(), username)
}

/// Whether `item` is an unlocked item holding the credential `attr` of `username`.
pub open spec fn holds_credential(item: SecretItem, username: Seq<char>, attr: Seq<char>) -> bool {
    &&& item.unlocked
    &&& of_account(item, username)
    &&& has_attribute(item, credential_attribute(), attr)
}

/// The secret of the first unlocked item holding the credential `attr` of
/// `username`.
pub open spec fn found_secret(items: Seq<SecretItem>, username: Seq<char>, attr: Seq<char>) -> Option<
    Seq<u8>,
>
    decreases items.len(),
{
    if items.len() == 0 {
        None
    } else if holds_credential(items[0], username, attr) {
        Some(items[0].secret@)
    } else {
        found_secret(items.drop_first(), username, attr)
    }
}

/// Whether the credential `attr` of `username` can be read as text, or is absent.
pub open spec fn readable(items: Seq<SecretItem>, username: Seq<char>, attr: Seq<char>) -> bool {
    found_secret(items, username, attr) matches Some(b) ==> valid_utf8(b)
}

/// The text of the credential `attr` of `username`, if it is stored.
pub open spec fn credential_text(items: Seq<SecretItem>, username: Seq<char>, attr: Seq<char>) -> Option<
    Seq<char>,
> {
    match found_secret(items, username, attr) {
        Some(b) => Some(decode_utf8(b)),
        None => None,
    }
}

/// Whether `item` is the item that stores the credential `attr` with `value`
/// for `username`.
pub open spec fn is_credential_item(
    item: SecretItem,
    username: Seq<char>,
    attr: Seq<char>,
    value: Seq<char>,
) -> bool {
    &&& item.label@ == "Read It Later account: "@ + username
    &&& item.attributes@.len() == 2
    &&& item.attributes@[0].0@ == username_attribute()
    &&& item.attributes@[0].1@ == username
    &&& item.attributes@[1].0@ == credential_attribute()
    &&& item.attributes@[1].1@ == attr
    &&& item.secret@ == encode_utf8(value)
    &&& item.content_type@ == "text/plain"@
    &&& item.unlocked
}

/// The items of `items` that do not belong to `username`, in order.
pub open spec fn without_account(items: Seq<SecretItem>, username: Seq<char>) -> Seq<SecretItem>
    decreases items.len(),
{
    if items.len() == 0 {
        Seq::empty()
    } else {
        let rest = without_account(items.drop_last(), username);
        if of_account(items.last(), username) {
            rest
        } else {
            rest.push(items.last())
        }
    }
}

/// Decodes UTF-8 bytes (`std::str::from_utf8`); `None` when they are not
/// valid UTF-8.
#[verifier::external_body]
fn str_from_utf8(bytes: &[u8]) -> (r: Option<&str>)
    ensures
        r is Some <==> valid_utf8(bytes@),
        r matches Some(s) ==> s@ == decode_utf8(bytes@),
{
    match std::str::from_utf8(bytes) {
        Ok(s) => Some(s),
        Err(_) => None,
    }
}

/// Whether `item` has the attribute `name` with the value `value`.
fn item_has_attribute(item: &SecretItem, name: &str, value: &str) -> (r: bool)
    ensures
        r == has_attribute(*item, name@, value@),
{
    let n = item.attributes.len();
    for i in 0..n
        invariant
            n == item.attributes@.len(),
            forall|j: int|
                #![trigger item.attributes@[j]]
                0 <= j < i ==> !(item.attributes@[j].0@ == name@ && item.attributes@[j].1@
                    == value@),
    {
        let pair = &item.attributes[i];
        if same_text(pair.0.as_str(), name) && same_text(pair.1.as_str(), value) {
            return true;
        }
    }
    false
}

/// The credentials of the reader, as the secret collection holds them.
pub struct SecretManager {
    items: Vec<SecretItem>,
}

impl View for SecretManager {
    type V = Seq<SecretItem>;

    closed spec fn view(&self) -> Seq<SecretItem> {
        self.items@
    }
}

impl SecretManager {
    /// The manager of a collection with the given items.
    pub fn new(items: Vec<SecretItem>) -> (r: Self)
        ensures
            r@ == items@,
    {
        SecretManager { items }
    }

    /// The items of the collection.
    pub fn items(&self) -> (r: &[SecretItem])
        ensures
            r@ == self@,
    {
        self.items.as_slice()
    }

    /// Stores the credential `attr` of the account `key` with the value `val`.
    pub fn insert(&mut self, key: &str, attr: &str, val: &str)
        ensures
            final(self)@.len() == old(self)@.len() + 1,
            final(self)@.take(old(self)@.len() as int) == old(self)@,
            is_credential_item(final(self)@.last(), key@, attr@, val@),
    {
        let mut label = String::from_str("Read It Later account: ");
        label.append(key);
        let mut attributes: Vec<(String, String)> = Vec::new();
        attributes.push((String::from_str("wallabag_username"), String::from_str(key)));
        attributes.push((String::from_str("attr"), String::from_str(attr)));
        let secret = val.as_bytes_vec();
        let content_type = String::from_str("text/plain");
        self.items.push(SecretItem { label, attributes, secret, content_type, unlocked: true });
        assert(self@.take(old(self)@.len() as int) =~= old(self)@);
    }

    /// Stores the five credentials of `config`, in the order of
    /// `credential_name`.
    pub fn store_from_config(&mut self, config: &Account)
        ensures
            final(self)@.len() == old(self)@.len() + 5,
            final(self)@.take(old(self)@.len() as int) == old(self)@,
            forall|j: int|
                0 <= j < 5 ==> is_credential_item(
                    #[trigger] final(self)@[old(self)@.len() + j],
                    config.username@,
                    credential_name(j),
                    credential_value(*config, j),
                ),
            is_credential_item(
                final(self)@[old(self)@.len() as int],
                config.username@,
                "WALLABAG_USERNAME"@,
                config.username@,
            ),
            is_credential_item(
                final(self)@[old(self)@.len() + 1int],
                config.username@,
                "WALLABAG_CLIENT_ID"@,
                config.client_id@,
            ),
            is_credential_item(
                final(self)@[old(self)@.len() + 2int],
                config.username@,
                "WALLABAG_CLIENT_SECRET"@,
                config.client_secret@,
            ),
            is_credential_item(
                final(self)@[old(self)@.len() + 3int],
                config.username@,
                "WALLABAG_PASSWORD"@,
                config.password@,
            ),
            is_credential_item(
                final(self)@[old(self)@.len() + 4int],
                config.username@,
                "WALLABAG_URL"@,
                config.instance_url@,
            ),
    {
        let ghost start = self@;
        let username = config.username.as_str();
        self.insert(username, "WALLABAG_USERNAME", username);
        self.insert(username, "WALLABAG_CLIENT_ID", config.client_id.as_str());
        self.insert(username, "WALLABAG_CLIENT_SECRET", config.client_secret.as_str());
        self.insert(username, "WALLABAG_PASSWORD", config.password.as_str());
        self.insert(username, "WALLABAG_URL", config.instance_url.as_str());
        proof {
            let n = start.len() as int;
            assert(self@.take(n) =~= start);
            assert forall|j: int| 0 <= j < 5 implies is_credential_item(
                #[trigger] self@[n + j],
                config.username@,
                credential_name(j),
                credential_value(*config, j),
            ) by {
                assert(self@[n + j] == self@.take(n + j + 1).last());
            }
        }
    }

    /// The text of the credential `attribute` of the account `key`: the
    /// secret of the first unlocked item that holds it.
    pub fn retrieve(&self, key: &str, attribute: &str) -> (r: Result<String, SecretError>)
        requires
            readable(self@, key@, attribute@),
        ensures
            r matches Ok(s) ==> credential_text(self@, key@, attribute@) == Some(s@),
            r matches Err(e) ==> e == SecretError::NoResult && credential_text(
                self@,
                key@,
                attribute@,
            ) is None,
    {
        let n = self.items.len();
        let mut i: usize = 0;
        assert(self@.skip(0) =~= self@);
        while i < n
            invariant
                n == self@.len(),
                i <= n,
                readable(self@, key@, attribute@),
                found_secret(self@, key@, attribute@) == found_secret(
                    self@.skip(i as int),
                    key@,
                    attribute@,
                ),
            decreases n - i,
        {
            let item = &self.items[i];
            assert(self@.skip(i as int)[0] == self@[i as int]);
            assert(self@.skip(i as int).drop_first() =~= self@.skip(i + 1));
            if item.unlocked && item_has_attribute(item, "wallabag_username", key)
                && item_has_attribute(item, "attr", attribute) {
                return match str_from_utf8(item.secret.as_slice()) {
                    Some(s) => Ok(String::from_str(s)),
                    None => Err(SecretError::NoResult),
                };
            }
            i = i + 1;
        }
        assert(self@.skip(n as int) =~= Seq::<SecretItem>::empty());
        Err(SecretError::NoResult)
    }

    /// The account of `username`, when all its credentials are stored. The
    /// credentials are read in the order of `credential_name`, and reading
    /// stops at the first that is missing.
    pub fn is_logged(&self, username: &str) -> (r: Result<Account, SecretError>)
        requires
            forall|j: int|
                1 <= j < 5 && (forall|k: int|
                    1 <= k < j ==> #[trigger] found_secret(self@, username@, credential_name(k))
                        is Some) ==> readable(self@, username@, #[trigger] credential_name(j)),
        ensures
            r matches Ok(account) ==> {
                &&& account.username@ == username@
                &&& credential_text(self@, username@, "WALLABAG_CLIENT_ID"@) == Some(
                    account.client_id@,
                )
                &&& credential_text(self@, username@, "WALLABAG_CLIENT_SECRET"@) == Some(
                    account.client_secret@,
                )
                &&& credential_text(self@, username@, "WALLABAG_PASSWORD"@) == Some(
                    account.password@,
                )
                &&& credential_text(self@, username@, "WALLABAG_URL"@) == Some(
                    account.instance_url@,
                )
                &&& forall|j: int|
                    1 <= j < 5 ==> credential_text(self@, username@, #[trigger] credential_name(j))
                        == Some(credential_value(account, j))
            },
            r matches Err(e) ==> e == SecretError::NoResult && exists|j: int|
                1 <= j < 5 && credential_text(self@, username@, #[trigger] credential_name(j))
                    is None,
    {
        assert(readable(self@, username@, credential_name(1)));
        let client_id = match self.retrieve(username, "WALLABAG_CLIENT_ID") {
            Ok(v) => v,
            Err(e) => {
                assert(credential_text(self@, username@, credential_name(1)) is None);
                return Err(e);
            },
        };
        assert(found_secret(self@, username@, credential_name(1)) is Some);
        assert(readable(self@, username@, credential_name(2)));
        let client_secret = match self.retrieve(username, "WALLABAG_CLIENT_SECRET") {
            Ok(v) => v,
            Err(e) => {
                assert(credential_text(self@, username@, credential_name(2)) is None);
                return Err(e);
            },
        };
        assert(found_secret(self@, username@, credential_name(2)) is Some);
        assert(readable(self@, username@, credential_name(3)));
        let password = match self.retrieve(username, "WALLABAG_PASSWORD") {
            Ok(v) => v,
            Err(e) => {
                assert(credential_text(self@, username@, credential_name(3)) is None);
                return Err(e);
            },
        };
        assert(found_secret(self@, username@, credential_name(3)) is Some);
        assert(readable(self@, username@, credential_name(4)));
        let base_url = match self.retrieve(username, "WALLABAG_URL") {
            Ok(v) => v,
            Err(e) => {
                assert(credential_text(self@, username@, credential_name(4)) is None);
                return Err(e);
            },
        };
        let account = Account {
            client_id,
            client_secret,
            username: String::from_str(username),
            password,
            instance_url: base_url,
        };
        assert forall|j: int|
            1 <= j < 5 implies credential_text(self@, username@, #[trigger] credential_name(j))
            == Some(credential_value(account, j)) by {}
        Ok(account)
    }

    /// Deletes every item of the account `username`; gives back the positions
    /// (in the collection before the call) of the items it deleted, in
    /// increasing order.
    pub fn logout(&mut self, username: &str) -> (removed: Vec<usize>)
        ensures
            final(self)@ == without_account(old(self)@, username@),
            forall|j: int|
                0 <= j < old(self)@.len() ==> (of_account(#[trigger] old(self)@[j], username@)
                    <==> removed@.contains(j as usize)),
            forall|m: int| 0 <= m < removed@.len() ==> #[trigger] removed@[m] < old(self)@.len(),
            forall|m: int, n: int|
                0 <= m < n < removed@.len() ==> #[trigger] removed@[m] < #[trigger] removed@[n],
    {
        let ghost start = self@;
        let total = self.items.len();
        let mut removed: Vec<usize> = Vec::new();
        let mut i: usize = 0;
        let mut k: usize = 0;
        assert(start.take(0) =~= Seq::<SecretItem>::empty());
        assert(start.skip(0) =~= start);
        while i < self.items.len()
            invariant
                start.len() == total,
                k <= start.len(),
                i <= self@.len(),
                self@.take(i as int) == without_account(start.take(k as int), username@),
                self@.skip(i as int) == start.skip(k as int),
                forall|j: int|
                    0 <= j < k ==> (of_account(#[trigger] start[j], username@)
                        <==> removed@.contains(j as usize)),
                forall|m: int| 0 <= m < removed@.len() ==> #[trigger] removed@[m] < k,
                forall|m: int, n: int|
                    0 <= m < n < removed@.len() ==> #[trigger] removed@[m] < #[trigger] removed@[n],
            decreases self@.len() - i,
        {
            assert(self@.skip(i as int).len() > 0);
            assert(k < start.len());
            assert(start.take(k + 1).drop_last() =~= start.take(k as int));
            assert(start.skip(k as int)[0] == start[k as int]);
            assert(self@.skip(i as int)[0] == self@[i as int]);
            let ghost removed_before = removed@;
            if item_has_attribute(&self.items[i], "wallabag_username", username) {
                let ghost before = self@;
                self.items.remove(i);
                removed.push(k);
                assert(self@.take(i as int) =~= before.take(i as int));
                assert(self@.skip(i as int) =~= before.skip(i + 1));
                assert(before.skip(i + 1) =~= start.skip(k + 1)) by {
                    assert(before.skip(i as int).drop_first() =~= before.skip(i + 1));
                    assert(start.skip(k as int).drop_first() =~= start.skip(k + 1));
                }
                assert(removed@[removed@.len() - 1] == k);
                assert forall|j: int| 0 <= j < k + 1 implies (of_account(#[trigger] start[j], username@)
                    <==> removed@.contains(j as usize)) by {
                    if j < k {
                        if removed_before.contains(j as usize) {
                            let m = choose|m: int| 0 <= m < removed_before.len() && removed_before[m] == j as usize;
                            assert(removed@[m] == j as usize);
                        }
                        if removed@.contains(j as usize) {
                            let m = choose|m: int| 0 <= m < removed@.len() && removed@[m] == j as usize;
                            if m < removed_before.len() {
                                assert(removed_before[m] == j as usize);
                            }
                        }
                    }
                }
            } else {
                let ghost before = self@;
                assert(self@.take(i + 1) =~= before.take(i as int).push(before[i as int]));
                assert(self@.skip(i + 1) =~= start.skip(k + 1)) by {
                    assert(before.skip(i as int).drop_first() =~= before.skip(i + 1));
                    assert(start.skip(k as int).drop_first() =~= start.skip(k + 1));
                }
                i = i + 1;
            }
            k = k + 1;
        }
        assert(self@.take(i as int) =~= self@);
        assert(start.skip(k as int).len() == 0);
        assert(start.take(k as int) =~= start);
        removed
    }
}

proof fn lemma_found_in_concat(s: Seq<SecretItem>, t: Seq<SecretItem>, u: Seq<char>, a: Seq<char>)
    requires
        forall|i: int| 0 <= i < s.len() ==> !of_account(#[trigger] s[i], u),
    ensures
        found_secret(s + t, u, a) == found_secret(t, u, a),
    decreases s.len(),
{
    if s.len() > 0 {
        assert((s + t)[0] == s[0]);
        assert((s + t).drop_first() =~= s.drop_first() + t);
        assert forall|i: int| 0 <= i < s.drop_first().len() implies !of_account(
            #[trigger] s.drop_first()[i],
            u,
        ) by {
            assert(s.drop_first()[i] == s[i + 1]);
        }
        lemma_found_in_concat(s.drop_first(), t, u, a);
    } else {
        assert(s + t =~= t);
    }
}

/// After the credentials of an account are stored into a collection that
/// held none of that account, each of them reads back as stored.
pub proof fn lemma_store_then_retrieve(s: Seq<SecretItem>, t: Seq<SecretItem>, account: Account)
    requires
        forall|i: int| 0 <= i < s.len() ==> !of_account(#[trigger] s[i], account.username@),
        t.len() == s.len() + 5,
        t.take(s.len() as int) == s,
        forall|j: int|
            0 <= j < 5 ==> is_credential_item(
                #[trigger] t[s.len() + j],
                account.username@,
                credential_name(j),
                credential_value(account, j),
            ),
    ensures
        forall|j: int|
            0 <= j < 5 ==> readable(t, account.username@, #[trigger] credential_name(j))
                && credential_text(t, account.username@, credential_name(j)) == Some(
                credential_value(account, j),
            ),
{
    reveal_strlit("wallabag_username");
    reveal_strlit("attr");
    reveal_strlit("WALLABAG_USERNAME");
    reveal_strlit("WALLABAG_CLIENT_ID");
    reveal_strlit("WALLABAG_CLIENT_SECRET");
    reveal_strlit("WALLABAG_PASSWORD");
    reveal_strlit("WALLABAG_URL");
    lemma_credential_names_distinct();
    let u = account.username@;
    let n = s.len() as int;
    let added = t.skip(n);
    assert forall|m: int| 0 <= m < 5 implies is_credential_item(
        #[trigger] added[m],
        account.username@,
        credential_name(m),
        credential_value(account, m),
    ) by {
        assert(added[m] == t[n + m]);
    }
    assert(t =~= s + added);
    assert forall|j: int| 0 <= j < 5 implies readable(t, u, #[trigger] credential_name(j))
        && credential_text(t, u, credential_name(j)) == Some(credential_value(account, j)) by {
        lemma_found_in_concat(s, added, u, credential_name(j));
        assert(added.skip(0) =~= added);
        lemma_found_among_credentials(added, account, j, 0);
        encode_utf8_decode_utf8(credential_value(account, j));
        encode_utf8_valid_utf8(credential_value(account, j));
    }
}

/// After the credentials of an account are stored into a collection that
/// held none of that account, the credential named `WALLABAG_USERNAME` reads
/// back as its user name, `WALLABAG_CLIENT_ID` as its client id,
/// `WALLABAG_CLIENT_SECRET` as its client secret, `WALLABAG_PASSWORD` as its
/// password and `WALLABAG_URL` as its instance URL.
pub proof fn lemma_stored_credentials_by_name(s: Seq<SecretItem>, t: Seq<SecretItem>, account: Account)
    requires
        forall|i: int| 0 <= i < s.len() ==> !of_account(#[trigger] s[i], account.username@),
        t.len() == s.len() + 5,
        t.take(s.len() as int) == s,
        forall|j: int|
            0 <= j < 5 ==> is_credential_item(
                #[trigger] t[s.len() + j],
                account.username@,
                credential_name(j),
                credential_value(account, j),
            ),
    ensures
        credential_text(t, account.username@, "WALLABAG_USERNAME"@) == Some(account.username@),
        credential_text(t, account.username@, "WALLABAG_CLIENT_ID"@) == Some(account.client_id@),
        credential_text(t, account.username@, "WALLABAG_CLIENT_SECRET"@) == Some(
            account.client_secret@,
        ),
        credential_text(t, account.username@, "WALLABAG_PASSWORD"@) == Some(account.password@),
        credential_text(t, account.username@, "WALLABAG_URL"@) == Some(account.instance_url@),
{
    lemma_store_then_retrieve(s, t, account);
    assert(credential_name(0) == "WALLABAG_USERNAME"@);
    assert(credential_name(1) == "WALLABAG_CLIENT_ID"@);
    assert(credential_name(2) == "WALLABAG_CLIENT_SECRET"@);
    assert(credential_name(3) == "WALLABAG_PASSWORD"@);
    assert(credential_name(4) == "WALLABAG_URL"@);
}

proof fn lemma_credential_names_distinct()
    ensures
        "wallabag_username"@ != "attr"@,
        forall|p: int, q: int| 0 <= p < 5 && 0 <= q < 5 && p != q ==> credential_name(p)
            != credential_name(q),
{
    reveal_strlit("wallabag_username");
    reveal_strlit("attr");
    reveal_strlit("WALLABAG_USERNAME");
    reveal_strlit("WALLABAG_CLIENT_ID");
    reveal_strlit("WALLABAG_CLIENT_SECRET");
    reveal_strlit("WALLABAG_PASSWORD");
    reveal_strlit("WALLABAG_URL");
    assert("wallabag_username"@.len() != "attr"@.len());
    assert forall|p: int, q: int| 0 <= p < 5 && 0 <= q < 5 && p != q implies credential_name(p)
        != credential_name(q) by {
        if credential_name(p).len() == credential_name(q).len() {
            assert(credential_name(p)[9] != credential_name(q)[9]);
        }
    }
}

proof fn lemma_found_among_credentials(added: Seq<SecretItem>, account: Account, j: int, from: int)
    requires
        0 <= from <= j < 5,
        added.len() == 5,
        forall|m: int|
            0 <= m < 5 ==> is_credential_item(
                #[trigger] added[m],
                account.username@,
                credential_name(m),
                credential_value(account, m),
            ),
        "wallabag_username"@ != "attr"@,
        forall|p: int, q: int| 0 <= p < 5 && 0 <= q < 5 && p != q ==> credential_name(p)
            != credential_name(q),
    ensures
        found_secret(added.skip(from), account.username@, credential_name(j)) == Some(
            encode_utf8(credential_value(account, j)),
        ),
    decreases j - from,
{
    let u = account.username@;
    let rest = added.skip(from);
    let item = added[from];
    assert(rest[0] == item);
    assert(item.attributes@[0].0@ == "wallabag_username"@);
    assert(item.attributes@[1].0@ == "attr"@);
    if from == j {
        assert(has_attribute(item, username_attribute(), u)) by {
            assert(item.attributes@[0].0@ == username_attribute());
        }
        assert(has_attribute(item, credential_attribute(), credential_name(j))) by {
            assert(item.attributes@[1].0@ == credential_attribute());
        }
    } else {
        assert(!has_attribute(item, credential_attribute(), credential_name(j))) by {
            if has_attribute(item, credential_attribute(), credential_name(j)) {
                let i = choose|i: int|
                    #![trigger item.attributes@[i]]
                    0 <= i < item.attributes@.len() && item.attributes@[i].0@
                        == credential_attribute() && item.attributes@[i].1@ == credential_name(j);
                assert(i == 0 || i == 1);
            }
        }
        assert(rest.drop_first() =~= added.skip(from + 1));
        lemma_found_among_credentials(added, account, j, from + 1);
    }
}

/// After an account's items are deleted, none of its credentials can be read.
pub proof fn lemma_logout_forgets(items: Seq<SecretItem>, username: Seq<char>, attr: Seq<char>)
    ensures
        found_secret(without_account(items, username), username, attr) is None,
        forall|i: int|
            0 <= i < without_account(items, username).len() ==> !of_account(
                #[trigger] without_account(items, username)[i],
                username,
            ),
    decreases items.len(),
{
    let r = without_account(items, username);
    if items.len() > 0 {
        lemma_logout_forgets(items.drop_last(), username, attr);
        let prev = without_account(items.drop_last(), username);
        if !of_account(items.last(), username) {
            assert forall|i: int| 0 <= i < r.len() implies !of_account(#[trigger] r[i], username) by {
                if i < prev.len() {
                    assert(r[i] == prev[i]);
                }
            }
        }
    }
    lemma_found_none(r, username, attr);
}

proof fn lemma_found_none(items: Seq<SecretItem>, username: Seq<char>, attr: Seq<char>)
    requires
        forall|i: int| 0 <= i < items.len() ==> !of_account(#[trigger] items[i], username),
    ensures
        found_secret(items, username, attr) is None,
    decreases items.len(),
{
    if items.len() > 0 {
        assert(!of_account(items[0], username));
        assert forall|i: int| 0 <= i < items.drop_first().len() implies !of_account(
            #[trigger] items.drop_first()[i],
            username,
        ) by {
            assert(items.drop_first()[i] == items[i + 1]);
        }
        lemma_found_none(items.drop_first(), username, attr);
    }
}

} // verus!
