use read_it_later::account::Account;
use read_it_later::secret::{SecretError, SecretItem, SecretManager};

fn account(name: &str) -> Account {
    Account {
        instance_url: "https://wallabag.example".to_string(),
        client_id: "cid".to_string(),
        client_secret: "csecret".to_string(),
        username: name.to_string(),
        password: "pw".to_string(),
    }
}

fn foreign_item() -> SecretItem {
    SecretItem {
        label: "Other application".to_string(),
        attributes: vec![("service".to_string(), "mail".to_string())],
        secret: vec![1, 2, 3],
        content_type: "application/octet-stream".to_string(),
        unlocked: true,
    }
}

#[test]
fn stored_credentials_log_in() {
    let mut m = SecretManager::new(vec![foreign_item()]);
    m.store_from_config(&account("ann"));
    assert_eq!(m.items().len(), 6);
    let logged = m.is_logged("ann").unwrap();
    assert_eq!(logged, account("ann"));
    assert_eq!(m.retrieve("ann", "WALLABAG_USERNAME").unwrap(), "ann");
}

#[test]
fn stored_items_are_labelled_and_tagged() {
    let mut m = SecretManager::new(vec![]);
    m.insert("ann", "WALLABAG_URL", "https://x");
    let item = &m.items()[0];
    assert_eq!(item.label, "Read It Later account: ann");
    assert_eq!(
        item.attributes,
        vec![
            ("wallabag_username".to_string(), "ann".to_string()),
            ("attr".to_string(), "WALLABAG_URL".to_string())
        ]
    );
    assert_eq!(item.secret, b"https://x".to_vec());
    assert_eq!(item.content_type, "text/plain");
    assert!(item.unlocked);
}

#[test]
fn missing_credentials_are_no_result() {
    let mut m = SecretManager::new(vec![]);
    assert_eq!(m.is_logged("ann"), Err(SecretError::NoResult));
    m.insert("ann", "WALLABAG_CLIENT_ID", "cid");
    assert_eq!(m.retrieve("ann", "WALLABAG_CLIENT_ID").unwrap(), "cid");
    assert_eq!(m.is_logged("ann"), Err(SecretError::NoResult));
    assert_eq!(m.retrieve("bob", "WALLABAG_CLIENT_ID"), Err(SecretError::NoResult));
}

#[test]
fn locked_items_are_not_read() {
    let mut m = SecretManager::new(vec![]);
    m.insert("ann", "WALLABAG_PASSWORD", "pw");
    let mut items: Vec<SecretItem> = Vec::new();
    for it in m.items() {
        items.push(SecretItem {
            label: it.label.clone(),
            attributes: it.attributes.clone(),
            secret: it.secret.clone(),
            content_type: it.content_type.clone(),
            unlocked: false,
        });
    }
    let locked = SecretManager::new(items);
    assert_eq!(locked.retrieve("ann", "WALLABAG_PASSWORD"), Err(SecretError::NoResult));
}

#[test]
fn first_stored_value_wins() {
    let mut m = SecretManager::new(vec![]);
    m.insert("ann", "WALLABAG_PASSWORD", "old");
    m.insert("ann", "WALLABAG_PASSWORD", "new");
    assert_eq!(m.retrieve("ann", "WALLABAG_PASSWORD").unwrap(), "old");
}

#[test]
fn logout_forgets_only_that_account() {
    let mut m = SecretManager::new(vec![foreign_item()]);
    m.store_from_config(&account("ann"));
    m.store_from_config(&account("bob"));
    assert_eq!(m.logout("ann"), vec![1, 2, 3, 4, 5]);
    assert_eq!(m.items().len(), 6);
    assert_eq!(m.logout("nobody"), Vec::<usize>::new());
    assert_eq!(m.is_logged("ann"), Err(SecretError::NoResult));
    assert_eq!(m.is_logged("bob").unwrap(), account("bob"));
    assert_eq!(m.items()[0].label, "Other application");
}

#[test]
fn reading_stops_at_the_first_missing_credential() {
    let mut m = SecretManager::new(vec![]);
    m.insert("ann", "WALLABAG_CLIENT_SECRET", "csecret");
    let mut items: Vec<SecretItem> = Vec::new();
    for it in m.items() {
        items.push(SecretItem {
            label: it.label.clone(),
            attributes: it.attributes.clone(),
            secret: vec![0xff, 0xfe],
            content_type: it.content_type.clone(),
            unlocked: true,
        });
    }
    let m = SecretManager::new(items);
    assert_eq!(m.is_logged("ann"), Err(SecretError::NoResult));
}
