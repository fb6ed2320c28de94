use slasettle::address::{Address, AddressKind};
use slasettle::watcher_registry::events::{WatcherRegistered, WatcherRemoved};
use slasettle::watcher_registry::storage::Error;
use slasettle::watcher_registry::WatcherRegistry;

fn account(n: u128) -> Address {
    Address::new(AddressKind::Account, 0, n)
}

fn setup() -> (WatcherRegistry, Address) {
    (WatcherRegistry::default(), account(1))
}

#[test]
fn test_test_initialize_succeeds() {
    let (mut client, admin) = setup();
    client.initialize(admin).unwrap();
}

#[test]
fn test_test_initialize_twice_fails() {
    let (mut client, admin) = setup();
    client.initialize(admin).unwrap();
    let result = client.initialize(admin);
    assert_eq!(result, Err(Error::AlreadyInitialized));
}

#[test]
fn test_watcher_count_starts_at_zero() {
    let (mut client, admin) = setup();
    client.initialize(admin).unwrap();
    assert_eq!(client.get_watcher_count(), 0);
}

#[test]
fn test_register_watcher_adds_to_set_and_increments_count() {
    let (mut client, admin) = setup();
    client.initialize(admin).unwrap();
    let watcher = account(2);

    client.register_watcher(admin, watcher).unwrap();

    assert!(client.is_watcher(watcher));
    assert_eq!(client.get_watcher_count(), 1);
}

#[test]
fn test_register_watcher_twice_does_not_double_count() {
    let (mut client, admin) = setup();
    client.initialize(admin).unwrap();
    let watcher = account(2);

    client.register_watcher(admin, watcher).unwrap();
    client.register_watcher(admin, watcher).unwrap();

    assert_eq!(client.get_watcher_count(), 1);
}

#[test]
fn test_register_watcher_by_non_admin_fails() {
    let (mut client, admin) = setup();
    client.initialize(admin).unwrap();
    let not_admin = account(3);
    let watcher = account(2);

    let result = client.register_watcher(not_admin, watcher);
    assert_eq!(result, Err(Error::NotAuthorized));
}

#[test]
fn test_remove_watcher_removes_from_set_and_decrements_count() {
    let (mut client, admin) = setup();
    client.initialize(admin).unwrap();
    let watcher = account(2);
    client.register_watcher(admin, watcher).unwrap();

    client.remove_watcher(admin, watcher).unwrap();

    assert!(!client.is_watcher(watcher));
    assert_eq!(client.get_watcher_count(), 0);
}

#[test]
fn test_remove_watcher_not_registered_is_a_no_op() {
    let (mut client, admin) = setup();
    client.initialize(admin).unwrap();
    let watcher = account(2);

    client.remove_watcher(admin, watcher).unwrap();
    assert_eq!(client.get_watcher_count(), 0);
}

#[test]
fn register_returns_event_only_for_new_watchers() {
    let (mut client, admin) = setup();
    client.initialize(admin).unwrap();
    let watcher = account(2);
    assert_eq!(
        client.register_watcher(admin, watcher),
        Ok(Some(WatcherRegistered { watcher }))
    );
    assert_eq!(client.register_watcher(admin, watcher), Ok(None));
    assert_eq!(client.remove_watcher(admin, watcher), Ok(Some(WatcherRemoved { watcher })));
    assert_eq!(client.remove_watcher(admin, watcher), Ok(None));
}

#[test]
fn remove_undoes_register() {
    let (mut client, admin) = setup();
    client.initialize(admin).unwrap();
    let a = account(2);
    let b = account(3);
    let c = account(4);
    client.register_watcher(admin, a).unwrap();
    client.register_watcher(admin, b).unwrap();
    client.register_watcher(admin, c).unwrap();
    assert_eq!(client.get_watcher_count(), 3);

    client.remove_watcher(admin, b).unwrap();
    assert!(client.is_watcher(a));
    assert!(!client.is_watcher(b));
    assert!(client.is_watcher(c));
    assert_eq!(client.get_watcher_count(), 2);

    client.register_watcher(admin, b).unwrap();
    assert!(client.is_watcher(b));
    assert_eq!(client.get_watcher_count(), 3);
}

#[test]
fn registry_calls_before_initialize_fail() {
    let (mut client, admin) = setup();
    assert_eq!(client.register_watcher(admin, account(2)), Err(Error::NotAuthorized));
    assert_eq!(client.remove_watcher(admin, account(2)), Err(Error::NotAuthorized));
    assert_eq!(client.get_watcher_count(), 0);
    assert!(!client.is_watcher(account(2)));
}

#[test]
fn remove_by_non_admin_fails() {
    let (mut client, admin) = setup();
    client.initialize(admin).unwrap();
    client.register_watcher(admin, account(2)).unwrap();
    assert_eq!(client.remove_watcher(account(3), account(2)), Err(Error::NotAuthorized));
    assert!(client.is_watcher(account(2)));
}

#[test]
fn addresses_differ_by_kind() {
    let (mut client, admin) = setup();
    client.initialize(admin).unwrap();
    let as_account = Address::new(AddressKind::Account, 5, 6);
    let as_contract = Address::new(AddressKind::Contract, 5, 6);
    client.register_watcher(admin, as_account).unwrap();
    assert!(client.is_watcher(as_account));
    assert!(!client.is_watcher(as_contract));
}

#[test]
fn a_registry_holding_only_the_named_watcher_answers_alike() {
    let (mut full, admin) = setup();
    full.initialize(admin).unwrap();
    for n in 2..6 {
        full.register_watcher(admin, account(n)).unwrap();
    }
    let mut partial = WatcherRegistry {
        admin: full.admin,
        watchers: vec![account(3)],
        watcher_count: full.get_watcher_count(),
    };
    assert_eq!(partial.register_watcher(admin, account(3)), full.register_watcher(admin, account(3)));
    assert_eq!(partial.remove_watcher(admin, account(3)), full.remove_watcher(admin, account(3)));
    assert_eq!(partial.get_watcher_count(), full.get_watcher_count());
    assert_eq!(partial.get_watcher_count(), 3);
    assert_eq!(partial.is_watcher(account(3)), full.is_watcher(account(3)));
}
