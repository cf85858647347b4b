use spaw::registry::{get_device_token, register_device, remove_device, DeviceInfo, Registry, RemoveOutcome};

fn fresh_db() -> sled::Db {
    sled::Config::new().temporary(true).open().unwrap()
}

fn fresh() -> Registry {
    Registry::new(fresh_db())
}

fn info(device: &str, user: &str) -> DeviceInfo {
    DeviceInfo { device_token: device.to_string(), user_token: user.to_string() }
}

#[test]
fn register_twice_same_as_once() {
    let mut once = fresh();
    once.register("u1", "d1").unwrap();
    let mut twice = fresh();
    twice.register("u1", "d1").unwrap();
    twice.register("u1", "d1").unwrap();
    assert_eq!(once.lookup("u1").unwrap(), Some("d1".to_string()));
    assert_eq!(twice.lookup("u1").unwrap(), once.lookup("u1").unwrap());
}

#[test]
fn later_registration_overwrites() {
    let mut reg = fresh();
    reg.register("U", "A").unwrap();
    reg.register("U", "B").unwrap();
    assert_eq!(reg.lookup("U").unwrap(), Some("B".to_string()));
}

#[test]
fn lookup_on_empty_registry_misses() {
    let reg = fresh();
    assert_eq!(reg.lookup("unknown").unwrap(), None);
    assert_eq!(get_device_token(&reg, "unknown"), None);
}

#[test]
fn removal_stops_lookup() {
    let mut reg = fresh();
    reg.register("D", "D").unwrap();
    assert_eq!(reg.lookup("D").unwrap(), Some("D".to_string()));
    assert_eq!(reg.remove("D").unwrap(), true);
    assert_eq!(reg.lookup("D").unwrap(), None);
}

#[test]
fn round_trip_exact_bytes() {
    let mut reg = fresh();
    reg.register("user-é", "dévice 🚀 token").unwrap();
    assert_eq!(reg.lookup("user-é").unwrap(), Some("dévice 🚀 token".to_string()));
}

#[test]
fn lookup_matches_prefix_in_key_order() {
    let mut reg = fresh();
    reg.register("alice-b", "second").unwrap();
    reg.register("alice-a", "first").unwrap();
    assert_eq!(reg.lookup("alice").unwrap(), Some("first".to_string()));
    assert_eq!(reg.lookup("alice-b").unwrap(), Some("second".to_string()));
    assert_eq!(reg.lookup("bob").unwrap(), None);
}

#[test]
fn exact_key_wins_over_longer_keys() {
    let mut reg = fresh();
    reg.register("ab", "long").unwrap();
    reg.register("a", "short").unwrap();
    assert_eq!(reg.lookup("a").unwrap(), Some("short".to_string()));
}

#[test]
fn non_text_value_reads_as_none() {
    let db = fresh_db();
    db.insert(b"user", vec![0xffu8, 0xfe]).unwrap();
    let reg = Registry::new(db);
    assert_eq!(reg.lookup("user").unwrap(), None);
    assert_eq!(get_device_token(&reg, "user"), None);
}

#[test]
fn empty_strings_are_data() {
    let mut reg = fresh();
    reg.register("", "").unwrap();
    assert_eq!(reg.lookup("").unwrap(), Some(String::new()));
}

#[test]
fn register_device_stores_pair() {
    let mut reg = fresh();
    assert!(register_device(&mut reg, &info("dev123", "user1")).is_ok());
    assert_eq!(get_device_token(&reg, "user1"), Some("dev123".to_string()));
}

#[test]
fn remove_missing_device_is_not_found() {
    let mut reg = fresh();
    let outcome = remove_device(&mut reg, "dev123");
    assert!(matches!(outcome, RemoveOutcome::NotFound));
    assert_eq!(outcome.status(), 404);
}

#[test]
fn remove_present_device() {
    let mut reg = fresh();
    reg.register("dev123", "x").unwrap();
    let outcome = remove_device(&mut reg, "dev123");
    assert!(matches!(outcome, RemoveOutcome::Removed));
    assert_eq!(outcome.status(), 200);
    assert_eq!(reg.remove("dev123").unwrap(), false);
}

#[test]
fn remove_is_keyed_not_by_value() {
    let mut reg = fresh();
    reg.register("user1", "dev123").unwrap();
    assert!(matches!(remove_device(&mut reg, "dev123"), RemoveOutcome::NotFound));
    assert_eq!(reg.lookup("user1").unwrap(), Some("dev123".to_string()));
}
