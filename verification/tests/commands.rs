use license_store::{
    add_command, list_command, lookup_command, remove_command, update_command, Entry, Selector,
    ServiceError,
};

fn body(id: Option<i32>, key: Option<&str>, license: Option<&str>) -> Entry {
    Entry { id, key: key.map(String::from), license: license.map(String::from) }
}

fn bound(values: &[Option<&str>]) -> Vec<Option<String>> {
    values.iter().map(|value| value.map(String::from)).collect()
}

#[test]
fn list_command_binds_nothing() {
    let command = list_command();
    assert_eq!(command.sql, "SELECT id, key, license FROM licenses");
    assert_eq!(command.params, bound(&[]));
}

#[test]
fn lookup_command_binds_the_key() {
    let command = lookup_command(String::from("alpha"));
    assert_eq!(command.sql, "SELECT id, key, license FROM licenses WHERE key = ?");
    assert_eq!(command.params, bound(&[Some("alpha")]));
}

#[test]
fn add_command_binds_key_then_license() {
    let command = add_command(body(Some(9), Some("alpha"), Some("MIT")));
    assert_eq!(command.sql, "INSERT INTO licenses (key, license) VALUES (?, ?)");
    assert_eq!(command.params, bound(&[Some("alpha"), Some("MIT")]));
    assert_eq!(add_command(body(None, None, None)).params, bound(&[None, None]));
}

#[test]
fn remove_command_by_key_binds_the_key() {
    let command = remove_command(Selector::Key, body(Some(3), Some("alpha"), Some("MIT")));
    assert_eq!(command.sql, "DELETE FROM licenses WHERE key = ?");
    assert_eq!(command.params, bound(&[Some("alpha")]));
    assert_eq!(remove_command(Selector::Key, body(Some(3), None, None)).params, bound(&[None]));
}

#[test]
fn remove_command_by_id_binds_the_digits_of_the_id() {
    let command = remove_command(Selector::Id, body(Some(-42), Some("alpha"), Some("MIT")));
    assert_eq!(command.sql, "DELETE FROM licenses WHERE id = ?");
    assert_eq!(command.params, bound(&[Some("-42")]));
    assert_eq!(remove_command(Selector::Id, body(None, Some("a"), None)).params, bound(&[None]));
}

#[test]
fn update_command_by_key_binds_license_then_key() {
    let command = update_command(Selector::Key, body(Some(3), Some("alpha"), Some("MIT"))).unwrap();
    assert_eq!(command.sql, "UPDATE licenses SET license = ? WHERE key = ?");
    assert_eq!(command.params, bound(&[Some("MIT"), Some("alpha")]));
    let bare = update_command(Selector::Key, body(None, None, None)).unwrap();
    assert_eq!(bare.params, bound(&[None, None]));
}

#[test]
fn update_command_by_id_binds_license_then_id() {
    let command = update_command(Selector::Id, body(Some(120), Some("alpha"), Some("MIT"))).unwrap();
    assert_eq!(command.sql, "UPDATE licenses SET license = ? WHERE id = ?");
    assert_eq!(command.params, bound(&[Some("MIT"), Some("120")]));
}

#[test]
fn update_command_by_id_insists_on_id_and_license() {
    let missing_id = update_command(Selector::Id, body(None, Some("alpha"), Some("MIT")));
    assert!(matches!(missing_id, Err(ServiceError::MissingField)));
    let missing_license = update_command(Selector::Id, body(Some(1), Some("alpha"), None));
    assert!(matches!(missing_license, Err(ServiceError::MissingField)));
    let missing_both = update_command(Selector::Id, body(None, None, None));
    assert!(matches!(missing_both, Err(ServiceError::MissingField)));
}
