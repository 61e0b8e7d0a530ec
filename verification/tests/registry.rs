use learnify::errors::Error;
use learnify::registry::Registry;

#[test]
fn register_then_duplicate_keeps_first_role() {
    let mut reg = Registry::new();
    assert_eq!(reg.register(1, "teacher".to_string()), Ok(()));
    assert_eq!(reg.register(1, "student".to_string()), Err(Error::AlreadyExists));
    assert_eq!(reg.get_role(1), Ok("teacher".to_string()));
}

#[test]
fn unregistered_identity_has_no_role() {
    let reg = Registry::new();
    assert_eq!(reg.get_role(42), Err(Error::NotFound));
    assert!(!reg.is_registered(42));
}

#[test]
fn registration_is_visible() {
    let mut reg = Registry::new();
    assert!(!reg.is_registered(7));
    assert_eq!(reg.register(7, "student".to_string()), Ok(()));
    assert!(reg.is_registered(7));
    assert_eq!(reg.get_role(7), Ok("student".to_string()));
}

#[test]
fn restricted_action_requires_registration() {
    let reg = Registry::new();
    assert_eq!(reg.restricted_action(5), Err(Error::NotRegistered));
}

#[test]
fn restricted_action_refuses_non_admin_roles() {
    let mut reg = Registry::new();
    reg.register(5, "moderator".to_string()).unwrap();
    assert_eq!(reg.restricted_action(5), Err(Error::InsufficientPermissions));
    let mut reg2 = Registry::new();
    reg2.register(6, "Admin".to_string()).unwrap();
    assert_eq!(reg2.restricted_action(6), Err(Error::InsufficientPermissions));
}

#[test]
fn restricted_action_admits_exactly_the_admin_label() {
    let mut reg = Registry::new();
    reg.register(9, "admin".to_string()).unwrap();
    assert_eq!(reg.restricted_action(9), Ok(()));
}

#[test]
fn identities_register_independently() {
    let mut reg = Registry::new();
    reg.register(1, "admin".to_string()).unwrap();
    assert_eq!(reg.register(2, "student".to_string()), Ok(()));
    assert_eq!(reg.get_role(1), Ok("admin".to_string()));
    assert_eq!(reg.get_role(2), Ok("student".to_string()));
}

#[test]
fn error_messages_are_stable() {
    assert_eq!(Error::NotFound.message(), "no record found for this identity");
    assert_eq!(Error::AlreadyExists.message(), "a record already exists for this identity");
    assert_eq!(Error::NotRegistered.message(), "user not registered");
    assert_eq!(Error::InsufficientPermissions.message(), "insufficient permissions");
    assert_eq!(Error::InvalidIndex.message(), "invalid goal or user");
    assert_eq!(Error::NoActiveSession.message(), "no active staking session");
}
