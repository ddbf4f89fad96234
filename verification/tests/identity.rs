use zaps::address::Address;
use zaps::authorization::Authorization;
use zaps::identity::{Error, UserIdentityContract};

fn address(tag: u8) -> Address {
    Address::from_array([tag; 32])
}

#[test]
fn test_register_user_success() {
    let mut registry = UserIdentityContract::new();
    let user_addr = address(1);
    let auth = Authorization::signed_by(user_addr);
    let role = String::from("admin");

    registry.register(&auth, user_addr, role.clone()).unwrap();

    assert!(registry.is_registered(user_addr));

    let user = registry.get_user(user_addr).unwrap();
    assert_eq!(user.address, user_addr);
    assert_eq!(user.role, role);
}

#[test]
fn test_test_register_duplicate_user() {
    let mut registry = UserIdentityContract::new();
    let user_addr = address(1);
    let auth = Authorization::signed_by(user_addr);
    let role = String::from("user");

    registry.register(&auth, user_addr, role.clone()).unwrap();

    let result = registry.register(&auth, user_addr, role);
    assert_eq!(result.unwrap_err(), Error::AlreadyRegistered);
}

#[test]
fn test_get_user_not_found() {
    let registry = UserIdentityContract::new();
    let user_addr = address(1);

    let result = registry.get_user(user_addr);
    assert_eq!(result.unwrap_err(), Error::UserNotFound);
}

#[test]
fn test_is_registered_false() {
    let registry = UserIdentityContract::new();
    let user_addr = address(1);

    assert!(!registry.is_registered(user_addr));
}

#[test]
fn test_multiple_users_with_different_roles() {
    let mut registry = UserIdentityContract::new();

    let admin_addr = address(1);
    let admin_role = String::from("admin");

    let moderator_addr = address(2);
    let moderator_role = String::from("moderator");

    let user_addr = address(3);
    let user_role = String::from("user");

    let auth = Authorization::signed_by(admin_addr).and(moderator_addr).and(user_addr);

    registry.register(&auth, admin_addr, admin_role.clone()).unwrap();
    registry.register(&auth, moderator_addr, moderator_role.clone()).unwrap();
    registry.register(&auth, user_addr, user_role.clone()).unwrap();

    assert!(registry.is_registered(admin_addr));
    assert!(registry.is_registered(moderator_addr));
    assert!(registry.is_registered(user_addr));

    let admin = registry.get_user(admin_addr).unwrap();
    assert_eq!(admin.role, admin_role);

    let moderator = registry.get_user(moderator_addr).unwrap();
    assert_eq!(moderator.role, moderator_role);

    let user = registry.get_user(user_addr).unwrap();
    assert_eq!(user.role, user_role);
}

#[test]
fn test_register_requires_auth() {
    let mut registry = UserIdentityContract::new();
    let user_addr = address(1);
    let role = String::from("user");

    // Without the address's own authorization nothing is registered.
    let other = Authorization::signed_by(address(2));
    let result = registry.register(&other, user_addr, role.clone());
    assert_eq!(result.unwrap_err(), Error::NotAuthorized);
    let result = registry.register(&Authorization::none(), user_addr, role.clone());
    assert_eq!(result.unwrap_err(), Error::NotAuthorized);
    assert!(!registry.is_registered(user_addr));

    let auth = Authorization::signed_by(user_addr);
    let registered = registry.register(&auth, user_addr, role).unwrap();
    assert_eq!(registered.address, user_addr);
    assert!(registry.is_registered(user_addr));
}

#[test]
fn test_register_with_empty_role() {
    let mut registry = UserIdentityContract::new();
    let user_addr = address(1);
    let auth = Authorization::signed_by(user_addr);
    let empty_role = String::from("");

    registry.register(&auth, user_addr, empty_role.clone()).unwrap();

    let user = registry.get_user(user_addr).unwrap();
    assert_eq!(user.role, empty_role);
}

#[test]
fn test_register_with_long_role_name() {
    let mut registry = UserIdentityContract::new();
    let user_addr = address(1);
    let auth = Authorization::signed_by(user_addr);
    let long_role = String::from("super_administrator_with_full_permissions");

    registry.register(&auth, user_addr, long_role.clone()).unwrap();

    let user = registry.get_user(user_addr).unwrap();
    assert_eq!(user.role, long_role);
}

#[test]
fn a_refused_registration_keeps_the_first_role() {
    let mut registry = UserIdentityContract::new();
    let user_addr = address(1);
    let auth = Authorization::signed_by(user_addr);
    registry.register(&auth, user_addr, String::from("merchant")).unwrap();

    let result = registry.register(&auth, user_addr, String::from("admin"));
    assert_eq!(result.unwrap_err(), Error::AlreadyRegistered);
    assert_eq!(registry.get_user(user_addr).unwrap().role, "merchant");
}

#[test]
fn addresses_that_differ_in_one_byte_are_different_users() {
    let mut registry = UserIdentityContract::new();
    let mut bytes = [7u8; 32];
    let first = Address::from_array(bytes);
    bytes[31] = 8;
    let second = Address::from_array(bytes);
    assert_ne!(first, second);

    registry.register(&Authorization::signed_by(first), first, String::from("user")).unwrap();
    assert!(registry.is_registered(first));
    assert!(!registry.is_registered(second));
    assert_eq!(registry.get_user(second).unwrap_err(), Error::UserNotFound);
}

#[test]
fn authorization_knows_exactly_its_signers() {
    let a = address(1);
    let b = address(2);
    let c = address(3);
    let none = Authorization::none();
    assert!(!none.allows(&a));
    let one = Authorization::signed_by(a);
    assert!(one.allows(&a));
    assert!(!one.allows(&b));
    let two = one.and(b);
    assert!(two.allows(&a));
    assert!(two.allows(&b));
    assert!(!two.allows(&c));
}
