use kragdb::user::password::PasswordHash;
use kragdb::user::permissions::{self, Permissions};
use kragdb::user::User;

#[test]
fn permission_masks_compose() {
    assert_eq!(permissions::NONE, 0);
    assert_eq!(permissions::ROOT, u32::MAX);
    assert_eq!(permissions::USER_CRUD, 0b0000_1111);
    assert_eq!(permissions::PASS_CRUD, 0b1111_0000);
    assert_eq!(
        permissions::ADMIN,
        permissions::USER_CRUD | permissions::PASS_CRUD
    );

    let admin = Permissions::from_bits_truncate(permissions::ADMIN);
    assert_eq!(admin.bits(), permissions::ADMIN);
    assert!(admin.contains(Permissions::from_bits_truncate(permissions::USER_READ)));
    assert!(admin.contains(Permissions::from_bits_truncate(permissions::PASS_CRUD)));
    assert!(!admin.contains(Permissions::from_bits_truncate(permissions::ROOT)));

    let user_side = Permissions::from_bits_truncate(permissions::USER_CRUD);
    let pass_side = Permissions::from_bits_truncate(permissions::PASS_CRUD);
    assert_eq!(user_side.union(pass_side).bits(), permissions::ADMIN);
    assert_eq!(user_side.intersection(pass_side).bits(), permissions::NONE);
}

#[test]
fn password_hash_verifies_against_raw_password() {
    let h = PasswordHash::from_raw("secret");
    assert!(password_auth::verify_password("secret", h.as_ref()).is_ok());
    assert!(password_auth::verify_password("wrong", h.as_ref()).is_err());
    let kept = PasswordHash::from_stored(h.as_ref().to_string());
    assert_eq!(kept.as_ref(), h.as_ref());
}

#[test]
fn default_user_is_anonymous() {
    let u = User::default();
    assert_eq!(u.id, 0);
    assert_eq!(u.username, "");
    assert_eq!(u.email.as_ref(), "default@email.com");
    assert_eq!(u.number, None);
    assert_eq!(u.permissions.bits, permissions::NONE);
    assert!(password_auth::verify_password("", u.password.as_ref()).is_ok());
}
