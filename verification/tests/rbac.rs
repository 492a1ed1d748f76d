use login_guard::auth::rbac::Role;
use std::str::FromStr;

#[test]
fn only_admin_manages_users() {
    assert!(Role::Admin.can_manage_users());
    assert!(!Role::SuperUser.can_manage_users());
    assert!(!Role::User.can_manage_users());
}

#[test]
fn upload_and_delete_need_elevation() {
    assert!(Role::Admin.can_upload() && Role::Admin.can_delete());
    assert!(Role::SuperUser.can_upload() && Role::SuperUser.can_delete());
    assert!(!Role::User.can_upload() && !Role::User.can_delete());
}

#[test]
fn display_fromstr_roundtrip() {
    for role in [Role::Admin, Role::SuperUser, Role::User] {
        assert_eq!(role.to_string().parse::<Role>().unwrap(), role);
    }
    assert!("owner".parse::<Role>().is_err());
}

#[test]
fn roles_are_stored_under_their_names() {
    assert_eq!(Role::Admin.to_string(), "admin");
    assert_eq!(Role::SuperUser.to_string(), "super_user");
    assert_eq!(Role::User.to_string(), "user");
}

#[test]
fn role_names_are_read_to_the_letter() {
    for name in ["", "Admin", "admin ", " user", "superuser", "super-user"] {
        let refusal = Role::from_str(name).unwrap_err();
        assert_eq!(refusal.name, name);
    }
    let refusal = Role::from_str("owner").unwrap_err();
    assert_eq!(refusal.message(), "unknown role: owner");
}

#[test]
fn capabilities_are_nested() {
    for role in [Role::Admin, Role::SuperUser, Role::User] {
        assert!(!role.can_manage_users() || role.can_delete());
        assert_eq!(role.can_delete(), role.can_upload());
    }
}
