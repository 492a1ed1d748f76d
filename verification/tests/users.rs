use login_guard::auth::password::{verify, HashError, PolicyViolation};
use login_guard::auth::rbac::Role;
use login_guard::db::admin::{
    plan_admin_seed, seed_admin, settle_admin_seed, AdminOrigin, AdminPlan, AdminSeed, SeedError,
    GENERATED_PASSWORD_LEN,
};
use login_guard::db::users::{create, create_at, touch_last_login, UserRow};

fn row(role: &str) -> UserRow {
    UserRow {
        id: 1,
        username: "alice".to_string(),
        email: "alice@example.org".to_string(),
        password_hash: "x".to_string(),
        role: role.to_string(),
        created_at: "2024-01-01T00:00:00+00:00".to_string(),
        last_login: Some("2024-01-02T00:00:00+00:00".to_string()),
        is_active: 1,
    }
}

#[test]
fn a_stored_role_is_read() {
    assert_eq!(row("admin").role(), Role::Admin);
    assert_eq!(row("super_user").role(), Role::SuperUser);
    assert_eq!(row("user").role(), Role::User);
}

#[test]
fn an_unknown_role_is_a_plain_user() {
    for name in ["", "owner", "Admin", "root"] {
        assert_eq!(row(name).role(), Role::User);
    }
}

#[test]
fn a_written_role_reads_back() {
    for role in [Role::Admin, Role::SuperUser, Role::User] {
        let user = create("bob", "bob@example.org", "h", role);
        assert_eq!(row(&user.role).role(), role);
    }
}

#[test]
fn a_new_user_is_active() {
    let user = create_at("bob", "bob@example.org", "h", Role::SuperUser, "then".to_string());
    assert_eq!(user.username, "bob");
    assert_eq!(user.email, "bob@example.org");
    assert_eq!(user.password_hash, "h");
    assert_eq!(user.role, "super_user");
    assert_eq!(user.created_at, "then");
    assert_eq!(user.is_active, 1);
}

#[test]
fn stamps_are_in_utc() {
    let user = create("bob", "bob@example.org", "h", Role::User);
    assert!(user.created_at.len() >= 25);
    assert!(user.created_at.ends_with("+00:00"));
    assert_eq!(&user.created_at[10..11], "T");
    for (place, mark) in [(4, "-"), (7, "-"), (13, ":"), (16, ":")] {
        assert_eq!(&user.created_at[place..place + 1], mark);
    }
    let time = user.created_at.strip_suffix("+00:00").unwrap();
    assert!(time.chars().all(|c| c.is_ascii_digit() || "-T:.".contains(c)));
    assert!([19, 23, 26, 29].contains(&time.len()));
    let stamp = touch_last_login(42);
    assert_eq!(stamp.id, 42);
    assert!(stamp.last_login.ends_with("+00:00"));
    assert!(stamp.last_login >= user.created_at);
}

#[test]
fn the_plan_for_an_existing_administrator() {
    let keep = |default_ignored| AdminPlan::KeepExisting { default_ignored };
    assert_eq!(plan_admin_seed(true, None, None).unwrap(), keep(false));
    assert_eq!(plan_admin_seed(true, Some(""), Some("")).unwrap(), keep(false));
    assert_eq!(plan_admin_seed(true, Some("new-secret"), None).unwrap(), keep(true));
    // Ignored means ignored: a weak default is not even looked at.
    assert_eq!(plan_admin_seed(true, Some("x"), None).unwrap(), keep(true));
    assert_eq!(
        plan_admin_seed(true, Some("x"), Some("reset-secret")).unwrap(),
        AdminPlan::ResetExisting
    );
}

#[test]
fn the_plan_for_a_new_installation() {
    let generated = |refused| AdminPlan::CreateGenerated { refused };
    assert_eq!(plan_admin_seed(false, None, None).unwrap(), generated(None));
    assert_eq!(plan_admin_seed(false, Some(""), Some("")).unwrap(), generated(None));
    assert_eq!(
        plan_admin_seed(false, Some("x"), None).unwrap(),
        generated(Some(PolicyViolation::TooShort))
    );
    assert_eq!(
        plan_admin_seed(false, Some("new-secret"), None).unwrap(),
        AdminPlan::CreateWithDefault
    );
    assert_eq!(
        plan_admin_seed(false, Some("new-secret"), Some("reset-secret")).unwrap(),
        AdminPlan::CreateWithReset
    );
}

#[test]
fn a_weak_reset_password_is_refused() {
    for exists in [true, false] {
        let e = plan_admin_seed(exists, None, Some("x")).unwrap_err();
        assert!(matches!(e, SeedError::ResetPassword(PolicyViolation::TooShort)));
        assert_eq!(
            e.message(),
            "AUTH__ADMIN_RESET_PASSWORD: new password must be at least 6 characters"
        );
    }
}

#[test]
fn a_weak_default_password_gives_way_to_a_random_one() {
    let weak = "x".repeat(129);
    match seed_admin(false, Some(&weak), None).unwrap() {
        AdminSeed::Create { user, origin: AdminOrigin::Generated { password, refused } } => {
            assert_eq!(refused, Some(PolicyViolation::TooLong));
            assert_eq!(password.len(), GENERATED_PASSWORD_LEN);
            assert!(verify(&password, &user.password_hash).unwrap());
            assert!(!verify(&weak, &user.password_hash).unwrap());
        }
        other => panic!("{other:?}"),
    }
}

#[test]
fn a_reset_overwrites_the_password() {
    match seed_admin(true, Some("new-secret"), Some("reset-secret")).unwrap() {
        AdminSeed::Reset { username, password_hash } => {
            assert_eq!(username, "admin");
            assert!(verify("reset-secret", &password_hash).unwrap());
            assert!(!verify("new-secret", &password_hash).unwrap());
        }
        other => panic!("{other:?}"),
    }
}

#[test]
fn the_default_password_seeds_a_new_installation_only() {
    match seed_admin(false, Some("new-secret"), None).unwrap() {
        AdminSeed::Create { user, origin } => {
            assert!(matches!(origin, AdminOrigin::DefaultPassword));
            assert_eq!(user.username, "admin");
            assert_eq!(user.email, "admin@rag-engine.local");
            assert_eq!(user.role, "admin");
            assert_eq!(user.is_active, 1);
            assert!(verify("new-secret", &user.password_hash).unwrap());
        }
        other => panic!("{other:?}"),
    }
    assert!(matches!(
        seed_admin(true, Some("new-secret"), None).unwrap(),
        AdminSeed::Keep { default_ignored: true }
    ));
    assert!(matches!(
        seed_admin(true, None, None).unwrap(),
        AdminSeed::Keep { default_ignored: false }
    ));
}

#[test]
fn a_reset_password_can_seed_too() {
    match seed_admin(false, Some("new-secret"), Some("reset-secret")).unwrap() {
        AdminSeed::Create { user, origin } => {
            assert!(matches!(origin, AdminOrigin::ResetPassword));
            assert!(verify("reset-secret", &user.password_hash).unwrap());
        }
        other => panic!("{other:?}"),
    }
}

#[test]
fn a_random_password_is_shown_and_fits() {
    let mut shown = Vec::new();
    for _ in 0..2 {
        match seed_admin(false, None, None).unwrap() {
            AdminSeed::Create { user, origin: AdminOrigin::Generated { password, refused } } => {
                assert_eq!(refused, None);
                assert_eq!(password.len(), GENERATED_PASSWORD_LEN);
                assert!(password.chars().all(|c| c.is_ascii_alphanumeric()));
                assert!(verify(&password, &user.password_hash).unwrap());
                shown.push(password);
            }
            other => panic!("{other:?}"),
        }
    }
    assert_ne!(shown[0], shown[1]);
}

#[test]
fn a_failed_hash_is_reported() {
    let failure = || Err(HashError::Hash { reason: "no memory".to_string() });
    let e = settle_admin_seed(AdminPlan::CreateWithDefault, "p", failure()).unwrap_err();
    assert!(matches!(e, SeedError::Hash(HashError::Hash { .. })));
    assert_eq!(e.message(), "hash error: no memory");
    assert!(matches!(
        settle_admin_seed(AdminPlan::KeepExisting { default_ignored: true }, "p", failure()),
        Ok(AdminSeed::Keep { default_ignored: true })
    ));
}

#[test]
fn every_written_hash_has_a_salt_of_its_own() {
    let written = |exists, configured, reset| match seed_admin(exists, configured, reset).unwrap() {
        AdminSeed::Reset { password_hash, .. } => password_hash,
        AdminSeed::Create { user, .. } => user.password_hash,
        other => panic!("{other:?}"),
    };
    for (exists, configured, reset) in [
        (true, None, Some("new-secret")),
        (false, None, Some("new-secret")),
        (false, Some("new-secret"), None),
    ] {
        let first = written(exists, configured, reset);
        let second = written(exists, configured, reset);
        assert_ne!(first.split('$').nth(4), second.split('$').nth(4));
        assert!(verify("new-secret", &first).unwrap() && verify("new-secret", &second).unwrap());
    }
}
