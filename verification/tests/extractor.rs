use login_guard::auth::extractor::{
    accept_token, bearer_token, begin_check, current_claims, next_step, AuthCheck, AuthRejection,
    AuthReply, Claims, Lookup,
};
use login_guard::auth::rbac::Role;
use login_guard::db::users::UserRow;

fn row(role: &str) -> UserRow {
    UserRow {
        id: 7,
        username: "alice".to_string(),
        email: "alice@example.org".to_string(),
        password_hash: "x".to_string(),
        role: role.to_string(),
        created_at: "2024-01-01T00:00:00+00:00".to_string(),
        last_login: None,
        is_active: 1,
    }
}

#[test]
fn the_token_follows_the_scheme() {
    assert_eq!(bearer_token(Some("Bearer abc.def")), Ok("abc.def"));
    assert_eq!(bearer_token(Some("Bearer  abc")), Ok(" abc"));
    assert_eq!(bearer_token(Some("Bearer ")), Ok(""));
}

#[test]
fn other_headers_hold_no_token() {
    for header in ["", "Bearer", "bearer abc", "Basic abc", " Bearer abc"] {
        assert_eq!(bearer_token(Some(header)), Err(AuthRejection::MissingBearer));
    }
    assert_eq!(bearer_token(None), Err(AuthRejection::MissingBearer));
}

#[test]
fn a_token_that_does_not_decode_is_refused() {
    let claims = Claims { user_id: 7, role: Role::Admin };
    assert_eq!(accept_token(Some(claims)), Ok(claims));
    assert_eq!(accept_token(None), Err(AuthRejection::InvalidToken));
}

#[test]
fn the_role_comes_from_the_store() {
    let claims = Claims { user_id: 7, role: Role::Admin };
    assert_eq!(
        current_claims(claims, &Lookup::Found(row("user"))),
        Ok(Claims { user_id: 7, role: Role::User })
    );
    let claims = Claims { user_id: 7, role: Role::User };
    assert_eq!(
        current_claims(claims, &Lookup::Found(row("super_user"))),
        Ok(Claims { user_id: 7, role: Role::SuperUser })
    );
    assert_eq!(
        current_claims(claims, &Lookup::Found(row("owner"))),
        Ok(Claims { user_id: 7, role: Role::User })
    );
}

#[test]
fn an_outage_is_not_a_credentials_problem() {
    let claims = Claims { user_id: 7, role: Role::Admin };
    let absent = current_claims(claims, &Lookup::Absent).unwrap_err();
    assert_eq!(absent, AuthRejection::AccountInactive);
    assert_eq!(absent.status(), 401);
    let failed = current_claims(claims, &Lookup::Failed).unwrap_err();
    assert_eq!(failed, AuthRejection::LookupFailed);
    assert_eq!(failed.status(), 500);
}

#[test]
fn rejections_have_their_status_and_text() {
    let expected = [
        (AuthRejection::MissingBearer, 401, "missing or non-Bearer Authorization header"),
        (AuthRejection::InvalidToken, 401, "invalid or expired token"),
        (AuthRejection::AccountInactive, 401, "account no longer active"),
        (AuthRejection::LookupFailed, 500, "internal server error"),
    ];
    for (rejection, status, text) in expected {
        assert_eq!(rejection.status(), status);
        assert_eq!(rejection.message(), text);
    }
}

#[test]
fn a_check_asks_for_the_token_and_then_for_the_account() {
    let check = begin_check(Some("Bearer abc"));
    assert!(matches!(&check, AuthCheck::Decode { token } if token == "abc"));
    let decoded = Claims { user_id: 7, role: Role::Admin };
    let check = next_step(check, AuthReply::Decoded(Some(decoded)));
    assert!(matches!(&check, AuthCheck::LookUp { claims } if *claims == decoded));
    let check = next_step(check, AuthReply::LookedUp(Lookup::Found(row("user"))));
    let expected = Claims { user_id: 7, role: Role::User };
    assert!(matches!(check, AuthCheck::Settled { result: Ok(claims) } if claims == expected));
}

#[test]
fn a_check_stops_at_the_first_refusal() {
    let refused = |check: &AuthCheck| match check {
        AuthCheck::Settled { result: Err(rejection) } => Some(*rejection),
        _ => None,
    };
    assert_eq!(refused(&begin_check(None)), Some(AuthRejection::MissingBearer));
    assert_eq!(refused(&begin_check(Some("Basic abc"))), Some(AuthRejection::MissingBearer));
    let check = next_step(begin_check(Some("Bearer abc")), AuthReply::Decoded(None));
    assert_eq!(refused(&check), Some(AuthRejection::InvalidToken));
    for (lookup, rejection) in [
        (Lookup::Absent, AuthRejection::AccountInactive),
        (Lookup::Failed, AuthRejection::LookupFailed),
    ] {
        let decoded = Claims { user_id: 7, role: Role::Admin };
        let check = next_step(begin_check(Some("Bearer abc")), AuthReply::Decoded(Some(decoded)));
        let check = next_step(check, AuthReply::LookedUp(lookup));
        assert_eq!(refused(&check), Some(rejection));
    }
}

#[test]
fn a_reply_to_something_else_leads_nowhere() {
    let check = next_step(begin_check(Some("Bearer abc")), AuthReply::LookedUp(Lookup::Absent));
    assert!(matches!(&check, AuthCheck::Decode { token } if token == "abc"));
    let decoded = Claims { user_id: 7, role: Role::Admin };
    let settled = next_step(begin_check(None), AuthReply::Decoded(Some(decoded)));
    assert!(matches!(
        settled,
        AuthCheck::Settled { result: Err(AuthRejection::MissingBearer) }
    ));
}
