//! Who is calling: from the `Authorization` header to trusted claims.
//!
//! A token is a snapshot of who someone was when it was issued, and it lives
//! for hours. Trusting it as it is would mean that deactivating a user or
//! demoting an administrator has no effect until the token runs out. So the
//! token only says which account it is about; whether the account is active and
//! what role it has is read from the store on every request.
//!
//! A check goes from step to step. Each step names the work that is to be done
//! outside, decoding the token or looking the account up, and the reply to it
//! leads to the next.

use vstd::prelude::*;

use crate::auth::rbac::{law_roles_have_their_names, Role};
use crate::db::users::{stored_role, UserRow};
use crate::text::optional_text;

verus! {

/// What a token claims, as far as it is read here.
#[derive(Debug, Clone, Copy, PartialEq, Eq, Structural)]
pub struct Claims {
    pub user_id: i64,
    pub role: Role,
}

/// Why a request is turned away.
#[derive(Debug, Clone, Copy, PartialEq, Eq, Structural)]
pub enum AuthRejection {
    /// There is no bearer token.
    MissingBearer,
    /// The token does not decode, or has run out.
    InvalidToken,
    /// The account is gone or has been deactivated.
    AccountInactive,
    /// The account could not be looked up.
    LookupFailed,
}

/// What looking up an active account by its id gave.
#[derive(Debug)]
pub enum Lookup {
    Found(UserRow),
    /// There is no active account with this id.
    Absent,
    /// The store could not answer.
    Failed,
}

/// The token in an `Authorization` header, if it is a bearer token.
pub open spec fn token_in(header: Option<Seq<char>>) -> Option<Seq<char>> {
    match header {
        Some(text) => if "Bearer "@.is_prefix_of(text) {
            Some(text.skip("Bearer "@.len() as int))
        } else {
            None
        },
        None => None,
    }
}

/// `str::strip_prefix` with a text as the pattern: what follows the prefix, or
/// nothing where the text does not start with it.
#[verifier::external_body]
fn strip_prefix<'a>(text: &'a str, prefix: &str) -> (rest: Option<&'a str>)
    ensures
        match rest {
            Some(rest) => prefix@.is_prefix_of(text@) && rest@ == text@.skip(prefix@.len() as int),
            None => !prefix@.is_prefix_of(text@),
        },
{
    text.strip_prefix(prefix)
}

/// Takes the token out of the `Authorization` header. A header that is absent
/// or unreadable is handed in as `None`.
pub fn bearer_token(header: Option<&str>) -> (r: Result<&str, AuthRejection>)
    ensures
        match token_in(optional_text(header)) {
            Some(token) => r matches Ok(t) && t@ == token,
            None => r == Err::<&str, AuthRejection>(AuthRejection::MissingBearer),
        },
{
    match header {
        Some(text) => match strip_prefix(text, "Bearer ") {
            Some(token) => Ok(token),
            None => Err(AuthRejection::MissingBearer),
        },
        None => Err(AuthRejection::MissingBearer),
    }
}

/// What decoding the token gave, or the refusal where it gave nothing.
pub open spec fn claimed(decoded: Option<Claims>) -> Result<Claims, AuthRejection> {
    match decoded {
        Some(claims) => Ok(claims),
        None => Err(AuthRejection::InvalidToken),
    }
}

/// Takes over the claims of a token that decoded.
pub fn accept_token(decoded: Option<Claims>) -> (r: Result<Claims, AuthRejection>)
    ensures
        r == claimed(decoded),
{
    match decoded {
        Some(claims) => Ok(claims),
        None => Err(AuthRejection::InvalidToken),
    }
}

/// The claims as the store has them now.
pub open spec fn current(claims: Claims, lookup: Lookup) -> Result<Claims, AuthRejection> {
    match lookup {
        Lookup::Found(user) => Ok(
            Claims {
                user_id: claims.user_id,
                role: stored_role(user.role@),
            },
        ),
        Lookup::Absent => Err(AuthRejection::AccountInactive),
        Lookup::Failed => Err(AuthRejection::LookupFailed),
    }
}

/// Brings claims up to date. The token said who they were; the row says who
/// they are: the role comes from the store, never from the token.
pub fn current_claims(claims: Claims, lookup: &Lookup) -> (r: Result<Claims, AuthRejection>)
    ensures
        r == current(claims, *lookup),
{
    match lookup {
        Lookup::Found(user) => {
            let mut claims = claims;
            claims.role = user.role();
            Ok(claims)
        },
        Lookup::Absent => Err(AuthRejection::AccountInactive),
        // Not the caller's failure, and it must not read as a credentials
        // problem: an outage would look like every user being logged out.
        Lookup::Failed => Err(AuthRejection::LookupFailed),
    }
}

impl AuthRejection {
    pub open spec fn status_code(self) -> u16 {
        match self {
            AuthRejection::LookupFailed => 500,
            _ => 401,
        }
    }

    pub open spec fn text(self) -> Seq<char> {
        match self {
            AuthRejection::MissingBearer => "missing or non-Bearer Authorization header"@,
            AuthRejection::InvalidToken => "invalid or expired token"@,
            AuthRejection::AccountInactive => "account no longer active"@,
            AuthRejection::LookupFailed => "internal server error"@,
        }
    }

    /// The HTTP status of the answer.
    pub fn status(self) -> (code: u16)
        ensures
            code == self.status_code(),
    {
        match self {
            AuthRejection::LookupFailed => 500,
            _ => 401,
        }
    }

    /// The error that the answer names.
    pub fn message(self) -> (text: String)
        ensures
            text@ == self.text(),
    {
        match self {
            AuthRejection::MissingBearer => "missing or non-Bearer Authorization header".to_owned(),
            AuthRejection::InvalidToken => "invalid or expired token".to_owned(),
            AuthRejection::AccountInactive => "account no longer active".to_owned(),
            AuthRejection::LookupFailed => "internal server error".to_owned(),
        }
    }
}

/// What a request with this header comes to, for a way of decoding tokens and a
/// way of looking accounts up.
pub open spec fn outcome(
    header: Option<Seq<char>>,
    decode: spec_fn(Seq<char>) -> Option<Claims>,
    look_up: spec_fn(i64) -> Lookup,
) -> Result<Claims, AuthRejection> {
    match token_in(header) {
        Some(token) => match claimed(decode(token)) {
            Ok(claims) => current(claims, look_up(claims.user_id)),
            Err(rejection) => Err(rejection),
        },
        None => Err(AuthRejection::MissingBearer),
    }
}

/// How far the check of a request has come.
#[derive(Debug)]
pub enum AuthCheck {
    /// The token is to be decoded.
    Decode { token: String },
    /// The active account with the id in the claims is to be looked up.
    LookUp { claims: Claims },
    /// The check is over.
    Settled { result: Result<Claims, AuthRejection> },
}

/// What came of the work that a check asked for.
#[derive(Debug)]
pub enum AuthReply {
    /// The claims of the token, if it decoded.
    Decoded(Option<Claims>),
    LookedUp(Lookup),
}

/// What a check comes to from here on, for a way of decoding tokens and a way
/// of looking accounts up.
pub open spec fn comes_to(
    check: AuthCheck,
    decode: spec_fn(Seq<char>) -> Option<Claims>,
    look_up: spec_fn(i64) -> Lookup,
) -> Result<Claims, AuthRejection> {
    match check {
        AuthCheck::Decode { token } => match claimed(decode(token@)) {
            Ok(claims) => current(claims, look_up(claims.user_id)),
            Err(rejection) => Err(rejection),
        },
        AuthCheck::LookUp { claims } => current(claims, look_up(claims.user_id)),
        AuthCheck::Settled { result } => result,
    }
}

/// `reply` is the reply to what `check` asks for.
pub open spec fn is_reply(
    check: AuthCheck,
    reply: AuthReply,
    decode: spec_fn(Seq<char>) -> Option<Claims>,
    look_up: spec_fn(i64) -> Lookup,
) -> bool {
    match (check, reply) {
        (AuthCheck::Decode { token }, AuthReply::Decoded(decoded)) => decoded == decode(token@),
        (AuthCheck::LookUp { claims }, AuthReply::LookedUp(lookup)) => lookup == look_up(
            claims.user_id,
        ),
        _ => false,
    }
}

/// Starts the check of a request with this header. Only a bearer token is ever
/// to be decoded, and nothing is looked up yet.
pub fn begin_check(header: Option<&str>) -> (check: AuthCheck)
    ensures
        match token_in(optional_text(header)) {
            Some(text) => check matches AuthCheck::Decode { token } && token@ == text,
            None => check == (AuthCheck::Settled { result: Err(AuthRejection::MissingBearer) }),
        },
        forall|decode: spec_fn(Seq<char>) -> Option<Claims>, look_up: spec_fn(i64) -> Lookup|
            #[trigger] comes_to(check, decode, look_up) == outcome(
                optional_text(header),
                decode,
                look_up,
            ),
{
    match bearer_token(header) {
        Ok(token) => AuthCheck::Decode { token: token.to_owned() },
        Err(rejection) => AuthCheck::Settled { result: Err(rejection) },
    }
}

/// The check that a reply leads to; a reply to something else leads nowhere.
pub open spec fn next_check(check: AuthCheck, reply: AuthReply) -> AuthCheck {
    match (check, reply) {
        (AuthCheck::Decode { .. }, AuthReply::Decoded(decoded)) => match claimed(decoded) {
            Ok(claims) => AuthCheck::LookUp { claims },
            Err(rejection) => AuthCheck::Settled { result: Err(rejection) },
        },
        (AuthCheck::LookUp { claims }, AuthReply::LookedUp(lookup)) => AuthCheck::Settled {
            result: current(claims, lookup),
        },
        _ => check,
    }
}

/// Takes a check one step further. The reply to what it asks for never changes
/// what it comes to.
pub fn next_step(check: AuthCheck, reply: AuthReply) -> (next: AuthCheck)
    ensures
        next == next_check(check, reply),
        forall|decode: spec_fn(Seq<char>) -> Option<Claims>, look_up: spec_fn(i64) -> Lookup|
            is_reply(check, reply, decode, look_up) ==> #[trigger] comes_to(next, decode, look_up)
                == comes_to(check, decode, look_up),
{
    match (check, reply) {
        (AuthCheck::Decode { .. }, AuthReply::Decoded(decoded)) => match accept_token(decoded) {
            Ok(claims) => AuthCheck::LookUp { claims },
            Err(rejection) => AuthCheck::Settled { result: Err(rejection) },
        },
        (AuthCheck::LookUp { claims }, AuthReply::LookedUp(lookup)) => AuthCheck::Settled {
            result: current_claims(claims, &lookup),
        },
        (check, _) => check,
    }
}

/// A check asks at most twice, first for the token and then for the account;
/// once it has its replies it is over, with the outcome of the request.
pub proof fn law_two_replies_settle_a_check(
    token: String,
    decode: spec_fn(Seq<char>) -> Option<Claims>,
    look_up: spec_fn(i64) -> Lookup,
    first: AuthReply,
    second: AuthReply,
)
    requires
        is_reply(AuthCheck::Decode { token }, first, decode, look_up),
    ensures
        ({
            let asked = AuthCheck::Decode { token };
            let next = next_check(asked, first);
            match next {
                AuthCheck::LookUp { claims } => {
                    &&& decode(token@) == Some(claims)
                    &&& is_reply(next, second, decode, look_up) ==> next_check(next, second) == (
                    AuthCheck::Settled { result: comes_to(asked, decode, look_up) })
                },
                _ => decode(token@) is None && next == (AuthCheck::Settled {
                    result: comes_to(asked, decode, look_up),
                }),
            }
        }),
{
}

/// A request is let in exactly when its token decodes and the account that it
/// names is active; it then has that account's id and stored role.
pub proof fn law_only_active_accounts_are_let_in(
    header: Option<Seq<char>>,
    decode: spec_fn(Seq<char>) -> Option<Claims>,
    look_up: spec_fn(i64) -> Lookup,
)
    ensures
        outcome(header, decode, look_up) is Ok <==> {
            &&& token_in(header) matches Some(token)
            &&& decode(token) matches Some(claims)
            &&& look_up(claims.user_id) is Found
        },
        outcome(header, decode, look_up) matches Ok(claims) ==> {
            &&& decode(token_in(header)->0)->0.user_id == claims.user_id
            &&& look_up(claims.user_id) matches Lookup::Found(user)
            &&& claims.role == stored_role(user.role@)
        },
{
}

/// The role in a token counts for nothing: a demotion takes effect on the next
/// request, and a forged promotion never does.
pub proof fn law_token_role_is_ignored(
    header: Option<Seq<char>>,
    decode: spec_fn(Seq<char>) -> Option<Claims>,
    look_up: spec_fn(i64) -> Lookup,
    role: Role,
)
    ensures
        outcome(header, decode, look_up) == outcome(
            header,
            |token: Seq<char>|
                match decode(token) {
                    Some(claims) => Some(Claims { user_id: claims.user_id, role }),
                    None => None,
                },
            look_up,
        ),
{
}

/// A caller is told that its credentials are no good exactly when there is no
/// bearer token, the token does not decode, or no active account stands behind
/// it; a store that cannot answer is reported as the server's own failure.
pub proof fn law_outage_is_not_a_credentials_problem(
    header: Option<Seq<char>>,
    decode: spec_fn(Seq<char>) -> Option<Claims>,
    look_up: spec_fn(i64) -> Lookup,
)
    ensures
        outcome(header, decode, look_up) matches Err(rejection) ==> {
            &&& rejection.status_code() == 401 || rejection.status_code() == 500
            &&& rejection.status_code() == 500 <==> {
                &&& token_in(header) matches Some(token)
                &&& decode(token) matches Some(claims)
                &&& look_up(claims.user_id) is Failed
            }
        },
{
}

/// A header holds a bearer token exactly when it is the seven characters of the
/// scheme followed by that token, whatever its length and content.
pub proof fn law_token_follows_the_scheme(header: Option<Seq<char>>, token: Seq<char>)
    ensures
        token_in(Some("Bearer "@ + token)) == Some(token),
        token_in(header) == Some(token) <==> header == Some("Bearer "@ + token),
        "Bearer "@.len() == 7,
{
    reveal_strlit("Bearer ");
    let whole = "Bearer "@ + token;
    assert("Bearer "@.is_prefix_of(whole));
    assert(whole.skip("Bearer "@.len() as int) =~= token);
    if let Some(text) = header {
        if "Bearer "@.is_prefix_of(text) {
            assert(text =~= "Bearer "@ + text.skip("Bearer "@.len() as int));
        }
    }
}

/// The token that is taken from a header is what follows the scheme, and a
/// header is refused only where it does not start with the scheme.
pub proof fn law_bearer_token(header: Option<&str>, r: Result<&str, AuthRejection>, token: Seq<char>)
    requires
        call_ensures(bearer_token, (header,), r),
    ensures
        header matches Some(text) && text@ == "Bearer "@ + token ==> (r matches Ok(t) && t@
            == token),
        r matches Ok(t) ==> (header matches Some(text) && text@ == "Bearer "@ + t@),
        r matches Err(e) ==> e == AuthRejection::MissingBearer,
{
    law_token_follows_the_scheme(optional_text(header), token);
    if let Ok(t) = r {
        law_token_follows_the_scheme(optional_text(header), t@);
    }
}

/// A check starts by asking for the token behind the scheme, whatever it is,
/// and is over at once where there is none.
pub proof fn law_check_starts_with_the_token(
    header: Option<&str>,
    check: AuthCheck,
    token: Seq<char>,
)
    requires
        call_ensures(begin_check, (header,), check),
    ensures
        header matches Some(text) && text@ == "Bearer "@ + token ==> (
        check matches AuthCheck::Decode { token: asked } && asked@ == token),
        check matches AuthCheck::Decode { token: asked } ==> (header matches Some(text) && text@
            == "Bearer "@ + asked@),
        check is Decode || check == (AuthCheck::Settled {
            result: Err(AuthRejection::MissingBearer),
        }),
{
    law_token_follows_the_scheme(optional_text(header), token);
    if let AuthCheck::Decode { token: asked } = check {
        law_token_follows_the_scheme(optional_text(header), asked@);
    }
}

/// Where a check goes: from decoded claims to looking up their account, from an
/// account that was found to being let in with its id and the role in its row,
/// and from anything else that was asked for to the refusal that it stands for.
/// What was not asked for changes nothing.
pub proof fn law_where_a_check_goes(check: AuthCheck, reply: AuthReply, next: AuthCheck)
    requires
        call_ensures(next_step, (check, reply), next),
    ensures
        check is Decode && reply is Decoded ==> next == (match reply->Decoded_0 {
            Some(claims) => AuthCheck::LookUp { claims },
            None => AuthCheck::Settled { result: Err(AuthRejection::InvalidToken) },
        }),
        check is LookUp && reply is LookedUp ==> match reply->LookedUp_0 {
            Lookup::Found(user) => {
                &&& next matches AuthCheck::Settled { result: Ok(claims) }
                &&& claims.user_id == check->claims.user_id
                &&& claims.role is Admin <==> user.role@ == "admin"@
                &&& claims.role is SuperUser <==> user.role@ == "super_user"@
            },
            Lookup::Absent => next == (AuthCheck::Settled {
                result: Err(AuthRejection::AccountInactive),
            }),
            Lookup::Failed => next == (AuthCheck::Settled {
                result: Err(AuthRejection::LookupFailed),
            }),
        },
        check is Decode && reply is LookedUp ==> next == check,
        check is LookUp && reply is Decoded ==> next == check,
        check is Settled ==> next == check,
{
    if let AuthReply::LookedUp(Lookup::Found(user)) = reply {
        law_roles_have_their_names(user.role@);
    }
}

/// Claims are brought up to date with the role in the row, and with nothing
/// else; an account that is gone and one that could not be looked up are told
/// apart.
pub proof fn law_current_claims(claims: Claims, lookup: &Lookup, r: Result<Claims, AuthRejection>)
    requires
        call_ensures(current_claims, (claims, lookup), r),
    ensures
        *lookup matches Lookup::Found(user) ==> {
            &&& r matches Ok(now)
            &&& now.user_id == claims.user_id
            &&& now.role is Admin <==> user.role@ == "admin"@
            &&& now.role is SuperUser <==> user.role@ == "super_user"@
        },
        *lookup is Absent ==> r == Err::<Claims, AuthRejection>(AuthRejection::AccountInactive),
        *lookup is Failed ==> r == Err::<Claims, AuthRejection>(AuthRejection::LookupFailed),
{
    if let Lookup::Found(user) = *lookup {
        law_roles_have_their_names(user.role@);
    }
}

/// The claims of a token that decoded are taken over as they are, and a token
/// that did not decode is refused as such.
pub proof fn law_decoded_claims_are_taken_over(
    decoded: Option<Claims>,
    r: Result<Claims, AuthRejection>,
)
    requires
        call_ensures(accept_token, (decoded,), r),
    ensures
        decoded matches Some(claims) ==> r == Ok::<Claims, AuthRejection>(claims),
        decoded is None ==> r == Err::<Claims, AuthRejection>(AuthRejection::InvalidToken),
{
}

/// Every refusal of a request has one cause: no bearer token, a token that does
/// not decode, an account that is not active, or a store that cannot answer.
pub proof fn law_refusals_have_their_cause(
    token: Seq<char>,
    decode: spec_fn(Seq<char>) -> Option<Claims>,
    look_up: spec_fn(i64) -> Lookup,
    other: Option<Seq<char>>,
)
    ensures
        ({
            let r = outcome(Some("Bearer "@ + token), decode, look_up);
            match decode(token) {
                None => r == Err::<Claims, AuthRejection>(AuthRejection::InvalidToken),
                Some(claims) => match look_up(claims.user_id) {
                    Lookup::Found(user) => r is Ok && r->Ok_0.user_id == claims.user_id,
                    Lookup::Absent => r == Err::<Claims, AuthRejection>(
                        AuthRejection::AccountInactive,
                    ),
                    Lookup::Failed => r == Err::<Claims, AuthRejection>(
                        AuthRejection::LookupFailed,
                    ),
                },
            }
        }),
        outcome(other, decode, look_up) == Err::<Claims, AuthRejection>(
            AuthRejection::MissingBearer,
        ) <==> !(other matches Some(text) && "Bearer "@.is_prefix_of(text)),
{
    law_token_follows_the_scheme(other, token);
    if let Some(text) = other {
        if "Bearer "@.is_prefix_of(text) {
            let rest = text.skip("Bearer "@.len() as int);
            assert(text =~= "Bearer "@ + rest);
            law_token_follows_the_scheme(other, rest);
        } else if token_in(other) is Some {
            law_token_follows_the_scheme(other, token_in(other)->0);
            assert("Bearer "@.is_prefix_of(text));
        }
    }
}

/// A refusal is the caller's, a 401, but for a store that cannot answer.
pub proof fn law_status_of_a_refusal(rejection: AuthRejection, code: u16, text: String)
    requires
        call_ensures(AuthRejection::status, (rejection,), code),
        call_ensures(AuthRejection::message, (rejection,), text),
    ensures
        rejection is LookupFailed ==> code == 500 && text@ == "internal server error"@,
        rejection is MissingBearer ==> code == 401 && text@
            == "missing or non-Bearer Authorization header"@,
        rejection is InvalidToken ==> code == 401 && text@ == "invalid or expired token"@,
        rejection is AccountInactive ==> code == 401 && text@ == "account no longer active"@,
{
}

} // verus!
