//! The default administrator.
//!
//! A new installation gets an administrator: with the reset password where one
//! is configured, else with the default password where one is configured and
//! meets the policy, else with a random one that is shown once. Where the
//! administrator exists already, the default password is ignored, so that a
//! value left in the environment never undoes a change; only the reset password
//! overwrites, for the case of being locked out.

use rand::distributions::Alphanumeric;
use rand::Rng;
use vstd::prelude::*;
use vstd::utf8::{encode_utf8, is_ascii_chars, is_ascii_chars_encode_utf8};

use crate::auth::password::{
    accepts, argon2_fits, argon2_hash, hash, is_drawn_salt, is_freshly_salted, law_policy_in_bytes,
    phc_parse, policy, validate_new_password, HashError, PolicyViolation,
};
use crate::auth::rbac::{law_roles_have_their_names, Role};
use crate::db::users::{create, is_active_user, is_clock_stamp, is_utc_stamp, NewUser};
use crate::text::optional_text;

verus! {

/// The number of characters in a random password.
pub const GENERATED_PASSWORD_LEN: usize = 22;

/// What is to be done about the administrator.
#[derive(Debug, Clone, Copy, PartialEq, Eq, Structural)]
pub enum AdminPlan {
    /// Overwrite the password of the existing administrator.
    ResetExisting,
    /// Create the administrator with the reset password.
    CreateWithReset,
    /// Create the administrator with the default password.
    CreateWithDefault,
    /// Create the administrator with a random password. A default password
    /// that was configured broke the policy in the way that `refused` names.
    CreateGenerated { refused: Option<PolicyViolation> },
    /// Leave the existing administrator alone; a default password that was
    /// configured all the same is ignored.
    KeepExisting { default_ignored: bool },
}

/// Where the password of a new administrator comes from.
#[derive(Debug)]
pub enum AdminOrigin {
    ResetPassword,
    DefaultPassword,
    /// Made at random, in place of a default password that was refused or of
    /// none.
    Generated { password: String, refused: Option<PolicyViolation> },
}

/// What is to be written to the store.
#[derive(Debug)]
pub enum AdminSeed {
    /// The new password hash of the user of this name.
    Reset { username: String, password_hash: String },
    Create { user: NewUser, origin: AdminOrigin },
    Keep { default_ignored: bool },
}

/// Why the administrator could not be set up.
#[derive(Debug)]
pub enum SeedError {
    ResetPassword(PolicyViolation),
    Hash(HashError),
}

/// Whether a setting is set; an empty text counts as not set.
pub open spec fn is_set(value: Option<Seq<char>>) -> bool {
    value matches Some(text) && text.len() > 0
}

/// What is to be done, given whether the administrator exists and the two
/// settings.
pub open spec fn admin_plan(
    exists: bool,
    configured: Option<Seq<char>>,
    reset: Option<Seq<char>>,
) -> Result<AdminPlan, SeedError> {
    if is_set(reset) {
        match policy(reset->0) {
            Err(violation) => Err(SeedError::ResetPassword(violation)),
            Ok(()) => Ok(
                if exists {
                    AdminPlan::ResetExisting
                } else {
                    AdminPlan::CreateWithReset
                },
            ),
        }
    } else if exists {
        Ok(AdminPlan::KeepExisting { default_ignored: is_set(configured) })
    } else if is_set(configured) {
        match policy(configured->0) {
            Err(violation) => Ok(AdminPlan::CreateGenerated { refused: Some(violation) }),
            Ok(()) => Ok(AdminPlan::CreateWithDefault),
        }
    } else {
        Ok(AdminPlan::CreateGenerated { refused: None })
    }
}

/// The text of a setting that is set.
fn nonempty(value: Option<&str>) -> (r: Option<&str>)
    ensures
        match r {
            Some(text) => is_set(optional_text(value)) && optional_text(value) == Some(text@),
            None => !is_set(optional_text(value)),
        },
{
    match value {
        Some(text) => if text.is_empty() {
            None
        } else {
            Some(text)
        },
        None => None,
    }
}

/// Decides what is to be done about the administrator.
pub fn plan_admin_seed(
    exists: bool,
    configured_password: Option<&str>,
    reset_password: Option<&str>,
) -> (r: Result<AdminPlan, SeedError>)
    ensures
        r == admin_plan(exists, optional_text(configured_password), optional_text(reset_password)),
{
    if let Some(p) = nonempty(reset_password) {
        return match validate_new_password(p) {
            Err(violation) => Err(SeedError::ResetPassword(violation)),
            Ok(()) => if exists {
                Ok(AdminPlan::ResetExisting)
            } else {
                Ok(AdminPlan::CreateWithReset)
            },
        };
    }
    let configured = nonempty(configured_password);
    if exists {
        return Ok(AdminPlan::KeepExisting { default_ignored: configured.is_some() });
    }
    match configured {
        Some(p) => match validate_new_password(p) {
            Err(violation) => Ok(AdminPlan::CreateGenerated { refused: Some(violation) }),
            Ok(()) => Ok(AdminPlan::CreateWithDefault),
        },
        None => Ok(AdminPlan::CreateGenerated { refused: None }),
    }
}

/// A letter or a digit of ASCII.
pub open spec fn is_alphanumeric(c: char) -> bool {
    'A' <= c <= 'Z' || 'a' <= c <= 'z' || '0' <= c <= '9'
}

/// What a random password looks like.
pub open spec fn is_generated_password(password: Seq<char>) -> bool {
    &&& password.len() == GENERATED_PASSWORD_LEN
    &&& forall|i: int| 0 <= i < password.len() ==> is_alphanumeric(#[trigger] password[i])
}

/// `Rng::sample_iter` over `Alphanumeric`, with the random numbers of the
/// thread: every character is a letter or a digit of ASCII. Which one is left
/// to chance; a system that has no random numbers to give makes it panic.
#[verifier::external_body]
fn random_alphanumeric(len: usize) -> (text: String)
    requires
        len <= isize::MAX,
    ensures
        text@.len() == len,
        forall|i: int| 0 <= i < text@.len() ==> is_alphanumeric(#[trigger] text@[i]),
{
    rand::thread_rng().sample_iter(&Alphanumeric).take(len).map(char::from).collect()
}

/// `password` is what `random_alphanumeric` may draw for a random password.
pub closed spec fn is_drawn_password(password: Seq<char>) -> bool {
    exists|drawn: String| #[trigger]
        call_ensures(random_alphanumeric, (GENERATED_PASSWORD_LEN,), drawn) && drawn@ == password
}

/// `user` is the administrator's account with this hash.
pub open spec fn is_admin_account(user: NewUser, password_hash: Seq<char>) -> bool {
    &&& is_active_user(
        user,
        "admin"@,
        "admin@rag-engine.local"@,
        password_hash,
        Role::Admin,
    )
    &&& is_clock_stamp(user.created_at@)
    &&& is_utc_stamp(user.created_at@)
}

/// `r` is what a plan comes to once `password` has been hashed, or not.
pub open spec fn is_settled(
    r: Result<AdminSeed, SeedError>,
    plan: AdminPlan,
    password: Seq<char>,
    hashed: Result<String, HashError>,
) -> bool {
    match (plan, hashed) {
        (AdminPlan::KeepExisting { default_ignored }, _) => r == Ok::<AdminSeed, SeedError>(
            AdminSeed::Keep { default_ignored },
        ),
        (_, Err(e)) => r == Err::<AdminSeed, SeedError>(SeedError::Hash(e)),
        (AdminPlan::ResetExisting, Ok(h)) => {
            &&& r matches Ok(AdminSeed::Reset { username, password_hash })
            &&& username@ == "admin"@
            &&& password_hash@ == h@
        },
        (AdminPlan::CreateWithReset, Ok(h)) => {
            &&& r matches Ok(AdminSeed::Create { user, origin })
            &&& is_admin_account(user, h@)
            &&& origin is ResetPassword
        },
        (AdminPlan::CreateWithDefault, Ok(h)) => {
            &&& r matches Ok(AdminSeed::Create { user, origin })
            &&& is_admin_account(user, h@)
            &&& origin is DefaultPassword
        },
        (AdminPlan::CreateGenerated { refused }, Ok(h)) => {
            &&& r matches Ok(AdminSeed::Create { user, origin })
            &&& is_admin_account(user, h@)
            &&& origin matches AdminOrigin::Generated { password: shown, refused: named }
            &&& shown@ == password
            &&& named == refused
        },
    }
}

/// Turns a plan into what is to be written, given the password that it calls
/// for and what hashing that password gave.
pub fn settle_admin_seed(
    plan: AdminPlan,
    password: &str,
    hashed: Result<String, HashError>,
) -> (r: Result<AdminSeed, SeedError>)
    ensures
        is_settled(r, plan, password@, hashed),
{
    if let AdminPlan::KeepExisting { default_ignored } = plan {
        return Ok(AdminSeed::Keep { default_ignored });
    }
    let password_hash = match hashed {
        Ok(h) => h,
        Err(e) => return Err(SeedError::Hash(e)),
    };
    if let AdminPlan::ResetExisting = plan {
        return Ok(AdminSeed::Reset { username: "admin".to_owned(), password_hash });
    }
    let user = create("admin", "admin@rag-engine.local", password_hash.as_str(), Role::Admin);
    let origin = match plan {
        AdminPlan::CreateGenerated { refused } => AdminOrigin::Generated {
            password: password.to_owned(),
            refused,
        },
        AdminPlan::CreateWithReset => AdminOrigin::ResetPassword,
        _ => AdminOrigin::DefaultPassword,
    };
    Ok(AdminSeed::Create { user, origin })
}

/// Sets up the administrator: decides, hashes, and says what is to be written.
///
/// It fails only where a reset password is set and breaks the policy. The hash
/// that is written has a salt of its own and accepts the password that it was
/// made of.
pub fn seed_admin(
    exists: bool,
    configured_password: Option<&str>,
    reset_password: Option<&str>,
) -> (r: Result<AdminSeed, SeedError>)
    ensures
        match admin_plan(exists, optional_text(configured_password), optional_text(reset_password)) {
            Err(e) => r == Err::<AdminSeed, SeedError>(e),
            Ok(AdminPlan::KeepExisting { default_ignored }) => r == Ok::<AdminSeed, SeedError>(
                AdminSeed::Keep { default_ignored },
            ),
            Ok(AdminPlan::ResetExisting) => {
                &&& r matches Ok(AdminSeed::Reset { username, password_hash })
                &&& username@ == "admin"@
                &&& is_freshly_salted(password_hash@, reset_password->0@)
                &&& accepts(password_hash@, reset_password->0@)
            },
            Ok(AdminPlan::CreateWithReset) => {
                &&& r matches Ok(AdminSeed::Create { user, origin })
                &&& is_admin_account(user, user.password_hash@)
                &&& is_freshly_salted(user.password_hash@, reset_password->0@)
                &&& accepts(user.password_hash@, reset_password->0@)
                &&& origin is ResetPassword
            },
            Ok(AdminPlan::CreateWithDefault) => {
                &&& r matches Ok(AdminSeed::Create { user, origin })
                &&& is_admin_account(user, user.password_hash@)
                &&& is_freshly_salted(user.password_hash@, configured_password->0@)
                &&& accepts(user.password_hash@, configured_password->0@)
                &&& origin is DefaultPassword
            },
            Ok(AdminPlan::CreateGenerated { refused }) => {
                &&& r matches Ok(AdminSeed::Create { user, origin })
                &&& is_admin_account(user, user.password_hash@)
                &&& origin matches AdminOrigin::Generated { password, refused: named }
                &&& named == refused
                &&& is_drawn_password(password@)
                &&& is_generated_password(password@)
                &&& is_freshly_salted(user.password_hash@, password@)
                &&& accepts(user.password_hash@, password@)
            },
        },
{
    let plan = match plan_admin_seed(exists, configured_password, reset_password) {
        Ok(plan) => plan,
        Err(e) => return Err(e),
    };
    let password = match plan {
        AdminPlan::KeepExisting { default_ignored } => return Ok(
            AdminSeed::Keep { default_ignored },
        ),
        AdminPlan::ResetExisting | AdminPlan::CreateWithReset => reset_password.unwrap().to_owned(),
        AdminPlan::CreateWithDefault => configured_password.unwrap().to_owned(),
        AdminPlan::CreateGenerated { .. } => random_alphanumeric(GENERATED_PASSWORD_LEN),
    };
    proof {
        if plan is CreateGenerated {
            law_generated_password_meets_the_policy(password@);
        }
    }
    let hashed = hash(password.as_str());
    settle_admin_seed(plan, password.as_str(), hashed)
}

impl SeedError {
    pub open spec fn text(self) -> Seq<char> {
        match self {
            SeedError::ResetPassword(violation) => "AUTH__ADMIN_RESET_PASSWORD: "@
                + violation.text(),
            SeedError::Hash(e) => e.text(),
        }
    }

    /// The failure as text.
    pub fn message(&self) -> (text: String)
        ensures
            text@ == self.text(),
    {
        match self {
            SeedError::ResetPassword(violation) => "AUTH__ADMIN_RESET_PASSWORD: ".to_owned().concat(
                violation.message().as_str(),
            ),
            SeedError::Hash(e) => e.message(),
        }
    }
}

/// A random password meets the policy.
pub proof fn law_generated_password_meets_the_policy(password: Seq<char>)
    requires
        is_generated_password(password),
    ensures
        policy(password) is Ok,
{
    assert(is_ascii_chars(password));
    is_ascii_chars_encode_utf8(password);
}

/// An empty setting is the same as none.
pub proof fn law_empty_setting_is_unset(exists: bool, other: Option<Seq<char>>)
    ensures
        admin_plan(exists, Some(Seq::empty()), other) == admin_plan(exists, None, other),
        admin_plan(exists, other, Some(Seq::empty())) == admin_plan(exists, other, None),
{
}

/// The password of an existing administrator is overwritten exactly when a
/// reset password is set and meets the policy. The default password never
/// does, and never stands in the way.
pub proof fn law_only_a_reset_overwrites(configured: Option<Seq<char>>, reset: Option<Seq<char>>)
    ensures
        admin_plan(true, configured, reset) == Ok::<AdminPlan, SeedError>(AdminPlan::ResetExisting)
            <==> is_set(reset) && policy(reset->0) is Ok,
        !is_set(reset) ==> admin_plan(true, configured, reset) == Ok::<AdminPlan, SeedError>(
            AdminPlan::KeepExisting { default_ignored: is_set(configured) },
        ),
{
}

/// A new installation gets an administrator unless a reset password is set and
/// breaks the policy: with the reset password, else with a default password
/// that meets the policy, else with a random one.
pub proof fn law_new_installation_gets_an_administrator(
    configured: Option<Seq<char>>,
    reset: Option<Seq<char>>,
)
    ensures
        admin_plan(false, configured, reset) is Err <==> is_set(reset) && policy(reset->0) is Err,
        admin_plan(false, configured, reset) matches Ok(plan) ==> {
            &&& plan is CreateWithReset <==> is_set(reset)
            &&& plan is CreateWithDefault <==> !is_set(reset) && is_set(configured) && policy(
                configured->0,
            ) is Ok
            &&& plan is CreateGenerated <==> !(plan is CreateWithReset || plan is CreateWithDefault)
        },
{
}

/// No plan uses a configured password that breaks the policy.
pub proof fn law_no_weak_administrator(
    exists: bool,
    configured: Option<Seq<char>>,
    reset: Option<Seq<char>>,
)
    ensures
        admin_plan(exists, configured, reset) matches Ok(plan) ==> {
            &&& plan is ResetExisting || plan is CreateWithReset ==> is_set(reset)
                && policy(reset->0) is Ok
            &&& plan is CreateWithDefault ==> is_set(configured) && policy(configured->0) is Ok
        },
{
}

/// A setting counts as set exactly when it is a text that is not empty.
pub proof fn law_set_means_not_empty(text: Seq<char>)
    ensures
        !is_set(None),
        is_set(Some(text)) <==> text.len() > 0,
{
}

/// What a reset password leads to, over its text alone: one of 6 to 128 bytes
/// is used, whether the administrator exists or not and whatever the default
/// password; a shorter or longer one is refused.
pub proof fn law_plan_with_a_reset_password(
    exists: bool,
    configured: Option<Seq<char>>,
    reset: Seq<char>,
)
    requires
        reset.len() > 0,
    ensures
        6 <= encode_utf8(reset).len() <= 128 ==> admin_plan(exists, configured, Some(reset)) == Ok::<
            AdminPlan,
            SeedError,
        >(
            if exists {
                AdminPlan::ResetExisting
            } else {
                AdminPlan::CreateWithReset
            },
        ),
        encode_utf8(reset).len() < 6 ==> admin_plan(exists, configured, Some(reset)) == Err::<
            AdminPlan,
            SeedError,
        >(SeedError::ResetPassword(PolicyViolation::TooShort)),
        encode_utf8(reset).len() > 128 ==> admin_plan(exists, configured, Some(reset)) == Err::<
            AdminPlan,
            SeedError,
        >(SeedError::ResetPassword(PolicyViolation::TooLong)),
{
    law_policy_in_bytes(reset);
}

/// What a default password leads to where no reset password is set, over its
/// text alone: an existing administrator is kept; a new one gets the password
/// if it has 6 to 128 bytes, else a random one.
pub proof fn law_plan_with_a_default_password(text: Seq<char>)
    requires
        text.len() > 0,
    ensures
        admin_plan(true, Some(text), None) == Ok::<AdminPlan, SeedError>(
            AdminPlan::KeepExisting { default_ignored: true },
        ),
        6 <= encode_utf8(text).len() <= 128 ==> admin_plan(false, Some(text), None) == Ok::<
            AdminPlan,
            SeedError,
        >(AdminPlan::CreateWithDefault),
        encode_utf8(text).len() < 6 ==> admin_plan(false, Some(text), None) == Ok::<
            AdminPlan,
            SeedError,
        >(AdminPlan::CreateGenerated { refused: Some(PolicyViolation::TooShort) }),
        encode_utf8(text).len() > 128 ==> admin_plan(false, Some(text), None) == Ok::<
            AdminPlan,
            SeedError,
        >(AdminPlan::CreateGenerated { refused: Some(PolicyViolation::TooLong) }),
{
    law_policy_in_bytes(text);
}

/// What is done where neither is set: an existing administrator is kept, and a
/// new one gets a random password.
pub proof fn law_plan_without_settings()
    ensures
        admin_plan(true, None, None) == Ok::<AdminPlan, SeedError>(
            AdminPlan::KeepExisting { default_ignored: false },
        ),
        admin_plan(false, None, None) == Ok::<AdminPlan, SeedError>(
            AdminPlan::CreateGenerated { refused: None },
        ),
{
}

/// The decision, over the settings as they are handed in.
pub proof fn law_decision(
    exists: bool,
    configured: Option<&str>,
    reset: Option<&str>,
    r: Result<AdminPlan, SeedError>,
)
    requires
        call_ensures(plan_admin_seed, (exists, configured, reset), r),
    ensures
        reset matches Some(p) ==> p@.len() > 0 ==> (r == Ok::<AdminPlan, SeedError>(
            AdminPlan::ResetExisting,
        ) <==> exists && 6 <= encode_utf8(p@).len() <= 128) && (r == Ok::<AdminPlan, SeedError>(
            AdminPlan::CreateWithReset,
        ) <==> !exists && 6 <= encode_utf8(p@).len() <= 128) && (r is Err <==> !(6 <= encode_utf8(
            p@,
        ).len() <= 128)),
        (reset matches Some(p) ==> p@.len() == 0) ==> r is Ok && (r->Ok_0 is KeepExisting
            <==> exists) && (r->Ok_0 is CreateWithDefault <==> !exists && (configured matches Some(
            p,
        ) && p@.len() > 0 && 6 <= encode_utf8(p@).len() <= 128)) && (r->Ok_0 is CreateGenerated
            <==> !exists && (configured matches Some(p) ==> p@.len() == 0 || !(6 <= encode_utf8(
            p@,
        ).len() <= 128))),
        r matches Ok(AdminPlan::KeepExisting { default_ignored }) ==> (default_ignored <==> (
        configured matches Some(p) && p@.len() > 0)),
        r matches Ok(AdminPlan::CreateGenerated { refused }) ==> (refused is None <==> (
        configured matches Some(p) ==> p@.len() == 0)),
{
    if let Some(p) = reset {
        law_policy_in_bytes(p@);
    }
    if let Some(p) = configured {
        law_policy_in_bytes(p@);
    }
}

/// `hash` is Argon2's hash of `password` with some drawn salt, and fits it.
pub open spec fn is_argon2s_hash(hash: Seq<char>, password: Seq<char>) -> bool {
    &&& phc_parse(hash) is Ok
    &&& argon2_fits(password, hash)
    &&& exists|salt: Seq<char>|
        is_drawn_salt(salt) && #[trigger] argon2_hash(password, salt) == Ok::<Seq<char>, Seq<char>>(
            hash,
        )
}

/// An existing administrator gets the hash of the reset password, and Argon2
/// finds that the password fits it.
pub proof fn law_a_reset_is_written(
    configured: Option<&str>,
    reset: &str,
    r: Result<AdminSeed, SeedError>,
)
    requires
        call_ensures(seed_admin, (true, configured, Some(reset)), r),
        6 <= encode_utf8(reset@).len() <= 128,
        reset@.len() > 0,
    ensures
        r matches Ok(AdminSeed::Reset { username, password_hash }) && username@ == "admin"@
            && is_argon2s_hash(password_hash@, reset@),
{
    law_plan_with_a_reset_password(true, optional_text(configured), reset@);
}

/// On a new installation a reset password, or where none is set a default
/// password, becomes the password of an active administrator.
pub proof fn law_a_new_administrator_is_written(
    configured: Option<&str>,
    reset: Option<&str>,
    chosen: &str,
    r: Result<AdminSeed, SeedError>,
)
    requires
        call_ensures(seed_admin, (false, configured, reset), r),
        chosen@.len() > 0,
        6 <= encode_utf8(chosen@).len() <= 128,
        reset == Some(chosen) || (reset is None && configured == Some(chosen)),
    ensures
        r matches Ok(AdminSeed::Create { user, origin }) && {
            &&& user.username@ == "admin"@
            &&& user.email@ == "admin@rag-engine.local"@
            &&& user.role@ == "admin"@
            &&& user.is_active == 1
            &&& is_clock_stamp(user.created_at@)
            &&& is_argon2s_hash(user.password_hash@, chosen@)
            &&& origin is ResetPassword <==> reset is Some
            &&& origin is DefaultPassword <==> reset is None
        },
{
    if reset is Some {
        law_plan_with_a_reset_password(false, optional_text(configured), chosen@);
    } else {
        law_plan_with_a_default_password(chosen@);
    }
    law_roles_have_their_names("admin"@);
}

/// On a new installation without a reset password and without a default
/// password of 6 to 128 bytes, an active administrator gets a random password
/// of twenty-two letters and digits, which is handed out.
pub proof fn law_a_random_password_is_written(
    configured: Option<&str>,
    r: Result<AdminSeed, SeedError>,
)
    requires
        call_ensures(seed_admin, (false, configured, None), r),
        configured matches Some(text) ==> !(6 <= encode_utf8(text@).len() <= 128),
    ensures
        r matches Ok(AdminSeed::Create { user, origin }) && {
            &&& user.username@ == "admin"@
            &&& user.email@ == "admin@rag-engine.local"@
            &&& user.role@ == "admin"@
            &&& user.is_active == 1
            &&& is_clock_stamp(user.created_at@)
            &&& origin matches AdminOrigin::Generated { password, refused }
            &&& password@.len() == 22
            &&& forall|i: int|
                #![trigger password@[i]]
                0 <= i < 22 ==> {
                    ||| 'A' <= password@[i] <= 'Z'
                    ||| 'a' <= password@[i] <= 'z'
                    ||| '0' <= password@[i] <= '9'
                }
            &&& is_drawn_password(password@)
            &&& is_argon2s_hash(user.password_hash@, password@)
        },
{
    if let Some(text) = configured {
        law_policy_in_bytes(text@);
    }
    law_roles_have_their_names("admin"@);
    let password = r->Ok_0->origin->Generated_password;
    assert forall|i: int| #![trigger password@[i]] 0 <= i < 22 implies {
        ||| 'A' <= password@[i] <= 'Z'
        ||| 'a' <= password@[i] <= 'z'
        ||| '0' <= password@[i] <= '9'
    } by {
        assert(is_alphanumeric(password@[i]));
    }
}

/// An existing administrator is left alone unless a reset password is set, and
/// a reset password that is not of 6 to 128 bytes changes nothing.
pub proof fn law_nothing_else_is_written(
    exists: bool,
    configured: Option<&str>,
    reset: Option<&str>,
    r: Result<AdminSeed, SeedError>,
)
    requires
        call_ensures(seed_admin, (exists, configured, reset), r),
    ensures
        exists && (reset matches Some(p) ==> p@.len() == 0) ==> r == Ok::<AdminSeed, SeedError>(
            AdminSeed::Keep {
                default_ignored: (configured matches Some(p) && p@.len() > 0),
            },
        ),
        reset matches Some(p) ==> p@.len() > 0 && encode_utf8(p@).len() < 6 ==> r == Err::<
            AdminSeed,
            SeedError,
        >(SeedError::ResetPassword(PolicyViolation::TooShort)),
        reset matches Some(p) ==> p@.len() > 0 && encode_utf8(p@).len() > 128 ==> r == Err::<
            AdminSeed,
            SeedError,
        >(SeedError::ResetPassword(PolicyViolation::TooLong)),
{
    if let Some(p) = reset {
        law_policy_in_bytes(p@);
    }
}

/// What a plan comes to, for a hash that was made and for one that was not.
pub proof fn law_settling_a_plan(
    plan: AdminPlan,
    password: &str,
    hashed: Result<String, HashError>,
    r: Result<AdminSeed, SeedError>,
)
    requires
        call_ensures(settle_admin_seed, (plan, password, hashed), r),
    ensures
        plan matches AdminPlan::KeepExisting { default_ignored } ==> r == Ok::<AdminSeed, SeedError>(
            AdminSeed::Keep { default_ignored },
        ),
        hashed matches Err(e) ==> !(plan is KeepExisting) ==> r == Err::<AdminSeed, SeedError>(
            SeedError::Hash(e),
        ),
        hashed matches Ok(text) ==> plan is ResetExisting ==> (r matches Ok(
            AdminSeed::Reset { username, password_hash },
        ) && username@ == "admin"@ && password_hash@ == text@),
        hashed matches Ok(text) ==> plan is CreateWithReset || plan is CreateWithDefault
            || plan is CreateGenerated ==> (r matches Ok(AdminSeed::Create { user, origin }) && {
            &&& user.username@ == "admin"@
            &&& user.email@ == "admin@rag-engine.local"@
            &&& user.role@ == "admin"@
            &&& user.password_hash@ == text@
            &&& user.is_active == 1
            &&& is_clock_stamp(user.created_at@)
            &&& origin is ResetPassword <==> plan is CreateWithReset
            &&& origin is DefaultPassword <==> plan is CreateWithDefault
            &&& plan matches AdminPlan::CreateGenerated { refused } ==> {
                &&& origin matches AdminOrigin::Generated { password: shown, refused: named }
                &&& shown@ == password@
                &&& named == refused
            }
        }),
{
    law_roles_have_their_names("admin"@);
}

/// A failure is told with the setting that it is about, and whole.
pub proof fn law_seed_error_is_told(e: &SeedError, text: String)
    requires
        call_ensures(SeedError::message, (e,), text),
    ensures
        *e matches SeedError::ResetPassword(PolicyViolation::TooShort) ==> text@
            == "AUTH__ADMIN_RESET_PASSWORD: "@ + "new password must be at least 6 characters"@,
        *e matches SeedError::ResetPassword(PolicyViolation::TooLong) ==> text@
            == "AUTH__ADMIN_RESET_PASSWORD: "@ + "new password must be at most 128 characters"@,
        *e matches SeedError::Hash(HashError::Hash { reason }) ==> text@ == "hash error: "@
            + reason@,
{
}

/// A drawn password is one that came out of the generator.
proof fn law_passwords_are_drawn(password: Seq<char>)
    requires
        is_drawn_password(password),
    ensures
        exists|drawn: String| #[trigger]
            call_ensures(random_alphanumeric, (22,), drawn) && drawn@ == password,
{
}

} // verus!
