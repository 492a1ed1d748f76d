//! Users as they are stored, and as they are written.

use std::str::FromStr;

use chrono::Utc;
use vstd::prelude::*;

use crate::auth::rbac::{
    is_role_name, law_role_round_trip, law_roles_have_their_names, may_delete, may_manage_users,
    may_upload, role_name, role_named, Role,
};

verus! {

/// A user as read from the store.
#[derive(Debug)]
pub struct UserRow {
    pub id: i64,
    pub username: String,
    pub email: String,
    pub password_hash: String,
    pub role: String,
    pub created_at: String,
    pub last_login: Option<String>,
    pub is_active: i64,
}

/// A user to be written to the store.
#[derive(Debug)]
pub struct NewUser {
    pub username: String,
    pub email: String,
    pub password_hash: String,
    pub role: String,
    pub created_at: String,
    pub is_active: i64,
}

/// A login to be noted in the store.
#[derive(Debug)]
pub struct LoginStamp {
    pub id: i64,
    pub last_login: String,
}

/// The role that a stored name stands for; a name that stands for none counts
/// as a plain user.
pub open spec fn stored_role(name: Seq<char>) -> Role {
    match role_named(name) {
        Some(role) => role,
        None => Role::User,
    }
}

impl UserRow {
    pub fn role(&self) -> (role: Role)
        ensures
            role == stored_role(self.role@),
    {
        match Role::from_str(self.role.as_str()) {
            Ok(role) => role,
            Err(_) => Role::User,
        }
    }
}

/// A digit of ASCII.
pub open spec fn is_digit(c: char) -> bool {
    '0' <= c <= '9'
}

/// Nothing but digits.
pub open spec fn is_digits(text: Seq<char>) -> bool {
    forall|i: int| 0 <= i < text.len() ==> is_digit(#[trigger] text[i])
}

/// Four digits; a later year has a sign and more of them.
pub open spec fn is_year(text: Seq<char>) -> bool {
    ||| text.len() == 4 && is_digits(text)
    ||| text.len() > 5 && text[0] == '+' && is_digits(text.skip(1))
}

/// The part of a second: none, or thousandths, millionths or billionths behind
/// a point.
pub open spec fn is_fraction(text: Seq<char>) -> bool {
    ||| text.len() == 0
    ||| {
        &&& text.len() == 4 || text.len() == 7 || text.len() == 10
        &&& text[0] == '.'
        &&& is_digits(text.skip(1))
    }
}

/// `n` in two digits.
pub open spec fn two_digits(n: nat) -> Seq<char> {
    seq![('0' as nat + n / 10) as char, ('0' as nat + n % 10) as char]
}

/// A date and a time of day in UTC, as RFC 3339 writes them.
pub open spec fn stamp_text(
    year: Seq<char>,
    month: nat,
    day: nat,
    hour: nat,
    minute: nat,
    second: nat,
    fraction: Seq<char>,
) -> Seq<char> {
    year + "-"@ + two_digits(month) + "-"@ + two_digits(day) + "T"@ + two_digits(hour) + ":"@
        + two_digits(minute) + ":"@ + two_digits(second) + fraction + "+00:00"@
}

/// A time stamp in UTC as RFC 3339 writes it.
pub open spec fn is_utc_stamp(text: Seq<char>) -> bool {
    exists|
        year: Seq<char>,
        month: nat,
        day: nat,
        hour: nat,
        minute: nat,
        second: nat,
        fraction: Seq<char>,
    |
        {
            &&& text == #[trigger] stamp_text(year, month, day, hour, minute, second, fraction)
            &&& is_year(year)
            &&& 1 <= month <= 12
            &&& 1 <= day <= 31
            &&& hour < 24
            &&& minute < 60
            &&& second < 60
            &&& is_fraction(fraction)
        }
}

/// `Utc::now` and `DateTime::to_rfc3339`: the current time as text, with the
/// offset of UTC written out. Which time it is is left open; a system clock set
/// before 1970 makes it panic.
#[verifier::external_body]
fn now_rfc3339() -> (stamp: String)
    ensures
        is_utc_stamp(stamp@),
{
    Utc::now().to_rfc3339()
}

/// `text` is what the clock may read now.
pub closed spec fn is_clock_stamp(text: Seq<char>) -> bool {
    exists|stamp: String| #[trigger] call_ensures(now_rfc3339, (), stamp) && stamp@ == text
}

/// `user` is the active user with this name, address, hash and role.
pub open spec fn is_active_user(
    user: NewUser,
    username: Seq<char>,
    email: Seq<char>,
    password_hash: Seq<char>,
    role: Role,
) -> bool {
    &&& user.username@ == username
    &&& user.email@ == email
    &&& user.password_hash@ == password_hash
    &&& user.role@ == role_name(role)
    &&& user.is_active == 1
}

/// The row for a new user, created at `created_at`. A new user is active.
pub fn create_at(
    username: &str,
    email: &str,
    password_hash: &str,
    role: Role,
    created_at: String,
) -> (user: NewUser)
    ensures
        is_active_user(user, username@, email@, password_hash@, role),
        user.created_at@ == created_at@,
{
    NewUser {
        username: username.to_owned(),
        email: email.to_owned(),
        password_hash: password_hash.to_owned(),
        role: role.to_string(),
        created_at,
        is_active: 1,
    }
}

/// The row for a new user, created now.
pub fn create(username: &str, email: &str, password_hash: &str, role: Role) -> (user: NewUser)
    ensures
        is_active_user(user, username@, email@, password_hash@, role),
        is_clock_stamp(user.created_at@),
        is_utc_stamp(user.created_at@),
{
    create_at(username, email, password_hash, role, now_rfc3339())
}

/// The note that a user logged in now.
pub fn touch_last_login(user_id: i64) -> (stamp: LoginStamp)
    ensures
        stamp.id == user_id,
        is_clock_stamp(stamp.last_login@),
        is_utc_stamp(stamp.last_login@),
{
    LoginStamp { id: user_id, last_login: now_rfc3339() }
}

/// A role that is written with a new user is the role that is read back.
pub proof fn law_stored_role_reads_back(user: NewUser, role: Role)
    requires
        user.role@ == role_name(role),
    ensures
        stored_role(user.role@) == role,
{
    law_role_round_trip(role);
}

/// A stored name that stands for no role gives no privilege.
pub proof fn law_unknown_role_has_no_privilege(name: Seq<char>)
    requires
        !is_role_name(name),
    ensures
        !may_upload(stored_role(name)),
        !may_delete(stored_role(name)),
        !may_manage_users(stored_role(name)),
{
}

/// A row stands for an administrator or a super user exactly where it holds
/// that name, letter for letter; every other text stands for a plain user.
pub proof fn law_role_of_a_row(row: &UserRow, role: Role)
    requires
        call_ensures(UserRow::role, (row,), role),
    ensures
        role is Admin <==> row.role@ == "admin"@,
        role is SuperUser <==> row.role@ == "super_user"@,
{
    law_roles_have_their_names(row.role@);
}

/// A new user is written as it was given, active, under the name of its role.
pub proof fn law_new_user_is_written_as_given(
    username: &str,
    email: &str,
    password_hash: &str,
    role: Role,
    created_at: String,
    user: NewUser,
)
    requires
        call_ensures(create_at, (username, email, password_hash, role, created_at), user),
    ensures
        user.username@ == username@,
        user.email@ == email@,
        user.password_hash@ == password_hash@,
        user.role@ == match role {
            Role::Admin => "admin"@,
            Role::SuperUser => "super_user"@,
            Role::User => "user"@,
        },
        user.created_at@ == created_at@,
        user.is_active == 1,
{
    law_roles_have_their_names(user.role@);
}

/// So is one that is created now.
pub proof fn law_user_created_now_is_written_as_given(
    username: &str,
    email: &str,
    password_hash: &str,
    role: Role,
    user: NewUser,
)
    requires
        call_ensures(create, (username, email, password_hash, role), user),
    ensures
        user.username@ == username@,
        user.email@ == email@,
        user.password_hash@ == password_hash@,
        user.role@ == match role {
            Role::Admin => "admin"@,
            Role::SuperUser => "super_user"@,
            Role::User => "user"@,
        },
        is_clock_stamp(user.created_at@),
        user.is_active == 1,
{
    law_roles_have_their_names(user.role@);
}

/// A time stamp has at least a date and a time to the second, and ends in the
/// offset of UTC.
pub proof fn law_stamps_are_in_utc(text: Seq<char>)
    requires
        is_utc_stamp(text),
    ensures
        text.len() >= 25,
        "+00:00"@.is_suffix_of(text),
{
    reveal_strlit("-");
    reveal_strlit("T");
    reveal_strlit(":");
    reveal_strlit("+00:00");
}

/// A stamp of the clock is one that the clock gave.
proof fn law_stamps_are_read_from_the_clock(text: Seq<char>)
    requires
        is_clock_stamp(text),
    ensures
        exists|stamp: String| #[trigger] call_ensures(now_rfc3339, (), stamp) && stamp@ == text,
{
}

} // verus!
