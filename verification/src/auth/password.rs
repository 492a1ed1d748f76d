//! Password policy, and hashing with Argon2id.

use argon2::password_hash::rand_core::OsRng;
use argon2::password_hash::{PasswordHash, PasswordHasher, PasswordVerifier, Salt, SaltString};
use argon2::Argon2;
use vstd::prelude::*;
use vstd::utf8::encode_utf8;

verus! {

/// The least number of bytes in a new password.
pub const MIN_PASSWORD_LEN: usize = 6;

/// The largest number of bytes in a new password: the cost of hashing grows
/// with the input, so an unbounded password is work for the taking.
pub const MAX_PASSWORD_LEN: usize = 128;

/// Why a new password is refused.
#[derive(Debug, Clone, Copy, PartialEq, Eq, Structural)]
pub enum PolicyViolation {
    TooShort,
    TooLong,
}

/// Why no hash was made, or why a stored one could not be read.
#[derive(Debug, Clone)]
pub enum HashError {
    Hash { reason: String },
    Parse { reason: String },
}

/// The length of a text in bytes.
pub open spec fn byte_len(text: Seq<char>) -> nat {
    encode_utf8(text).len()
}

/// What the policy says of a new password.
pub open spec fn policy(password: Seq<char>) -> Result<(), PolicyViolation> {
    if byte_len(password) < MIN_PASSWORD_LEN {
        Err(PolicyViolation::TooShort)
    } else if byte_len(password) > MAX_PASSWORD_LEN {
        Err(PolicyViolation::TooLong)
    } else {
        Ok(())
    }
}

/// Policy for a newly chosen password. Length only, counted in bytes.
pub fn validate_new_password(password: &str) -> (r: Result<(), PolicyViolation>)
    ensures
        r == policy(password@),
{
    let len: usize = password.as_bytes().len();
    if len < MIN_PASSWORD_LEN {
        return Err(PolicyViolation::TooShort);
    }
    if len > MAX_PASSWORD_LEN {
        return Err(PolicyViolation::TooLong);
    }
    Ok(())
}

impl PolicyViolation {
    pub open spec fn text(self) -> Seq<char> {
        match self {
            PolicyViolation::TooShort => "new password must be at least 6 characters"@,
            PolicyViolation::TooLong => "new password must be at most 128 characters"@,
        }
    }

    /// The refusal as text.
    pub fn message(self) -> (text: String)
        ensures
            text@ == self.text(),
    {
        match self {
            PolicyViolation::TooShort => "new password must be at least 6 characters".to_owned(),
            PolicyViolation::TooLong => "new password must be at most 128 characters".to_owned(),
        }
    }
}

impl HashError {
    pub open spec fn text(self) -> Seq<char> {
        match self {
            HashError::Hash { reason } => "hash error: "@ + reason@,
            HashError::Parse { reason } => "parse hash: "@ + reason@,
        }
    }

    /// The failure as text.
    pub fn message(&self) -> (text: String)
        ensures
            text@ == self.text(),
    {
        match self {
            HashError::Hash { reason } => "hash error: ".to_owned().concat(reason.as_str()),
            HashError::Parse { reason } => "parse hash: ".to_owned().concat(reason.as_str()),
        }
    }
}

/// A character of the unpadded base-64 alphabet that salts are written in.
pub open spec fn is_salt_char(c: char) -> bool {
    'A' <= c <= 'Z' || 'a' <= c <= 'z' || '0' <= c <= '9' || c == '+' || c == '/'
}

/// Sixteen bytes in unpadded base 64: twenty-two characters, of which the last
/// stands for two bits only.
pub open spec fn is_fresh_salt(salt: Seq<char>) -> bool {
    &&& salt.len() == 22
    &&& forall|i: int| 0 <= i < salt.len() ==> is_salt_char(#[trigger] salt[i])
    &&& (salt[21] == 'A' || salt[21] == 'Q' || salt[21] == 'g' || salt[21] == 'w')
}

/// The text of the hash that `Argon2::hash_password` makes of a password and a
/// salt with the default parameters, or the text of its error.
pub uninterp spec fn argon2_hash(password: Seq<char>, salt: Seq<char>) -> Result<
    Seq<char>,
    Seq<char>,
>;

/// The parameters that `PasswordHash::new` reads from a hash, by name and in
/// order, or the text of its error.
pub uninterp spec fn phc_parse(hash: Seq<char>) -> Result<
    Seq<(Seq<char>, Seq<char>)>,
    Seq<char>,
>;

/// Whether `Argon2::verify_password` finds that a password fits a hash.
pub uninterp spec fn argon2_fits(password: Seq<char>, hash: Seq<char>) -> bool;

/// The most bytes that the number of lanes can have: the largest number that
/// Argon2 takes has eight digits.
pub const MAX_LANES_LEN: usize = 8;

/// Names and values as plain texts.
pub open spec fn texts(params: Seq<(String, String)>) -> Seq<(Seq<char>, Seq<char>)> {
    params.map_values(|param: (String, String)| (param.0@, param.1@))
}

/// Whether the number of lanes, if one is given, is short enough to be within
/// Argon2's limits. Where a name is repeated, the last value counts.
pub open spec fn lanes_in_reach(params: Seq<(Seq<char>, Seq<char>)>) -> bool
    decreases params.len(),
{
    if params.len() == 0 {
        true
    } else if params.last().0 == "p"@ {
        byte_len(params.last().1) <= MAX_LANES_LEN
    } else {
        lanes_in_reach(params.drop_last())
    }
}

/// What a hash made with the default parameters and `salt` looks like: the
/// algorithm, its version, the parameters, the salt, and thirty-two bytes in
/// unpadded base 64.
pub open spec fn is_default_hash(hash: Seq<char>, salt: Seq<char>) -> bool {
    let head = "$argon2id$v=19$m=19456,t=2,p=1$"@ + salt + "$"@;
    &&& head.is_prefix_of(hash)
    &&& hash.len() == head.len() + 43
    &&& forall|i: int| head.len() <= i < hash.len() ==> is_salt_char(#[trigger] hash[i])
}

/// `SaltString::generate` with the random numbers of the operating system: the
/// salt is sixteen bytes in unpadded base 64. Which bytes is left to chance; a
/// system that has no random numbers to give makes it panic.
#[verifier::external_body]
fn generate_salt() -> (salt: String)
    ensures
        is_fresh_salt(salt@),
{
    SaltString::generate(&mut OsRng).as_str().to_owned()
}

/// `Argon2::hash_password` with the default parameters: its result is a
/// function of the password and the salt. It succeeds on a salt of sixteen
/// bytes and a password that four bytes can count. A hash that it makes names
/// the algorithm, the parameters and the salt; it can be read back, has one
/// lane, and fits the password that it was made of.
#[verifier::external_body]
fn argon2_hash_password(password: &str, salt: &str) -> (r: Result<String, String>)
    ensures
        match r {
            Ok(hash) => argon2_hash(password@, salt@) == Ok::<Seq<char>, Seq<char>>(hash@),
            Err(reason) => argon2_hash(password@, salt@) == Err::<Seq<char>, Seq<char>>(reason@),
        },
        is_fresh_salt(salt@) && byte_len(password@) <= u32::MAX ==> r is Ok,
        r matches Ok(hash) ==> is_default_hash(hash@, salt@) && accepts(hash@, password@),
{
    Salt::from_b64(salt).and_then(|salt| Argon2::default().hash_password(password.as_bytes(), salt))
        .map(|hash| hash.to_string())
        .map_err(|e| e.to_string())
}

/// `PasswordHash::new` reads a hash in the PHC string format; whether it can,
/// the parameters that `ParamsString::iter` then goes through, and the text of
/// its error are functions of the hash.
#[verifier::external_body]
fn read_phc(hash: &str) -> (r: Result<Vec<(String, String)>, String>)
    ensures
        match r {
            Ok(params) => phc_parse(hash@) == Ok::<Seq<(Seq<char>, Seq<char>)>, Seq<char>>(
                texts(params@),
            ),
            Err(reason) => phc_parse(hash@) == Err::<Seq<(Seq<char>, Seq<char>)>, Seq<char>>(
                reason@,
            ),
        },
{
    let parsed = PasswordHash::new(hash).map_err(|e| e.to_string())?;
    Ok(parsed.params.iter().map(|(n, v)| (n.as_str().to_owned(), v.as_str().to_owned())).collect())
}

/// `Argon2::verify_password` hashes the password with the salt and parameters
/// that the hash names and compares; the answer is a function of the two. It
/// multiplies the number of lanes before it holds it against its limit, so a
/// number that is too long is kept from it. A hash may name more memory than
/// the machine has, and then no answer comes.
#[verifier::external_body]
fn argon2_verify_password(password: &str, hash: &str) -> (fits: bool)
    requires
        phc_parse(hash@) matches Ok(params) && lanes_in_reach(params),
    ensures
        fits == argon2_fits(password@, hash@),
{
    let parsed = PasswordHash::new(hash).unwrap();
    Argon2::default().verify_password(password.as_bytes(), &parsed).is_ok()
}

/// `r` is what hashing `password` with `salt` gives.
pub open spec fn is_hash_of(
    r: Result<String, HashError>,
    password: Seq<char>,
    salt: Seq<char>,
) -> bool {
    match argon2_hash(password, salt) {
        Ok(text) => r matches Ok(hash) && hash@ == text,
        Err(text) => r matches Err(HashError::Hash { reason }) && reason@ == text,
    }
}

/// Whether `hash` can be read, is within Argon2's limits, and `password` fits
/// it.
pub open spec fn accepts(hash: Seq<char>, password: Seq<char>) -> bool {
    &&& phc_parse(hash) matches Ok(params)
    &&& lanes_in_reach(params)
    &&& argon2_fits(password, hash)
}

/// `salt` is what `generate_salt` may draw.
pub closed spec fn is_drawn_salt(salt: Seq<char>) -> bool {
    exists|drawn: String| #[trigger] call_ensures(generate_salt, (), drawn) && drawn@ == salt
}

/// `hash` is what `password` gives with a salt drawn for it.
pub open spec fn is_freshly_salted(hash: Seq<char>, password: Seq<char>) -> bool {
    exists|salt: Seq<char>|
        {
            &&& is_drawn_salt(salt)
            &&& is_fresh_salt(salt)
            &&& is_default_hash(hash, salt)
            &&& #[trigger] argon2_hash(password, salt) == Ok::<Seq<char>, Seq<char>>(hash)
        }
}

/// Tests whether the number of lanes is within Argon2's limits. A longer one is
/// never accepted.
pub fn check_lanes(params: &Vec<(String, String)>) -> (ok: bool)
    ensures
        ok == lanes_in_reach(texts(params@)),
{
    let lanes = "p".to_owned();
    let mut ok = true;
    for i in 0..params.len()
        invariant
            lanes@ == "p"@,
            ok == lanes_in_reach(texts(params@).take(i as int)),
    {
        assert(texts(params@).take(i + 1).drop_last() =~= texts(params@).take(i as int));
        if params[i].0 == lanes {
            ok = params[i].1.as_str().as_bytes().len() <= MAX_LANES_LEN;
        }
    }
    assert(texts(params@).take(params@.len() as int) =~= texts(params@));
    ok
}

/// Takes over what hashing gave: the hash, or the failure with its reason.
pub fn hash_outcome(hashed: Result<String, String>) -> (r: Result<String, HashError>)
    ensures
        match hashed {
            Ok(hash) => r == Ok::<String, HashError>(hash),
            Err(reason) => r == Err::<String, HashError>(HashError::Hash { reason }),
        },
{
    match hashed {
        Ok(hash) => Ok(hash),
        Err(reason) => Err(HashError::Hash { reason }),
    }
}

/// Takes over what checking a password gave: a hash that could not be read is
/// an error, and a password that does not fit is not.
pub fn verify_outcome(read: Result<(), String>, fits: bool) -> (r: Result<bool, HashError>)
    ensures
        match read {
            Ok(()) => r == Ok::<bool, HashError>(fits),
            Err(reason) => r == Err::<bool, HashError>(HashError::Parse { reason }),
        },
{
    match read {
        Ok(()) => Ok(fits),
        Err(reason) => Err(HashError::Parse { reason }),
    }
}

/// Hashes `password` with a given salt.
pub fn hash_with_salt(password: &str, salt: &str) -> (r: Result<String, HashError>)
    ensures
        is_hash_of(r, password@, salt@),
        is_fresh_salt(salt@) && byte_len(password@) <= u32::MAX ==> r is Ok,
        r matches Ok(hash) ==> is_default_hash(hash@, salt@) && accepts(hash@, password@),
{
    hash_outcome(argon2_hash_password(password, salt))
}

/// Hashes `password` with a salt of its own. The hash that comes out accepts
/// the password; none is refused but one whose length four bytes cannot count.
pub fn hash(password: &str) -> (r: Result<String, HashError>)
    ensures
        exists|salt: Seq<char>|
            is_drawn_salt(salt) && is_fresh_salt(salt) && #[trigger] is_hash_of(r, password@, salt)
                && (r matches Ok(hash) ==> is_default_hash(hash@, salt)),
        byte_len(password@) <= u32::MAX ==> r is Ok,
        r matches Ok(hash) ==> is_freshly_salted(hash@, password@) && accepts(hash@, password@),
{
    let salt = generate_salt();
    hash_with_salt(password, salt.as_str())
}

/// Whether `password` fits `hash`. A hash whose number of lanes is beyond
/// Argon2's limits fits nothing.
pub fn verify(password: &str, hash: &str) -> (r: Result<bool, HashError>)
    ensures
        match phc_parse(hash@) {
            Ok(params) => r matches Ok(fits) && fits == accepts(hash@, password@) && fits == (
            lanes_in_reach(params) && argon2_fits(password@, hash@)),
            Err(text) => r matches Err(HashError::Parse { reason }) && reason@ == text,
        },
{
    match read_phc(hash) {
        Ok(params) => {
            let fits = check_lanes(&params) && argon2_verify_password(password, hash);
            verify_outcome(Ok(()), fits)
        },
        Err(reason) => verify_outcome(Err(reason), false),
    }
}

/// A text has at least as many bytes as characters.
pub proof fn law_bytes_cover_characters(text: Seq<char>)
    ensures
        text.len() <= byte_len(text),
    decreases text.len(),
{
    if text.len() > 0 {
        law_bytes_cover_characters(text.drop_first());
    }
}

/// A password with enough characters is never too short, whatever its script,
/// and passes unless its bytes exceed the ceiling.
pub proof fn law_enough_characters_are_never_too_short(password: Seq<char>)
    requires
        password.len() >= MIN_PASSWORD_LEN,
    ensures
        policy(password) != Err::<(), PolicyViolation>(PolicyViolation::TooShort),
        byte_len(password) <= MAX_PASSWORD_LEN ==> policy(password) is Ok,
{
    law_bytes_cover_characters(password);
}

/// The policy in numbers: a new password of 6 to 128 bytes of UTF-8 is taken,
/// a shorter one is too short, and a longer one is too long.
pub proof fn law_policy_in_bytes(password: Seq<char>)
    ensures
        byte_len(password) == encode_utf8(password).len(),
        encode_utf8(password).len() < 6 ==> policy(password) == Err::<(), PolicyViolation>(
            PolicyViolation::TooShort,
        ),
        6 <= encode_utf8(password).len() <= 128 ==> policy(password) == Ok::<(), PolicyViolation>(
            (),
        ),
        encode_utf8(password).len() > 128 ==> policy(password) == Err::<(), PolicyViolation>(
            PolicyViolation::TooLong,
        ),
{
}

/// What validation answers, in numbers.
pub proof fn law_validation_in_bytes(password: &str, r: Result<(), PolicyViolation>)
    requires
        call_ensures(validate_new_password, (password,), r),
    ensures
        r is Ok <==> 6 <= encode_utf8(password@).len() <= 128,
        r == Err::<(), PolicyViolation>(PolicyViolation::TooShort) <==> encode_utf8(
            password@,
        ).len() < 6,
        r == Err::<(), PolicyViolation>(PolicyViolation::TooLong) <==> encode_utf8(password@).len()
            > 128,
{
    law_policy_in_bytes(password@);
}

/// Whether the number of lanes is in reach is decided by the last value named
/// `p`: it is exactly where there is none, or it has at most eight bytes.
pub proof fn law_last_lanes_decide(params: Seq<(Seq<char>, Seq<char>)>)
    ensures
        lanes_in_reach(params) <==> forall|i: int|
            #![trigger params[i]]
            0 <= i < params.len() && params[i].0 == "p"@ && (forall|j: int|
                i < j < params.len() ==> #[trigger] params[j].0 != "p"@) ==> encode_utf8(
                params[i].1,
            ).len() <= 8,
    decreases params.len(),
{
    if params.len() > 0 {
        let last = params.len() - 1;
        let shorter = params.drop_last();
        if params[last].0 != "p"@ {
            law_last_lanes_decide(shorter);
            assert forall|i: int|
                #![trigger params[i]]
                0 <= i < params.len() && params[i].0 == "p"@ && (forall|j: int|
                    i < j < params.len() ==> #[trigger] params[j].0 != "p"@)
                    && lanes_in_reach(shorter) implies encode_utf8(params[i].1).len() <= 8 by {
                assert(shorter[i] == params[i]);
                assert forall|j: int| i < j < shorter.len() implies #[trigger] shorter[j].0
                    != "p"@ by {
                    assert(shorter[j] == params[j]);
                }
            }
            if !lanes_in_reach(shorter) {
                let i = choose|i: int|
                    #![trigger shorter[i]]
                    0 <= i < shorter.len() && shorter[i].0 == "p"@ && (forall|j: int|
                        i < j < shorter.len() ==> #[trigger] shorter[j].0 != "p"@)
                        && encode_utf8(shorter[i].1).len() > 8;
                assert(params[i] == shorter[i]);
                assert forall|j: int| i < j < params.len() implies #[trigger] params[j].0
                    != "p"@ by {
                    if j < last {
                        assert(shorter[j] == params[j]);
                    }
                }
            }
        }
    }
}

/// Parameters are read as the texts that they are.
pub proof fn law_parameters_are_texts(params: Seq<(String, String)>, i: int)
    requires
        0 <= i < params.len(),
    ensures
        texts(params).len() == params.len(),
        texts(params)[i].0 == params[i].0@,
        texts(params)[i].1 == params[i].1@,
{
}

/// A password is said to fit a hash exactly where the hash can be read, its
/// lanes are in reach, and Argon2 itself finds that it fits. A hash that can be
/// read is never an error, and one that cannot be read always is, with the
/// reader's reason.
pub proof fn law_verify_is_argon2s_verdict(
    password: &str,
    hash: &str,
    r: Result<bool, HashError>,
)
    requires
        call_ensures(verify, (password, hash), r),
    ensures
        r == Ok::<bool, HashError>(true) ==> argon2_fits(password@, hash@),
        r == Ok::<bool, HashError>(true) ==> phc_parse(hash@) is Ok,
        phc_parse(hash@) matches Ok(params) ==> r == Ok::<bool, HashError>(
            lanes_in_reach(params) && argon2_fits(password@, hash@),
        ),
        phc_parse(hash@) matches Err(text) ==> (r matches Err(HashError::Parse { reason })
            && reason@ == text),
{
}

/// A hash is Argon2's hash of the password with a salt of twenty-two characters;
/// it names the algorithm, the parameters and that salt. No password is refused
/// whose length in bytes four bytes can count.
pub proof fn law_hash_is_argon2s_hash(password: &str, r: Result<String, HashError>)
    requires
        call_ensures(hash, (password,), r),
    ensures
        encode_utf8(password@).len() <= 0xffff_ffff ==> r is Ok,
        exists|salt: Seq<char>|
            #![trigger argon2_hash(password@, salt)]
            {
                &&& is_drawn_salt(salt)
                &&& salt.len() == 22
                &&& match r {
                    Ok(text) => {
                        &&& argon2_hash(password@, salt) == Ok::<Seq<char>, Seq<char>>(text@)
                        &&& ("$argon2id$v=19$m=19456,t=2,p=1$"@ + salt + "$"@).is_prefix_of(text@)
                    },
                    Err(e) => {
                        &&& e matches HashError::Hash { reason }
                        &&& argon2_hash(password@, salt) == Err::<Seq<char>, Seq<char>>(reason@)
                    },
                }
            },
        r matches Ok(text) ==> phc_parse(text@) is Ok && argon2_fits(password@, text@),
{
    let salt = choose|salt: Seq<char>|
        is_drawn_salt(salt) && is_fresh_salt(salt) && #[trigger] is_hash_of(r, password@, salt) && (
        r matches Ok(text) ==> is_default_hash(text@, salt));
    assert(is_hash_of(r, password@, salt));
}

/// With a given salt, hashing gives what Argon2 gives for the two.
pub proof fn law_hash_with_salt_is_argon2s_hash(
    password: &str,
    salt: &str,
    r: Result<String, HashError>,
)
    requires
        call_ensures(hash_with_salt, (password, salt), r),
    ensures
        argon2_hash(password@, salt@) matches Ok(text) ==> (r matches Ok(hash) && hash@ == text),
        argon2_hash(password@, salt@) matches Err(text) ==> (r matches Err(
            HashError::Hash { reason },
        ) && reason@ == text),
{
}

/// A hash that was made of a password is found to fit it.
pub proof fn law_own_hash_fits(
    password: &str,
    made: Result<String, HashError>,
    stored: &str,
    r: Result<bool, HashError>,
)
    requires
        call_ensures(hash, (password,), made),
        made matches Ok(text) && text@ == stored@,
        call_ensures(verify, (password, stored), r),
    ensures
        r == Ok::<bool, HashError>(true),
{
}

/// A failure is told with its reason, whole.
pub proof fn law_hash_error_is_told(e: &HashError, text: String)
    requires
        call_ensures(HashError::message, (e,), text),
    ensures
        *e matches HashError::Hash { reason } ==> text@ == "hash error: "@ + reason@,
        *e matches HashError::Parse { reason } ==> text@ == "parse hash: "@ + reason@,
{
}

/// A refusal is told with the limit that was broken.
pub proof fn law_refusal_is_told(violation: PolicyViolation, text: String)
    requires
        call_ensures(PolicyViolation::message, (violation,), text),
    ensures
        violation is TooShort ==> text@ == "new password must be at least 6 characters"@,
        violation is TooLong ==> text@ == "new password must be at most 128 characters"@,
{
}

/// A drawn salt is one that came out of the generator.
proof fn law_salts_are_drawn(salt: Seq<char>)
    requires
        is_drawn_salt(salt),
    ensures
        exists|drawn: String| #[trigger] call_ensures(generate_salt, (), drawn) && drawn@ == salt,
{
}

} // verus!
