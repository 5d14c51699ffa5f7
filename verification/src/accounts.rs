//! Accounts: registration, login, email verification, password and username changes.
//!
//! Each request handler of the account API alternates store lookups with decisions. Here
//! every handler is a decision function: it takes the request and what the lookups made so
//! far returned (`None` for a lookup not made yet), and answers with the next step: a lookup
//! to make, a write to perform, or the final answer.
use vstd::prelude::*;
use vstd::string::*;
use vstd::utf8::encode_utf8;
use crate::api_error::Error;
use crate::ids::new_uuid;
use crate::patterns::{
    email_is_valid, email_pattern_matches, username_has_forbidden_char, username_pattern_matches,
};
use crate::secrets::{
    all_distinct, argon2_encoded_hash, argon2_shaped, argon2_verification, code_char, hash_password,
    verify_password, PASSWORD_SALT,
};

verus! {

/// The text is empty.
pub open spec fn blank(s: Seq<char>) -> bool {
    s.len() == 0
}

/// Whether a request field is empty.
pub fn is_blank(s: &String) -> (r: bool)
    ensures
        r == blank(s@),
{
    s.as_str().unicode_len() == 0
}

/// A request to check a session token.
pub struct VerifyTokenPayload {
    pub token: String,
}

/// A login request: a username or an email address, and a password.
pub struct LoginPayload {
    pub usernameoremail: String,
    pub pwd: String,
}

/// A registration request.
pub struct RegistrationPayload {
    pub first_name: String,
    pub last_name: String,
    pub email: String,
    pub username: String,
    pub password: String,
}

/// A request to confirm an email address with the code that was mailed.
pub struct VerifyUserPayload {
    pub id: String,
    pub user_key: String,
}

/// A request to mail a confirmation code.
pub struct SendEmailPayload {
    pub id: String,
    pub to_email: String,
}

/// A request to change a password.
pub struct ChangeUserPasswordPayload {
    pub user_id: String,
    pub password: String,
    pub new_password: String,
}

/// A request to change a username.
pub struct ChangeUserUsernamePayload {
    pub user_id: String,
    pub username: String,
}

/// An account as the store holds it.
pub struct StoredUser {
    pub id: String,
    pub username: String,
    pub first_name: String,
    pub last_name: String,
    pub email: String,
    pub password: String,
    pub score: i32,
    pub verified: bool,
    pub is_online: bool,
}

/// An account as the API shows it: everything but the password hash.
pub struct ResponseUser {
    pub id: String,
    pub username: String,
    pub first_name: String,
    pub last_name: String,
    pub email: String,
    pub score: i32,
    pub verified: bool,
}

/// The shown form of a stored account.
pub open spec fn shows(r: ResponseUser, u: StoredUser) -> bool {
    &&& r.id@ == u.id@
    &&& r.username@ == u.username@
    &&& r.first_name@ == u.first_name@
    &&& r.last_name@ == u.last_name@
    &&& r.email@ == u.email@
    &&& r.score == u.score
    &&& r.verified == u.verified
}

/// A copy of a string.
pub fn copy_string(s: &String) -> (r: String)
    ensures
        r@ == s@,
{
    s.clone()
}

/// The shown form of a stored account.
pub fn response_user(u: &StoredUser) -> (r: ResponseUser)
    ensures
        shows(r, *u),
{
    ResponseUser {
        id: copy_string(&u.id),
        username: copy_string(&u.username),
        first_name: copy_string(&u.first_name),
        last_name: copy_string(&u.last_name),
        email: copy_string(&u.email),
        score: u.score,
        verified: u.verified,
    }
}

/// A registration's username holds neither `@` nor whitespace and its email has the shape
/// of an address.
pub open spec fn registration_valid(p: RegistrationPayload) -> bool {
    !username_pattern_matches(p.username@) && email_pattern_matches(p.email@)
}

/// Whether a registration's username and email have acceptable shapes.
pub fn validate_user_payload(payload: &RegistrationPayload) -> (r: bool)
    ensures
        r == registration_valid(*payload),
{
    if username_has_forbidden_char(payload.username.as_str()) {
        return false;
    }
    if !email_is_valid(payload.email.as_str()) {
        return false;
    }
    true
}

/// The next step of a registration.
pub enum RegisterStep {
    /// Look up whether the username is taken.
    LookUpUsername,
    /// Look up whether the email address is taken.
    LookUpEmail,
    /// Store this new account and answer with it.
    Create(StoredUser),
    /// Answer with this error.
    Fail(Error),
}

/// Some field of the registration is empty.
pub open spec fn registration_incomplete(p: RegistrationPayload) -> bool {
    blank(p.first_name@) || blank(p.last_name@) || blank(p.email@) || blank(p.username@) || blank(
        p.password@,
    )
}

/// The error that a registration is refused with, given what the lookups returned, in the
/// order of the checks; `None` when it is accepted.
pub open spec fn registration_refusal(p: RegistrationPayload, username_taken: bool, email_taken: bool) -> Option<Error> {
    if registration_incomplete(p) {
        Some(Error::MissingParamsError)
    } else if p.username@.contains('@') {
        Some(Error::UsernameContainsInvalidCharachter)
    } else if username_taken {
        Some(Error::UsernameAlreadyExists)
    } else if email_taken {
        Some(Error::EmailAlreadyInUse)
    } else if encode_utf8(p.password@).len() < 8 {
        Some(Error::PasswordLength)
    } else if !registration_valid(p) {
        Some(Error::RegistrationPayloadValidationError)
    } else {
        None
    }
}

/// Whether `c` occurs in the string.
pub fn contains_char_str(s: &String, c: char) -> (r: bool)
    ensures
        r == s@.contains(c),
{
    let n = s.as_str().unicode_len();
    let mut i: usize = 0;
    while i < n
        invariant
            n == s@.len(),
            i <= n,
            forall|j: int| 0 <= j < i ==> s@[j] != c,
        decreases n - i,
    {
        if s.as_str().get_char(i) == c {
            return true;
        }
        i = i + 1;
    }
    false
}

/// One step of a registration: the checks, in order, are that no field is empty, that the
/// username holds no `@`, that neither the username nor the email is taken (each looked up
/// in turn), that the password has at least 8 bytes, and that the username and email have
/// acceptable shapes. An accepted registration becomes an unverified account with score 0,
/// a fresh id and the hash of the password.
pub fn register_user(
    payload: &RegistrationPayload,
    username_taken: Option<bool>,
    email_taken: Option<bool>,
) -> (r: RegisterStep)
    requires
        encode_utf8(payload.password@).len() <= 0xffff_ffff,
    ensures
        registration_incomplete(*payload) ==> r == RegisterStep::Fail(Error::MissingParamsError),
        !registration_incomplete(*payload) && payload.username@.contains('@') ==> r
            == RegisterStep::Fail(Error::UsernameContainsInvalidCharachter),
        !registration_incomplete(*payload) && !payload.username@.contains('@') && username_taken
            is None ==> r is LookUpUsername,
        !registration_incomplete(*payload) && !payload.username@.contains('@') && username_taken
            == Some(false) && email_taken is None ==> r is LookUpEmail,
        username_taken is Some && email_taken is Some ==> match registration_refusal(
            *payload,
            username_taken->0,
            email_taken->0,
        ) {
            Some(err) => r == RegisterStep::Fail(err),
            None => r matches RegisterStep::Create(user) && {
                &&& user.id@.len() == 36
                &&& user.username@ == payload.username@
                &&& user.first_name@ == payload.first_name@
                &&& user.last_name@ == payload.last_name@
                &&& user.email@ == payload.email@
                &&& user.password@ == argon2_encoded_hash(payload.password@, PASSWORD_SALT@)
                &&& argon2_shaped(user.password@)
                &&& !argon2_shaped(payload.password@) ==> user.password@ != payload.password@
                &&& user.score == 0
                &&& !user.verified
                &&& !user.is_online
            },
        },
        username_taken == Some(true) && !registration_incomplete(*payload)
            && !payload.username@.contains('@') ==> r == RegisterStep::Fail(
            Error::UsernameAlreadyExists,
        ),
{
    if is_blank(&payload.first_name) || is_blank(&payload.last_name) || is_blank(&payload.email)
        || is_blank(&payload.username) || is_blank(&payload.password) {
        return RegisterStep::Fail(Error::MissingParamsError);
    }
    if contains_char_str(&payload.username, '@') {
        return RegisterStep::Fail(Error::UsernameContainsInvalidCharachter);
    }
    let username_taken = match username_taken {
        None => return RegisterStep::LookUpUsername,
        Some(t) => t,
    };
    if username_taken {
        return RegisterStep::Fail(Error::UsernameAlreadyExists);
    }
    let email_taken = match email_taken {
        None => return RegisterStep::LookUpEmail,
        Some(t) => t,
    };
    if email_taken {
        return RegisterStep::Fail(Error::EmailAlreadyInUse);
    }
    proof {
        crate::text::lemma_utf8_len_bound(payload.password@);
    }
    if payload.password.as_str().len() < 8 {
        return RegisterStep::Fail(Error::PasswordLength);
    }
    if !validate_user_payload(payload) {
        return RegisterStep::Fail(Error::RegistrationPayloadValidationError);
    }
    let user_id = new_uuid();
    let hashed_password = hash_password(&payload.password);
    RegisterStep::Create(
        StoredUser {
            id: user_id,
            username: copy_string(&payload.username),
            first_name: copy_string(&payload.first_name),
            last_name: copy_string(&payload.last_name),
            email: copy_string(&payload.email),
            password: hashed_password,
            score: 0,
            verified: false,
            is_online: false,
        },
    )
}

/// The next step of a login.
pub enum LoginStep {
    /// Look up the account with this email address.
    LookUpByEmail,
    /// Look up the account with this username.
    LookUpByUsername,
    /// Issue a session token for this account and answer with it.
    IssueToken(ResponseUser),
    /// The stored hash cannot be decoded.
    MalformedHash,
    /// Answer with this error.
    Fail(Error),
}

/// One step of a login: both fields must be given; a name holding `@` is looked up as an
/// email address, any other as a username; an unknown account, or a password that does not
/// verify, is refused.
pub fn login_user(payload: &LoginPayload, found: Option<Option<StoredUser>>) -> (r: LoginStep)
    ensures
        blank(payload.usernameoremail@) || blank(payload.pwd@) ==> r == LoginStep::Fail(
            Error::MissingParamsError,
        ),
        !(blank(payload.usernameoremail@) || blank(payload.pwd@)) ==> match found {
            None => if payload.usernameoremail@.contains('@') {
                r is LookUpByEmail
            } else {
                r is LookUpByUsername
            },
            Some(None) => r == LoginStep::Fail(Error::EntityNotFound),
            Some(Some(u)) => match argon2_verification(u.password@, payload.pwd@) {
                None => r is MalformedHash,
                Some(false) => r == LoginStep::Fail(Error::PasswordIncorrect),
                Some(true) => r matches LoginStep::IssueToken(shown) && shows(shown, u),
            },
        },
        found matches Some(Some(u)) ==> (!(blank(payload.usernameoremail@) || blank(payload.pwd@))
            && encode_utf8(payload.pwd@).len() <= 0xffff_ffff && u.password@ == argon2_encoded_hash(
            payload.pwd@,
            PASSWORD_SALT@,
        ) ==> (r matches LoginStep::IssueToken(shown) && shows(shown, u))),
{
    if is_blank(&payload.usernameoremail) || is_blank(&payload.pwd) {
        return LoginStep::Fail(Error::MissingParamsError);
    }
    match found {
        None => {
            if contains_char_str(&payload.usernameoremail, '@') {
                LoginStep::LookUpByEmail
            } else {
                LoginStep::LookUpByUsername
            }
        },
        Some(None) => LoginStep::Fail(Error::EntityNotFound),
        Some(Some(user)) => match verify_password(&user.password, &payload.pwd) {
            None => LoginStep::MalformedHash,
            Some(false) => LoginStep::Fail(Error::PasswordIncorrect),
            Some(true) => LoginStep::IssueToken(response_user(&user)),
        },
    }
}


/// The next step of a session token check.
pub enum TokenStep {
    /// Decode the token.
    Decode,
    /// Look up the account with this id, which the token names.
    LookUpUser(String),
    /// Answer with the account that was found.
    Respond,
    /// Answer with this error.
    Fail(Error),
}

/// One step of a session token check: the token must be given and decode to an account id,
/// and that account must exist. `decoded` is `Some(None)` when decoding failed.
pub fn verify_token(
    payload: &VerifyTokenPayload,
    decoded: Option<Option<String>>,
    found: Option<bool>,
) -> (r: TokenStep)
    ensures
        blank(payload.token@) ==> r == TokenStep::Fail(Error::MissingParamsError),
        !blank(payload.token@) ==> match decoded {
            None => r is Decode,
            Some(None) => r == TokenStep::Fail(Error::InvalidUserToken),
            Some(Some(id)) => match found {
                None => r matches TokenStep::LookUpUser(i) && i@ == id@,
                Some(false) => r == TokenStep::Fail(Error::NoUserEntityFoundForToken),
                Some(true) => r is Respond,
            },
        },
{
    if is_blank(&payload.token) {
        return TokenStep::Fail(Error::MissingParamsError);
    }
    match decoded {
        None => TokenStep::Decode,
        Some(None) => TokenStep::Fail(Error::InvalidUserToken),
        Some(Some(id)) => match found {
            None => TokenStep::LookUpUser(id),
            Some(false) => TokenStep::Fail(Error::NoUserEntityFoundForToken),
            Some(true) => TokenStep::Respond,
        },
    }
}

/// The store key under which the confirmation code of an account is kept.
pub open spec fn email_key(id: Seq<char>) -> Seq<char> {
    id + "-email-key"@
}

/// The store key under which the confirmation code of an account is kept.
pub fn email_key_for(id: &String) -> (r: String)
    ensures
        r@ == email_key(id@),
{
    copy_string(id).concat("-email-key")
}

/// How long a confirmation code stays valid, in seconds.
pub const EMAIL_CODE_SECONDS: u64 = 900;

/// What sending a confirmation code involves: the code, where it is kept and for how long,
/// and the mail that carries it.
pub struct EmailPlan {
    pub code: String,
    pub store_key: String,
    pub expiry_seconds: u64,
    pub to: String,
    pub subject: String,
    pub body: String,
}

/// The subject of the confirmation mail.
pub open spec fn email_subject() -> Seq<char> {
    "Find Your Code in the body"@
}

/// The body of the confirmation mail for a code.
pub open spec fn email_body(code: Seq<char>) -> Seq<char> {
    "Your code is: \n"@ + code + "\n The code is only valid for 15 minutes"@
}

/// Plans the mail of a confirmation code: a fresh code of six distinct digits or capital
/// letters, kept for fifteen minutes under the account's email key.
pub fn send_email(payload: &SendEmailPayload) -> (r: EmailPlan)
    ensures
        r.code@.len() == 6,
        all_distinct(r.code@),
        forall|i: int| 0 <= i < r.code@.len() ==> code_char(#[trigger] r.code@[i]),
        r.store_key@ == email_key(payload.id@),
        r.expiry_seconds == 900,
        r.to@ == payload.to_email@,
        r.subject@ == email_subject(),
        r.body@ == email_body(r.code@),
{
    let code = crate::secrets::generate_random_string(6);
    let body = String::from_str("Your code is: \n").concat(code.as_str()).concat(
        "\n The code is only valid for 15 minutes",
    );
    EmailPlan {
        store_key: email_key_for(&payload.id),
        code,
        expiry_seconds: EMAIL_CODE_SECONDS,
        to: copy_string(&payload.to_email),
        subject: String::from_str("Find Your Code in the body"),
        body,
    }
}

/// How sending a confirmation code ended: storing the code must succeed, then the mail.
pub fn send_email_outcome(code_stored: bool, mail_sent: bool) -> (r: Result<(), Error>)
    ensures
        !code_stored ==> r == Err::<(), Error>(Error::FailedToSetRedisKeyWithOptions),
        code_stored && !mail_sent ==> r == Err::<(), Error>(Error::SendEmailError),
        code_stored && mail_sent ==> r is Ok,
{
    if !code_stored {
        Err(Error::FailedToSetRedisKeyWithOptions)
    } else if !mail_sent {
        Err(Error::SendEmailError)
    } else {
        Ok(())
    }
}

/// The next step of an email confirmation.
pub enum VerifyUserStep {
    /// Read the code kept under this key.
    FetchCode(String),
    /// Look up the account.
    LookUpUser,
    /// Save this account, now verified.
    Save(StoredUser),
    /// The email address is confirmed.
    Done,
    /// Answer with this error.
    Fail(Error),
}

/// Whether two strings are equal.
pub fn same_string(a: &String, b: &String) -> (r: bool)
    ensures
        r == (a@ == b@),
{
    a.eq(b)
}

/// One step of an email confirmation: both fields must be given; the kept code must be read
/// (`Some(None)` when reading failed) and equal the given one; the account must exist; it is
/// then saved as verified and offline, and the save must succeed.
pub fn verify_user(
    payload: &VerifyUserPayload,
    kept_code: Option<Option<String>>,
    found: Option<Option<StoredUser>>,
    saved: Option<bool>,
) -> (r: VerifyUserStep)
    ensures
        blank(payload.id@) || blank(payload.user_key@) ==> r == VerifyUserStep::Fail(
            Error::MissingParamsError,
        ),
        !(blank(payload.id@) || blank(payload.user_key@)) ==> match kept_code {
            None => r matches VerifyUserStep::FetchCode(k) && k@ == email_key(payload.id@),
            Some(None) => r == VerifyUserStep::Fail(Error::FailedToGetKeyFromRedis),
            Some(Some(code)) => if code@ != payload.user_key@ {
                r == VerifyUserStep::Fail(Error::InvalidEmailUserKey)
            } else {
                match found {
                    None => r is LookUpUser,
                    Some(None) => r == VerifyUserStep::Fail(Error::EntityNotFound),
                    Some(Some(u)) => match saved {
                        None => r matches VerifyUserStep::Save(v) && {
                            &&& v.id@ == u.id@ && v.username@ == u.username@
                            &&& v.first_name@ == u.first_name@ && v.last_name@ == u.last_name@
                            &&& v.email@ == u.email@ && v.password@ == u.password@
                            &&& v.score == u.score && v.verified && !v.is_online
                        },
                        Some(false) => r == VerifyUserStep::Fail(Error::FailedToVerifyUser),
                        Some(true) => r is Done,
                    },
                }
            },
        },
{
    if is_blank(&payload.id) || is_blank(&payload.user_key) {
        return VerifyUserStep::Fail(Error::MissingParamsError);
    }
    let code = match kept_code {
        None => return VerifyUserStep::FetchCode(email_key_for(&payload.id)),
        Some(None) => return VerifyUserStep::Fail(Error::FailedToGetKeyFromRedis),
        Some(Some(c)) => c,
    };
    if !same_string(&code, &payload.user_key) {
        return VerifyUserStep::Fail(Error::InvalidEmailUserKey);
    }
    let user = match found {
        None => return VerifyUserStep::LookUpUser,
        Some(None) => return VerifyUserStep::Fail(Error::EntityNotFound),
        Some(Some(u)) => u,
    };
    match saved {
        None => VerifyUserStep::Save(
            StoredUser {
                id: user.id,
                username: user.username,
                first_name: user.first_name,
                last_name: user.last_name,
                email: user.email,
                password: user.password,
                score: user.score,
                verified: true,
                is_online: false,
            },
        ),
        Some(false) => VerifyUserStep::Fail(Error::FailedToVerifyUser),
        Some(true) => VerifyUserStep::Done,
    }
}

/// The next step of a password change.
pub enum ChangePasswordStep {
    /// Look up the account.
    LookUpUser,
    /// No account has the id.
    UserMissing,
    /// The stored hash cannot be decoded.
    MalformedHash,
    /// Store this new password hash.
    Store(String),
    /// The password is changed.
    Done,
    /// Answer with this error.
    Fail(Error),
}

/// One step of a password change: all fields must be given, the new password must differ
/// from the old one and have at least 8 bytes, the old one must verify against the stored
/// hash, and storing the hash of the new one must succeed.
pub fn change_user_password(
    payload: &ChangeUserPasswordPayload,
    found: Option<Option<StoredUser>>,
    stored: Option<bool>,
) -> (r: ChangePasswordStep)
    requires
        encode_utf8(payload.new_password@).len() <= 0xffff_ffff,
    ensures
        blank(payload.user_id@) || blank(payload.new_password@) || blank(payload.password@) ==> r
            == ChangePasswordStep::Fail(Error::MissingParamsError),
        !(blank(payload.user_id@) || blank(payload.new_password@) || blank(payload.password@))
            ==> if payload.new_password@ == payload.password@ {
            r == ChangePasswordStep::Fail(Error::SamePasswordAsPreviousOne)
        } else if encode_utf8(payload.new_password@).len() < 8 {
            r == ChangePasswordStep::Fail(Error::NewPasswordLengthIsSmall)
        } else {
            match found {
                None => r is LookUpUser,
                Some(None) => r is UserMissing,
                Some(Some(u)) => match argon2_verification(u.password@, payload.password@) {
                    None => r is MalformedHash,
                    Some(false) => r == ChangePasswordStep::Fail(Error::PasswordIncorrect),
                    Some(true) => match stored {
                        None => r matches ChangePasswordStep::Store(h) && h@
                            == argon2_encoded_hash(payload.new_password@, PASSWORD_SALT@),
                        Some(false) => r == ChangePasswordStep::Fail(Error::PasswordChangeError),
                        Some(true) => r is Done,
                    },
                },
            }
        },
{
    if is_blank(&payload.user_id) || is_blank(&payload.new_password) || is_blank(
        &payload.password,
    ) {
        return ChangePasswordStep::Fail(Error::MissingParamsError);
    }
    if same_string(&payload.new_password, &payload.password) {
        return ChangePasswordStep::Fail(Error::SamePasswordAsPreviousOne);
    }
    proof {
        crate::text::lemma_utf8_len_bound(payload.new_password@);
    }
    if payload.new_password.as_str().len() < 8 {
        return ChangePasswordStep::Fail(Error::NewPasswordLengthIsSmall);
    }
    let user = match found {
        None => return ChangePasswordStep::LookUpUser,
        Some(None) => return ChangePasswordStep::UserMissing,
        Some(Some(u)) => u,
    };
    match verify_password(&user.password, &payload.password) {
        None => ChangePasswordStep::MalformedHash,
        Some(false) => ChangePasswordStep::Fail(Error::PasswordIncorrect),
        Some(true) => match stored {
            None => ChangePasswordStep::Store(hash_password(&payload.new_password)),
            Some(false) => ChangePasswordStep::Fail(Error::PasswordChangeError),
            Some(true) => ChangePasswordStep::Done,
        },
    }
}

/// The next step of a username change.
pub enum ChangeUsernameStep {
    /// Look up whether the new username is taken.
    LookUpUsername,
    /// Look up the account (`Some(None)` is a failed lookup, `Some(Some(false))` no account).
    LookUpUser,
    /// No account has the id.
    UserMissing,
    /// Store the new username.
    Store,
    /// The username is changed.
    Done,
    /// Answer with this error.
    Fail(Error),
}

/// One step of a username change: both fields must be given, the new username must be
/// free, the account must be found, and storing must succeed.
pub fn change_user_username(
    payload: &ChangeUserUsernamePayload,
    username_taken: Option<bool>,
    found: Option<Option<bool>>,
    stored: Option<bool>,
) -> (r: ChangeUsernameStep)
    ensures
        blank(payload.user_id@) || blank(payload.username@) ==> r == ChangeUsernameStep::Fail(
            Error::MissingParamsError,
        ),
        !(blank(payload.user_id@) || blank(payload.username@)) ==> match username_taken {
            None => r is LookUpUsername,
            Some(true) => r == ChangeUsernameStep::Fail(Error::UsernameAlreadyExists),
            Some(false) => match found {
                None => r is LookUpUser,
                Some(None) => r == ChangeUsernameStep::Fail(Error::UsernameNotFound),
                Some(Some(false)) => r is UserMissing,
                Some(Some(true)) => match stored {
                    None => r is Store,
                    Some(false) => r == ChangeUsernameStep::Fail(Error::UserNameChangeError),
                    Some(true) => r is Done,
                },
            },
        },
{
    if is_blank(&payload.user_id) || is_blank(&payload.username) {
        return ChangeUsernameStep::Fail(Error::MissingParamsError);
    }
    match username_taken {
        None => ChangeUsernameStep::LookUpUsername,
        Some(true) => ChangeUsernameStep::Fail(Error::UsernameAlreadyExists),
        Some(false) => match found {
            None => ChangeUsernameStep::LookUpUser,
            Some(None) => ChangeUsernameStep::Fail(Error::UsernameNotFound),
            Some(Some(false)) => ChangeUsernameStep::UserMissing,
            Some(Some(true)) => match stored {
                None => ChangeUsernameStep::Store,
                Some(false) => ChangeUsernameStep::Fail(Error::UserNameChangeError),
                Some(true) => ChangeUsernameStep::Done,
            },
        },
    }
}

} // verus!
