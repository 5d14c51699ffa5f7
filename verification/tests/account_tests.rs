use vortex::accounts::{
    change_user_password, change_user_username, email_key_for, login_user, register_user,
    send_email, send_email_outcome, verify_token, verify_user, ChangePasswordStep,
    ChangeUserPasswordPayload, ChangeUserUsernamePayload, ChangeUsernameStep, LoginPayload,
    LoginStep, RegisterStep, RegistrationPayload, SendEmailPayload, StoredUser, TokenStep,
    VerifyTokenPayload, VerifyUserPayload, VerifyUserStep,
};
use vortex::api_error::{ClientError, Error};
use vortex::patterns::{email_is_valid, username_has_forbidden_char};
use vortex::secrets::{
    decrypt_user_wallet, generate_random_string, hash_password, hash_user_wallet_key,
    verify_password,
};

fn s(x: &str) -> String {
    x.to_string()
}

fn registration(username: &str, email: &str, password: &str) -> RegistrationPayload {
    RegistrationPayload {
        first_name: s("Ada"),
        last_name: s("Lovelace"),
        email: s(email),
        username: s(username),
        password: s(password),
    }
}

fn stored(password_hash: String) -> StoredUser {
    StoredUser {
        id: s("4b0c7d7e-2c2f-4a8e-9c55-1f1a9c4c2b11"),
        username: s("ada"),
        first_name: s("Ada"),
        last_name: s("Lovelace"),
        email: s("ada@example.com"),
        password: password_hash,
        score: 12,
        verified: false,
        is_online: true,
    }
}

#[test]
fn a_password_hash_verifies_the_password_and_no_other() {
    let h = hash_password(&s("correct horse"));
    assert_ne!(h, "correct horse");
    assert_eq!(verify_password(&h, &s("correct horse")), Some(true));
    assert_eq!(verify_password(&h, &s("wrong horse")), Some(false));
    assert_eq!(verify_password(&s("not a hash"), &s("correct horse")), None);
}

#[test]
fn a_wallet_key_decrypts_back() {
    let enc = hash_user_wallet_key(&s("wallet-key-123"));
    if let Some(e) = enc {
        assert_ne!(e, "wallet-key-123");
        assert_eq!(e.len(), "wallet-key-123".len() + 28);
        assert_eq!(decrypt_user_wallet(&e), Some(s("wallet-key-123")));
    }
}

#[test]
fn a_text_that_was_not_encrypted_is_no_wallet() {
    assert_eq!(decrypt_user_wallet(&s("this text was never encrypted")), None);
}

#[test]
fn random_codes_have_distinct_allowed_characters() {
    let code = generate_random_string(6);
    assert_eq!(code.chars().count(), 6);
    let cs: Vec<char> = code.chars().collect();
    for (i, c) in cs.iter().enumerate() {
        assert!(c.is_ascii_digit() || c.is_ascii_uppercase());
        for d in &cs[i + 1..] {
            assert_ne!(c, d);
        }
    }
    assert_eq!(generate_random_string(0), "");
    let all = generate_random_string(36);
    let mut sorted: Vec<char> = all.chars().collect();
    sorted.sort();
    let expected: Vec<char> = ('0'..='9').chain('A'..='Z').collect();
    assert_eq!(sorted, expected);
}

#[test]
fn username_and_email_patterns() {
    assert!(username_has_forbidden_char("ada@home"));
    assert!(username_has_forbidden_char("ada lovelace"));
    assert!(!username_has_forbidden_char("ada_lovelace"));
    assert!(email_is_valid("ada@example.com"));
    assert!(email_is_valid("a.b+c@mail.example.org"));
    assert!(!email_is_valid("ada@example"));
    assert!(!email_is_valid("ada@example.c"));
    assert!(!email_is_valid("@example.com"));
    assert!(!email_is_valid("ada example.com"));
}

#[test]
fn registration_steps_in_order() {
    let p = registration("ada", "ada@example.com", "analytical");
    assert!(matches!(register_user(&p, None, None), RegisterStep::LookUpUsername));
    assert!(matches!(register_user(&p, Some(false), None), RegisterStep::LookUpEmail));
    assert!(matches!(
        register_user(&p, Some(true), None),
        RegisterStep::Fail(Error::UsernameAlreadyExists)
    ));
    assert!(matches!(
        register_user(&p, Some(false), Some(true)),
        RegisterStep::Fail(Error::EmailAlreadyInUse)
    ));
    match register_user(&p, Some(false), Some(false)) {
        RegisterStep::Create(u) => {
            assert_eq!(u.id.len(), 36);
            assert_eq!(u.username, "ada");
            assert_eq!(u.email, "ada@example.com");
            assert_eq!(u.score, 0);
            assert!(!u.verified);
            assert!(!u.is_online);
            assert_eq!(verify_password(&u.password, &s("analytical")), Some(true));
            assert!(u.password.starts_with("$argon2id$v=19$m=19456,t=2,p=1$"));
            assert_eq!(u.password.len(), 89);
            assert_ne!(u.password, "analytical");
        },
        _ => panic!("registration should create the account"),
    }
}

#[test]
fn registration_refusals() {
    let missing = registration("", "ada@example.com", "analytical");
    assert!(matches!(
        register_user(&missing, Some(false), Some(false)),
        RegisterStep::Fail(Error::MissingParamsError)
    ));
    let at = registration("ada@x", "ada@example.com", "analytical");
    assert!(matches!(
        register_user(&at, None, None),
        RegisterStep::Fail(Error::UsernameContainsInvalidCharachter)
    ));
    let short = registration("ada", "ada@example.com", "short");
    assert!(matches!(
        register_user(&short, Some(false), Some(false)),
        RegisterStep::Fail(Error::PasswordLength)
    ));
    let bad_email = registration("ada", "ada-at-example", "analytical");
    assert!(matches!(
        register_user(&bad_email, Some(false), Some(false)),
        RegisterStep::Fail(Error::RegistrationPayloadValidationError)
    ));
    let space = registration("ada l", "ada@example.com", "analytical");
    assert!(matches!(
        register_user(&space, Some(false), Some(false)),
        RegisterStep::Fail(Error::RegistrationPayloadValidationError)
    ));
}

#[test]
fn a_registered_account_logs_in_with_its_password() {
    let p = registration("ada", "ada@example.com", "analytical");
    let user = match register_user(&p, Some(false), Some(false)) {
        RegisterStep::Create(u) => u,
        _ => panic!("registration should create the account"),
    };
    let login = LoginPayload { usernameoremail: s("ada"), pwd: s("analytical") };
    match login_user(&login, Some(Some(user))) {
        LoginStep::IssueToken(shown) => {
            assert_eq!(shown.username, "ada");
            assert_eq!(shown.email, "ada@example.com");
        },
        _ => panic!("the password should be accepted"),
    }
}

#[test]
fn login_steps_and_refusals() {
    let by_mail = LoginPayload { usernameoremail: s("ada@example.com"), pwd: s("x") };
    assert!(matches!(login_user(&by_mail, None), LoginStep::LookUpByEmail));
    let by_name = LoginPayload { usernameoremail: s("ada"), pwd: s("x") };
    assert!(matches!(login_user(&by_name, None), LoginStep::LookUpByUsername));
    assert!(matches!(login_user(&by_name, Some(None)), LoginStep::Fail(Error::EntityNotFound)));
    let blank = LoginPayload { usernameoremail: s(""), pwd: s("x") };
    assert!(matches!(login_user(&blank, None), LoginStep::Fail(Error::MissingParamsError)));
    let user = stored(hash_password(&s("analytical")));
    assert!(matches!(
        login_user(&by_name, Some(Some(user))),
        LoginStep::Fail(Error::PasswordIncorrect)
    ));
    let broken = stored(s("plain"));
    assert!(matches!(login_user(&by_name, Some(Some(broken))), LoginStep::MalformedHash));
}

#[test]
fn token_check_steps() {
    let p = VerifyTokenPayload { token: s("tok") };
    assert!(matches!(verify_token(&p, None, None), TokenStep::Decode));
    assert!(matches!(verify_token(&p, Some(None), None), TokenStep::Fail(Error::InvalidUserToken)));
    match verify_token(&p, Some(Some(s("id-1"))), None) {
        TokenStep::LookUpUser(id) => assert_eq!(id, "id-1"),
        _ => panic!("the account should be looked up"),
    }
    assert!(matches!(
        verify_token(&p, Some(Some(s("id-1"))), Some(false)),
        TokenStep::Fail(Error::NoUserEntityFoundForToken)
    ));
    assert!(matches!(verify_token(&p, Some(Some(s("id-1"))), Some(true)), TokenStep::Respond));
    let blank = VerifyTokenPayload { token: s("") };
    assert!(matches!(verify_token(&blank, None, None), TokenStep::Fail(Error::MissingParamsError)));
}

#[test]
fn confirmation_mail_plan() {
    let p = SendEmailPayload { id: s("u1"), to_email: s("ada@example.com") };
    let plan = send_email(&p);
    assert_eq!(plan.code.chars().count(), 6);
    assert_eq!(plan.store_key, "u1-email-key");
    assert_eq!(plan.expiry_seconds, 900);
    assert_eq!(plan.to, "ada@example.com");
    assert_eq!(plan.subject, "Find Your Code in the body");
    assert_eq!(
        plan.body,
        format!("Your code is: \n{}\n The code is only valid for 15 minutes", plan.code)
    );
    assert_eq!(email_key_for(&s("abc")), "abc-email-key");
    assert_eq!(send_email_outcome(false, true), Err(Error::FailedToSetRedisKeyWithOptions));
    assert_eq!(send_email_outcome(true, false), Err(Error::SendEmailError));
    assert_eq!(send_email_outcome(true, true), Ok(()));
}

#[test]
fn email_confirmation_steps() {
    let p = VerifyUserPayload { id: s("u1"), user_key: s("ABC123") };
    match verify_user(&p, None, None, None) {
        VerifyUserStep::FetchCode(k) => assert_eq!(k, "u1-email-key"),
        _ => panic!("the code should be fetched"),
    }
    assert!(matches!(
        verify_user(&p, Some(None), None, None),
        VerifyUserStep::Fail(Error::FailedToGetKeyFromRedis)
    ));
    assert!(matches!(
        verify_user(&p, Some(Some(s("XYZ"))), None, None),
        VerifyUserStep::Fail(Error::InvalidEmailUserKey)
    ));
    assert!(matches!(verify_user(&p, Some(Some(s("ABC123"))), None, None), VerifyUserStep::LookUpUser));
    match verify_user(&p, Some(Some(s("ABC123"))), Some(Some(stored(s("h")))), None) {
        VerifyUserStep::Save(u) => {
            assert!(u.verified);
            assert!(!u.is_online);
            assert_eq!(u.score, 12);
        },
        _ => panic!("the account should be saved"),
    }
    assert!(matches!(
        verify_user(&p, Some(Some(s("ABC123"))), Some(Some(stored(s("h")))), Some(false)),
        VerifyUserStep::Fail(Error::FailedToVerifyUser)
    ));
    assert!(matches!(
        verify_user(&p, Some(Some(s("ABC123"))), Some(None), None),
        VerifyUserStep::Fail(Error::EntityNotFound)
    ));
}

#[test]
fn password_change_steps() {
    let p = ChangeUserPasswordPayload {
        user_id: s("u1"),
        password: s("analytical"),
        new_password: s("difference engine"),
    };
    assert!(matches!(change_user_password(&p, None, None), ChangePasswordStep::LookUpUser));
    assert!(matches!(change_user_password(&p, Some(None), None), ChangePasswordStep::UserMissing));
    let user = stored(hash_password(&s("analytical")));
    match change_user_password(&p, Some(Some(user)), None) {
        ChangePasswordStep::Store(h) => {
            assert_eq!(verify_password(&h, &s("difference engine")), Some(true));
        },
        _ => panic!("the new hash should be stored"),
    }
    let same = ChangeUserPasswordPayload {
        user_id: s("u1"),
        password: s("analytical"),
        new_password: s("analytical"),
    };
    assert!(matches!(
        change_user_password(&same, None, None),
        ChangePasswordStep::Fail(Error::SamePasswordAsPreviousOne)
    ));
    let short = ChangeUserPasswordPayload {
        user_id: s("u1"),
        password: s("analytical"),
        new_password: s("short"),
    };
    assert!(matches!(
        change_user_password(&short, None, None),
        ChangePasswordStep::Fail(Error::NewPasswordLengthIsSmall)
    ));
    let wrong = ChangeUserPasswordPayload {
        user_id: s("u1"),
        password: s("not it"),
        new_password: s("difference engine"),
    };
    let user = stored(hash_password(&s("analytical")));
    assert!(matches!(
        change_user_password(&wrong, Some(Some(user)), None),
        ChangePasswordStep::Fail(Error::PasswordIncorrect)
    ));
}

#[test]
fn username_change_steps() {
    let p = ChangeUserUsernamePayload { user_id: s("u1"), username: s("countess") };
    assert!(matches!(change_user_username(&p, None, None, None), ChangeUsernameStep::LookUpUsername));
    assert!(matches!(
        change_user_username(&p, Some(true), None, None),
        ChangeUsernameStep::Fail(Error::UsernameAlreadyExists)
    ));
    assert!(matches!(change_user_username(&p, Some(false), None, None), ChangeUsernameStep::LookUpUser));
    assert!(matches!(
        change_user_username(&p, Some(false), Some(Some(false)), None),
        ChangeUsernameStep::UserMissing
    ));
    assert!(matches!(
        change_user_username(&p, Some(false), Some(Some(true)), None),
        ChangeUsernameStep::Store
    ));
    assert!(matches!(
        change_user_username(&p, Some(false), Some(Some(true)), Some(true)),
        ChangeUsernameStep::Done
    ));
}

#[test]
fn error_statuses_and_codes() {
    assert_eq!(Error::LoginFail.client_status_and_error(), (401, ClientError::LOGIN_FAIL));
    assert_eq!(
        Error::RegistrationFail.client_status_and_error(),
        (403, ClientError::REGISTRATION_FAIL)
    );
    assert_eq!(Error::LobbyFull.client_status_and_error(), (400, ClientError::LOBBY_FULL_ERROR));
    assert_eq!(Error::AuthFailTokenWrongFormat.client_status_and_error(), (403, ClientError::NO_AUTH));
    assert_eq!(
        Error::TicketDeleteFailIdNotFound { id: 7 }.client_status_and_error(),
        (400, ClientError::INVALID_PARAMS)
    );
    assert_eq!(Error::UsernameNotFound.client_status_and_error(), (500, ClientError::SERVICE_ERROR));
    assert_eq!(
        Error::NewPasswordLengthIsSmall.client_status_and_error(),
        (400, ClientError::NEW_PASSWORD_LENGHT_IS_SMALL)
    );
}

#[test]
fn error_answers_and_texts() {
    let r = Error::EmailAlreadyInUse.into_response();
    assert_eq!(r.status, 400);
    assert!(!r.body.result.success);
    assert_eq!(r.body.error_message, "EMAIL_IN_USE");
    assert_eq!(r.error, Error::EmailAlreadyInUse);
    let r = Error::LoginFail.into_response();
    assert_eq!(r.status, 401);
    assert_eq!(r.body.error_message, "LOGIN_FAIL");
    let r = Error::LobbyIsFull.into_response();
    assert_eq!(r.status, 500);
    assert_eq!(r.body.error_message, "SERVICE_ERROR");
    assert_eq!(r.error, Error::LobbyIsFull);
    assert_eq!(Error::PasswordIncorrect.message(), "PasswordIncorrect");
    assert_eq!(
        Error::TicketDeleteFailIdNotFound { id: 42 }.message(),
        "TicketDeleteFailIdNotFound { id: 42 }"
    );
    assert_eq!(ClientError::MISSING_PARAMS_ERROR.name(), "MISSING_PARAMS_ERROR");
}
