//! Errors of the game and account API, and the HTTP answer that each one gets.
use vstd::prelude::*;
use vstd::string::*;
use crate::decimal::{decimal, push_decimal};
use crate::text::{str_chars, string_from_chars};

verus! {
/// HTTP status codes that the API answers with.
pub const STATUS_BAD_REQUEST: u16 = 400;
pub const STATUS_UNAUTHORIZED: u16 = 401;
pub const STATUS_FORBIDDEN: u16 = 403;
pub const STATUS_INTERNAL_SERVER_ERROR: u16 = 500;

/// Why a request of the game and account API failed.
#[derive(Clone, Copy, Debug, PartialEq, Eq, Structural)]
pub enum Error {
    LoginFail,
    RegistrationFail,
    MissingParamsError,
    FailedToSetRedisKeyWithOptions,
    InvalidUserToken,
    EntityNotFound,
    SamePasswordAsPreviousOne,
    NoUserEntityFoundForToken,
    PasswordIncorrect,
    UsernameAlreadyExists,
    UsernameContainsInvalidCharachter,
    FailedToVerifyUser,
    EmailAlreadyInUse,
    FailedToGetKeyFromRedis,
    PasswordLength,
    NewPasswordLengthIsSmall,
    RegistrationPayloadValidationError,
    UserNameChangeError,
    SendEmailError,
    CreateLobbyError,
    PasswordChangeError,
    InvalidEmailUserKey,
    JoinLobbyError,
    RemoveFromLobbyError,
    DeleteLobbyError,
    GameCannotBeStarted,
    RedisUnwrapError,
    RedisGetKeyError,
    LobbyFull,
    GameInviteSendError,
    WalletAddressSaveError,
    ErrorWhileMakingRelation,
    SpectateGameJoinError,
    SpectateGameLeaveError,
    AuthFailNoAuthTokenCookie,
    AuthFailTokenWrongFormat,
    AuthFailCtxNotInRequestExt,
    UsernameNotFound,
    ErrorWhileSendingRequest,
    FriendRequestAlreadySent,
    ErrorWhileFetchingUserFriendsRequests,
    ErrorWhileFetchingUserFriends,
    ErrorWhileCreatingEntities,
    ErrorWhileFetchingGameDetails,
    GameLobbyDeletedOrRequestIsInvalid,
    LobbyIsFull,
    ErrorWhileUpdatingMongoUserAndGame,
    ErrorWhileLeavingLobby,
    ErrorWhileRetrievingLobbyUsers,
    InvalidStatusSendAsPayload,
    ErrorWhileUpdatingPlayerStatus,
    GameNotFound,
    ErrorWhileRetrievingPlayersStatus,
    NotAllPlayersHaveReadyStatus,
    ErrorWhileFetchingUserTurns,
    NoMappingFound,
    TicketDeleteFailIdNotFound { id: u64 },
}

/// The error code that a client sees.
#[allow(non_camel_case_types)]
#[derive(Clone, Copy, Debug, PartialEq, Eq, Structural)]
pub enum ClientError {
    LOGIN_FAIL,
    REGISTRATION_FAIL,
    MISSING_PARAMS_ERROR,
    ENTITY_NOT_FOUND,
    PASSWORD_INCORRECT,
    USERNAME_ALREADY_EXISTS,
    FAILED_TO_GET_KEY_FROM_REDIS,
    EMAIL_IN_USE,
    PASSWORD_LENGTH_SMALL,
    REGISTRATION_PAYLOAD_VALIDATION_ERROR,
    SEND_EMAIL_ERROR,
    CREATE_LOBBY_ERROR,
    JOIN_LOBBY_ERROR,
    REMOVE_USER_FROM_LOBBY_ERROR,
    USERNAME_CHANGE_ERROR,
    FAILED_TO_VERIFY_USER,
    INVALID_USER_TOKEN,
    REDIS_GET_KEY_ERROR,
    DELETE_LOBBY_ERROR,
    GAME_CANNOT_BE_STARTED,
    PASSWORD_CHANGE_ERROR,
    NO_USER_ENTITY_FOUND_FOR_TOKEN,
    FAILED_TO_SET_REDIS_KEY_WITH_OPTIONS,
    REDIS_UNWRAP_ERROR,
    LOBBY_FULL_ERROR,
    USERNAME_CONTAINS_INVALID_CHARACTER,
    SAME_PASSWORD_AS_PREVIOUS_ONE,
    GAME_INVITE_SEND_ERROR,
    ERROR_WHILE_MAKING_RELATION,
    WALLET_ADDRESS_SAVE_ERROR,
    SPECTATE_GAME_JOIN_ERROR,
    SPECTATE_GAME_LEAVE_ERROR,
    NEW_PASSWORD_LENGHT_IS_SMALL,
    NO_AUTH,
    INVALID_PARAMS,
    SERVICE_ERROR,
    INVALID_EMAIL_USER_KEY,
}

/// The `result` member of a response body.
pub struct SuccessResponse {
    pub success: bool,
}

/// The body of an error response: a failed result and the client error code.
pub struct ErrorPayloadResponse {
    pub result: SuccessResponse,
    pub error_message: String,
}

/// An error response: its status, its body, and the error it answers, which travels with
/// the response for the layers that read it.
pub struct ErrorResponse {
    pub status: u16,
    pub body: ErrorPayloadResponse,
    pub error: Error,
}

/// The HTTP status and client error code of an error. Errors that the table does not
/// name are internal server errors.
pub open spec fn spec_client_status_and_error(e: Error) -> (u16, ClientError) {
    match e {
        Error::LoginFail => (401, ClientError::LOGIN_FAIL),
        Error::RegistrationFail => (403, ClientError::REGISTRATION_FAIL),
        Error::MissingParamsError => (400, ClientError::MISSING_PARAMS_ERROR),
        Error::EntityNotFound => (400, ClientError::ENTITY_NOT_FOUND),
        Error::PasswordChangeError => (400, ClientError::PASSWORD_CHANGE_ERROR),
        Error::InvalidUserToken => (400, ClientError::INVALID_USER_TOKEN),
        Error::NoUserEntityFoundForToken => (400, ClientError::NO_USER_ENTITY_FOUND_FOR_TOKEN),
        Error::PasswordIncorrect => (400, ClientError::PASSWORD_INCORRECT),
        Error::FailedToGetKeyFromRedis => (400, ClientError::FAILED_TO_GET_KEY_FROM_REDIS),
        Error::UsernameAlreadyExists => (400, ClientError::USERNAME_ALREADY_EXISTS),
        Error::EmailAlreadyInUse => (400, ClientError::EMAIL_IN_USE),
        Error::UsernameContainsInvalidCharachter => (400, ClientError::USERNAME_CONTAINS_INVALID_CHARACTER),
        Error::PasswordLength => (400, ClientError::PASSWORD_LENGTH_SMALL),
        Error::RegistrationPayloadValidationError => (400, ClientError::REGISTRATION_PAYLOAD_VALIDATION_ERROR),
        Error::SendEmailError => (400, ClientError::SEND_EMAIL_ERROR),
        Error::SamePasswordAsPreviousOne => (400, ClientError::SAME_PASSWORD_AS_PREVIOUS_ONE),
        Error::NewPasswordLengthIsSmall => (400, ClientError::NEW_PASSWORD_LENGHT_IS_SMALL),
        Error::CreateLobbyError => (400, ClientError::CREATE_LOBBY_ERROR),
        Error::JoinLobbyError => (400, ClientError::JOIN_LOBBY_ERROR),
        Error::RemoveFromLobbyError => (400, ClientError::REMOVE_USER_FROM_LOBBY_ERROR),
        Error::DeleteLobbyError => (400, ClientError::DELETE_LOBBY_ERROR),
        Error::UserNameChangeError => (400, ClientError::USERNAME_CHANGE_ERROR),
        Error::InvalidEmailUserKey => (400, ClientError::INVALID_EMAIL_USER_KEY),
        Error::GameCannotBeStarted => (400, ClientError::GAME_CANNOT_BE_STARTED),
        Error::RedisGetKeyError => (400, ClientError::REDIS_GET_KEY_ERROR),
        Error::RedisUnwrapError => (400, ClientError::REDIS_UNWRAP_ERROR),
        Error::LobbyFull => (400, ClientError::LOBBY_FULL_ERROR),
        Error::FailedToVerifyUser => (400, ClientError::FAILED_TO_VERIFY_USER),
        Error::ErrorWhileMakingRelation => (400, ClientError::ERROR_WHILE_MAKING_RELATION),
        Error::FailedToSetRedisKeyWithOptions => (400, ClientError::FAILED_TO_SET_REDIS_KEY_WITH_OPTIONS),
        Error::WalletAddressSaveError => (400, ClientError::WALLET_ADDRESS_SAVE_ERROR),
        Error::SpectateGameJoinError => (400, ClientError::SPECTATE_GAME_JOIN_ERROR),
        Error::SpectateGameLeaveError => (400, ClientError::SPECTATE_GAME_LEAVE_ERROR),
        Error::GameInviteSendError => (400, ClientError::GAME_INVITE_SEND_ERROR),
        Error::AuthFailNoAuthTokenCookie => (403, ClientError::NO_AUTH),
        Error::AuthFailTokenWrongFormat => (403, ClientError::NO_AUTH),
        Error::AuthFailCtxNotInRequestExt => (403, ClientError::NO_AUTH),
        Error::TicketDeleteFailIdNotFound { .. } => (400, ClientError::INVALID_PARAMS),
        _ => (500, ClientError::SERVICE_ERROR),
    }
}

/// The name of a client error code, as the response body spells it.
pub open spec fn client_error_name(c: ClientError) -> Seq<char> {
    match c {
        ClientError::LOGIN_FAIL => "LOGIN_FAIL"@,
        ClientError::REGISTRATION_FAIL => "REGISTRATION_FAIL"@,
        ClientError::MISSING_PARAMS_ERROR => "MISSING_PARAMS_ERROR"@,
        ClientError::ENTITY_NOT_FOUND => "ENTITY_NOT_FOUND"@,
        ClientError::PASSWORD_INCORRECT => "PASSWORD_INCORRECT"@,
        ClientError::USERNAME_ALREADY_EXISTS => "USERNAME_ALREADY_EXISTS"@,
        ClientError::FAILED_TO_GET_KEY_FROM_REDIS => "FAILED_TO_GET_KEY_FROM_REDIS"@,
        ClientError::EMAIL_IN_USE => "EMAIL_IN_USE"@,
        ClientError::PASSWORD_LENGTH_SMALL => "PASSWORD_LENGTH_SMALL"@,
        ClientError::REGISTRATION_PAYLOAD_VALIDATION_ERROR => "REGISTRATION_PAYLOAD_VALIDATION_ERROR"@,
        ClientError::SEND_EMAIL_ERROR => "SEND_EMAIL_ERROR"@,
        ClientError::CREATE_LOBBY_ERROR => "CREATE_LOBBY_ERROR"@,
        ClientError::JOIN_LOBBY_ERROR => "JOIN_LOBBY_ERROR"@,
        ClientError::REMOVE_USER_FROM_LOBBY_ERROR => "REMOVE_USER_FROM_LOBBY_ERROR"@,
        ClientError::USERNAME_CHANGE_ERROR => "USERNAME_CHANGE_ERROR"@,
        ClientError::FAILED_TO_VERIFY_USER => "FAILED_TO_VERIFY_USER"@,
        ClientError::INVALID_USER_TOKEN => "INVALID_USER_TOKEN"@,
        ClientError::REDIS_GET_KEY_ERROR => "REDIS_GET_KEY_ERROR"@,
        ClientError::DELETE_LOBBY_ERROR => "DELETE_LOBBY_ERROR"@,
        ClientError::GAME_CANNOT_BE_STARTED => "GAME_CANNOT_BE_STARTED"@,
        ClientError::PASSWORD_CHANGE_ERROR => "PASSWORD_CHANGE_ERROR"@,
        ClientError::NO_USER_ENTITY_FOUND_FOR_TOKEN => "NO_USER_ENTITY_FOUND_FOR_TOKEN"@,
        ClientError::FAILED_TO_SET_REDIS_KEY_WITH_OPTIONS => "FAILED_TO_SET_REDIS_KEY_WITH_OPTIONS"@,
        ClientError::REDIS_UNWRAP_ERROR => "REDIS_UNWRAP_ERROR"@,
        ClientError::LOBBY_FULL_ERROR => "LOBBY_FULL_ERROR"@,
        ClientError::USERNAME_CONTAINS_INVALID_CHARACTER => "USERNAME_CONTAINS_INVALID_CHARACTER"@,
        ClientError::SAME_PASSWORD_AS_PREVIOUS_ONE => "SAME_PASSWORD_AS_PREVIOUS_ONE"@,
        ClientError::GAME_INVITE_SEND_ERROR => "GAME_INVITE_SEND_ERROR"@,
        ClientError::ERROR_WHILE_MAKING_RELATION => "ERROR_WHILE_MAKING_RELATION"@,
        ClientError::WALLET_ADDRESS_SAVE_ERROR => "WALLET_ADDRESS_SAVE_ERROR"@,
        ClientError::SPECTATE_GAME_JOIN_ERROR => "SPECTATE_GAME_JOIN_ERROR"@,
        ClientError::SPECTATE_GAME_LEAVE_ERROR => "SPECTATE_GAME_LEAVE_ERROR"@,
        ClientError::NEW_PASSWORD_LENGHT_IS_SMALL => "NEW_PASSWORD_LENGHT_IS_SMALL"@,
        ClientError::NO_AUTH => "NO_AUTH"@,
        ClientError::INVALID_PARAMS => "INVALID_PARAMS"@,
        ClientError::SERVICE_ERROR => "SERVICE_ERROR"@,
        ClientError::INVALID_EMAIL_USER_KEY => "INVALID_EMAIL_USER_KEY"@,
    }
}

/// The text of an error: its variant's name, with the id for a missing ticket.
pub open spec fn error_text(e: Error) -> Seq<char> {
    match e {
        Error::LoginFail => "LoginFail"@,
        Error::RegistrationFail => "RegistrationFail"@,
        Error::MissingParamsError => "MissingParamsError"@,
        Error::FailedToSetRedisKeyWithOptions => "FailedToSetRedisKeyWithOptions"@,
        Error::InvalidUserToken => "InvalidUserToken"@,
        Error::EntityNotFound => "EntityNotFound"@,
        Error::SamePasswordAsPreviousOne => "SamePasswordAsPreviousOne"@,
        Error::NoUserEntityFoundForToken => "NoUserEntityFoundForToken"@,
        Error::PasswordIncorrect => "PasswordIncorrect"@,
        Error::UsernameAlreadyExists => "UsernameAlreadyExists"@,
        Error::UsernameContainsInvalidCharachter => "UsernameContainsInvalidCharachter"@,
        Error::FailedToVerifyUser => "FailedToVerifyUser"@,
        Error::EmailAlreadyInUse => "EmailAlreadyInUse"@,
        Error::FailedToGetKeyFromRedis => "FailedToGetKeyFromRedis"@,
        Error::PasswordLength => "PasswordLength"@,
        Error::NewPasswordLengthIsSmall => "NewPasswordLengthIsSmall"@,
        Error::RegistrationPayloadValidationError => "RegistrationPayloadValidationError"@,
        Error::UserNameChangeError => "UserNameChangeError"@,
        Error::SendEmailError => "SendEmailError"@,
        Error::CreateLobbyError => "CreateLobbyError"@,
        Error::PasswordChangeError => "PasswordChangeError"@,
        Error::InvalidEmailUserKey => "InvalidEmailUserKey"@,
        Error::JoinLobbyError => "JoinLobbyError"@,
        Error::RemoveFromLobbyError => "RemoveFromLobbyError"@,
        Error::DeleteLobbyError => "DeleteLobbyError"@,
        Error::GameCannotBeStarted => "GameCannotBeStarted"@,
        Error::RedisUnwrapError => "RedisUnwrapError"@,
        Error::RedisGetKeyError => "RedisGetKeyError"@,
        Error::LobbyFull => "LobbyFull"@,
        Error::GameInviteSendError => "GameInviteSendError"@,
        Error::WalletAddressSaveError => "WalletAddressSaveError"@,
        Error::ErrorWhileMakingRelation => "ErrorWhileMakingRelation"@,
        Error::SpectateGameJoinError => "SpectateGameJoinError"@,
        Error::SpectateGameLeaveError => "SpectateGameLeaveError"@,
        Error::AuthFailNoAuthTokenCookie => "AuthFailNoAuthTokenCookie"@,
        Error::AuthFailTokenWrongFormat => "AuthFailTokenWrongFormat"@,
        Error::AuthFailCtxNotInRequestExt => "AuthFailCtxNotInRequestExt"@,
        Error::UsernameNotFound => "UsernameNotFound"@,
        Error::ErrorWhileSendingRequest => "ErrorWhileSendingRequest"@,
        Error::FriendRequestAlreadySent => "FriendRequestAlreadySent"@,
        Error::ErrorWhileFetchingUserFriendsRequests => "ErrorWhileFetchingUserFriendsRequests"@,
        Error::ErrorWhileFetchingUserFriends => "ErrorWhileFetchingUserFriends"@,
        Error::ErrorWhileCreatingEntities => "ErrorWhileCreatingEntities"@,
        Error::ErrorWhileFetchingGameDetails => "ErrorWhileFetchingGameDetails"@,
        Error::GameLobbyDeletedOrRequestIsInvalid => "GameLobbyDeletedOrRequestIsInvalid"@,
        Error::LobbyIsFull => "LobbyIsFull"@,
        Error::ErrorWhileUpdatingMongoUserAndGame => "ErrorWhileUpdatingMongoUserAndGame"@,
        Error::ErrorWhileLeavingLobby => "ErrorWhileLeavingLobby"@,
        Error::ErrorWhileRetrievingLobbyUsers => "ErrorWhileRetrievingLobbyUsers"@,
        Error::InvalidStatusSendAsPayload => "InvalidStatusSendAsPayload"@,
        Error::ErrorWhileUpdatingPlayerStatus => "ErrorWhileUpdatingPlayerStatus"@,
        Error::GameNotFound => "GameNotFound"@,
        Error::ErrorWhileRetrievingPlayersStatus => "ErrorWhileRetrievingPlayersStatus"@,
        Error::NotAllPlayersHaveReadyStatus => "NotAllPlayersHaveReadyStatus"@,
        Error::ErrorWhileFetchingUserTurns => "ErrorWhileFetchingUserTurns"@,
        Error::NoMappingFound => "NoMappingFound"@,
        Error::TicketDeleteFailIdNotFound { id } => "TicketDeleteFailIdNotFound { id: "@ + decimal(id as nat) + " }"@,
    }
}

impl ClientError {
    /// The name of the code, as the response body spells it.
    pub fn name(&self) -> (r: String)
        ensures
            r@ == client_error_name(*self),
    {
        match self {
            ClientError::LOGIN_FAIL => String::from_str("LOGIN_FAIL"),
            ClientError::REGISTRATION_FAIL => String::from_str("REGISTRATION_FAIL"),
            ClientError::MISSING_PARAMS_ERROR => String::from_str("MISSING_PARAMS_ERROR"),
            ClientError::ENTITY_NOT_FOUND => String::from_str("ENTITY_NOT_FOUND"),
            ClientError::PASSWORD_INCORRECT => String::from_str("PASSWORD_INCORRECT"),
            ClientError::USERNAME_ALREADY_EXISTS => String::from_str("USERNAME_ALREADY_EXISTS"),
            ClientError::FAILED_TO_GET_KEY_FROM_REDIS => String::from_str("FAILED_TO_GET_KEY_FROM_REDIS"),
            ClientError::EMAIL_IN_USE => String::from_str("EMAIL_IN_USE"),
            ClientError::PASSWORD_LENGTH_SMALL => String::from_str("PASSWORD_LENGTH_SMALL"),
            ClientError::REGISTRATION_PAYLOAD_VALIDATION_ERROR => String::from_str("REGISTRATION_PAYLOAD_VALIDATION_ERROR"),
            ClientError::SEND_EMAIL_ERROR => String::from_str("SEND_EMAIL_ERROR"),
            ClientError::CREATE_LOBBY_ERROR => String::from_str("CREATE_LOBBY_ERROR"),
            ClientError::JOIN_LOBBY_ERROR => String::from_str("JOIN_LOBBY_ERROR"),
            ClientError::REMOVE_USER_FROM_LOBBY_ERROR => String::from_str("REMOVE_USER_FROM_LOBBY_ERROR"),
            ClientError::USERNAME_CHANGE_ERROR => String::from_str("USERNAME_CHANGE_ERROR"),
            ClientError::FAILED_TO_VERIFY_USER => String::from_str("FAILED_TO_VERIFY_USER"),
            ClientError::INVALID_USER_TOKEN => String::from_str("INVALID_USER_TOKEN"),
            ClientError::REDIS_GET_KEY_ERROR => String::from_str("REDIS_GET_KEY_ERROR"),
            ClientError::DELETE_LOBBY_ERROR => String::from_str("DELETE_LOBBY_ERROR"),
            ClientError::GAME_CANNOT_BE_STARTED => String::from_str("GAME_CANNOT_BE_STARTED"),
            ClientError::PASSWORD_CHANGE_ERROR => String::from_str("PASSWORD_CHANGE_ERROR"),
            ClientError::NO_USER_ENTITY_FOUND_FOR_TOKEN => String::from_str("NO_USER_ENTITY_FOUND_FOR_TOKEN"),
            ClientError::FAILED_TO_SET_REDIS_KEY_WITH_OPTIONS => String::from_str("FAILED_TO_SET_REDIS_KEY_WITH_OPTIONS"),
            ClientError::REDIS_UNWRAP_ERROR => String::from_str("REDIS_UNWRAP_ERROR"),
            ClientError::LOBBY_FULL_ERROR => String::from_str("LOBBY_FULL_ERROR"),
            ClientError::USERNAME_CONTAINS_INVALID_CHARACTER => String::from_str("USERNAME_CONTAINS_INVALID_CHARACTER"),
            ClientError::SAME_PASSWORD_AS_PREVIOUS_ONE => String::from_str("SAME_PASSWORD_AS_PREVIOUS_ONE"),
            ClientError::GAME_INVITE_SEND_ERROR => String::from_str("GAME_INVITE_SEND_ERROR"),
            ClientError::ERROR_WHILE_MAKING_RELATION => String::from_str("ERROR_WHILE_MAKING_RELATION"),
            ClientError::WALLET_ADDRESS_SAVE_ERROR => String::from_str("WALLET_ADDRESS_SAVE_ERROR"),
            ClientError::SPECTATE_GAME_JOIN_ERROR => String::from_str("SPECTATE_GAME_JOIN_ERROR"),
            ClientError::SPECTATE_GAME_LEAVE_ERROR => String::from_str("SPECTATE_GAME_LEAVE_ERROR"),
            ClientError::NEW_PASSWORD_LENGHT_IS_SMALL => String::from_str("NEW_PASSWORD_LENGHT_IS_SMALL"),
            ClientError::NO_AUTH => String::from_str("NO_AUTH"),
            ClientError::INVALID_PARAMS => String::from_str("INVALID_PARAMS"),
            ClientError::SERVICE_ERROR => String::from_str("SERVICE_ERROR"),
            ClientError::INVALID_EMAIL_USER_KEY => String::from_str("INVALID_EMAIL_USER_KEY"),
        }
    }
}

impl Error {
    /// The HTTP status and the client error code that this error is answered with.
    pub fn client_status_and_error(&self) -> (r: (u16, ClientError))
        ensures
            r == spec_client_status_and_error(*self),
    {
        match self {
            Error::LoginFail => (STATUS_UNAUTHORIZED, ClientError::LOGIN_FAIL),
            Error::RegistrationFail => (STATUS_FORBIDDEN, ClientError::REGISTRATION_FAIL),
            Error::MissingParamsError => (STATUS_BAD_REQUEST, ClientError::MISSING_PARAMS_ERROR),
            Error::EntityNotFound => (STATUS_BAD_REQUEST, ClientError::ENTITY_NOT_FOUND),
            Error::PasswordChangeError => (STATUS_BAD_REQUEST, ClientError::PASSWORD_CHANGE_ERROR),
            Error::InvalidUserToken => (STATUS_BAD_REQUEST, ClientError::INVALID_USER_TOKEN),
            Error::NoUserEntityFoundForToken => (STATUS_BAD_REQUEST, ClientError::NO_USER_ENTITY_FOUND_FOR_TOKEN),
            Error::PasswordIncorrect => (STATUS_BAD_REQUEST, ClientError::PASSWORD_INCORRECT),
            Error::FailedToGetKeyFromRedis => (STATUS_BAD_REQUEST, ClientError::FAILED_TO_GET_KEY_FROM_REDIS),
            Error::UsernameAlreadyExists => (STATUS_BAD_REQUEST, ClientError::USERNAME_ALREADY_EXISTS),
            Error::EmailAlreadyInUse => (STATUS_BAD_REQUEST, ClientError::EMAIL_IN_USE),
            Error::UsernameContainsInvalidCharachter => (STATUS_BAD_REQUEST, ClientError::USERNAME_CONTAINS_INVALID_CHARACTER),
            Error::PasswordLength => (STATUS_BAD_REQUEST, ClientError::PASSWORD_LENGTH_SMALL),
            Error::RegistrationPayloadValidationError => (STATUS_BAD_REQUEST, ClientError::REGISTRATION_PAYLOAD_VALIDATION_ERROR),
            Error::SendEmailError => (STATUS_BAD_REQUEST, ClientError::SEND_EMAIL_ERROR),
            Error::SamePasswordAsPreviousOne => (STATUS_BAD_REQUEST, ClientError::SAME_PASSWORD_AS_PREVIOUS_ONE),
            Error::NewPasswordLengthIsSmall => (STATUS_BAD_REQUEST, ClientError::NEW_PASSWORD_LENGHT_IS_SMALL),
            Error::CreateLobbyError => (STATUS_BAD_REQUEST, ClientError::CREATE_LOBBY_ERROR),
            Error::JoinLobbyError => (STATUS_BAD_REQUEST, ClientError::JOIN_LOBBY_ERROR),
            Error::RemoveFromLobbyError => (STATUS_BAD_REQUEST, ClientError::REMOVE_USER_FROM_LOBBY_ERROR),
            Error::DeleteLobbyError => (STATUS_BAD_REQUEST, ClientError::DELETE_LOBBY_ERROR),
            Error::UserNameChangeError => (STATUS_BAD_REQUEST, ClientError::USERNAME_CHANGE_ERROR),
            Error::InvalidEmailUserKey => (STATUS_BAD_REQUEST, ClientError::INVALID_EMAIL_USER_KEY),
            Error::GameCannotBeStarted => (STATUS_BAD_REQUEST, ClientError::GAME_CANNOT_BE_STARTED),
            Error::RedisGetKeyError => (STATUS_BAD_REQUEST, ClientError::REDIS_GET_KEY_ERROR),
            Error::RedisUnwrapError => (STATUS_BAD_REQUEST, ClientError::REDIS_UNWRAP_ERROR),
            Error::LobbyFull => (STATUS_BAD_REQUEST, ClientError::LOBBY_FULL_ERROR),
            Error::FailedToVerifyUser => (STATUS_BAD_REQUEST, ClientError::FAILED_TO_VERIFY_USER),
            Error::ErrorWhileMakingRelation => (STATUS_BAD_REQUEST, ClientError::ERROR_WHILE_MAKING_RELATION),
            Error::FailedToSetRedisKeyWithOptions => (STATUS_BAD_REQUEST, ClientError::FAILED_TO_SET_REDIS_KEY_WITH_OPTIONS),
            Error::WalletAddressSaveError => (STATUS_BAD_REQUEST, ClientError::WALLET_ADDRESS_SAVE_ERROR),
            Error::SpectateGameJoinError => (STATUS_BAD_REQUEST, ClientError::SPECTATE_GAME_JOIN_ERROR),
            Error::SpectateGameLeaveError => (STATUS_BAD_REQUEST, ClientError::SPECTATE_GAME_LEAVE_ERROR),
            Error::GameInviteSendError => (STATUS_BAD_REQUEST, ClientError::GAME_INVITE_SEND_ERROR),
            Error::AuthFailNoAuthTokenCookie => (STATUS_FORBIDDEN, ClientError::NO_AUTH),
            Error::AuthFailTokenWrongFormat => (STATUS_FORBIDDEN, ClientError::NO_AUTH),
            Error::AuthFailCtxNotInRequestExt => (STATUS_FORBIDDEN, ClientError::NO_AUTH),
            Error::TicketDeleteFailIdNotFound { .. } => (STATUS_BAD_REQUEST, ClientError::INVALID_PARAMS),
            _ => (STATUS_INTERNAL_SERVER_ERROR, ClientError::SERVICE_ERROR),
        }
    }

    /// The text of the error (what `Display` writes): its variant's name, with the id for a
    /// missing ticket.
    pub fn message(&self) -> (r: String)
        ensures
            r@ == error_text(*self),
    {
        match self {
            Error::LoginFail => String::from_str("LoginFail"),
            Error::RegistrationFail => String::from_str("RegistrationFail"),
            Error::MissingParamsError => String::from_str("MissingParamsError"),
            Error::FailedToSetRedisKeyWithOptions => String::from_str("FailedToSetRedisKeyWithOptions"),
            Error::InvalidUserToken => String::from_str("InvalidUserToken"),
            Error::EntityNotFound => String::from_str("EntityNotFound"),
            Error::SamePasswordAsPreviousOne => String::from_str("SamePasswordAsPreviousOne"),
            Error::NoUserEntityFoundForToken => String::from_str("NoUserEntityFoundForToken"),
            Error::PasswordIncorrect => String::from_str("PasswordIncorrect"),
            Error::UsernameAlreadyExists => String::from_str("UsernameAlreadyExists"),
            Error::UsernameContainsInvalidCharachter => String::from_str("UsernameContainsInvalidCharachter"),
            Error::FailedToVerifyUser => String::from_str("FailedToVerifyUser"),
            Error::EmailAlreadyInUse => String::from_str("EmailAlreadyInUse"),
            Error::FailedToGetKeyFromRedis => String::from_str("FailedToGetKeyFromRedis"),
            Error::PasswordLength => String::from_str("PasswordLength"),
            Error::NewPasswordLengthIsSmall => String::from_str("NewPasswordLengthIsSmall"),
            Error::RegistrationPayloadValidationError => String::from_str("RegistrationPayloadValidationError"),
            Error::UserNameChangeError => String::from_str("UserNameChangeError"),
            Error::SendEmailError => String::from_str("SendEmailError"),
            Error::CreateLobbyError => String::from_str("CreateLobbyError"),
            Error::PasswordChangeError => String::from_str("PasswordChangeError"),
            Error::InvalidEmailUserKey => String::from_str("InvalidEmailUserKey"),
            Error::JoinLobbyError => String::from_str("JoinLobbyError"),
            Error::RemoveFromLobbyError => String::from_str("RemoveFromLobbyError"),
            Error::DeleteLobbyError => String::from_str("DeleteLobbyError"),
            Error::GameCannotBeStarted => String::from_str("GameCannotBeStarted"),
            Error::RedisUnwrapError => String::from_str("RedisUnwrapError"),
            Error::RedisGetKeyError => String::from_str("RedisGetKeyError"),
            Error::LobbyFull => String::from_str("LobbyFull"),
            Error::GameInviteSendError => String::from_str("GameInviteSendError"),
            Error::WalletAddressSaveError => String::from_str("WalletAddressSaveError"),
            Error::ErrorWhileMakingRelation => String::from_str("ErrorWhileMakingRelation"),
            Error::SpectateGameJoinError => String::from_str("SpectateGameJoinError"),
            Error::SpectateGameLeaveError => String::from_str("SpectateGameLeaveError"),
            Error::AuthFailNoAuthTokenCookie => String::from_str("AuthFailNoAuthTokenCookie"),
            Error::AuthFailTokenWrongFormat => String::from_str("AuthFailTokenWrongFormat"),
            Error::AuthFailCtxNotInRequestExt => String::from_str("AuthFailCtxNotInRequestExt"),
            Error::UsernameNotFound => String::from_str("UsernameNotFound"),
            Error::ErrorWhileSendingRequest => String::from_str("ErrorWhileSendingRequest"),
            Error::FriendRequestAlreadySent => String::from_str("FriendRequestAlreadySent"),
            Error::ErrorWhileFetchingUserFriendsRequests => String::from_str("ErrorWhileFetchingUserFriendsRequests"),
            Error::ErrorWhileFetchingUserFriends => String::from_str("ErrorWhileFetchingUserFriends"),
            Error::ErrorWhileCreatingEntities => String::from_str("ErrorWhileCreatingEntities"),
            Error::ErrorWhileFetchingGameDetails => String::from_str("ErrorWhileFetchingGameDetails"),
            Error::GameLobbyDeletedOrRequestIsInvalid => String::from_str("GameLobbyDeletedOrRequestIsInvalid"),
            Error::LobbyIsFull => String::from_str("LobbyIsFull"),
            Error::ErrorWhileUpdatingMongoUserAndGame => String::from_str("ErrorWhileUpdatingMongoUserAndGame"),
            Error::ErrorWhileLeavingLobby => String::from_str("ErrorWhileLeavingLobby"),
            Error::ErrorWhileRetrievingLobbyUsers => String::from_str("ErrorWhileRetrievingLobbyUsers"),
            Error::InvalidStatusSendAsPayload => String::from_str("InvalidStatusSendAsPayload"),
            Error::ErrorWhileUpdatingPlayerStatus => String::from_str("ErrorWhileUpdatingPlayerStatus"),
            Error::GameNotFound => String::from_str("GameNotFound"),
            Error::ErrorWhileRetrievingPlayersStatus => String::from_str("ErrorWhileRetrievingPlayersStatus"),
            Error::NotAllPlayersHaveReadyStatus => String::from_str("NotAllPlayersHaveReadyStatus"),
            Error::ErrorWhileFetchingUserTurns => String::from_str("ErrorWhileFetchingUserTurns"),
            Error::NoMappingFound => String::from_str("NoMappingFound"),
            Error::TicketDeleteFailIdNotFound { id } => {
                let mut v = str_chars("TicketDeleteFailIdNotFound { id: ");
                push_decimal(*id, &mut v);
                let tail = str_chars(" }");
                let mut i: usize = 0;
                let ghost head = v@;
                while i < tail.len()
                    invariant
                        i <= tail.len(),
                        v@ == head + tail@.subrange(0, i as int),
                    decreases tail.len() - i,
                {
                    v.push(tail[i]);
                    i = i + 1;
                }
                assert(v@ =~= error_text(*self));
                string_from_chars(&v)
            },
        }
    }

    /// The response that answers this error: the error's status, a body with a failed result
    /// and the client error code's name, and the error itself kept beside the response.
    pub fn into_response(&self) -> (r: ErrorResponse)
        ensures
            r.status == spec_client_status_and_error(*self).0,
            r.body.result.success == false,
            r.body.error_message@ == client_error_name(spec_client_status_and_error(*self).1),
            r.error == *self,
    {
        let (status, code) = self.client_status_and_error();
        ErrorResponse {
            status,
            body: ErrorPayloadResponse {
                result: SuccessResponse { success: false },
                error_message: code.name(),
            },
            error: *self,
        }
    }
}

/// Law: every API error is answered with a client error (400, 401 or 403) or, for the
/// errors that the table does not name, an internal server error with the generic code.
pub proof fn law_error_statuses(e: Error)
    ensures
        ({
            let (status, code) = spec_client_status_and_error(e);
            &&& status == 400 || status == 401 || status == 403 || status == 500
            &&& (status == 500 <==> code == ClientError::SERVICE_ERROR)
            &&& (status == 403 ==> (code == ClientError::NO_AUTH || code == ClientError::REGISTRATION_FAIL))
        }),
        e is LoginFail <==> spec_client_status_and_error(e).0 == 401,
        (e is AuthFailNoAuthTokenCookie || e is AuthFailTokenWrongFormat || e is AuthFailCtxNotInRequestExt)
            ==> spec_client_status_and_error(e) == (403u16, ClientError::NO_AUTH),
        e is RegistrationFail ==> spec_client_status_and_error(e) == (403u16, ClientError::REGISTRATION_FAIL),
        e is MissingParamsError ==> spec_client_status_and_error(e) == (400u16, ClientError::MISSING_PARAMS_ERROR),
        e is TicketDeleteFailIdNotFound ==> spec_client_status_and_error(e) == (400u16, ClientError::INVALID_PARAMS),
        e is LobbyFull ==> spec_client_status_and_error(e) == (400u16, ClientError::LOBBY_FULL_ERROR),
        (e is UsernameNotFound || e is LobbyIsFull || e is GameNotFound || e is NotAllPlayersHaveReadyStatus)
            ==> spec_client_status_and_error(e) == (500u16, ClientError::SERVICE_ERROR),
{
}

} // verus!
