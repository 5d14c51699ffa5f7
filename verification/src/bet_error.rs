//! Errors of the betting API, and the HTTP answer that each one gets.
use vstd::prelude::*;
use vstd::string::*;
use crate::decimal::{decimal, push_decimal};
use crate::text::{str_chars, string_from_chars};

verus! {
/// HTTP status codes that the API answers with.
pub const STATUS_BAD_REQUEST: u16 = 400;
pub const STATUS_UNAUTHORIZED: u16 = 401;
pub const STATUS_FORBIDDEN: u16 = 403;
pub const STATUS_INTERNAL_SERVER_ERROR: u16 = 500;

/// Why a request of the betting API failed.
#[derive(Clone, Copy, Debug, PartialEq, Eq, Structural)]
pub enum Error {
    LoginFail,
    AuthFailNoAuthTokenCookie,
    AuthFailTokenWrongFormat,
    AuthFailCtxNotInRequestExt,
    MissingParams,
    ErrorWhileFetchingGameModel,
    NoUserIdFound,
    InvalidParams,
    CannotPlaceNewBetForSameGame,
    CannotBetSinceBetTimeHasElapsed,
    ErrorWhileFetchingUserBets,
    ErrorWhilePlacingBet,
    ErrorWhileFetchingExistingBet,
    ErrorWhileUpdatingGameBet,
    TicketDeleteFailIdNotFound { id: u64 },
}

/// The error code that a client sees.
#[allow(non_camel_case_types)]
#[derive(Clone, Copy, Debug, PartialEq, Eq, Structural)]
pub enum ClientError {
    LOGIN_FAIL,
    NO_AUTH,
    NO_USER_ID_FOUND,
    INVALID_PARAMS,
    MISSING_PARAMS,
    SERVICE_ERROR,
    CANNOT_PLACE_NEW_BET_FOR_SAME_GAME,
    CANNOT_BET_SINCE_BET_TIME_HAS_ELAPSED,
    ERROR_WHILE_FETCHING_GAME_MODEL,
    ERROR_WHILE_FETCHING_USER_BETS,
    ERROR_WHILE_PLACING_BET,
    ERROR_WHILE_FETCHING_EXISTING_BET,
    ERROR_WHILE_UPDATING_GAME_BET,
    INVALID_EMAIL_USER_KEY,
}

/// The `result` member of a response body.
pub struct SuccessResponse {
    pub success: bool,
}

/// The body of an error response: a failed result and the client error code.
pub struct ErrorPayloadResponse {
    pub result: SuccessResponse,
    pub error_message: String,
}

/// An error response: its status, its body, and the error it answers, which travels with
/// the response for the layers that read it.
pub struct ErrorResponse {
    pub status: u16,
    pub body: ErrorPayloadResponse,
    pub error: Error,
}

/// The HTTP status and client error code of an error. Errors that the table does not
/// name are internal server errors.
pub open spec fn spec_client_status_and_error(e: Error) -> (u16, ClientError) {
    match e {
        Error::LoginFail => (401, ClientError::LOGIN_FAIL),
        Error::MissingParams => (400, ClientError::MISSING_PARAMS),
        Error::NoUserIdFound => (400, ClientError::NO_USER_ID_FOUND),
        Error::ErrorWhileFetchingGameModel => (400, ClientError::ERROR_WHILE_FETCHING_GAME_MODEL),
        Error::ErrorWhileFetchingUserBets => (400, ClientError::ERROR_WHILE_FETCHING_USER_BETS),
        Error::InvalidParams => (400, ClientError::INVALID_PARAMS),
        Error::CannotBetSinceBetTimeHasElapsed => (400, ClientError::CANNOT_BET_SINCE_BET_TIME_HAS_ELAPSED),
        Error::CannotPlaceNewBetForSameGame => (400, ClientError::CANNOT_PLACE_NEW_BET_FOR_SAME_GAME),
        Error::ErrorWhilePlacingBet => (400, ClientError::ERROR_WHILE_PLACING_BET),
        Error::ErrorWhileFetchingExistingBet => (400, ClientError::ERROR_WHILE_FETCHING_EXISTING_BET),
        Error::ErrorWhileUpdatingGameBet => (400, ClientError::ERROR_WHILE_UPDATING_GAME_BET),
        Error::AuthFailNoAuthTokenCookie => (403, ClientError::NO_AUTH),
        Error::AuthFailTokenWrongFormat => (403, ClientError::NO_AUTH),
        Error::AuthFailCtxNotInRequestExt => (403, ClientError::NO_AUTH),
        Error::TicketDeleteFailIdNotFound { .. } => (400, ClientError::INVALID_PARAMS),
    }
}

/// The name of a client error code, as the response body spells it.
pub open spec fn client_error_name(c: ClientError) -> Seq<char> {
    match c {
        ClientError::LOGIN_FAIL => "LOGIN_FAIL"@,
        ClientError::NO_AUTH => "NO_AUTH"@,
        ClientError::NO_USER_ID_FOUND => "NO_USER_ID_FOUND"@,
        ClientError::INVALID_PARAMS => "INVALID_PARAMS"@,
        ClientError::MISSING_PARAMS => "MISSING_PARAMS"@,
        ClientError::SERVICE_ERROR => "SERVICE_ERROR"@,
        ClientError::CANNOT_PLACE_NEW_BET_FOR_SAME_GAME => "CANNOT_PLACE_NEW_BET_FOR_SAME_GAME"@,
        ClientError::CANNOT_BET_SINCE_BET_TIME_HAS_ELAPSED => "CANNOT_BET_SINCE_BET_TIME_HAS_ELAPSED"@,
        ClientError::ERROR_WHILE_FETCHING_GAME_MODEL => "ERROR_WHILE_FETCHING_GAME_MODEL"@,
        ClientError::ERROR_WHILE_FETCHING_USER_BETS => "ERROR_WHILE_FETCHING_USER_BETS"@,
        ClientError::ERROR_WHILE_PLACING_BET => "ERROR_WHILE_PLACING_BET"@,
        ClientError::ERROR_WHILE_FETCHING_EXISTING_BET => "ERROR_WHILE_FETCHING_EXISTING_BET"@,
        ClientError::ERROR_WHILE_UPDATING_GAME_BET => "ERROR_WHILE_UPDATING_GAME_BET"@,
        ClientError::INVALID_EMAIL_USER_KEY => "INVALID_EMAIL_USER_KEY"@,
    }
}

/// The text of an error: its variant's name, with the id for a missing ticket.
pub open spec fn error_text(e: Error) -> Seq<char> {
    match e {
        Error::LoginFail => "LoginFail"@,
        Error::AuthFailNoAuthTokenCookie => "AuthFailNoAuthTokenCookie"@,
        Error::AuthFailTokenWrongFormat => "AuthFailTokenWrongFormat"@,
        Error::AuthFailCtxNotInRequestExt => "AuthFailCtxNotInRequestExt"@,
        Error::MissingParams => "MissingParams"@,
        Error::ErrorWhileFetchingGameModel => "ErrorWhileFetchingGameModel"@,
        Error::NoUserIdFound => "NoUserIdFound"@,
        Error::InvalidParams => "InvalidParams"@,
        Error::CannotPlaceNewBetForSameGame => "CannotPlaceNewBetForSameGame"@,
        Error::CannotBetSinceBetTimeHasElapsed => "CannotBetSinceBetTimeHasElapsed"@,
        Error::ErrorWhileFetchingUserBets => "ErrorWhileFetchingUserBets"@,
        Error::ErrorWhilePlacingBet => "ErrorWhilePlacingBet"@,
        Error::ErrorWhileFetchingExistingBet => "ErrorWhileFetchingExistingBet"@,
        Error::ErrorWhileUpdatingGameBet => "ErrorWhileUpdatingGameBet"@,
        Error::TicketDeleteFailIdNotFound { id } => "TicketDeleteFailIdNotFound { id: "@ + decimal(id as nat) + " }"@,
    }
}

impl ClientError {
    /// The name of the code, as the response body spells it.
    pub fn name(&self) -> (r: String)
        ensures
            r@ == client_error_name(*self),
    {
        match self {
            ClientError::LOGIN_FAIL => String::from_str("LOGIN_FAIL"),
            ClientError::NO_AUTH => String::from_str("NO_AUTH"),
            ClientError::NO_USER_ID_FOUND => String::from_str("NO_USER_ID_FOUND"),
            ClientError::INVALID_PARAMS => String::from_str("INVALID_PARAMS"),
            ClientError::MISSING_PARAMS => String::from_str("MISSING_PARAMS"),
            ClientError::SERVICE_ERROR => String::from_str("SERVICE_ERROR"),
            ClientError::CANNOT_PLACE_NEW_BET_FOR_SAME_GAME => String::from_str("CANNOT_PLACE_NEW_BET_FOR_SAME_GAME"),
            ClientError::CANNOT_BET_SINCE_BET_TIME_HAS_ELAPSED => String::from_str("CANNOT_BET_SINCE_BET_TIME_HAS_ELAPSED"),
            ClientError::ERROR_WHILE_FETCHING_GAME_MODEL => String::from_str("ERROR_WHILE_FETCHING_GAME_MODEL"),
            ClientError::ERROR_WHILE_FETCHING_USER_BETS => String::from_str("ERROR_WHILE_FETCHING_USER_BETS"),
            ClientError::ERROR_WHILE_PLACING_BET => String::from_str("ERROR_WHILE_PLACING_BET"),
            ClientError::ERROR_WHILE_FETCHING_EXISTING_BET => String::from_str("ERROR_WHILE_FETCHING_EXISTING_BET"),
            ClientError::ERROR_WHILE_UPDATING_GAME_BET => String::from_str("ERROR_WHILE_UPDATING_GAME_BET"),
            ClientError::INVALID_EMAIL_USER_KEY => String::from_str("INVALID_EMAIL_USER_KEY"),
        }
    }
}

impl Error {
    /// The HTTP status and the client error code that this error is answered with.
    pub fn client_status_and_error(&self) -> (r: (u16, ClientError))
        ensures
            r == spec_client_status_and_error(*self),
    {
        match self {
            Error::LoginFail => (STATUS_UNAUTHORIZED, ClientError::LOGIN_FAIL),
            Error::MissingParams => (STATUS_BAD_REQUEST, ClientError::MISSING_PARAMS),
            Error::NoUserIdFound => (STATUS_BAD_REQUEST, ClientError::NO_USER_ID_FOUND),
            Error::ErrorWhileFetchingGameModel => (STATUS_BAD_REQUEST, ClientError::ERROR_WHILE_FETCHING_GAME_MODEL),
            Error::ErrorWhileFetchingUserBets => (STATUS_BAD_REQUEST, ClientError::ERROR_WHILE_FETCHING_USER_BETS),
            Error::InvalidParams => (STATUS_BAD_REQUEST, ClientError::INVALID_PARAMS),
            Error::CannotBetSinceBetTimeHasElapsed => (STATUS_BAD_REQUEST, ClientError::CANNOT_BET_SINCE_BET_TIME_HAS_ELAPSED),
            Error::CannotPlaceNewBetForSameGame => (STATUS_BAD_REQUEST, ClientError::CANNOT_PLACE_NEW_BET_FOR_SAME_GAME),
            Error::ErrorWhilePlacingBet => (STATUS_BAD_REQUEST, ClientError::ERROR_WHILE_PLACING_BET),
            Error::ErrorWhileFetchingExistingBet => (STATUS_BAD_REQUEST, ClientError::ERROR_WHILE_FETCHING_EXISTING_BET),
            Error::ErrorWhileUpdatingGameBet => (STATUS_BAD_REQUEST, ClientError::ERROR_WHILE_UPDATING_GAME_BET),
            Error::AuthFailNoAuthTokenCookie => (STATUS_FORBIDDEN, ClientError::NO_AUTH),
            Error::AuthFailTokenWrongFormat => (STATUS_FORBIDDEN, ClientError::NO_AUTH),
            Error::AuthFailCtxNotInRequestExt => (STATUS_FORBIDDEN, ClientError::NO_AUTH),
            Error::TicketDeleteFailIdNotFound { .. } => (STATUS_BAD_REQUEST, ClientError::INVALID_PARAMS),
        }
    }

    /// The text of the error (what `Display` writes): its variant's name, with the id for a
    /// missing ticket.
    pub fn message(&self) -> (r: String)
        ensures
            r@ == error_text(*self),
    {
        match self {
            Error::LoginFail => String::from_str("LoginFail"),
            Error::AuthFailNoAuthTokenCookie => String::from_str("AuthFailNoAuthTokenCookie"),
            Error::AuthFailTokenWrongFormat => String::from_str("AuthFailTokenWrongFormat"),
            Error::AuthFailCtxNotInRequestExt => String::from_str("AuthFailCtxNotInRequestExt"),
            Error::MissingParams => String::from_str("MissingParams"),
            Error::ErrorWhileFetchingGameModel => String::from_str("ErrorWhileFetchingGameModel"),
            Error::NoUserIdFound => String::from_str("NoUserIdFound"),
            Error::InvalidParams => String::from_str("InvalidParams"),
            Error::CannotPlaceNewBetForSameGame => String::from_str("CannotPlaceNewBetForSameGame"),
            Error::CannotBetSinceBetTimeHasElapsed => String::from_str("CannotBetSinceBetTimeHasElapsed"),
            Error::ErrorWhileFetchingUserBets => String::from_str("ErrorWhileFetchingUserBets"),
            Error::ErrorWhilePlacingBet => String::from_str("ErrorWhilePlacingBet"),
            Error::ErrorWhileFetchingExistingBet => String::from_str("ErrorWhileFetchingExistingBet"),
            Error::ErrorWhileUpdatingGameBet => String::from_str("ErrorWhileUpdatingGameBet"),
            Error::TicketDeleteFailIdNotFound { id } => {
                let mut v = str_chars("TicketDeleteFailIdNotFound { id: ");
                push_decimal(*id, &mut v);
                let tail = str_chars(" }");
                let mut i: usize = 0;
                let ghost head = v@;
                while i < tail.len()
                    invariant
                        i <= tail.len(),
                        v@ == head + tail@.subrange(0, i as int),
                    decreases tail.len() - i,
                {
                    v.push(tail[i]);
                    i = i + 1;
                }
                assert(v@ =~= error_text(*self));
                string_from_chars(&v)
            },
        }
    }

    /// The response that answers this error: the error's status, a body with a failed result
    /// and the client error code's name, and the error itself kept beside the response.
    pub fn into_response(&self) -> (r: ErrorResponse)
        ensures
            r.status == spec_client_status_and_error(*self).0,
            r.body.result.success == false,
            r.body.error_message@ == client_error_name(spec_client_status_and_error(*self).1),
            r.error == *self,
    {
        let (status, code) = self.client_status_and_error();
        ErrorResponse {
            status,
            body: ErrorPayloadResponse {
                result: SuccessResponse { success: false },
                error_message: code.name(),
            },
            error: *self,
        }
    }
}

} // verus!
