use vstd::prelude::*;

verus! {

/// Error codes returned by the issuer's API, one variant per documented
/// numeric code.
#[derive(Clone, Copy, Debug, PartialEq, Eq, Structural)]
pub enum ErrorCode {
    System,
    InvalidCredential,
    InvalidGrantType,
    InvalidAppId,
    InvalidCode,
    InvalidSecret,
    ForbiddenIp,
    CodeBlocked,
    SecretFrozen,
    MissingAppId,
    MissingSecret,
    MissingCode,
    RequiredPostMethod,
    DailyRequestLimitExceeded,
    RateLimitExceeded,
    ForbiddenToken,
    AccountFrozen,
    ThirdPartyToken,
    ConfirmRequired,
    RequestDeniedOneDay,
    RequestDeniedOneHour,
}

impl ErrorCode {
    /// The numeric code the issuer uses on the wire for this variant.
    pub open spec fn spec_code(self) -> i32 {
        match self {
            ErrorCode::System => -1i32,
            ErrorCode::InvalidCredential => 40001i32,
            ErrorCode::InvalidGrantType => 40002i32,
            ErrorCode::InvalidAppId => 40013i32,
            ErrorCode::InvalidCode => 40029i32,
            ErrorCode::InvalidSecret => 40125i32,
            ErrorCode::ForbiddenIp => 40164i32,
            ErrorCode::CodeBlocked => 40226i32,
            ErrorCode::SecretFrozen => 40243i32,
            ErrorCode::MissingAppId => 41002i32,
            ErrorCode::MissingSecret => 41004i32,
            ErrorCode::MissingCode => 41008i32,
            ErrorCode::RequiredPostMethod => 43002i32,
            ErrorCode::DailyRequestLimitExceeded => 45009i32,
            ErrorCode::RateLimitExceeded => 45011i32,
            ErrorCode::ForbiddenToken => 50004i32,
            ErrorCode::AccountFrozen => 50007i32,
            ErrorCode::ThirdPartyToken => 61024i32,
            ErrorCode::ConfirmRequired => 89503i32,
            ErrorCode::RequestDeniedOneDay => 89506i32,
            ErrorCode::RequestDeniedOneHour => 89507i32,
        }
    }

    /// The variant a numeric code stands for, if it is a documented one.
    pub open spec fn spec_from_code(code: i32) -> Option<ErrorCode> {
        if code == -1 {
            Some(ErrorCode::System)
        } else if code == 40001 {
            Some(ErrorCode::InvalidCredential)
        } else if code == 40002 {
            Some(ErrorCode::InvalidGrantType)
        } else if code == 40013 {
            Some(ErrorCode::InvalidAppId)
        } else if code == 40029 {
            Some(ErrorCode::InvalidCode)
        } else if code == 40125 {
            Some(ErrorCode::InvalidSecret)
        } else if code == 40164 {
            Some(ErrorCode::ForbiddenIp)
        } else if code == 40226 {
            Some(ErrorCode::CodeBlocked)
        } else if code == 40243 {
            Some(ErrorCode::SecretFrozen)
        } else if code == 41002 {
            Some(ErrorCode::MissingAppId)
        } else if code == 41004 {
            Some(ErrorCode::MissingSecret)
        } else if code == 41008 {
            Some(ErrorCode::MissingCode)
        } else if code == 43002 {
            Some(ErrorCode::RequiredPostMethod)
        } else if code == 45009 {
            Some(ErrorCode::DailyRequestLimitExceeded)
        } else if code == 45011 {
            Some(ErrorCode::RateLimitExceeded)
        } else if code == 50004 {
            Some(ErrorCode::ForbiddenToken)
        } else if code == 50007 {
            Some(ErrorCode::AccountFrozen)
        } else if code == 61024 {
            Some(ErrorCode::ThirdPartyToken)
        } else if code == 89503 {
            Some(ErrorCode::ConfirmRequired)
        } else if code == 89506 {
            Some(ErrorCode::RequestDeniedOneDay)
        } else if code == 89507 {
            Some(ErrorCode::RequestDeniedOneHour)
        } else {
            None
        }
    }

    /// The numeric code the issuer uses on the wire for this variant.
    pub fn code(&self) -> (code: i32)
        ensures
            code == self.spec_code(),
            ErrorCode::spec_from_code(code) == Some(*self),
    {
        match self {
            ErrorCode::System => -1,
            ErrorCode::InvalidCredential => 40001,
            ErrorCode::InvalidGrantType => 40002,
            ErrorCode::InvalidAppId => 40013,
            ErrorCode::InvalidCode => 40029,
            ErrorCode::InvalidSecret => 40125,
            ErrorCode::ForbiddenIp => 40164,
            ErrorCode::CodeBlocked => 40226,
            ErrorCode::SecretFrozen => 40243,
            ErrorCode::MissingAppId => 41002,
            ErrorCode::MissingSecret => 41004,
            ErrorCode::MissingCode => 41008,
            ErrorCode::RequiredPostMethod => 43002,
            ErrorCode::DailyRequestLimitExceeded => 45009,
            ErrorCode::RateLimitExceeded => 45011,
            ErrorCode::ForbiddenToken => 50004,
            ErrorCode::AccountFrozen => 50007,
            ErrorCode::ThirdPartyToken => 61024,
            ErrorCode::ConfirmRequired => 89503,
            ErrorCode::RequestDeniedOneDay => 89506,
            ErrorCode::RequestDeniedOneHour => 89507,
        }
    }

    /// Looks a numeric code up; `None` for a code the issuer does not document.
    pub fn from_code(code: i32) -> (r: Option<ErrorCode>)
        ensures
            r == ErrorCode::spec_from_code(code),
    {
        if code == -1 {
            Some(ErrorCode::System)
        } else if code == 40001 {
            Some(ErrorCode::InvalidCredential)
        } else if code == 40002 {
            Some(ErrorCode::InvalidGrantType)
        } else if code == 40013 {
            Some(ErrorCode::InvalidAppId)
        } else if code == 40029 {
            Some(ErrorCode::InvalidCode)
        } else if code == 40125 {
            Some(ErrorCode::InvalidSecret)
        } else if code == 40164 {
            Some(ErrorCode::ForbiddenIp)
        } else if code == 40226 {
            Some(ErrorCode::CodeBlocked)
        } else if code == 40243 {
            Some(ErrorCode::SecretFrozen)
        } else if code == 41002 {
            Some(ErrorCode::MissingAppId)
        } else if code == 41004 {
            Some(ErrorCode::MissingSecret)
        } else if code == 41008 {
            Some(ErrorCode::MissingCode)
        } else if code == 43002 {
            Some(ErrorCode::RequiredPostMethod)
        } else if code == 45009 {
            Some(ErrorCode::DailyRequestLimitExceeded)
        } else if code == 45011 {
            Some(ErrorCode::RateLimitExceeded)
        } else if code == 50004 {
            Some(ErrorCode::ForbiddenToken)
        } else if code == 50007 {
            Some(ErrorCode::AccountFrozen)
        } else if code == 61024 {
            Some(ErrorCode::ThirdPartyToken)
        } else if code == 89503 {
            Some(ErrorCode::ConfirmRequired)
        } else if code == 89506 {
            Some(ErrorCode::RequestDeniedOneDay)
        } else if code == 89507 {
            Some(ErrorCode::RequestDeniedOneHour)
        } else {
            None
        }
    }
}

/// Error type of this library. One variant per documented issuer code, each
/// carrying the issuer's message, plus the failures of the token source and
/// of the surrounding exchange.
#[derive(Debug, Clone)]
pub enum Error {
    System(String),
    InvalidCredential(String),
    InvalidGrantType(String),
    InvalidAppId(String),
    InvalidCode(String),
    InvalidSecret(String),
    ForbiddenIp(String),
    CodeBlocked(String),
    SecretFrozen(String),
    MissingAppId(String),
    MissingSecret(String),
    MissingCode(String),
    RequiredPostMethod(String),
    DailyRequestLimitExceeded(String),
    RateLimitExceeded(String),
    ForbiddenToken(String),
    AccountFrozen(String),
    ThirdPartyToken(String),
    ConfirmRequired(String),
    RequestDeniedOneDay(String),
    RequestDeniedOneHour(String),
    /// A response that was not a success envelope at the HTTP level.
    InternalServer(String),
    /// The token source could not produce a usable secret: a network or
    /// parse failure surfaced by the embedding application, or a degenerate
    /// (empty) secret in the source's answer.
    SourceUnavailable(String),
}

impl Error {
    /// The error that a failure envelope with this code and message maps to.
    pub open spec fn spec_from_parts(code: ErrorCode, message: String) -> Error {
        match code {
            ErrorCode::System => Error::System(message),
            ErrorCode::InvalidCredential => Error::InvalidCredential(message),
            ErrorCode::InvalidGrantType => Error::InvalidGrantType(message),
            ErrorCode::InvalidAppId => Error::InvalidAppId(message),
            ErrorCode::InvalidCode => Error::InvalidCode(message),
            ErrorCode::InvalidSecret => Error::InvalidSecret(message),
            ErrorCode::ForbiddenIp => Error::ForbiddenIp(message),
            ErrorCode::CodeBlocked => Error::CodeBlocked(message),
            ErrorCode::SecretFrozen => Error::SecretFrozen(message),
            ErrorCode::MissingAppId => Error::MissingAppId(message),
            ErrorCode::MissingSecret => Error::MissingSecret(message),
            ErrorCode::MissingCode => Error::MissingCode(message),
            ErrorCode::RequiredPostMethod => Error::RequiredPostMethod(message),
            ErrorCode::DailyRequestLimitExceeded => Error::DailyRequestLimitExceeded(message),
            ErrorCode::RateLimitExceeded => Error::RateLimitExceeded(message),
            ErrorCode::ForbiddenToken => Error::ForbiddenToken(message),
            ErrorCode::AccountFrozen => Error::AccountFrozen(message),
            ErrorCode::ThirdPartyToken => Error::ThirdPartyToken(message),
            ErrorCode::ConfirmRequired => Error::ConfirmRequired(message),
            ErrorCode::RequestDeniedOneDay => Error::RequestDeniedOneDay(message),
            ErrorCode::RequestDeniedOneHour => Error::RequestDeniedOneHour(message),
        }
    }

    /// Maps a failure envelope — the issuer's numeric code and message — to
    /// the matching error variant, carrying the message through unchanged.
    pub fn from_parts(code: ErrorCode, message: String) -> (r: Error)
        ensures
            r == Error::spec_from_parts(code, message),
    {
        match code {
            ErrorCode::System => Error::System(message),
            ErrorCode::InvalidCredential => Error::InvalidCredential(message),
            ErrorCode::InvalidGrantType => Error::InvalidGrantType(message),
            ErrorCode::InvalidAppId => Error::InvalidAppId(message),
            ErrorCode::InvalidCode => Error::InvalidCode(message),
            ErrorCode::InvalidSecret => Error::InvalidSecret(message),
            ErrorCode::ForbiddenIp => Error::ForbiddenIp(message),
            ErrorCode::CodeBlocked => Error::CodeBlocked(message),
            ErrorCode::SecretFrozen => Error::SecretFrozen(message),
            ErrorCode::MissingAppId => Error::MissingAppId(message),
            ErrorCode::MissingSecret => Error::MissingSecret(message),
            ErrorCode::MissingCode => Error::MissingCode(message),
            ErrorCode::RequiredPostMethod => Error::RequiredPostMethod(message),
            ErrorCode::DailyRequestLimitExceeded => Error::DailyRequestLimitExceeded(message),
            ErrorCode::RateLimitExceeded => Error::RateLimitExceeded(message),
            ErrorCode::ForbiddenToken => Error::ForbiddenToken(message),
            ErrorCode::AccountFrozen => Error::AccountFrozen(message),
            ErrorCode::ThirdPartyToken => Error::ThirdPartyToken(message),
            ErrorCode::ConfirmRequired => Error::ConfirmRequired(message),
            ErrorCode::RequestDeniedOneDay => Error::RequestDeniedOneDay(message),
            ErrorCode::RequestDeniedOneHour => Error::RequestDeniedOneHour(message),
        }
    }
}

} // verus!
