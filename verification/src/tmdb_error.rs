use crate::text::{decimal, opt_chars, push_decimal};
use std::ops::Deref;
use vstd::prelude::*;

verus! {

/// The HTTP status `status_code` as a status line shows it: the number
/// and the reason phrase that stands for it. No status has a number
/// below 100 or above 999.
pub uninterp spec fn status_line(status_code: int) -> Option<Seq<char>>;

/// The HTTP status `status_code` as an error message shows it: as a
/// status line shows it, or the bare number where there is no such status.
pub open spec fn status_text(status_code: u16) -> Seq<char> {
    match status_line(status_code as int) {
        Some(line) => line,
        None => decimal(status_code as nat),
    }
}

/// `http::StatusCode::from_u16`, and the status it gives with
/// `to_string`; `None` where it refuses the number.
#[verifier::external_body]
fn http_status_line(status_code: u16) -> (line: Option<String>)
    ensures
        opt_chars(line) == status_line(status_code as int),
{
    http::StatusCode::from_u16(status_code).ok().map(|status| status.to_string())
}

/// Appends the HTTP status `status_code` to `out` as an error message shows it.
fn push_status(out: &mut String, status_code: u16)
    ensures
        final(out)@ == old(out)@ + status_text(status_code),
{
    match http_status_line(status_code) {
        Some(line) => out.append(line.as_str()),
        None => push_decimal(out, status_code as u64),
    }
}

/// The code that the upstream API puts in the body of an error. Not every
/// value is a code that the API documents.
#[derive(Debug, Copy, Clone, Eq, PartialEq, Structural)]
pub struct TmdbErrorCode(pub u8);

impl TmdbErrorCode {
    /// The code with the number `error`.
    pub fn new(error: u8) -> (code: TmdbErrorCode)
        ensures
            code.0 == error,
    {
        TmdbErrorCode(error)
    }

    /// The code in decimal digits.
    pub fn to_string(&self) -> (text: String)
        ensures
            text@ == decimal(self.0 as nat),
    {
        let mut text = String::new();
        push_decimal(&mut text, self.0 as u64);
        text
    }
}

impl Deref for TmdbErrorCode {
    type Target = u8;

    fn deref(&self) -> (code: &u8)
        ensures
            *code == self.0,
    {
        &self.0
    }
}

/// How loudly an error of the upstream API is logged.
#[derive(Debug, Copy, Clone, Eq, PartialEq, Structural)]
pub enum LogLevel {
    /// Not at all: the upstream API reported a success.
    Silent,
    /// As a warning: the request was at fault.
    Warn,
    /// As an error: the service or its credentials are at fault.
    Error,
}

/// The errors that the upstream API documents.
#[derive(Debug, Copy, Clone, Eq, PartialEq, Structural)]
#[non_exhaustive]
pub enum TmdbError {
    Success,
    InvalidService,
    InsufficientPermission,
    InvalidFormat,
    InvalidParameters,
    InvalidId,
    InvalidApiKey,
    DuplicateEntry,
    ServiceOffline,
    SuspendedApiKey,
    InternalError,
    ItemUpdateSuccess,
    ItemDeleteSuccess,
    AuthenticationFailed,
    Failed,
    DeviceDenied,
    SessionDenied,
    ValidationFailed,
    InvalidAcceptHeader,
    InvalidDateRange,
    EntryNotFound,
    InvalidPage,
    InvalidDate,
    TimedOut,
    RateLimited,
    UserAndPassRequired,
    TooManyResponseObjects,
    InvalidTimezone,
    RequiresConfirmation,
    InvalidUserOrPass,
    AccountDisabled,
    EmailNotVerified,
    InvalidRequestToken,
    ResourceNotFound,
    InvalidToken,
    TokenRequireWritePerm,
    InvalidSession,
    RequiresEditPermission,
    Private,
    NothingToUpdate,
    TokenNotApproved,
    ReqMethodNotSupported,
    NoBackendConnection,
    OtherInvalidId,
    UserSuspended,
    Maintenance,
    InvalidInput,
}

/// An error of the upstream API that its documentation does not list.
#[derive(Debug, Copy, Clone, Eq, PartialEq, Structural)]
pub enum UnknownTmdbError {
    /// The HTTP status is none that the API uses for its errors, or the
    /// body held no error code.
    UnknownStatus(u16),
    /// The API does not pair this HTTP status with this error code.
    UnknownError { status_code: u16, tmdb_code: TmdbErrorCode },
}

impl TmdbError {
    /// The code of the error in the body of the reply.
    pub open spec fn spec_code(&self) -> u8 {
        match self {
            TmdbError::Success => 1,
            TmdbError::InvalidService => 2,
            TmdbError::InsufficientPermission => 3,
            TmdbError::InvalidFormat => 4,
            TmdbError::InvalidParameters => 5,
            TmdbError::InvalidId => 6,
            TmdbError::InvalidApiKey => 7,
            TmdbError::DuplicateEntry => 8,
            TmdbError::ServiceOffline => 9,
            TmdbError::SuspendedApiKey => 10,
            TmdbError::InternalError => 11,
            TmdbError::ItemUpdateSuccess => 12,
            TmdbError::ItemDeleteSuccess => 13,
            TmdbError::AuthenticationFailed => 14,
            TmdbError::Failed => 15,
            TmdbError::DeviceDenied => 16,
            TmdbError::SessionDenied => 17,
            TmdbError::ValidationFailed => 18,
            TmdbError::InvalidAcceptHeader => 19,
            TmdbError::InvalidDateRange => 20,
            TmdbError::EntryNotFound => 21,
            TmdbError::InvalidPage => 22,
            TmdbError::InvalidDate => 23,
            TmdbError::TimedOut => 24,
            TmdbError::RateLimited => 25,
            TmdbError::UserAndPassRequired => 26,
            TmdbError::TooManyResponseObjects => 27,
            TmdbError::InvalidTimezone => 28,
            TmdbError::RequiresConfirmation => 29,
            TmdbError::InvalidUserOrPass => 30,
            TmdbError::AccountDisabled => 31,
            TmdbError::EmailNotVerified => 32,
            TmdbError::InvalidRequestToken => 33,
            TmdbError::ResourceNotFound => 34,
            TmdbError::InvalidToken => 35,
            TmdbError::TokenRequireWritePerm => 36,
            TmdbError::InvalidSession => 37,
            TmdbError::RequiresEditPermission => 38,
            TmdbError::Private => 39,
            TmdbError::NothingToUpdate => 40,
            TmdbError::TokenNotApproved => 41,
            TmdbError::ReqMethodNotSupported => 42,
            TmdbError::NoBackendConnection => 43,
            TmdbError::OtherInvalidId => 44,
            TmdbError::UserSuspended => 45,
            TmdbError::Maintenance => 46,
            TmdbError::InvalidInput => 47,
        }
    }

    /// The HTTP status that the upstream API replies with.
    pub open spec fn spec_status_code(&self) -> u16 {
        match self {
            TmdbError::Success => 200,
            TmdbError::InvalidService => 501,
            TmdbError::InsufficientPermission => 401,
            TmdbError::InvalidFormat => 405,
            TmdbError::InvalidParameters => 422,
            TmdbError::InvalidId => 404,
            TmdbError::InvalidApiKey => 401,
            TmdbError::DuplicateEntry => 403,
            TmdbError::ServiceOffline => 503,
            TmdbError::SuspendedApiKey => 401,
            TmdbError::InternalError => 500,
            TmdbError::ItemUpdateSuccess => 201,
            TmdbError::ItemDeleteSuccess => 200,
            TmdbError::AuthenticationFailed => 401,
            TmdbError::Failed => 500,
            TmdbError::DeviceDenied => 401,
            TmdbError::SessionDenied => 401,
            TmdbError::ValidationFailed => 400,
            TmdbError::InvalidAcceptHeader => 406,
            TmdbError::InvalidDateRange => 422,
            TmdbError::EntryNotFound => 200,
            TmdbError::InvalidPage => 400,
            TmdbError::InvalidDate => 400,
            TmdbError::TimedOut => 504,
            TmdbError::RateLimited => 429,
            TmdbError::UserAndPassRequired => 400,
            TmdbError::TooManyResponseObjects => 400,
            TmdbError::InvalidTimezone => 400,
            TmdbError::RequiresConfirmation => 400,
            TmdbError::InvalidUserOrPass => 401,
            TmdbError::AccountDisabled => 401,
            TmdbError::EmailNotVerified => 401,
            TmdbError::InvalidRequestToken => 401,
            TmdbError::ResourceNotFound => 404,
            TmdbError::InvalidToken => 401,
            TmdbError::TokenRequireWritePerm => 401,
            TmdbError::InvalidSession => 404,
            TmdbError::RequiresEditPermission => 401,
            TmdbError::Private => 401,
            TmdbError::NothingToUpdate => 200,
            TmdbError::TokenNotApproved => 422,
            TmdbError::ReqMethodNotSupported => 405,
            TmdbError::NoBackendConnection => 502,
            TmdbError::OtherInvalidId => 500,
            TmdbError::UserSuspended => 403,
            TmdbError::Maintenance => 503,
            TmdbError::InvalidInput => 400,
        }
    }

    /// The message that the upstream API documents for the error.
    pub open spec fn spec_message(&self) -> Seq<char> {
        match self {
            TmdbError::Success => "Success."@,
            TmdbError::InvalidService => "Invalid service: this service does not exist."@,
            TmdbError::InsufficientPermission => "Authentication failed: You do not have permissions to access the service."@,
            TmdbError::InvalidFormat => "Invalid format: This service doesn't exist in that format."@,
            TmdbError::InvalidParameters => "Invalid parameters: Your request parameters are incorrect."@,
            TmdbError::InvalidId => "Invalid id: The pre-requisite id is invalid or not found."@,
            TmdbError::InvalidApiKey => "Invalid API key: You must be granted a valid key."@,
            TmdbError::DuplicateEntry => "Duplicate entry: The data you tried to submit already exists."@,
            TmdbError::ServiceOffline => "Service offline: This service is temporarily offline, try again later."@,
            TmdbError::SuspendedApiKey => "Suspended API key: Access to your account has been suspended, contact TMDB."@,
            TmdbError::InternalError => "Internal error: Something went wrong, contact TMDB."@,
            TmdbError::ItemUpdateSuccess => "The item/record was updated successfully."@,
            TmdbError::ItemDeleteSuccess => "The item/record was deleted successfully."@,
            TmdbError::AuthenticationFailed => "Authentication failed."@,
            TmdbError::Failed => "Failed."@,
            TmdbError::DeviceDenied => "Device denied."@,
            TmdbError::SessionDenied => "Session denied."@,
            TmdbError::ValidationFailed => "Validation failed."@,
            TmdbError::InvalidAcceptHeader => "Invalid accept header."@,
            TmdbError::InvalidDateRange => "Invalid date range: Should be a range no longer than 14 days."@,
            TmdbError::EntryNotFound => "Entry not found: The item you are trying to edit cannot be found."@,
            TmdbError::InvalidPage => "Invalid page: Pages start at 1 and max at 500. They are expected to be an integer."@,
            TmdbError::InvalidDate => "Invalid date: Format needs to be YYYY-MM-DD."@,
            TmdbError::TimedOut => "Your request to the backend server timed out. Try again."@,
            TmdbError::RateLimited => "Your request count (#) is over the allowed limit of (40)."@,
            TmdbError::UserAndPassRequired => "You must provide a username and password."@,
            TmdbError::TooManyResponseObjects => "Too many append to response objects: The maximum number of remote calls is 20."@,
            TmdbError::InvalidTimezone => "Invalid timezone: Please consult the documentation for a valid timezone."@,
            TmdbError::RequiresConfirmation => "You must confirm this action: Please provide a confirm=true parameter."@,
            TmdbError::InvalidUserOrPass => "Invalid username and/or password: You did not provide a valid login."@,
            TmdbError::AccountDisabled => "Account disabled: Your account is no longer active. Contact TMDB if this is an error."@,
            TmdbError::EmailNotVerified => "Email not verified: Your email address has not been verified."@,
            TmdbError::InvalidRequestToken => "Invalid request token: The request token is either expired or invalid."@,
            TmdbError::ResourceNotFound => "The resource you requested could not be found."@,
            TmdbError::InvalidToken => "Invalid token."@,
            TmdbError::TokenRequireWritePerm => "This token hasn't been granted write permission by the user."@,
            TmdbError::InvalidSession => "The requested session could not be found."@,
            TmdbError::RequiresEditPermission => "You don't have permission to edit this resource."@,
            TmdbError::Private => "This resource is private."@,
            TmdbError::NothingToUpdate => "Nothing to update."@,
            TmdbError::TokenNotApproved => "This request token hasn't been approved by the user."@,
            TmdbError::ReqMethodNotSupported => "This request method is not supported for this resource."@,
            TmdbError::NoBackendConnection => "Couldn't connect to the backend server."@,
            TmdbError::OtherInvalidId => "The ID is invalid."@,
            TmdbError::UserSuspended => "This user has been suspended."@,
            TmdbError::Maintenance => "The API is undergoing maintenance. Try again later."@,
            TmdbError::InvalidInput => "The input is not valid."@,
        }
    }

    /// How loudly the error is logged.
    pub open spec fn spec_log_level(&self) -> LogLevel {
        match self {
            TmdbError::Success => LogLevel::Silent,
            TmdbError::InvalidService => LogLevel::Error,
            TmdbError::InsufficientPermission => LogLevel::Error,
            TmdbError::InvalidFormat => LogLevel::Error,
            TmdbError::InvalidParameters => LogLevel::Warn,
            TmdbError::InvalidId => LogLevel::Warn,
            TmdbError::InvalidApiKey => LogLevel::Error,
            TmdbError::DuplicateEntry => LogLevel::Warn,
            TmdbError::ServiceOffline => LogLevel::Error,
            TmdbError::SuspendedApiKey => LogLevel::Error,
            TmdbError::InternalError => LogLevel::Error,
            TmdbError::ItemUpdateSuccess => LogLevel::Silent,
            TmdbError::ItemDeleteSuccess => LogLevel::Silent,
            TmdbError::AuthenticationFailed => LogLevel::Error,
            TmdbError::Failed => LogLevel::Warn,
            TmdbError::DeviceDenied => LogLevel::Error,
            TmdbError::SessionDenied => LogLevel::Error,
            TmdbError::ValidationFailed => LogLevel::Warn,
            TmdbError::InvalidAcceptHeader => LogLevel::Error,
            TmdbError::InvalidDateRange => LogLevel::Warn,
            TmdbError::EntryNotFound => LogLevel::Warn,
            TmdbError::InvalidPage => LogLevel::Warn,
            TmdbError::InvalidDate => LogLevel::Warn,
            TmdbError::TimedOut => LogLevel::Warn,
            TmdbError::RateLimited => LogLevel::Warn,
            TmdbError::UserAndPassRequired => LogLevel::Error,
            TmdbError::TooManyResponseObjects => LogLevel::Warn,
            TmdbError::InvalidTimezone => LogLevel::Warn,
            TmdbError::RequiresConfirmation => LogLevel::Warn,
            TmdbError::InvalidUserOrPass => LogLevel::Error,
            TmdbError::AccountDisabled => LogLevel::Error,
            TmdbError::EmailNotVerified => LogLevel::Error,
            TmdbError::InvalidRequestToken => LogLevel::Error,
            TmdbError::ResourceNotFound => LogLevel::Warn,
            TmdbError::InvalidToken => LogLevel::Error,
            TmdbError::TokenRequireWritePerm => LogLevel::Error,
            TmdbError::InvalidSession => LogLevel::Error,
            TmdbError::RequiresEditPermission => LogLevel::Error,
            TmdbError::Private => LogLevel::Error,
            TmdbError::NothingToUpdate => LogLevel::Warn,
            TmdbError::TokenNotApproved => LogLevel::Error,
            TmdbError::ReqMethodNotSupported => LogLevel::Error,
            TmdbError::NoBackendConnection => LogLevel::Error,
            TmdbError::OtherInvalidId => LogLevel::Warn,
            TmdbError::UserSuspended => LogLevel::Error,
            TmdbError::Maintenance => LogLevel::Error,
            TmdbError::InvalidInput => LogLevel::Warn,
        }
    }

    /// The error with the code `code`, if the upstream API documents one.
    pub open spec fn with_code(code: u8) -> Option<TmdbError> {
        if code == 1 {
            Some(TmdbError::Success)
        } else if code == 2 {
            Some(TmdbError::InvalidService)
        } else if code == 3 {
            Some(TmdbError::InsufficientPermission)
        } else if code == 4 {
            Some(TmdbError::InvalidFormat)
        } else if code == 5 {
            Some(TmdbError::InvalidParameters)
        } else if code == 6 {
            Some(TmdbError::InvalidId)
        } else if code == 7 {
            Some(TmdbError::InvalidApiKey)
        } else if code == 8 {
            Some(TmdbError::DuplicateEntry)
        } else if code == 9 {
            Some(TmdbError::ServiceOffline)
        } else if code == 10 {
            Some(TmdbError::SuspendedApiKey)
        } else if code == 11 {
            Some(TmdbError::InternalError)
        } else if code == 12 {
            Some(TmdbError::ItemUpdateSuccess)
        } else if code == 13 {
            Some(TmdbError::ItemDeleteSuccess)
        } else if code == 14 {
            Some(TmdbError::AuthenticationFailed)
        } else if code == 15 {
            Some(TmdbError::Failed)
        } else if code == 16 {
            Some(TmdbError::DeviceDenied)
        } else if code == 17 {
            Some(TmdbError::SessionDenied)
        } else if code == 18 {
            Some(TmdbError::ValidationFailed)
        } else if code == 19 {
            Some(TmdbError::InvalidAcceptHeader)
        } else if code == 20 {
            Some(TmdbError::InvalidDateRange)
        } else if code == 21 {
            Some(TmdbError::EntryNotFound)
        } else if code == 22 {
            Some(TmdbError::InvalidPage)
        } else if code == 23 {
            Some(TmdbError::InvalidDate)
        } else if code == 24 {
            Some(TmdbError::TimedOut)
        } else if code == 25 {
            Some(TmdbError::RateLimited)
        } else if code == 26 {
            Some(TmdbError::UserAndPassRequired)
        } else if code == 27 {
            Some(TmdbError::TooManyResponseObjects)
        } else if code == 28 {
            Some(TmdbError::InvalidTimezone)
        } else if code == 29 {
            Some(TmdbError::RequiresConfirmation)
        } else if code == 30 {
            Some(TmdbError::InvalidUserOrPass)
        } else if code == 31 {
            Some(TmdbError::AccountDisabled)
        } else if code == 32 {
            Some(TmdbError::EmailNotVerified)
        } else if code == 33 {
            Some(TmdbError::InvalidRequestToken)
        } else if code == 34 {
            Some(TmdbError::ResourceNotFound)
        } else if code == 35 {
            Some(TmdbError::InvalidToken)
        } else if code == 36 {
            Some(TmdbError::TokenRequireWritePerm)
        } else if code == 37 {
            Some(TmdbError::InvalidSession)
        } else if code == 38 {
            Some(TmdbError::RequiresEditPermission)
        } else if code == 39 {
            Some(TmdbError::Private)
        } else if code == 40 {
            Some(TmdbError::NothingToUpdate)
        } else if code == 41 {
            Some(TmdbError::TokenNotApproved)
        } else if code == 42 {
            Some(TmdbError::ReqMethodNotSupported)
        } else if code == 43 {
            Some(TmdbError::NoBackendConnection)
        } else if code == 44 {
            Some(TmdbError::OtherInvalidId)
        } else if code == 45 {
            Some(TmdbError::UserSuspended)
        } else if code == 46 {
            Some(TmdbError::Maintenance)
        } else if code == 47 {
            Some(TmdbError::InvalidInput)
        } else {
            None
        }
    }

    /// Whether the upstream API uses the HTTP status `status_code` for
    /// any of its errors.
    pub open spec fn spec_hint_valid_status_code(status_code: u16) -> bool {
        exists|code: u8| (#[trigger] TmdbError::with_code(code)) matches Some(e)
            && e.spec_status_code() == status_code
    }

    /// The error that a reply with the HTTP status `status_code` and the
    /// error code `tmdb_code` reports, if the upstream API pairs the two.
    pub open spec fn paired(status_code: u16, tmdb_code: TmdbErrorCode) -> Result<
        TmdbError,
        UnknownTmdbError,
    > {
        match TmdbError::with_code(tmdb_code.0) {
            Some(e) => if e.spec_status_code() == status_code {
                Ok(e)
            } else {
                Err(UnknownTmdbError::UnknownError { status_code, tmdb_code })
            },
            None => Err(UnknownTmdbError::UnknownError { status_code, tmdb_code }),
        }
    }

    /// What a reply reports whose HTTP status is `status_code` and whose
    /// body held the error code `tmdb_code`, or none that could be read.
    pub open spec fn reported(status_code: u16, tmdb_code: Option<TmdbErrorCode>) -> Result<
        TmdbError,
        UnknownTmdbError,
    > {
        if !TmdbError::spec_hint_valid_status_code(status_code) {
            Err(UnknownTmdbError::UnknownStatus(status_code))
        } else {
            match tmdb_code {
                Some(code) => TmdbError::paired(status_code, code),
                None => Err(UnknownTmdbError::UnknownStatus(status_code)),
            }
        }
    }

    /// The message that the upstream API documents for the error.
    pub fn message(&self) -> (message: &'static str)
        ensures
            message@ == self.spec_message(),
    {
        match self {
            TmdbError::Success => "Success.",
            TmdbError::InvalidService => "Invalid service: this service does not exist.",
            TmdbError::InsufficientPermission => "Authentication failed: You do not have permissions to access the service.",
            TmdbError::InvalidFormat => "Invalid format: This service doesn't exist in that format.",
            TmdbError::InvalidParameters => "Invalid parameters: Your request parameters are incorrect.",
            TmdbError::InvalidId => "Invalid id: The pre-requisite id is invalid or not found.",
            TmdbError::InvalidApiKey => "Invalid API key: You must be granted a valid key.",
            TmdbError::DuplicateEntry => "Duplicate entry: The data you tried to submit already exists.",
            TmdbError::ServiceOffline => "Service offline: This service is temporarily offline, try again later.",
            TmdbError::SuspendedApiKey => "Suspended API key: Access to your account has been suspended, contact TMDB.",
            TmdbError::InternalError => "Internal error: Something went wrong, contact TMDB.",
            TmdbError::ItemUpdateSuccess => "The item/record was updated successfully.",
            TmdbError::ItemDeleteSuccess => "The item/record was deleted successfully.",
            TmdbError::AuthenticationFailed => "Authentication failed.",
            TmdbError::Failed => "Failed.",
            TmdbError::DeviceDenied => "Device denied.",
            TmdbError::SessionDenied => "Session denied.",
            TmdbError::ValidationFailed => "Validation failed.",
            TmdbError::InvalidAcceptHeader => "Invalid accept header.",
            TmdbError::InvalidDateRange => "Invalid date range: Should be a range no longer than 14 days.",
            TmdbError::EntryNotFound => "Entry not found: The item you are trying to edit cannot be found.",
            TmdbError::InvalidPage => "Invalid page: Pages start at 1 and max at 500. They are expected to be an integer.",
            TmdbError::InvalidDate => "Invalid date: Format needs to be YYYY-MM-DD.",
            TmdbError::TimedOut => "Your request to the backend server timed out. Try again.",
            TmdbError::RateLimited => "Your request count (#) is over the allowed limit of (40).",
            TmdbError::UserAndPassRequired => "You must provide a username and password.",
            TmdbError::TooManyResponseObjects => "Too many append to response objects: The maximum number of remote calls is 20.",
            TmdbError::InvalidTimezone => "Invalid timezone: Please consult the documentation for a valid timezone.",
            TmdbError::RequiresConfirmation => "You must confirm this action: Please provide a confirm=true parameter.",
            TmdbError::InvalidUserOrPass => "Invalid username and/or password: You did not provide a valid login.",
            TmdbError::AccountDisabled => "Account disabled: Your account is no longer active. Contact TMDB if this is an error.",
            TmdbError::EmailNotVerified => "Email not verified: Your email address has not been verified.",
            TmdbError::InvalidRequestToken => "Invalid request token: The request token is either expired or invalid.",
            TmdbError::ResourceNotFound => "The resource you requested could not be found.",
            TmdbError::InvalidToken => "Invalid token.",
            TmdbError::TokenRequireWritePerm => "This token hasn't been granted write permission by the user.",
            TmdbError::InvalidSession => "The requested session could not be found.",
            TmdbError::RequiresEditPermission => "You don't have permission to edit this resource.",
            TmdbError::Private => "This resource is private.",
            TmdbError::NothingToUpdate => "Nothing to update.",
            TmdbError::TokenNotApproved => "This request token hasn't been approved by the user.",
            TmdbError::ReqMethodNotSupported => "This request method is not supported for this resource.",
            TmdbError::NoBackendConnection => "Couldn't connect to the backend server.",
            TmdbError::OtherInvalidId => "The ID is invalid.",
            TmdbError::UserSuspended => "This user has been suspended.",
            TmdbError::Maintenance => "The API is undergoing maintenance. Try again later.",
            TmdbError::InvalidInput => "The input is not valid.",
        }
    }

    /// The HTTP status that the upstream API replies with.
    pub fn status_code(&self) -> (status_code: u16)
        ensures
            status_code == self.spec_status_code(),
    {
        match self {
            TmdbError::Success => 200,
            TmdbError::InvalidService => 501,
            TmdbError::InsufficientPermission => 401,
            TmdbError::InvalidFormat => 405,
            TmdbError::InvalidParameters => 422,
            TmdbError::InvalidId => 404,
            TmdbError::InvalidApiKey => 401,
            TmdbError::DuplicateEntry => 403,
            TmdbError::ServiceOffline => 503,
            TmdbError::SuspendedApiKey => 401,
            TmdbError::InternalError => 500,
            TmdbError::ItemUpdateSuccess => 201,
            TmdbError::ItemDeleteSuccess => 200,
            TmdbError::AuthenticationFailed => 401,
            TmdbError::Failed => 500,
            TmdbError::DeviceDenied => 401,
            TmdbError::SessionDenied => 401,
            TmdbError::ValidationFailed => 400,
            TmdbError::InvalidAcceptHeader => 406,
            TmdbError::InvalidDateRange => 422,
            TmdbError::EntryNotFound => 200,
            TmdbError::InvalidPage => 400,
            TmdbError::InvalidDate => 400,
            TmdbError::TimedOut => 504,
            TmdbError::RateLimited => 429,
            TmdbError::UserAndPassRequired => 400,
            TmdbError::TooManyResponseObjects => 400,
            TmdbError::InvalidTimezone => 400,
            TmdbError::RequiresConfirmation => 400,
            TmdbError::InvalidUserOrPass => 401,
            TmdbError::AccountDisabled => 401,
            TmdbError::EmailNotVerified => 401,
            TmdbError::InvalidRequestToken => 401,
            TmdbError::ResourceNotFound => 404,
            TmdbError::InvalidToken => 401,
            TmdbError::TokenRequireWritePerm => 401,
            TmdbError::InvalidSession => 404,
            TmdbError::RequiresEditPermission => 401,
            TmdbError::Private => 401,
            TmdbError::NothingToUpdate => 200,
            TmdbError::TokenNotApproved => 422,
            TmdbError::ReqMethodNotSupported => 405,
            TmdbError::NoBackendConnection => 502,
            TmdbError::OtherInvalidId => 500,
            TmdbError::UserSuspended => 403,
            TmdbError::Maintenance => 503,
            TmdbError::InvalidInput => 400,
        }
    }

    /// The code of the error in the body of the reply.
    pub fn code(&self) -> (code: TmdbErrorCode)
        ensures
            code.0 == self.spec_code(),
            TmdbError::with_code(code.0) == Some(*self),
    {
        match self {
            TmdbError::Success => TmdbErrorCode(1),
            TmdbError::InvalidService => TmdbErrorCode(2),
            TmdbError::InsufficientPermission => TmdbErrorCode(3),
            TmdbError::InvalidFormat => TmdbErrorCode(4),
            TmdbError::InvalidParameters => TmdbErrorCode(5),
            TmdbError::InvalidId => TmdbErrorCode(6),
            TmdbError::InvalidApiKey => TmdbErrorCode(7),
            TmdbError::DuplicateEntry => TmdbErrorCode(8),
            TmdbError::ServiceOffline => TmdbErrorCode(9),
            TmdbError::SuspendedApiKey => TmdbErrorCode(10),
            TmdbError::InternalError => TmdbErrorCode(11),
            TmdbError::ItemUpdateSuccess => TmdbErrorCode(12),
            TmdbError::ItemDeleteSuccess => TmdbErrorCode(13),
            TmdbError::AuthenticationFailed => TmdbErrorCode(14),
            TmdbError::Failed => TmdbErrorCode(15),
            TmdbError::DeviceDenied => TmdbErrorCode(16),
            TmdbError::SessionDenied => TmdbErrorCode(17),
            TmdbError::ValidationFailed => TmdbErrorCode(18),
            TmdbError::InvalidAcceptHeader => TmdbErrorCode(19),
            TmdbError::InvalidDateRange => TmdbErrorCode(20),
            TmdbError::EntryNotFound => TmdbErrorCode(21),
            TmdbError::InvalidPage => TmdbErrorCode(22),
            TmdbError::InvalidDate => TmdbErrorCode(23),
            TmdbError::TimedOut => TmdbErrorCode(24),
            TmdbError::RateLimited => TmdbErrorCode(25),
            TmdbError::UserAndPassRequired => TmdbErrorCode(26),
            TmdbError::TooManyResponseObjects => TmdbErrorCode(27),
            TmdbError::InvalidTimezone => TmdbErrorCode(28),
            TmdbError::RequiresConfirmation => TmdbErrorCode(29),
            TmdbError::InvalidUserOrPass => TmdbErrorCode(30),
            TmdbError::AccountDisabled => TmdbErrorCode(31),
            TmdbError::EmailNotVerified => TmdbErrorCode(32),
            TmdbError::InvalidRequestToken => TmdbErrorCode(33),
            TmdbError::ResourceNotFound => TmdbErrorCode(34),
            TmdbError::InvalidToken => TmdbErrorCode(35),
            TmdbError::TokenRequireWritePerm => TmdbErrorCode(36),
            TmdbError::InvalidSession => TmdbErrorCode(37),
            TmdbError::RequiresEditPermission => TmdbErrorCode(38),
            TmdbError::Private => TmdbErrorCode(39),
            TmdbError::NothingToUpdate => TmdbErrorCode(40),
            TmdbError::TokenNotApproved => TmdbErrorCode(41),
            TmdbError::ReqMethodNotSupported => TmdbErrorCode(42),
            TmdbError::NoBackendConnection => TmdbErrorCode(43),
            TmdbError::OtherInvalidId => TmdbErrorCode(44),
            TmdbError::UserSuspended => TmdbErrorCode(45),
            TmdbError::Maintenance => TmdbErrorCode(46),
            TmdbError::InvalidInput => TmdbErrorCode(47),
        }
    }

    /// How loudly the error is logged.
    pub fn log_level(&self) -> (level: LogLevel)
        ensures
            level == self.spec_log_level(),
    {
        match self {
            TmdbError::Success | TmdbError::ItemUpdateSuccess | TmdbError::ItemDeleteSuccess => LogLevel::Silent,
            TmdbError::InvalidService
            | TmdbError::InsufficientPermission
            | TmdbError::InvalidFormat
            | TmdbError::InvalidApiKey
            | TmdbError::ServiceOffline
            | TmdbError::SuspendedApiKey
            | TmdbError::InternalError
            | TmdbError::AuthenticationFailed
            | TmdbError::DeviceDenied
            | TmdbError::SessionDenied
            | TmdbError::InvalidAcceptHeader
            | TmdbError::UserAndPassRequired
            | TmdbError::InvalidUserOrPass
            | TmdbError::AccountDisabled
            | TmdbError::EmailNotVerified
            | TmdbError::InvalidRequestToken
            | TmdbError::InvalidToken
            | TmdbError::TokenRequireWritePerm
            | TmdbError::InvalidSession
            | TmdbError::RequiresEditPermission
            | TmdbError::Private
            | TmdbError::TokenNotApproved
            | TmdbError::ReqMethodNotSupported
            | TmdbError::NoBackendConnection
            | TmdbError::UserSuspended
            | TmdbError::Maintenance => LogLevel::Error,
            _ => LogLevel::Warn,
        }
    }

    /// The error with the code `code`, if the upstream API documents one.
    pub fn from_code(code: TmdbErrorCode) -> (error: Option<TmdbError>)
        ensures
            error == TmdbError::with_code(code.0),
    {
        match code.0 {
            1 => Some(TmdbError::Success),
            2 => Some(TmdbError::InvalidService),
            3 => Some(TmdbError::InsufficientPermission),
            4 => Some(TmdbError::InvalidFormat),
            5 => Some(TmdbError::InvalidParameters),
            6 => Some(TmdbError::InvalidId),
            7 => Some(TmdbError::InvalidApiKey),
            8 => Some(TmdbError::DuplicateEntry),
            9 => Some(TmdbError::ServiceOffline),
            10 => Some(TmdbError::SuspendedApiKey),
            11 => Some(TmdbError::InternalError),
            12 => Some(TmdbError::ItemUpdateSuccess),
            13 => Some(TmdbError::ItemDeleteSuccess),
            14 => Some(TmdbError::AuthenticationFailed),
            15 => Some(TmdbError::Failed),
            16 => Some(TmdbError::DeviceDenied),
            17 => Some(TmdbError::SessionDenied),
            18 => Some(TmdbError::ValidationFailed),
            19 => Some(TmdbError::InvalidAcceptHeader),
            20 => Some(TmdbError::InvalidDateRange),
            21 => Some(TmdbError::EntryNotFound),
            22 => Some(TmdbError::InvalidPage),
            23 => Some(TmdbError::InvalidDate),
            24 => Some(TmdbError::TimedOut),
            25 => Some(TmdbError::RateLimited),
            26 => Some(TmdbError::UserAndPassRequired),
            27 => Some(TmdbError::TooManyResponseObjects),
            28 => Some(TmdbError::InvalidTimezone),
            29 => Some(TmdbError::RequiresConfirmation),
            30 => Some(TmdbError::InvalidUserOrPass),
            31 => Some(TmdbError::AccountDisabled),
            32 => Some(TmdbError::EmailNotVerified),
            33 => Some(TmdbError::InvalidRequestToken),
            34 => Some(TmdbError::ResourceNotFound),
            35 => Some(TmdbError::InvalidToken),
            36 => Some(TmdbError::TokenRequireWritePerm),
            37 => Some(TmdbError::InvalidSession),
            38 => Some(TmdbError::RequiresEditPermission),
            39 => Some(TmdbError::Private),
            40 => Some(TmdbError::NothingToUpdate),
            41 => Some(TmdbError::TokenNotApproved),
            42 => Some(TmdbError::ReqMethodNotSupported),
            43 => Some(TmdbError::NoBackendConnection),
            44 => Some(TmdbError::OtherInvalidId),
            45 => Some(TmdbError::UserSuspended),
            46 => Some(TmdbError::Maintenance),
            47 => Some(TmdbError::InvalidInput),
            _ => None,
        }
    }

    /// Whether the upstream API uses the HTTP status `status_code` for
    /// any of its errors.
    pub fn hint_valid_status_code(status_code: u16) -> (valid: bool)
        ensures
            valid == TmdbError::spec_hint_valid_status_code(status_code),
    {
        let valid = match status_code {
            200 | 201 | 400 | 401 | 403 | 404 | 405 | 406 | 422 | 429 | 500 | 501 | 502 | 503 | 504 => true,
            _ => false,
        };
        proof {
            if valid {
                if status_code == 200 {
                    assert(TmdbError::with_code(1) is Some);
                } else if status_code == 201 {
                    assert(TmdbError::with_code(12) is Some);
                } else if status_code == 400 {
                    assert(TmdbError::with_code(18) is Some);
                } else if status_code == 401 {
                    assert(TmdbError::with_code(3) is Some);
                } else if status_code == 403 {
                    assert(TmdbError::with_code(8) is Some);
                } else if status_code == 404 {
                    assert(TmdbError::with_code(6) is Some);
                } else if status_code == 405 {
                    assert(TmdbError::with_code(4) is Some);
                } else if status_code == 406 {
                    assert(TmdbError::with_code(19) is Some);
                } else if status_code == 422 {
                    assert(TmdbError::with_code(5) is Some);
                } else if status_code == 429 {
                    assert(TmdbError::with_code(25) is Some);
                } else if status_code == 500 {
                    assert(TmdbError::with_code(11) is Some);
                } else if status_code == 501 {
                    assert(TmdbError::with_code(2) is Some);
                } else if status_code == 502 {
                    assert(TmdbError::with_code(43) is Some);
                } else if status_code == 503 {
                    assert(TmdbError::with_code(9) is Some);
                } else if status_code == 504 {
                    assert(TmdbError::with_code(24) is Some);
                }
            } else {
                assert forall|code: u8| !((#[trigger] TmdbError::with_code(code)) matches Some(e)
                    && e.spec_status_code() == status_code) by {}
            }
        }
        valid
    }

    /// The error that a reply with the HTTP status `status_code` and the
    /// error code `tmdb_code` reports; an unknown error if the upstream
    /// API does not pair the two.
    pub fn try_from(value: (u16, TmdbErrorCode)) -> (error: Result<TmdbError, UnknownTmdbError>)
        ensures
            error == TmdbError::paired(value.0, value.1),
    {
        let (status_code, tmdb_code) = value;
        match TmdbError::from_code(tmdb_code) {
            Some(error) => {
                if error.status_code() == status_code {
                    Ok(error)
                } else {
                    Err(UnknownTmdbError::new(status_code, Some(tmdb_code)))
                }
            },
            None => Err(UnknownTmdbError::new(status_code, Some(tmdb_code))),
        }
    }

    /// What a reply reports whose HTTP status is `status_code` and whose
    /// body held the error code `tmdb_code`, or none that could be read.
    pub fn try_from_response(status_code: u16, tmdb_code: Option<TmdbErrorCode>) -> (error: Result<
        TmdbError,
        UnknownTmdbError,
    >)
        ensures
            error == TmdbError::reported(status_code, tmdb_code),
    {
        if !TmdbError::hint_valid_status_code(status_code) {
            return Err(UnknownTmdbError::UnknownStatus(status_code));
        }
        match tmdb_code {
            Some(code) => TmdbError::try_from((status_code, code)),
            None => Err(UnknownTmdbError::UnknownStatus(status_code)),
        }
    }

    /// The message of the error.
    pub fn to_string(&self) -> (message: String)
        ensures
            message@ == self.spec_message(),
    {
        self.message().to_owned()
    }

    /// The body of the reply that passes the error on to the client.
    pub open spec fn spec_reply_body(&self) -> Seq<char> {
        "error received from tmdb: "@ + self.spec_message()
    }

    /// The body of the reply that passes the error on to the client.
    pub fn reply_body(&self) -> (body: String)
        ensures
            body@ == self.spec_reply_body(),
    {
        let mut body = "error received from tmdb: ".to_owned();
        body.append(self.message());
        body
    }
}

impl UnknownTmdbError {
    /// The unknown error of a reply: with the error code if one was read.
    pub fn new(status_code: u16, tmdb_code: Option<TmdbErrorCode>) -> (error: UnknownTmdbError)
        ensures
            error == match tmdb_code {
                None => UnknownTmdbError::UnknownStatus(status_code),
                Some(code) => UnknownTmdbError::UnknownError { status_code, tmdb_code: code },
            },
    {
        match tmdb_code {
            None => UnknownTmdbError::UnknownStatus(status_code),
            Some(tmdb_code) => UnknownTmdbError::UnknownError { status_code, tmdb_code },
        }
    }

    /// The message of the error.
    pub open spec fn spec_text(&self) -> Seq<char> {
        match self {
            UnknownTmdbError::UnknownStatus(status) => "unknown status code: "@ + status_text(
                *status,
            ),
            UnknownTmdbError::UnknownError { status_code, tmdb_code } =>
                "unknown tmdb error {status_code: "@ + status_text(*status_code)
                    + ", tmdb_code: "@ + decimal(tmdb_code.0 as nat) + "}"@,
        }
    }

    /// The message of the error.
    pub fn to_string(&self) -> (message: String)
        ensures
            message@ == self.spec_text(),
    {
        match self {
            UnknownTmdbError::UnknownStatus(status) => {
                let mut message = "unknown status code: ".to_owned();
                push_status(&mut message, *status);
                message
            },
            UnknownTmdbError::UnknownError { status_code, tmdb_code } => {
                let mut message = "unknown tmdb error {status_code: ".to_owned();
                push_status(&mut message, *status_code);
                message.append(", tmdb_code: ");
                push_decimal(&mut message, tmdb_code.0 as u64);
                message.append("}");
                message
            },
        }
    }
}

} // verus!
