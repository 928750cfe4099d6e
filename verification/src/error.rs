//! The application error: a code, a message and a transport status.

use crate::catalog::{
    get_error_message, kind_of, lookup, resolve, text_of, CatalogKind, Catalogs, CatalogsView,
};
use crate::decimal::{code_to_string, decimal};
use vstd::prelude::*;

verus! {

/// Transport status of an error that was constructed without one.
pub const DEFAULT_HTTP_CODE: u16 = 400;

/// Code of an internal failure.
pub const INTERNAL_ERROR_CODE: u16 = 1000;

/// Code of a malformed or unacceptable request.
pub const BAD_REQUEST_CODE: u16 = 1001;

/// Code of a missing resource.
pub const NOT_FOUND_CODE: u16 = 1002;

/// Code of missing or invalid credentials.
pub const UNAUTHORIZED_CODE: u16 = 1003;

/// Code of input that fails validation.
pub const VALIDATION_ERROR_CODE: u16 = 1004;

/// Code of a failure of the database.
pub const DATABASE_ERROR_CODE: u16 = 1005;

/// An error as callers see it: a stable code, a message for people, and the
/// status that the transport reports beside the body.
#[derive(Debug, Clone)]
pub struct AppError {
    code: u16,
    message: String,
    http_code: Option<u16>,
}

/// The result of an operation that fails with an `AppError`.
pub type AppResult<T> = Result<T, AppError>;

/// What an `AppError` holds.
pub struct AppErrorView {
    /// The error code.
    pub code: u16,
    /// The message.
    pub message: Seq<char>,
    /// The transport status, with the default in place of an absent one.
    pub transport_status: u16,
}

/// The body of a transport response that reports an error: the code and the
/// message, and nothing else.
#[derive(Debug, Clone)]
pub struct ErrorResponse {
    /// The error code.
    pub code: u16,
    /// The message.
    pub message: String,
}

/// The message of a code that has neither an explicit message nor a catalog
/// entry: `"Error code: "` followed by the decimal numeral of the code.
pub open spec fn default_message(code: u16) -> Seq<char> {
    "Error code: "@ + decimal(code as nat)
}

/// The transport status that an optional status stands for.
pub open spec fn status_or_default(http_code: Option<u16>) -> u16 {
    match http_code {
        Some(status) => status,
        None => DEFAULT_HTTP_CODE,
    }
}

/// The error that construction gives: an explicit message is kept as it is;
/// without one the message is resolved from the catalogs, with the default
/// message as fallback.
pub open spec fn construct(
    catalogs: CatalogsView,
    code: u16,
    message: Option<Seq<char>>,
    http_code: Option<u16>,
) -> AppErrorView {
    AppErrorView {
        code,
        message: match message {
            Some(explicit) => explicit,
            None => resolve(catalogs, code, default_message(code)),
        },
        transport_status: status_or_default(http_code),
    }
}

/// The catalog that construction reads: none where the message is explicit,
/// else the one that the code's range selects.
pub open spec fn catalog_needed(code: u16, explicit: bool) -> Option<CatalogKind> {
    if explicit {
        None
    } else {
        Some(kind_of(code))
    }
}

/// The statuses that are reported as they are; any other status is reported
/// as 400.
pub open spec fn is_reported_status(status: u16) -> bool {
    status == 400 || status == 401 || status == 403 || status == 404 || status == 422 || status
        == 429 || status == 500 || status == 502 || status == 503
}

/// The status that the transport reports for a stored status.
pub open spec fn reported_status(status: u16) -> u16 {
    if is_reported_status(status) {
        status
    } else {
        400
    }
}

impl View for AppError {
    type V = AppErrorView;

    closed spec fn view(&self) -> AppErrorView {
        AppErrorView {
            code: self.code,
            message: self.message@,
            transport_status: status_or_default(self.http_code),
        }
    }
}

/// The default message of `code`.
pub fn default_message_for(code: u16) -> (message: String)
    ensures
        message@ == default_message(code),
{
    let mut message = String::from_str("Error code: ");
    let numeral = code_to_string(code);
    message.append(numeral.as_str());
    message
}

impl AppError {
    /// An error from its three parts, no catalog consulted.
    pub(crate) fn from_parts(
        code: u16,
        message: String,
        http_code: Option<u16>,
    ) -> (error: AppError)
        ensures
            error@.code == code,
            error@.message == message@,
            error@.transport_status == status_or_default(http_code),
    {
        AppError { code, message, http_code }
    }

    /// The catalog that `new` would read for these arguments, if any. A host
    /// that loads its catalogs on demand needs to have loaded no other.
    pub fn required_catalog(code: u16, message: &Option<String>) -> (kind: Option<CatalogKind>)
        ensures
            kind == catalog_needed(code, message is Some),
    {
        match message {
            Some(_) => None,
            None => Some(CatalogKind::of(code)),
        }
    }

    /// Constructs an error. An explicit message is kept as it is and no
    /// catalog is consulted; without one the message is the catalog entry of
    /// the code or, where there is none, its default message. An absent
    /// transport status stands for 400.
    pub fn new(
        catalogs: &Catalogs,
        code: u16,
        message: Option<String>,
        http_code: Option<u16>,
    ) -> (error: AppError)
        ensures
            error@ == construct(catalogs@, code, text_of(message), http_code),
    {
        let message = match message {
            Some(explicit) => explicit,
            None => {
                let fallback = default_message_for(code);
                get_error_message(catalogs, code, fallback.as_str())
            },
        };
        AppError { code, message, http_code }
    }

    /// An error with the message that the catalogs give for `code` and the
    /// default transport status.
    pub fn with_code(catalogs: &Catalogs, code: u16) -> (error: AppError)
        ensures
            error@ == construct(catalogs@, code, None, None),
    {
        AppError::new(catalogs, code, None, None)
    }

    /// An error with the given message and the default transport status.
    pub fn with_message(code: u16, message: String) -> (error: AppError)
        ensures
            error@.code == code,
            error@.message == message@,
            error@.transport_status == DEFAULT_HTTP_CODE,
    {
        AppError { code, message, http_code: None }
    }

    /// An error with the given transport status.
    pub fn with_http_code(
        catalogs: &Catalogs,
        code: u16,
        message: Option<String>,
        http_code: u16,
    ) -> (error: AppError)
        ensures
            error@ == construct(catalogs@, code, text_of(message), Some(http_code)),
    {
        AppError::new(catalogs, code, message, Some(http_code))
    }

    /// The message.
    pub fn get_message(&self) -> (message: &str)
        ensures
            message@ == self@.message,
    {
        self.message.as_str()
    }

    /// The error code.
    pub fn get_error_code(&self) -> (code: u16)
        ensures
            code == self@.code,
    {
        self.code
    }

    /// The transport status: 400 where none was given.
    pub fn get_http_code(&self) -> (status: u16)
        ensures
            status == self@.transport_status,
    {
        match self.http_code {
            Some(status) => status,
            None => DEFAULT_HTTP_CODE,
        }
    }

    /// Internal failure: code 1000, status 500.
    pub fn internal_error(catalogs: &Catalogs, message: Option<String>) -> (error: AppError)
        ensures
            error@ == construct(catalogs@, 1000, text_of(message), Some(500u16)),
    {
        AppError::with_http_code(catalogs, INTERNAL_ERROR_CODE, message, 500)
    }

    /// Malformed or unacceptable request: code 1001, status 400.
    pub fn bad_request(catalogs: &Catalogs, message: Option<String>) -> (error: AppError)
        ensures
            error@ == construct(catalogs@, 1001, text_of(message), Some(400u16)),
    {
        AppError::with_http_code(catalogs, BAD_REQUEST_CODE, message, 400)
    }

    /// Missing resource: code 1002, status 404.
    pub fn not_found(catalogs: &Catalogs, message: Option<String>) -> (error: AppError)
        ensures
            error@ == construct(catalogs@, 1002, text_of(message), Some(404u16)),
    {
        AppError::with_http_code(catalogs, NOT_FOUND_CODE, message, 404)
    }

    /// Missing or invalid credentials: code 1003, status 401.
    pub fn unauthorized(catalogs: &Catalogs, message: Option<String>) -> (error: AppError)
        ensures
            error@ == construct(catalogs@, 1003, text_of(message), Some(401u16)),
    {
        AppError::with_http_code(catalogs, UNAUTHORIZED_CODE, message, 401)
    }

    /// Input that fails validation: code 1004, status 422.
    pub fn validation_error(catalogs: &Catalogs, message: Option<String>) -> (error: AppError)
        ensures
            error@ == construct(catalogs@, 1004, text_of(message), Some(422u16)),
    {
        AppError::with_http_code(catalogs, VALIDATION_ERROR_CODE, message, 422)
    }

    /// Failure of the database: code 1005, status 500.
    pub fn database_error(catalogs: &Catalogs, message: Option<String>) -> (error: AppError)
        ensures
            error@ == construct(catalogs@, 1005, text_of(message), Some(500u16)),
    {
        AppError::with_http_code(catalogs, DATABASE_ERROR_CODE, message, 500)
    }

    /// The text that stands for the error in a log: its message.
    pub fn to_string(&self) -> (text: String)
        ensures
            text@ == self@.message,
    {
        self.message.clone()
    }

    /// The status that the transport reports: the stored status where it is
    /// one of 400, 401, 403, 404, 422, 429, 500, 502 and 503, else 400.
    pub fn status_code(&self) -> (status: u16)
        ensures
            status == reported_status(self@.transport_status),
    {
        let stored = self.get_http_code();
        if stored == 400 || stored == 401 || stored == 403 || stored == 404 || stored == 422
            || stored == 429 || stored == 500 || stored == 502 || stored == 503 {
            stored
        } else {
            400
        }
    }

    /// The body of the transport response: the code and the message. The
    /// status is not part of it.
    pub fn error_response(&self) -> (body: ErrorResponse)
        ensures
            body.code == self@.code,
            body.message@ == self@.message,
    {
        ErrorResponse { code: self.code, message: self.message.clone() }
    }
}

/// An explicit message is the message of the error, whatever the catalogs
/// hold.
pub proof fn lemma_explicit_message_is_kept(
    catalogs: CatalogsView,
    other: CatalogsView,
    code: u16,
    message: Seq<char>,
    http_code: Option<u16>,
)
    ensures
        construct(catalogs, code, Some(message), http_code).message == message,
        construct(catalogs, code, Some(message), http_code) == construct(
            other,
            code,
            Some(message),
            http_code,
        ),
{
}

/// Without an explicit message and without a catalog entry for the code, the
/// message is the default message of the code.
pub proof fn lemma_default_message_without_entry(
    catalogs: CatalogsView,
    code: u16,
    http_code: Option<u16>,
)
    requires
        lookup(catalogs.select(kind_of(code)), code) is None,
    ensures
        construct(catalogs, code, None, http_code).message == "Error code: "@ + decimal(
            code as nat,
        ),
{
}

/// Construction reads no catalog but the one that `catalog_needed` names: two
/// pairs of catalogs that agree on it give the same error.
pub proof fn lemma_construct_reads_needed_catalog_only(
    catalogs: CatalogsView,
    other: CatalogsView,
    code: u16,
    message: Option<Seq<char>>,
    http_code: Option<u16>,
)
    requires
        catalog_needed(code, message is Some) matches Some(kind) ==> catalogs.select(kind)
            == other.select(kind),
    ensures
        construct(catalogs, code, message, http_code) == construct(
            other,
            code,
            message,
            http_code,
        ),
{
}

/// The message of a constructed error is not empty, provided that the
/// explicit message, where there is one, and the catalog entry of the code,
/// where there is one, are not empty.
pub proof fn lemma_message_is_not_empty(
    catalogs: CatalogsView,
    code: u16,
    message: Option<Seq<char>>,
    http_code: Option<u16>,
)
    requires
        message matches Some(explicit) ==> explicit.len() > 0,
        lookup(catalogs.select(kind_of(code)), code) matches Some(entry) ==> entry.len() > 0,
    ensures
        construct(catalogs, code, message, http_code).message.len() > 0,
{
    reveal_strlit("Error code: ");
}

} // verus!
