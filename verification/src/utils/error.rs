use vstd::prelude::*;

verus! {

/// Where a caller that is not signed in is sent.
pub const UNAUTH_LOCATION: &'static str = "/unauth";

/// Status of every failure response that is not a redirect.
pub const CLIENT_ERROR_STATUS: u16 = 400;

/// Body of every failure response that is not a redirect. It names
/// neither the kind nor the cause.
pub const FAILURE_BODY: &'static str = "{\"error\": \"The request could not be completed\"}";

/// Cause recorded for a failure raised by kind alone.
pub const DEFAULT_CAUSE: &'static str = "User error occurred";

/// The kinds of failure that the authentication core reports.
#[derive(Debug, Clone, PartialEq, Eq, Hash)]
pub enum AppErrorType {
    /// No session token was presented, or the one presented did not verify.
    Unauthenticated,
    /// The password given at login does not match the stored record.
    InvalidCredentials,
    /// A token is malformed, wrongly signed, of a foreign algorithm, or expired.
    InvalidToken,
    /// No account goes by the identifier given.
    AccountNotFound,
    /// An account already goes by the name or e-mail address given.
    AccountAlreadyExists,
    /// The password hasher failed.
    HashingFailure,
    /// No token could be signed.
    SigningFailure,
    /// The persistence layer failed.
    StorageFailure,
    /// A page could not be rendered.
    RenderFailure,
    /// Anything else, with the text of its cause.
    Unclassified(String),
}

impl AppErrorType {
    /// The kind's name, as written to the server's log. The cause that an
    /// `Unclassified` carries is no part of it.
    pub open spec fn name_spec(self) -> Seq<char> {
        match self {
            AppErrorType::Unauthenticated => "Unauthenticated"@,
            AppErrorType::InvalidCredentials => "InvalidCredentials"@,
            AppErrorType::InvalidToken => "InvalidToken"@,
            AppErrorType::AccountNotFound => "AccountNotFound"@,
            AppErrorType::AccountAlreadyExists => "AccountAlreadyExists"@,
            AppErrorType::HashingFailure => "HashingFailure"@,
            AppErrorType::SigningFailure => "SigningFailure"@,
            AppErrorType::StorageFailure => "StorageFailure"@,
            AppErrorType::RenderFailure => "RenderFailure"@,
            AppErrorType::Unclassified(_) => "Unclassified"@,
        }
    }

    /// The kind's name.
    pub fn name(&self) -> (text: &'static str)
        ensures
            text@ == self.name_spec(),
    {
        match self {
            AppErrorType::Unauthenticated => "Unauthenticated",
            AppErrorType::InvalidCredentials => "InvalidCredentials",
            AppErrorType::InvalidToken => "InvalidToken",
            AppErrorType::AccountNotFound => "AccountNotFound",
            AppErrorType::AccountAlreadyExists => "AccountAlreadyExists",
            AppErrorType::HashingFailure => "HashingFailure",
            AppErrorType::SigningFailure => "SigningFailure",
            AppErrorType::StorageFailure => "StorageFailure",
            AppErrorType::RenderFailure => "RenderFailure",
            AppErrorType::Unclassified(_) => "Unclassified",
        }
    }
}

/// What the web layer answers to a failed request.
#[derive(Debug, Clone, PartialEq, Eq)]
pub enum ErrorResponse {
    /// 303 See Other, to `location`.
    Redirect { location: String },
    /// `status`, with a JSON body.
    Failure { status: u16, body: String },
}

/// An `ErrorResponse` with its texts as sequences.
pub enum ErrorResponseView {
    Redirect { location: Seq<char> },
    Failure { status: u16, body: Seq<char> },
}

impl View for ErrorResponse {
    type V = ErrorResponseView;

    open spec fn view(&self) -> ErrorResponseView {
        match *self {
            ErrorResponse::Redirect { location } => ErrorResponseView::Redirect {
                location: location@,
            },
            ErrorResponse::Failure { status, body } => ErrorResponseView::Failure {
                status,
                body: body@,
            },
        }
    }
}

/// The response policy: `Unauthenticated` sends the caller to sign in
/// again; every other kind is the one client error, so that a response
/// tells neither which check failed nor why.
pub open spec fn response_for(kind: AppErrorType) -> ErrorResponseView {
    if kind is Unauthenticated {
        ErrorResponseView::Redirect { location: UNAUTH_LOCATION@ }
    } else {
        ErrorResponseView::Failure {
            status: CLIENT_ERROR_STATUS,
            body: FAILURE_BODY@,
        }
    }
}

/// A failure: its kind, the text of its cause, and where it was raised, if
/// that was recorded.
#[derive(Debug, Clone)]
pub struct AppError {
    pub error_type: AppErrorType,
    pub inner: String,
    pub context: Option<String>,
}

impl AppError {
    /// What `to_string` writes: the kind's name, the cause, and on a line
    /// of its own the context.
    pub open spec fn text_spec(self) -> Seq<char> {
        let head = self.error_type.name_spec() + ": "@ + self.inner@ + "\n"@;
        match self.context {
            Some(context) => head + context@,
            None => head,
        }
    }

    /// Whether this is the failure that `from` makes of `kind`: the kind,
    /// the default cause, and no context.
    pub open spec fn is_from(self, kind: AppErrorType) -> bool {
        &&& self.error_type == kind
        &&& self.inner@ == DEFAULT_CAUSE@
        &&& self.context is None
    }

    /// A failure of no listed kind, from the text of its cause.
    pub fn unclassified(cause: String) -> (error: AppError)
        ensures
            error.error_type matches AppErrorType::Unclassified(text) && text@ == cause@,
            error.inner@ == cause@,
            error.context is None,
    {
        let text = cause.clone();
        AppError { error_type: AppErrorType::Unclassified(text), inner: cause, context: None }
    }

    /// The same failure, with a note of where it was raised.
    pub fn with_context(self, context: String) -> (error: AppError)
        ensures
            error.error_type == self.error_type,
            error.inner == self.inner,
            error.context == Some(context),
    {
        AppError { error_type: self.error_type, inner: self.inner, context: Some(context) }
    }

    /// The failure as a line for the server's log. It holds the cause, so
    /// it goes into no response.
    pub fn to_string(&self) -> (text: String)
        ensures
            text@ == self.text_spec(),
    {
        let mut text = self.error_type.name().to_owned();
        text.append(": ");
        text.append(self.inner.as_str());
        text.append("\n");
        match &self.context {
            Some(context) => {
                text.append(context.as_str());
            },
            None => {},
        }
        text
    }

    /// The response for this failure. It depends on the kind alone.
    pub fn error_response(&self) -> (response: ErrorResponse)
        ensures
            response@ == response_for(self.error_type),
    {
        match self.error_type {
            AppErrorType::Unauthenticated => ErrorResponse::Redirect {
                location: UNAUTH_LOCATION.to_owned(),
            },
            _ => ErrorResponse::Failure {
                status: CLIENT_ERROR_STATUS,
                body: FAILURE_BODY.to_owned(),
            },
        }
    }
}

impl From<AppErrorType> for AppError {
    /// A failure of the given kind, with the default cause.
    fn from(error_type: AppErrorType) -> (error: AppError)
        ensures
            error.is_from(error_type),
    {
        AppError { error_type, inner: DEFAULT_CAUSE.to_owned(), context: None }
    }
}

impl vstd::std_specs::convert::FromSpecImpl<AppErrorType> for AppError {
    /// The cause is a fresh string, so the result is stated by `from`
    /// itself, over views, and not as one value.
    open spec fn obeys_from_spec() -> bool {
        false
    }

    open spec fn from_spec(error_type: AppErrorType) -> AppError {
        AppError { error_type, inner: arbitrary(), context: None }
    }
}

/// No response shows which check failed or what caused it: any two kinds
/// other than `Unauthenticated` get the same response.
pub proof fn lemma_failures_look_alike(first: AppErrorType, second: AppErrorType)
    requires
        !(first is Unauthenticated),
        !(second is Unauthenticated),
    ensures
        response_for(first) == response_for(second),
{
}

/// Only `Unauthenticated` redirects.
pub proof fn lemma_only_unauthenticated_redirects(kind: AppErrorType)
    ensures
        response_for(kind) is Redirect <==> kind is Unauthenticated,
{
}

} // verus!
