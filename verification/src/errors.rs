use vstd::prelude::*;
use core::fmt::Display;
use vstd::string::to_string_from_display_ensures;

verus! {

/// The kinds of failure that the server reports.
#[derive(Debug, Copy, Clone, PartialEq, Eq, Structural)]
pub enum ErrorKind {
    AlreadyExists,
    Internal,
    NotFound,
}

/// The server's error: a kind and a message.
#[derive(Debug, Clone)]
pub struct Error {
    kind: ErrorKind,
    msg: String,
}

impl View for Error {
    type V = (ErrorKind, Seq<char>);

    open spec fn view(&self) -> (ErrorKind, Seq<char>) {
        (self.spec_kind(), self.spec_msg())
    }
}

impl Error {
    /// The kind of this error.
    pub closed spec fn spec_kind(&self) -> ErrorKind {
        self.kind
    }

    /// The message as the string that holds it.
    pub closed spec fn msg_string(&self) -> String {
        self.msg
    }

    /// The message of this error, as characters.
    pub open spec fn spec_msg(&self) -> Seq<char> {
        self.msg_string()@
    }

    /// An error of the given kind with an empty message.
    #[must_use]
    pub fn new(kind: ErrorKind) -> (e: Error)
        ensures
            e@ == (kind, Seq::<char>::empty()),
    {
        Error { kind, msg: String::new() }
    }

    /// An error of the given kind whose message is `msg` as it displays.
    pub fn with_msg<M: Display + ?Sized>(kind: ErrorKind, msg: &M) -> (e: Error)
        ensures
            e.spec_kind() == kind,
            to_string_from_display_ensures::<M>(msg, e.msg_string()),
    {
        Error { kind, msg: msg.to_string() }
    }

    /// An internal error whose message is `msg` as it displays.
    pub fn internal<M: Display + ?Sized>(msg: &M) -> (e: Error)
        ensures
            e.spec_kind() == ErrorKind::Internal,
            to_string_from_display_ensures::<M>(msg, e.msg_string()),
    {
        Error::with_msg(ErrorKind::Internal, msg)
    }

    /// The kind of this error.
    pub fn kind(&self) -> (k: ErrorKind)
        ensures
            k == self.spec_kind(),
    {
        self.kind
    }

    /// The message of this error.
    pub fn message(&self) -> (m: &str)
        ensures
            m@ == self.spec_msg(),
    {
        self.msg.as_str()
    }
}

/// What the server reads of a failed database request: whether the row was
/// missing, whether a unique constraint refused the write, or else the text
/// of the failure.
#[derive(Debug, Clone)]
pub enum DbFailure {
    NotFound,
    UniqueViolation,
    Other(String),
}

/// How a failed database request is reported.
pub open spec fn db_error_model(f: DbFailure) -> (ErrorKind, Seq<char>) {
    match f {
        DbFailure::NotFound => (ErrorKind::NotFound, Seq::<char>::empty()),
        DbFailure::UniqueViolation => (ErrorKind::AlreadyExists, Seq::<char>::empty()),
        DbFailure::Other(text) => (ErrorKind::Internal, text@),
    }
}

/// The kind of an I/O failure, one for each kind that the standard library's
/// `std::io::ErrorKind` names as stable, and `Uncategorized` for any other.
#[derive(Debug, Copy, Clone, PartialEq, Eq, Structural)]
pub enum IoErrorKind {
    NotFound,
    PermissionDenied,
    ConnectionRefused,
    ConnectionReset,
    HostUnreachable,
    NetworkUnreachable,
    ConnectionAborted,
    NotConnected,
    AddrInUse,
    AddrNotAvailable,
    NetworkDown,
    BrokenPipe,
    AlreadyExists,
    WouldBlock,
    NotADirectory,
    IsADirectory,
    DirectoryNotEmpty,
    ReadOnlyFilesystem,
    StaleNetworkFileHandle,
    InvalidInput,
    InvalidData,
    TimedOut,
    WriteZero,
    StorageFull,
    NotSeekable,
    QuotaExceeded,
    FileTooLarge,
    ResourceBusy,
    ExecutableFileBusy,
    Deadlock,
    CrossesDevices,
    TooManyLinks,
    ArgumentListTooLong,
    Interrupted,
    Unsupported,
    UnexpectedEof,
    OutOfMemory,
    Other,
    Uncategorized,
}

/// The kind of error that an I/O failure of the given kind becomes: a missing
/// entity is `NotFound`, an existing one `AlreadyExists`, and every other
/// failure `Internal`.
pub open spec fn io_error_kind_model(k: IoErrorKind) -> ErrorKind {
    match k {
        IoErrorKind::NotFound => ErrorKind::NotFound,
        IoErrorKind::AlreadyExists => ErrorKind::AlreadyExists,
        _ => ErrorKind::Internal,
    }
}

/// The body of an error answer: the error's kind and, where it is shown, its message.
#[derive(Debug, Clone)]
pub struct HttpErrorResponse {
    pub code: ErrorKind,
    pub message: Option<String>,
}

/// An error answer: the HTTP status code and the body.
#[derive(Debug, Clone)]
pub struct ErrorResponse {
    pub status: u16,
    pub body: HttpErrorResponse,
}

/// The HTTP status code with which an error of the given kind is answered.
pub open spec fn status_for(kind: ErrorKind) -> u16 {
    match kind {
        ErrorKind::NotFound => 404,
        ErrorKind::AlreadyExists => 409,
        ErrorKind::Internal => 500,
    }
}

/// The message shown in place of the message of an internal error.
pub open spec fn hidden_internal_message() -> Seq<char> {
    "An unknown error occurred, please try again later"@
}

/// `resp` is how the error `e` is answered: its status by kind, its kind as
/// the code, and its message, except that an internal error's message is
/// never shown.
pub open spec fn answers_error(e: Error, resp: ErrorResponse) -> bool {
    &&& resp.status == status_for(e.spec_kind())
    &&& resp.body.code == e.spec_kind()
    &&& resp.body.message is Some
    &&& e.spec_kind() == ErrorKind::Internal ==> resp.body.message.unwrap()@ == hidden_internal_message()
    &&& e.spec_kind() != ErrorKind::Internal ==> resp.body.message.unwrap()@ == e.spec_msg()
}

/// `resp` is how a testing build answers the error `e`: as `answers_error`
/// says, except that the message is shown whatever the kind.
pub open spec fn answers_error_shown(e: Error, resp: ErrorResponse) -> bool {
    &&& resp.status == status_for(e.spec_kind())
    &&& resp.body.code == e.spec_kind()
    &&& resp.body.message is Some
    &&& resp.body.message.unwrap()@ == e.spec_msg()
}

impl ErrorKind {
    /// The HTTP status code with which an error of this kind is answered.
    pub fn status(&self) -> (s: u16)
        ensures
            s == status_for(*self),
    {
        match self {
            ErrorKind::NotFound => 404,
            ErrorKind::AlreadyExists => 409,
            ErrorKind::Internal => 500,
        }
    }

    /// The kind of error that an I/O failure of kind `k` becomes.
    pub fn from_io_kind(k: IoErrorKind) -> (kind: ErrorKind)
        ensures
            kind == io_error_kind_model(k),
    {
        match k {
            IoErrorKind::NotFound => ErrorKind::NotFound,
            IoErrorKind::AlreadyExists => ErrorKind::AlreadyExists,
            _ => ErrorKind::Internal,
        }
    }
}

impl Error {
    /// The error that a failed database request becomes.
    pub fn from_db(f: DbFailure) -> (e: Error)
        ensures
            e@ == db_error_model(f),
    {
        match f {
            DbFailure::NotFound => Error::new(ErrorKind::NotFound),
            DbFailure::UniqueViolation => Error::new(ErrorKind::AlreadyExists),
            DbFailure::Other(text) => Error { kind: ErrorKind::Internal, msg: text },
        }
    }

    /// The error that an I/O failure of kind `k`, displayed as `text`, becomes.
    pub fn from_io_parts(k: IoErrorKind, text: String) -> (e: Error)
        ensures
            e@ == (io_error_kind_model(k), text@),
    {
        Error { kind: ErrorKind::from_io_kind(k), msg: text }
    }

    /// The error reported when a blocking task could not be run.
    pub fn blocking() -> (e: Error)
        ensures
            e@ == (ErrorKind::Internal, "Blocking error"@),
    {
        proof {
            reveal_strlit("Blocking error");
        }
        Error::internal("Blocking error")
    }

    /// How this error is answered over HTTP.
    pub fn error_response(&self) -> (resp: ErrorResponse)
        ensures
            answers_error(*self, resp),
    {
        match self.kind {
            ErrorKind::NotFound => ErrorResponse {
                status: 404,
                body: HttpErrorResponse { code: ErrorKind::NotFound, message: Some(self.msg.clone()) },
            },
            ErrorKind::AlreadyExists => ErrorResponse {
                status: 409,
                body: HttpErrorResponse {
                    code: ErrorKind::AlreadyExists,
                    message: Some(self.msg.clone()),
                },
            },
            ErrorKind::Internal => {
                let text = "An unknown error occurred, please try again later";
                proof {
                    reveal_strlit("An unknown error occurred, please try again later");
                }
                ErrorResponse {
                    status: 500,
                    body: HttpErrorResponse {
                        code: ErrorKind::Internal,
                        message: Some(String::from_str(text)),
                    },
                }
            },
        }
    }

    /// How a testing build answers this error over HTTP: as
    /// `error_response` does, but with the message of an internal error shown.
    pub fn error_response_showing_internal(&self) -> (resp: ErrorResponse)
        ensures
            answers_error_shown(*self, resp),
    {
        ErrorResponse {
            status: self.kind.status(),
            body: HttpErrorResponse { code: self.kind, message: Some(self.msg.clone()) },
        }
    }
}

/// An answer to a request: the value, sent with status 200, or an error answer.
#[derive(Debug)]
pub enum Reply<T> {
    Success(T),
    Failure(ErrorResponse),
}

impl<T> Reply<T> {
    /// The HTTP status code of this answer.
    pub fn status(&self) -> (s: u16)
        ensures
            s == match self {
                Reply::Success(_) => 200u16,
                Reply::Failure(resp) => resp.status,
            },
    {
        match self {
            Reply::Success(_) => 200,
            Reply::Failure(resp) => resp.status,
        }
    }
}

/// How the outcome of a request is answered: a value is sent as it is, an
/// error as `Error::error_response` answers it.
pub fn reply<T>(outcome: Result<T, Error>) -> (r: Reply<T>)
    ensures
        match outcome {
            Ok(v) => r == Reply::<T>::Success(v),
            Err(e) => r matches Reply::Failure(resp) && answers_error(e, resp),
        },
{
    match outcome {
        Ok(v) => Reply::Success(v),
        Err(e) => Reply::Failure(e.error_response()),
    }
}

/// How a testing build answers the outcome of a request: a value is sent as
/// it is, an error as `Error::error_response_showing_internal` answers it.
pub fn reply_showing_internal<T>(outcome: Result<T, Error>) -> (r: Reply<T>)
    ensures
        match outcome {
            Ok(v) => r == Reply::<T>::Success(v),
            Err(e) => r matches Reply::Failure(resp) && answers_error_shown(e, resp),
        },
{
    match outcome {
        Ok(v) => Reply::Success(v),
        Err(e) => Reply::Failure(e.error_response_showing_internal()),
    }
}

/// A failed database request becomes: a missing row `NotFound` with an empty
/// message, a unique-key violation `AlreadyExists` with an empty message, and
/// any other failure `Internal` carrying the failure's text.
pub proof fn lemma_db_failures_sorted(f: DbFailure)
    ensures
        f is NotFound ==> db_error_model(f) == (ErrorKind::NotFound, Seq::<char>::empty()),
        f is UniqueViolation ==> db_error_model(f) == (
            ErrorKind::AlreadyExists,
            Seq::<char>::empty(),
        ),
        f matches DbFailure::Other(t) ==> db_error_model(f) == (ErrorKind::Internal, t@),
{
}

/// An I/O failure of kind `NotFound` becomes `NotFound`, one of kind
/// `AlreadyExists` becomes `AlreadyExists`, and one of any other kind becomes
/// `Internal`.
pub proof fn lemma_io_kinds_sorted(k: IoErrorKind)
    ensures
        k == IoErrorKind::NotFound ==> io_error_kind_model(k) == ErrorKind::NotFound,
        k == IoErrorKind::AlreadyExists ==> io_error_kind_model(k) == ErrorKind::AlreadyExists,
        k != IoErrorKind::NotFound && k != IoErrorKind::AlreadyExists ==> io_error_kind_model(k)
            == ErrorKind::Internal,
{
}

/// An error is answered with its own kind as the code and the status 404 for
/// `NotFound`, 409 for `AlreadyExists` and 500 for `Internal`. The message is
/// shown, except that an internal error always shows "An unknown error
/// occurred, please try again later" in its place.
pub proof fn lemma_error_answer(e: Error, resp: ErrorResponse)
    requires
        answers_error(e, resp),
    ensures
        resp.body.code == e.spec_kind(),
        e.spec_kind() == ErrorKind::NotFound ==> resp.status == 404,
        e.spec_kind() == ErrorKind::AlreadyExists ==> resp.status == 409,
        e.spec_kind() == ErrorKind::Internal ==> resp.status == 500,
        resp.body.message is Some,
        e.spec_kind() != ErrorKind::Internal ==> resp.body.message.unwrap()@ == e.spec_msg(),
        e.spec_kind() == ErrorKind::Internal ==> resp.body.message.unwrap()@
            == "An unknown error occurred, please try again later"@,
{
}

/// A testing build answers an error with its own kind as the code, the status
/// 404 for `NotFound`, 409 for `AlreadyExists` and 500 for `Internal`, and its
/// message shown whatever the kind.
pub proof fn lemma_testing_error_answer(e: Error, resp: ErrorResponse)
    requires
        answers_error_shown(e, resp),
    ensures
        resp.body.code == e.spec_kind(),
        e.spec_kind() == ErrorKind::NotFound ==> resp.status == 404,
        e.spec_kind() == ErrorKind::AlreadyExists ==> resp.status == 409,
        e.spec_kind() == ErrorKind::Internal ==> resp.status == 500,
        resp.body.message is Some,
        resp.body.message.unwrap()@ == e.spec_msg(),
{
}

/// The answer of a testing build differs from the usual answer of the same
/// error only in the message of an internal error.
pub proof fn lemma_testing_answer_differs_only_in_message(
    e: Error,
    usual: ErrorResponse,
    testing: ErrorResponse,
)
    requires
        answers_error(e, usual),
        answers_error_shown(e, testing),
    ensures
        usual.status == testing.status,
        usual.body.code == testing.body.code,
        e.spec_kind() != ErrorKind::Internal ==> usual.body.message.unwrap()@
            == testing.body.message.unwrap()@,
{
}

} // verus!
