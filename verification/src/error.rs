use deadpool::managed::BuildError;
use vstd::prelude::*;
use vstd::std_specs::convert::FromSpecImpl;
use vstd::string::*;

verus! {

/// deadpool's `BuildError`, with its variants as deadpool declares them.
#[verifier::external_type_specification]
pub struct ExBuildError(BuildError);

/// What can go wrong between asking for a pool and holding a usable connection.
#[derive(Debug)]
pub enum Error {
    /// The database client reported an error of its own, kept as it renders.
    Surreal(String),
    /// The address could not be reached.
    Connect(String),
    /// The connection was open and signed in, but the namespace and database
    /// could not be selected on it.
    Connection(String),
    /// The database refused the credentials.
    Auth(String),
    /// The pool could not be built.
    Build(BuildError),
}

/// The mathematical content of an [`Error`].
pub enum ErrorView {
    Surreal(Seq<char>),
    Connect(Seq<char>),
    Connection(Seq<char>),
    Auth(Seq<char>),
    Build(BuildError),
}

impl View for Error {
    type V = ErrorView;

    open spec fn view(&self) -> ErrorView {
        match *self {
            Error::Surreal(detail) => ErrorView::Surreal(detail@),
            Error::Connect(detail) => ErrorView::Connect(detail@),
            Error::Connection(detail) => ErrorView::Connection(detail@),
            Error::Auth(detail) => ErrorView::Auth(detail@),
            Error::Build(cause) => ErrorView::Build(cause),
        }
    }
}

impl From<BuildError> for Error {
    fn from(cause: BuildError) -> (error: Error) {
        Error::Build(cause)
    }
}

impl FromSpecImpl<BuildError> for Error {
    open spec fn obeys_from_spec() -> bool {
        true
    }

    open spec fn from_spec(cause: BuildError) -> Error {
        Error::Build(cause)
    }
}

impl Error {
    /// Whether `text` is this error written out for a reader: the name of its
    /// class, a colon, and the detail it carries. Where it carries a build
    /// error, the detail is that error's own rendering.
    pub open spec fn renders_as(self, text: Seq<char>) -> bool {
        match self {
            Error::Surreal(detail) => text == "SurrealDB error: "@ + detail@,
            Error::Connect(detail) => text == "Connection error: "@ + detail@,
            Error::Connection(detail) => text == "Connection error: "@ + detail@,
            Error::Auth(detail) => text == "Authentication error: "@ + detail@,
            Error::Build(cause) => exists|detail: String|
                #![auto]
                to_string_from_display_ensures::<BuildError>(&cause, detail) && text
                    == "Build error: "@ + detail@,
        }
    }

    /// The error written out for a reader.
    pub fn message(&self) -> (text: String)
        ensures
            self.renders_as(text@),
    {
        match self {
            Error::Surreal(detail) => String::from_str("SurrealDB error: ").concat(
                detail.as_str(),
            ),
            Error::Connect(detail) => String::from_str("Connection error: ").concat(
                detail.as_str(),
            ),
            Error::Connection(detail) => String::from_str("Connection error: ").concat(
                detail.as_str(),
            ),
            Error::Auth(detail) => String::from_str("Authentication error: ").concat(
                detail.as_str(),
            ),
            Error::Build(cause) => {
                let detail = cause.to_string();
                String::from_str("Build error: ").concat(detail.as_str())
            },
        }
    }
}

} // verus!
