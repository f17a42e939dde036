use crate::config::{Config, ConfigView, Credentials, CredentialsView};
use crate::error::{Error, ErrorView};
use deadpool::managed::RecycleError;
use std::borrow::Cow;
use surrealdb::opt::auth;
use vstd::prelude::*;
use vstd::string::*;

verus! {

/// surrealdb's credentials of a root user, with the fields surrealdb declares.
#[verifier::external_type_specification]
pub struct ExRoot<'a>(auth::Root<'a>);

/// surrealdb's credentials of a namespace user, with the fields surrealdb declares.
#[verifier::external_type_specification]
pub struct ExNamespace<'a>(auth::Namespace<'a>);

/// surrealdb's credentials of a database user, with the fields surrealdb declares.
#[verifier::external_type_specification]
pub struct ExDatabase<'a>(auth::Database<'a>);

/// deadpool's `RecycleError`, with its variants as deadpool declares them.
#[verifier::external_type_specification]
#[verifier::reject_recursive_types(E)]
pub struct ExRecycleError<E>(RecycleError<E>);

/// The sign-in to send, at the scope of the configured credentials.
#[derive(Debug)]
pub enum SignIn<'a> {
    /// Sign in at instance scope.
    Root(auth::Root<'a>),
    /// Sign in at namespace scope.
    Namespace(auth::Namespace<'a>),
    /// Sign in at database scope.
    Database(auth::Database<'a>),
}

impl<'a> View for SignIn<'a> {
    type V = CredentialsView;

    open spec fn view(&self) -> CredentialsView {
        match *self {
            SignIn::Root(who) => CredentialsView::Root {
                user: who.username@,
                pass: who.password@,
            },
            SignIn::Namespace(who) => CredentialsView::Namespace {
                user: who.username@,
                pass: who.password@,
                ns: who.namespace@,
            },
            SignIn::Database(who) => CredentialsView::Database {
                user: who.username@,
                pass: who.password@,
                ns: who.namespace@,
                db: who.database@,
            },
        }
    }
}

/// The three kinds of call that setting up a connection is made of.
#[derive(Debug, Clone, Copy, PartialEq, Eq, Structural)]
pub enum Stage {
    /// Opening the transport to the address.
    Connect,
    /// Exchanging the credentials.
    SignIn,
    /// Selecting the namespace and the database.
    Select,
}

/// One call to make on the database client.
#[derive(Debug)]
pub enum Operation<'a> {
    /// Open a connection to `address`.
    Connect { address: &'a str },
    /// Sign in on the connection.
    SignIn(SignIn<'a>),
    /// Select `namespace` and `database` on the connection.
    Select { namespace: &'a str, database: &'a str },
}

/// The mathematical content of an [`Operation`].
pub enum OperationView {
    Connect { address: Seq<char> },
    SignIn(CredentialsView),
    Select { namespace: Seq<char>, database: Seq<char> },
}

impl OperationView {
    /// The kind of call that this operation is.
    pub open spec fn stage(self) -> Stage {
        match self {
            OperationView::Connect { .. } => Stage::Connect,
            OperationView::SignIn(_) => Stage::SignIn,
            OperationView::Select { .. } => Stage::Select,
        }
    }
}

impl<'a> View for Operation<'a> {
    type V = OperationView;

    open spec fn view(&self) -> OperationView {
        match *self {
            Operation::Connect { address } => OperationView::Connect { address: address@ },
            Operation::SignIn(request) => OperationView::SignIn(request@),
            Operation::Select { namespace, database } => OperationView::Select {
                namespace: namespace@,
                database: database@,
            },
        }
    }
}

impl<'a> Operation<'a> {
    /// The kind of call that this operation is.
    pub fn stage(&self) -> (stage: Stage)
        ensures
            stage == self@.stage(),
    {
        match self {
            Operation::Connect { .. } => Stage::Connect,
            Operation::SignIn(_) => Stage::SignIn,
            Operation::Select { .. } => Stage::Select,
        }
    }
}

/// Where the set-up of a connection stands after a call has come back.
#[derive(Debug)]
pub enum Step<'a> {
    /// Make this call next, on the same connection.
    Perform(Operation<'a>),
    /// The connection is signed in and bound: hand it out.
    Ready,
    /// Give the connection up and report this error.
    Failed(Error),
}

/// The mathematical content of a [`Step`].
pub enum StepView {
    Perform(OperationView),
    Ready,
    Failed(ErrorView),
}

impl<'a> View for Step<'a> {
    type V = StepView;

    open spec fn view(&self) -> StepView {
        match *self {
            Step::Perform(operation) => StepView::Perform(operation@),
            Step::Ready => StepView::Ready,
            Step::Failed(error) => StepView::Failed(error@),
        }
    }
}

/// What a call answered, as a model: nothing on success, the cause on failure.
pub open spec fn answer(outcome: Result<(), String>) -> Result<(), Seq<char>> {
    match outcome {
        Ok(_) => Ok(()),
        Err(cause) => Err(cause@),
    }
}

impl CredentialsView {
    /// The name of the scope at which these credentials sign in.
    pub open spec fn scope(self) -> Seq<char> {
        match self {
            CredentialsView::Root { .. } => "Root"@,
            CredentialsView::Namespace { .. } => "Namespace"@,
            CredentialsView::Database { .. } => "Database"@,
        }
    }

    /// The detail of the error for a sign-in that failed because of `cause`.
    pub open spec fn refusal(self, cause: Seq<char>) -> Seq<char> {
        self.scope() + " auth failed: "@ + cause
    }
}

impl ConfigView {
    /// The call that the set-up of a connection begins with.
    pub open spec fn create_first(self) -> OperationView {
        OperationView::Connect { address: self.host }
    }

    /// The selection of the configured namespace and database.
    pub open spec fn select(self) -> OperationView {
        OperationView::Select { namespace: self.ns, database: self.db }
    }

    /// How the set-up of a connection goes on once a call of kind `done` has
    /// answered `outcome`: after the connection is open, the sign-in, unless
    /// the engine runs in memory; then the selection of namespace and
    /// database; then the connection is ready. A call that fails ends the
    /// set-up with the error of its kind.
    pub open spec fn create_next(self, done: Stage, outcome: Result<(), Seq<char>>) -> StepView {
        match (done, outcome) {
            (Stage::Connect, Ok(_)) => if self.in_memory() {
                StepView::Perform(self.select())
            } else {
                StepView::Perform(OperationView::SignIn(self.creds))
            },
            (Stage::Connect, Err(cause)) => StepView::Failed(
                ErrorView::Connect("Failed to connect: "@ + cause),
            ),
            (Stage::SignIn, Ok(_)) => StepView::Perform(self.select()),
            (Stage::SignIn, Err(cause)) => StepView::Failed(
                ErrorView::Auth(self.creds.refusal(cause)),
            ),
            (Stage::Select, Ok(_)) => StepView::Ready,
            (Stage::Select, Err(cause)) => StepView::Failed(
                ErrorView::Connection("Failed to set ns/db: "@ + cause),
            ),
        }
    }

    /// The calls that set a connection up when none of them fails, in their
    /// order: connect, sign in unless the engine runs in memory, select.
    pub open spec fn create_script(self) -> Seq<OperationView> {
        if self.in_memory() {
            seq![self.create_first(), self.select()]
        } else {
            seq![self.create_first(), OperationView::SignIn(self.creds), self.select()]
        }
    }

    /// The sign-in that re-validates a returned connection, or none where the
    /// engine runs in memory and the connection is fit as it is.
    pub open spec fn recycle_first(self) -> Option<CredentialsView> {
        if self.in_memory() {
            None
        } else {
            Some(self.creds)
        }
    }

    /// What is reported of a returned connection whose sign-in failed because
    /// of `cause`.
    pub open spec fn recycle_failure(self, cause: Seq<char>) -> Seq<char> {
        "Connection check failed: "@ + ("Authentication error: "@ + self.creds.refusal(cause))
    }
}

/// Knows how to set up a connection for one configuration, and how to
/// re-validate one that comes back to the pool.
#[derive(Debug)]
pub struct Manager {
    config: Config,
}

impl View for Manager {
    type V = ConfigView;

    closed spec fn view(&self) -> ConfigView {
        self.config@
    }
}

impl Manager {
    /// A manager for a copy of `config`.
    #[must_use]
    pub fn from_config(config: &Config) -> (manager: Self)
        ensures
            manager@ == config@,
    {
        Manager { config: config.clone() }
    }

    /// The configuration that this manager works for.
    pub fn config(&self) -> (config: &Config)
        ensures
            config@ == self@,
    {
        &self.config
    }

    /// The sign-in that matches the configured credentials: each kind of
    /// credentials signs in at its own scope, with exactly its own fields.
    pub fn sign_in(&self) -> (request: SignIn<'_>)
        ensures
            request@ == self@.creds,
    {
        match &self.config.creds {
            Credentials::Root { user, pass } => SignIn::Root(
                auth::Root { username: user.as_str(), password: pass.as_str() },
            ),
            Credentials::Namespace { user, pass, ns } => SignIn::Namespace(
                auth::Namespace {
                    username: user.as_str(),
                    password: pass.as_str(),
                    namespace: ns.as_str(),
                },
            ),
            Credentials::Database { user, pass, ns, db } => SignIn::Database(
                auth::Database {
                    username: user.as_str(),
                    password: pass.as_str(),
                    namespace: ns.as_str(),
                    database: db.as_str(),
                },
            ),
        }
    }

    /// The detail of the error for a sign-in that failed because of `cause`:
    /// the scope of the credentials, then the cause.
    fn refusal(&self, cause: &str) -> (detail: String)
        ensures
            detail@ == self@.creds.refusal(cause@),
    {
        let scope = match &self.config.creds {
            Credentials::Root { .. } => "Root",
            Credentials::Namespace { .. } => "Namespace",
            Credentials::Database { .. } => "Database",
        };
        String::from_str(scope).concat(" auth failed: ").concat(cause)
    }

    /// The selection of the configured namespace and database.
    fn select(&self) -> (operation: Operation<'_>)
        ensures
            operation@ == self@.select(),
    {
        Operation::Select { namespace: self.config.ns.as_str(), database: self.config.db.as_str() }
    }

    /// The call that the set-up of a connection begins with: open a
    /// connection to the configured address.
    pub fn create_first(&self) -> (operation: Operation<'_>)
        ensures
            operation@ == self@.create_first(),
    {
        Operation::Connect { address: self.config.host.as_str() }
    }

    /// How the set-up of a connection goes on once the call of kind `done` has
    /// answered `outcome`.
    pub fn create_next(&self, done: Stage, outcome: Result<(), String>) -> (step: Step<'_>)
        ensures
            step@ == self@.create_next(done, answer(outcome)),
    {
        match outcome {
            Ok(_) => match done {
                Stage::Connect => if self.config.is_in_memory() {
                    Step::Perform(self.select())
                } else {
                    Step::Perform(Operation::SignIn(self.sign_in()))
                },
                Stage::SignIn => Step::Perform(self.select()),
                Stage::Select => Step::Ready,
            },
            Err(cause) => match done {
                Stage::Connect => Step::Failed(
                    Error::Connect(String::from_str("Failed to connect: ").concat(cause.as_str())),
                ),
                Stage::SignIn => Step::Failed(Error::Auth(self.refusal(cause.as_str()))),
                Stage::Select => Step::Failed(
                    Error::Connection(
                        String::from_str("Failed to set ns/db: ").concat(cause.as_str()),
                    ),
                ),
            },
        }
    }

    /// The sign-in that re-validates a returned connection, or none where the
    /// engine runs in memory: such a connection is reused without any call.
    pub fn recycle_first(&self) -> (request: Option<SignIn<'_>>)
        ensures
            match request {
                Some(sign_in) => self@.recycle_first() == Some(sign_in@),
                None => self@.recycle_first() is None,
            },
    {
        if self.config.is_in_memory() {
            None
        } else {
            Some(self.sign_in())
        }
    }

    /// The verdict on a returned connection once its sign-in has answered
    /// `outcome`: fit for reuse if it succeeded; otherwise to be thrown away,
    /// with the reason as a message.
    pub fn recycle_result(&self, outcome: Result<(), String>) -> (verdict: Result<
        (),
        RecycleError<Error>,
    >)
        ensures
            verdict is Ok <==> outcome is Ok,
            match verdict {
                Ok(_) => true,
                Err(RecycleError::Message(message)) => outcome is Err && message@
                    == self@.recycle_failure(outcome->Err_0@),
                Err(RecycleError::Backend(_)) => false,
            },
    {
        match outcome {
            Ok(_) => Ok(()),
            Err(cause) => {
                let error = Error::Auth(self.refusal(cause.as_str()));
                let message = String::from_str("Connection check failed: ").concat(
                    error.message().as_str(),
                );
                Err(RecycleError::Message(Cow::Owned(message)))
            },
        }
    }
}

/// Setting a connection up walks through the script of its configuration: it
/// begins with the script's first call, each call that succeeds is followed by
/// the next one, the last one by a ready connection, and a call that fails
/// ends the set-up with an error, whatever the cause.
pub proof fn creation_follows_script(config: ConfigView, at: int, cause: Seq<char>)
    requires
        0 <= at < config.create_script().len(),
    ensures
        config.create_first() == config.create_script()[0],
        at + 1 < config.create_script().len() ==> config.create_next(
            config.create_script()[at].stage(),
            Ok(()),
        ) == StepView::Perform(config.create_script()[at + 1]),
        at + 1 == config.create_script().len() ==> config.create_next(
            config.create_script()[at].stage(),
            Ok(()),
        ) == StepView::Ready,
        config.create_next(config.create_script()[at].stage(), Err(cause)) is Failed,
{
}

/// With the engine in memory nothing ever signs in: no call of the script is
/// a sign-in, no answer to any call leads to one, a connection whose
/// transport opens and whose selection succeeds is ready, and a returned
/// connection is reused without any call.
pub proof fn in_memory_engine_never_signs_in(config: ConfigView)
    requires
        config.in_memory(),
    ensures
        forall|at: int|
            0 <= at < config.create_script().len() ==> !(#[trigger] config.create_script()[at]
                is SignIn),
        forall|done: Stage, outcome: Result<(), Seq<char>>|
            match #[trigger] config.create_next(done, outcome) {
                StepView::Perform(operation) => !(operation is SignIn),
                _ => true,
            },
        config.create_next(Stage::Connect, Ok(())) == StepView::Perform(config.select()),
        config.create_next(Stage::Select, Ok(())) == StepView::Ready,
        config.recycle_first() is None,
{
}

/// Over a network a sign-in is always made, with the configured credentials,
/// right after the transport opens. If it is refused, the set-up ends there
/// with an authentication error that names the scope and the cause: no further
/// call is made on the connection, and none is handed out.
pub proof fn refused_sign_in_ends_creation(config: ConfigView, cause: Seq<char>)
    requires
        !config.in_memory(),
    ensures
        config.create_next(Stage::Connect, Ok(())) == StepView::Perform(
            OperationView::SignIn(config.creds),
        ),
        config.create_next(Stage::SignIn, Err(cause)) == StepView::Failed(
            ErrorView::Auth(config.creds.refusal(cause)),
        ),
        config.recycle_first() == Some(config.creds),
{
}

} // verus!
