use crate::text::starts_with;
use crate::time::duration_of_secs;
use std::time::Duration;
use vstd::prelude::*;

verus! {

/// How a connection proves its identity to the database.
#[derive(Debug)]
pub enum Credentials {
    /// An instance-wide user.
    Root {
        /// Username
        user: String,
        /// Password
        pass: String,
    },
    /// A user that belongs to one namespace.
    Namespace {
        /// Username
        user: String,
        /// Password
        pass: String,
        /// Namespace
        ns: String,
    },
    /// A user that belongs to one database of one namespace.
    Database {
        /// Username
        user: String,
        /// Password
        pass: String,
        /// Namespace
        ns: String,
        /// Database
        db: String,
    },
}

/// The mathematical content of [`Credentials`].
pub enum CredentialsView {
    Root { user: Seq<char>, pass: Seq<char> },
    Namespace { user: Seq<char>, pass: Seq<char>, ns: Seq<char> },
    Database { user: Seq<char>, pass: Seq<char>, ns: Seq<char>, db: Seq<char> },
}

impl View for Credentials {
    type V = CredentialsView;

    open spec fn view(&self) -> CredentialsView {
        match *self {
            Credentials::Root { user, pass } => CredentialsView::Root { user: user@, pass: pass@ },
            Credentials::Namespace { user, pass, ns } => CredentialsView::Namespace {
                user: user@,
                pass: pass@,
                ns: ns@,
            },
            Credentials::Database { user, pass, ns, db } => CredentialsView::Database {
                user: user@,
                pass: pass@,
                ns: ns@,
                db: db@,
            },
        }
    }
}

impl Clone for Credentials {
    fn clone(&self) -> (copy: Self)
        ensures
            copy@ == self@,
    {
        match self {
            Credentials::Root { user, pass } => Credentials::Root {
                user: user.clone(),
                pass: pass.clone(),
            },
            Credentials::Namespace { user, pass, ns } => Credentials::Namespace {
                user: user.clone(),
                pass: pass.clone(),
                ns: ns.clone(),
            },
            Credentials::Database { user, pass, ns, db } => Credentials::Database {
                user: user.clone(),
                pass: pass.clone(),
                ns: ns.clone(),
                db: db.clone(),
            },
        }
    }
}

/// Seconds allowed for establishing a connection when none are configured.
pub fn default_connect_timeout() -> (secs: u64)
    ensures
        secs == 5,
{
    5
}

/// Seconds allowed for re-validating a returned connection when none are configured.
pub fn default_idle_timeout() -> (secs: u64)
    ensures
        secs == 60,
{
    60
}

/// Pool size when none is configured.
pub fn default_max_connections() -> (count: u32)
    ensures
        count == 10,
{
    10
}

/// Where the database is, what to select on it, how to sign in, and the pool's
/// sizing and timing.
#[derive(Debug)]
pub struct Config {
    /// Database host URL (e.g. "ws://localhost:8000" or "mem://")
    pub host: String,
    /// Default namespace
    pub ns: String,
    /// Default database
    pub db: String,
    /// Authentication credentials
    pub creds: Credentials,
    /// Connection timeout in seconds
    pub connect_timeout: u64,
    /// Maximum number of connections in the pool
    pub max_connections: u32,
    /// Idle timeout in seconds
    pub idle_timeout: u64,
}

/// The mathematical content of a [`Config`].
pub struct ConfigView {
    pub host: Seq<char>,
    pub ns: Seq<char>,
    pub db: Seq<char>,
    pub creds: CredentialsView,
    pub connect_timeout: nat,
    pub max_connections: nat,
    pub idle_timeout: nat,
}

impl ConfigView {
    /// Whether the address names the engine that runs inside this process,
    /// which has no network to cross and no user to sign in.
    pub open spec fn in_memory(self) -> bool {
        "mem://"@.is_prefix_of(self.host)
    }

    /// The same test, character by character: at least six characters, of
    /// which the first six spell the scheme of the in-memory engine.
    pub proof fn in_memory_by_characters(self)
        ensures
            self.in_memory() <==> (self.host.len() >= 6 && self.host[0] == 'm' && self.host[1]
                == 'e' && self.host[2] == 'm' && self.host[3] == ':' && self.host[4] == '/'
                && self.host[5] == '/'),
    {
        reveal_strlit("mem://");
        let scheme = "mem://"@;
        if self.in_memory() {
            let head = self.host.subrange(0, 6);
            assert(head[0] == scheme[0]);
            assert(head[1] == scheme[1]);
            assert(head[2] == scheme[2]);
            assert(head[3] == scheme[3]);
            assert(head[4] == scheme[4]);
            assert(head[5] == scheme[5]);
        }
        if self.host.len() >= 6 && self.host[0] == 'm' && self.host[1] == 'e' && self.host[2]
            == 'm' && self.host[3] == ':' && self.host[4] == '/' && self.host[5] == '/' {
            assert(scheme =~= self.host.subrange(0, 6));
        }
    }

    /// A configuration is valid when a connection attempt is given some time
    /// and the pool may hold at least one connection.
    pub open spec fn valid(self) -> bool {
        self.connect_timeout > 0 && self.max_connections >= 1
    }
}

impl View for Config {
    type V = ConfigView;

    open spec fn view(&self) -> ConfigView {
        ConfigView {
            host: self.host@,
            ns: self.ns@,
            db: self.db@,
            creds: self.creds@,
            connect_timeout: self.connect_timeout as nat,
            max_connections: self.max_connections as nat,
            idle_timeout: self.idle_timeout as nat,
        }
    }
}

impl Clone for Config {
    fn clone(&self) -> (copy: Self)
        ensures
            copy@ == self@,
    {
        Config {
            host: self.host.clone(),
            ns: self.ns.clone(),
            db: self.db.clone(),
            creds: self.creds.clone(),
            connect_timeout: self.connect_timeout,
            max_connections: self.max_connections,
            idle_timeout: self.idle_timeout,
        }
    }
}

impl Default for Config {
    fn default() -> (config: Self)
        ensures
            config@ == (ConfigView {
                host: Seq::<char>::empty(),
                ns: "test"@,
                db: "test"@,
                creds: CredentialsView::Root { user: "root"@, pass: "root"@ },
                connect_timeout: 5,
                max_connections: 10,
                idle_timeout: 60,
            }),
            config@.valid(),
    {
        Config {
            host: String::new(),
            ns: "test".to_owned(),
            db: "test".to_owned(),
            creds: Credentials::Root { user: "root".to_owned(), pass: "root".to_owned() },
            connect_timeout: default_connect_timeout(),
            max_connections: default_max_connections(),
            idle_timeout: default_idle_timeout(),
        }
    }
}

impl Config {
    /// A configuration for `host` that selects `ns` and `db` and signs in with
    /// `creds`, with the default timeouts and pool size.
    pub fn new(host: String, ns: String, db: String, creds: Credentials) -> (config: Self)
        ensures
            config@ == (ConfigView {
                host: host@,
                ns: ns@,
                db: db@,
                creds: creds@,
                connect_timeout: 5,
                max_connections: 10,
                idle_timeout: 60,
            }),
            config@.valid(),
    {
        Config {
            host,
            ns,
            db,
            creds,
            connect_timeout: default_connect_timeout(),
            max_connections: default_max_connections(),
            idle_timeout: default_idle_timeout(),
        }
    }

    /// A builder with no field set.
    pub fn builder() -> (builder: ConfigBuilder)
        ensures
            builder@ == ConfigBuilderView::empty(),
    {
        ConfigBuilder::new()
    }

    /// Whether the address names the engine that runs inside this process.
    pub fn is_in_memory(&self) -> (local: bool)
        ensures
            local == self@.in_memory(),
    {
        starts_with(self.host.as_str(), "mem://")
    }

    /// The connection timeout as a duration.
    pub fn connect_timeout(&self) -> (timeout: Duration)
        ensures
            timeout == duration_of_secs(self.connect_timeout),
    {
        Duration::from_secs(self.connect_timeout)
    }

    /// The idle timeout as a duration.
    pub fn idle_timeout(&self) -> (timeout: Duration)
        ensures
            timeout == duration_of_secs(self.idle_timeout),
    {
        Duration::from_secs(self.idle_timeout)
    }
}

/// Collects the fields of a [`Config`] one by one.
#[derive(Debug)]
pub struct ConfigBuilder {
    host: Option<String>,
    ns: Option<String>,
    db: Option<String>,
    creds: Option<Credentials>,
    connect_timeout: Option<u64>,
    max_connections: Option<u32>,
    idle_timeout: Option<u64>,
}

/// The mathematical content of a [`ConfigBuilder`]: each field, once set.
pub struct ConfigBuilderView {
    pub host: Option<Seq<char>>,
    pub ns: Option<Seq<char>>,
    pub db: Option<Seq<char>>,
    pub creds: Option<CredentialsView>,
    pub connect_timeout: Option<nat>,
    pub max_connections: Option<nat>,
    pub idle_timeout: Option<nat>,
}

impl ConfigBuilderView {
    /// The builder on which nothing was set.
    pub open spec fn empty() -> ConfigBuilderView {
        ConfigBuilderView {
            host: None,
            ns: None,
            db: None,
            creds: None,
            connect_timeout: None,
            max_connections: None,
            idle_timeout: None,
        }
    }

    /// A configuration can be built once the address, the namespace, the
    /// database and the credentials are set.
    pub open spec fn complete(self) -> bool {
        self.host is Some && self.ns is Some && self.db is Some && self.creds is Some
    }

    /// What `build` answers: the configuration with the defaults filled in,
    /// or the complaint about the first required field that is missing.
    pub open spec fn outcome(self) -> Result<ConfigView, Seq<char>> {
        if self.host is None {
            Err("host is required"@)
        } else if self.ns is None {
            Err("namespace is required"@)
        } else if self.db is None {
            Err("database is required"@)
        } else if self.creds is None {
            Err("credentials are required"@)
        } else {
            Ok(
                ConfigView {
                    host: self.host->Some_0,
                    ns: self.ns->Some_0,
                    db: self.db->Some_0,
                    creds: self.creds->Some_0,
                    connect_timeout: match self.connect_timeout {
                        Some(secs) => secs,
                        None => 5,
                    },
                    max_connections: match self.max_connections {
                        Some(count) => count,
                        None => 10,
                    },
                    idle_timeout: match self.idle_timeout {
                        Some(secs) => secs,
                        None => 60,
                    },
                },
            )
        }
    }
}

impl View for ConfigBuilder {
    type V = ConfigBuilderView;

    closed spec fn view(&self) -> ConfigBuilderView {
        ConfigBuilderView {
            host: match self.host {
                Some(host) => Some(host@),
                None => None,
            },
            ns: match self.ns {
                Some(ns) => Some(ns@),
                None => None,
            },
            db: match self.db {
                Some(db) => Some(db@),
                None => None,
            },
            creds: match self.creds {
                Some(creds) => Some(creds@),
                None => None,
            },
            connect_timeout: match self.connect_timeout {
                Some(secs) => Some(secs as nat),
                None => None,
            },
            max_connections: match self.max_connections {
                Some(count) => Some(count as nat),
                None => None,
            },
            idle_timeout: match self.idle_timeout {
                Some(secs) => Some(secs as nat),
                None => None,
            },
        }
    }
}

impl Default for ConfigBuilder {
    fn default() -> (builder: Self)
        ensures
            builder@ == ConfigBuilderView::empty(),
    {
        ConfigBuilder {
            host: None,
            ns: None,
            db: None,
            creds: None,
            connect_timeout: None,
            max_connections: None,
            idle_timeout: None,
        }
    }
}

impl ConfigBuilder {
    /// A builder with no field set.
    pub fn new() -> (builder: Self)
        ensures
            builder@ == ConfigBuilderView::empty(),
    {
        ConfigBuilder {
            host: None,
            ns: None,
            db: None,
            creds: None,
            connect_timeout: None,
            max_connections: None,
            idle_timeout: None,
        }
    }

    /// Sets the database host URL.
    pub fn host(self, host: &str) -> (builder: Self)
        ensures
            builder@ == (ConfigBuilderView { host: Some(host@), ..self@ }),
    {
        let mut builder = self;
        builder.host = Some(host.to_owned());
        builder
    }

    /// Sets the default namespace.
    pub fn namespace(self, ns: &str) -> (builder: Self)
        ensures
            builder@ == (ConfigBuilderView { ns: Some(ns@), ..self@ }),
    {
        let mut builder = self;
        builder.ns = Some(ns.to_owned());
        builder
    }

    /// Sets the default database.
    pub fn database(self, db: &str) -> (builder: Self)
        ensures
            builder@ == (ConfigBuilderView { db: Some(db@), ..self@ }),
    {
        let mut builder = self;
        builder.db = Some(db.to_owned());
        builder
    }

    /// Sets the authentication credentials.
    pub fn credentials(self, creds: Credentials) -> (builder: Self)
        ensures
            builder@ == (ConfigBuilderView { creds: Some(creds@), ..self@ }),
    {
        let mut builder = self;
        builder.creds = Some(creds);
        builder
    }

    /// Sets the connection timeout in seconds.
    pub fn connect_timeout(self, timeout: u64) -> (builder: Self)
        ensures
            builder@ == (ConfigBuilderView { connect_timeout: Some(timeout as nat), ..self@ }),
    {
        let mut builder = self;
        builder.connect_timeout = Some(timeout);
        builder
    }

    /// Sets the maximum number of connections in the pool.
    pub fn max_connections(self, max: u32) -> (builder: Self)
        ensures
            builder@ == (ConfigBuilderView { max_connections: Some(max as nat), ..self@ }),
    {
        let mut builder = self;
        builder.max_connections = Some(max);
        builder
    }

    /// Sets the idle timeout in seconds.
    pub fn idle_timeout(self, timeout: u64) -> (builder: Self)
        ensures
            builder@ == (ConfigBuilderView { idle_timeout: Some(timeout as nat), ..self@ }),
    {
        let mut builder = self;
        builder.idle_timeout = Some(timeout);
        builder
    }

    /// Builds the configuration, or names the first required field that was
    /// never set. Timeouts and pool size that were not set take their defaults.
    pub fn build(self) -> (result: Result<Config, &'static str>)
        ensures
            result is Ok <==> self@.complete(),
            match result {
                Ok(config) => self@.outcome() == Ok::<ConfigView, Seq<char>>(config@),
                Err(missing) => self@.outcome() == Err::<ConfigView, Seq<char>>(missing@),
            },
    {
        let host = match self.host {
            Some(host) => host,
            None => return Err("host is required"),
        };
        let ns = match self.ns {
            Some(ns) => ns,
            None => return Err("namespace is required"),
        };
        let db = match self.db {
            Some(db) => db,
            None => return Err("database is required"),
        };
        let creds = match self.creds {
            Some(creds) => creds,
            None => return Err("credentials are required"),
        };
        let connect_timeout = match self.connect_timeout {
            Some(secs) => secs,
            None => default_connect_timeout(),
        };
        let max_connections = match self.max_connections {
            Some(count) => count,
            None => default_max_connections(),
        };
        let idle_timeout = match self.idle_timeout {
            Some(secs) => secs,
            None => default_idle_timeout(),
        };
        Ok(Config { host, ns, db, creds, connect_timeout, max_connections, idle_timeout })
    }
}

} // verus!
