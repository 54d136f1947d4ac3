//! The settings of the app and of the export, as far as they are plain
//! values.

use vstd::prelude::*;
use vstd::string::StringExecFns;
use crate::text::decimal;
use crate::text::lowercase;
use crate::text::push_decimal_u64;
use crate::text::same_text;

verus! {

/// Where the export finds the spreadsheet and how it signs in.
#[derive(Clone, Debug, PartialEq, Eq)]
pub struct Sheets {
    pub spreadsheet_id: String,
    pub credential_path: String,
    pub token_cache_path: String,
}

/// Where the export finds the spreadsheet and how it signs in.
#[derive(Clone, Debug, PartialEq, Eq)]
pub struct SheetsConfiguration {
    pub spreadsheet_id: String,
    pub credential_path: String,
    pub token_cache_path: String,
}

/// The address under which the app is reached.
#[derive(Clone, Debug, PartialEq, Eq)]
pub struct ApplicationBaseUrl(pub String);

impl ApplicationBaseUrl {
    /// The address as text.
    pub fn as_string(&self) -> (address: String)
        ensures
            address@ == self.0@,
    {
        self.0.clone()
    }
}

/// Where the database is reached and as whom.
#[derive(Clone, PartialEq, Eq)]
pub struct Database {
    pub username: String,
    pub password: String,
    pub database_name: String,
    pub require_ssl: bool,
    pub socket: Option<String>,
    pub host: String,
    pub port: u16,
}

/// Whether a connection has to be encrypted, or is encrypted where the
/// server offers it.
#[derive(Clone, Copy, Debug, PartialEq, Eq, Structural)]
pub enum SslMode {
    Require,
    Prefer,
}

/// Where a server listens: on a socket of the machine, or at a port of a
/// host.
#[derive(Clone, Debug, PartialEq, Eq)]
pub enum Endpoint {
    Socket { path: String },
    Tcp { host: String, port: u16 },
}

/// How to connect to the database server, and to which database if any.
#[derive(Clone, PartialEq, Eq)]
pub struct ConnectOptions {
    pub endpoint: Endpoint,
    pub username: String,
    pub password: String,
    pub ssl_mode: SslMode,
    pub database: Option<String>,
    /// Whether each statement is logged at the finest level.
    pub trace_statements: bool,
}

impl Database {
    /// Whether `options` connect to the server of these settings, as their
    /// user: through the socket where one is set, else to host and port;
    /// encrypted for certain exactly where the settings require it.
    pub open spec fn is_server(&self, options: ConnectOptions) -> bool {
        &&& match self.socket {
            Some(socket) => options.endpoint matches Endpoint::Socket { path } && path@
                == socket@,
            None => options.endpoint matches Endpoint::Tcp { host, port } && host@ == self.host@
                && port == self.port,
        }
        &&& options.username@ == self.username@
        &&& options.password@ == self.password@
        &&& options.ssl_mode == if self.require_ssl {
            SslMode::Require
        } else {
            SslMode::Prefer
        }
    }

    /// How to connect to the server, without naming a database.
    pub fn without_db(&self) -> (options: ConnectOptions)
        ensures
            self.is_server(options),
            options.database is None,
            !options.trace_statements,
    {
        let ssl_mode = if self.require_ssl {
            SslMode::Require
        } else {
            SslMode::Prefer
        };
        let endpoint = match &self.socket {
            Some(socket) => Endpoint::Socket { path: socket.clone() },
            None => Endpoint::Tcp { host: self.host.clone(), port: self.port },
        };
        ConnectOptions {
            endpoint,
            username: self.username.clone(),
            password: self.password.clone(),
            ssl_mode,
            database: None,
            trace_statements: false,
        }
    }

    /// How to connect to the database of these settings, with each statement
    /// logged at the finest level.
    pub fn with_db(&self) -> (options: ConnectOptions)
        ensures
            self.is_server(options),
            options.database matches Some(name) && name@ == self.database_name@,
            options.trace_statements,
    {
        let server = self.without_db();
        ConnectOptions {
            endpoint: server.endpoint,
            username: server.username,
            password: server.password,
            ssl_mode: server.ssl_mode,
            database: Some(self.database_name.clone()),
            trace_statements: true,
        }
    }
}

/// Another name of [`Database`].
pub type DatabaseSettings = Database;

/// The address a server listens at: host and port with a colon between them.
pub open spec fn listen_address_text(host: Seq<char>, port: u16) -> Seq<char> {
    host + seq![':'] + decimal(port as nat)
}

/// The address a server listens at.
pub fn listen_address(host: &str, port: u16) -> (address: String)
    ensures
        address@ == listen_address_text(host@, port),
{
    let mut address = host.to_owned();
    address.push(':');
    push_decimal_u64(&mut address, port as u64);
    assert(address@ =~= listen_address_text(host@, port));
    address
}

/// Where the app runs.
#[derive(Clone, Copy, Debug, PartialEq, Eq, Structural)]
pub enum AppEnvironment {
    Local,
    Production,
}

/// What a text that names no environment is answered with: the text, and
/// which names there are.
pub open spec fn unsupported_environment(name: Seq<char>) -> Seq<char> {
    name + " is not a supported environment. Use either `local` or `production`."@
}

impl AppEnvironment {
    /// The name of the environment.
    pub open spec fn name_text(self) -> Seq<char> {
        match self {
            AppEnvironment::Local => "local"@,
            AppEnvironment::Production => "production"@,
        }
    }

    /// The environment that a text in lower case names, if it names one.
    pub open spec fn named_in_lowercase(lower: Seq<char>) -> Option<AppEnvironment> {
        if lower == "local"@ {
            Some(AppEnvironment::Local)
        } else if lower == "production"@ {
            Some(AppEnvironment::Production)
        } else {
            None
        }
    }

    /// The name of the environment.
    pub fn as_str(&self) -> (name: &'static str)
        ensures
            name@ == self.name_text(),
    {
        match self {
            AppEnvironment::Local => "local",
            AppEnvironment::Production => "production",
        }
    }

    /// The environment that a text in lower case names; a text that names
    /// none is answered with the names there are.
    pub fn from_lowercase(lower: &str) -> (environment: Result<AppEnvironment, String>)
        ensures
            match environment {
                Ok(named) => AppEnvironment::named_in_lowercase(lower@) == Some(named),
                Err(words) => AppEnvironment::named_in_lowercase(lower@) is None && words@
                    == unsupported_environment(lower@),
            },
    {
        if same_text(lower, "local") {
            Ok(AppEnvironment::Local)
        } else if same_text(lower, "production") {
            Ok(AppEnvironment::Production)
        } else {
            let mut words = lower.to_owned();
            words.append(" is not a supported environment. Use either `local` or `production`.");
            Err(words)
        }
    }

    /// The environment that `name` names, in whatever case it is written.
    pub fn parse(name: &str) -> (environment: Result<AppEnvironment, String>)
        ensures
            match environment {
                Ok(named) => AppEnvironment::named_in_lowercase(lowercase(name@)) == Some(named),
                Err(words) => AppEnvironment::named_in_lowercase(lowercase(name@)) is None
                    && words@ == unsupported_environment(lowercase(name@)),
            },
    {
        let lower = name.to_lowercase();
        AppEnvironment::from_lowercase(lower.as_str())
    }
}

} // verus!
