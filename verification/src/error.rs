//! The failures a bootstrap can end in.

use vstd::prelude::*;
use vstd::string::StringExecFns;

verus! {

/// The seven classes of failure.
#[derive(Clone, Copy, Debug, PartialEq, Eq, Structural)]
pub enum ErrorKind {
    /// An environment value is missing or malformed, or the environment
    /// could not be read.
    ConfigError,
    /// The CA certificate file could not be opened or read.
    CertificateIOError,
    /// The CA certificate file holds a malformed block, a certificate that
    /// cannot serve as a root, or no certificate at all.
    CertificateParseError,
    /// The pool or its TLS connector could not be set up.
    PoolCreationError,
    /// No connection could be checked out of the pool.
    ConnectionError,
    /// The diagnostic statement could not be prepared or executed.
    QueryError,
    /// A row's first column is not text.
    DecodeError,
}

/// A setting that is read from the environment.
#[derive(Clone, Copy, Debug, PartialEq, Eq, Structural)]
pub enum ConfigField {
    Host,
    Port,
    User,
    Password,
    DatabaseName,
    PoolSize,
    ConnectTimeout,
}

/// What is wrong with the configuration.
#[derive(Clone, Copy, Debug, PartialEq, Eq, Structural)]
pub enum ConfigFault {
    /// A required setting is absent.
    Missing(ConfigField),
    /// A setting's value does not convert to its type.
    Malformed(ConfigField),
    /// The environment could not be read at all, or what was read does
    /// not have the shape of the settings.
    Unreadable,
}

/// Why no pool could be set up.
#[derive(Clone, Copy, Debug, PartialEq, Eq, Structural)]
pub enum PoolFault {
    /// The pool is bounded to zero connections.
    EmptyPool,
    /// The TLS client configuration could not be built. With the
    /// cryptography provider that this crate fixes, that does not happen.
    Connector,
    /// The pool library turned the configuration down.
    Rejected,
}

/// The step of the diagnostic query that failed.
#[derive(Clone, Copy, Debug, PartialEq, Eq, Structural)]
pub enum SqlOperation {
    Prepare,
    Execute,
}

/// A failed bootstrap, with what is needed to act on it.
#[derive(Clone, Debug, PartialEq, Eq)]
pub enum BootstrapError {
    Config(ConfigFault),
    CertificateIo { path: String },
    CertificateParse { path: String },
    PoolCreation(PoolFault),
    Connection,
    Query(SqlOperation),
    Decode { row: usize },
}

/// The mathematical value of a [`BootstrapError`].
pub enum ErrorModel {
    Config(ConfigFault),
    CertificateIo { path: Seq<char> },
    CertificateParse { path: Seq<char> },
    PoolCreation(PoolFault),
    Connection,
    Query(SqlOperation),
    Decode { row: nat },
}

impl ErrorModel {
    /// The class an error falls in.
    pub open spec fn kind(self) -> ErrorKind {
        match self {
            ErrorModel::Config(_) => ErrorKind::ConfigError,
            ErrorModel::CertificateIo { .. } => ErrorKind::CertificateIOError,
            ErrorModel::CertificateParse { .. } => ErrorKind::CertificateParseError,
            ErrorModel::PoolCreation(_) => ErrorKind::PoolCreationError,
            ErrorModel::Connection => ErrorKind::ConnectionError,
            ErrorModel::Query(_) => ErrorKind::QueryError,
            ErrorModel::Decode { .. } => ErrorKind::DecodeError,
        }
    }

    /// The text that describes the error to a person.
    pub open spec fn text(self) -> Seq<char> {
        match self {
            ErrorModel::Config(ConfigFault::Missing(field)) => "configuration: missing required setting "@
                + field_name(field),
            ErrorModel::Config(ConfigFault::Malformed(field)) => "configuration: malformed value for setting "@
                + field_name(field),
            ErrorModel::Config(ConfigFault::Unreadable) => "configuration: the environment cannot be read"@,
            ErrorModel::CertificateIo { path } => "certificate: cannot read "@ + path,
            ErrorModel::CertificateParse { path } => "certificate: no usable certificates in "@ + path,
            ErrorModel::PoolCreation(PoolFault::EmptyPool) => "pool: the pool size is zero"@,
            ErrorModel::PoolCreation(PoolFault::Connector) => "pool: the TLS connector cannot be built"@,
            ErrorModel::PoolCreation(PoolFault::Rejected) => "pool: the configuration was rejected"@,
            ErrorModel::Connection => "connection: checkout failed"@,
            ErrorModel::Query(SqlOperation::Prepare) => "query: prepare failed"@,
            ErrorModel::Query(SqlOperation::Execute) => "query: execute failed"@,
            ErrorModel::Decode { .. } => "decode: column 0 is not text"@,
        }
    }
}

/// The name under which a setting appears in messages.
pub open spec fn field_name(field: ConfigField) -> Seq<char> {
    match field {
        ConfigField::Host => "host"@,
        ConfigField::Port => "port"@,
        ConfigField::User => "user"@,
        ConfigField::Password => "password"@,
        ConfigField::DatabaseName => "dbname"@,
        ConfigField::PoolSize => "pool size"@,
        ConfigField::ConnectTimeout => "connect timeout"@,
    }
}

impl ConfigField {
    /// The name under which the setting appears in messages.
    pub fn name(self) -> (r: &'static str)
        ensures
            r@ == field_name(self),
    {
        match self {
            ConfigField::Host => "host",
            ConfigField::Port => "port",
            ConfigField::User => "user",
            ConfigField::Password => "password",
            ConfigField::DatabaseName => "dbname",
            ConfigField::PoolSize => "pool size",
            ConfigField::ConnectTimeout => "connect timeout",
        }
    }
}

impl View for BootstrapError {
    type V = ErrorModel;

    open spec fn view(&self) -> ErrorModel {
        match *self {
            BootstrapError::Config(fault) => ErrorModel::Config(fault),
            BootstrapError::CertificateIo { path } => ErrorModel::CertificateIo { path: path@ },
            BootstrapError::CertificateParse { path } => ErrorModel::CertificateParse { path: path@ },
            BootstrapError::PoolCreation(fault) => ErrorModel::PoolCreation(fault),
            BootstrapError::Connection => ErrorModel::Connection,
            BootstrapError::Query(operation) => ErrorModel::Query(operation),
            BootstrapError::Decode { row } => ErrorModel::Decode { row: row as nat },
        }
    }
}

impl BootstrapError {
    /// The class the error falls in.
    pub fn kind(&self) -> (r: ErrorKind)
        ensures
            r == self@.kind(),
    {
        match self {
            BootstrapError::Config(_) => ErrorKind::ConfigError,
            BootstrapError::CertificateIo { .. } => ErrorKind::CertificateIOError,
            BootstrapError::CertificateParse { .. } => ErrorKind::CertificateParseError,
            BootstrapError::PoolCreation(_) => ErrorKind::PoolCreationError,
            BootstrapError::Connection => ErrorKind::ConnectionError,
            BootstrapError::Query(_) => ErrorKind::QueryError,
            BootstrapError::Decode { .. } => ErrorKind::DecodeError,
        }
    }

    /// A description of the error for a person: the failing stage, then
    /// the setting, file or operation concerned.
    pub fn message(&self) -> (r: String)
        ensures
            r@ == self@.text(),
    {
        match self {
            BootstrapError::Config(ConfigFault::Missing(field)) => String::from_str(
                "configuration: missing required setting ",
            ).concat(field.name()),
            BootstrapError::Config(ConfigFault::Malformed(field)) => String::from_str(
                "configuration: malformed value for setting ",
            ).concat(field.name()),
            BootstrapError::Config(ConfigFault::Unreadable) => String::from_str(
                "configuration: the environment cannot be read",
            ),
            BootstrapError::CertificateIo { path } => String::from_str("certificate: cannot read ").concat(
                path.as_str(),
            ),
            BootstrapError::CertificateParse { path } => String::from_str(
                "certificate: no usable certificates in ",
            ).concat(path.as_str()),
            BootstrapError::PoolCreation(PoolFault::EmptyPool) => String::from_str("pool: the pool size is zero"),
            BootstrapError::PoolCreation(PoolFault::Connector) => String::from_str(
                "pool: the TLS connector cannot be built",
            ),
            BootstrapError::PoolCreation(PoolFault::Rejected) => String::from_str(
                "pool: the configuration was rejected",
            ),
            BootstrapError::Connection => String::from_str("connection: checkout failed"),
            BootstrapError::Query(SqlOperation::Prepare) => String::from_str("query: prepare failed"),
            BootstrapError::Query(SqlOperation::Execute) => String::from_str("query: execute failed"),
            BootstrapError::Decode { .. } => String::from_str("decode: column 0 is not text"),
        }
    }
}

} // verus!
