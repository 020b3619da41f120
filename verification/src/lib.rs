//! Bootstrap of a pooled database connection over plain or TLS transport.
//!
//! The crate resolves connection settings, decides between plain and TLS
//! transport, builds a certificate trust store when one is asked for, plans
//! the connection pool and steers one diagnostic query. Work that touches
//! the outside world (the environment, the certificate file, the database)
//! is done by the caller, who reports each outcome as an [`Event`] and is
//! told what to do next as an [`Action`].

pub mod bootstrap;
pub mod error;
pub mod pool;
pub mod runner;
pub mod settings;
pub mod trust;

pub use error::{BootstrapError, ConfigFault, ConfigField, ErrorKind, ErrorModel, PoolFault, SqlOperation};
pub use settings::{PoolModel, PoolSettings, RawModel, RawSettings, Settings, SettingsModel};
pub use trust::{TrustAnchorModel, TrustStore};
pub use pool::{Connector, PlanModel, PoolPlan, TransportIntent, TransportMode};
pub use runner::{diagnostic_lines, query_text, RunStage};
pub use bootstrap::{Action, ActionModel, Bootstrap, BootstrapModel, Event, EventModel, Phase};
