//! The pool factory's part that needs no database: choosing the transport
//! and preparing what the pool is built from.

use vstd::prelude::*;

use crate::error::{BootstrapError, ErrorModel, PoolFault};
use crate::settings::{PoolModel, PoolSettings};
use crate::trust::{der_views, usable_roots, TrustStore};

verus! {

#[verifier::external_type_specification]
#[verifier::external_body]
pub struct ExClientConfig(rustls::ClientConfig);

#[verifier::external_type_specification]
#[verifier::external_body]
pub struct ExMakeRustlsConnect(tokio_postgres_rustls::MakeRustlsConnect);

/// How the connections of a pool travel. A pool is of one mode for good:
/// all of its connections are plain, or all are TLS.
#[derive(Clone, Copy, Debug, PartialEq, Eq, Structural)]
pub enum TransportMode {
    Plain,
    Tls,
}

/// The transport asked of the pool factory. TLS cannot be asked for
/// without a trust store, and a trust store is never empty.
pub enum TransportIntent {
    Plain,
    Tls(TrustStore),
}

impl TransportIntent {
    /// The mode that the intent stands for.
    pub open spec fn spec_mode(self) -> TransportMode {
        match self {
            TransportIntent::Plain => TransportMode::Plain,
            TransportIntent::Tls(_) => TransportMode::Tls,
        }
    }

    /// The certificates to trust; none for plain transport.
    pub open spec fn certificates(self) -> Seq<Seq<u8>> {
        match self {
            TransportIntent::Plain => Seq::empty(),
            TransportIntent::Tls(trust) => trust@,
        }
    }

    /// The mode that the intent stands for.
    pub fn mode(&self) -> (r: TransportMode)
        ensures
            r == self.spec_mode(),
    {
        match self {
            TransportIntent::Plain => TransportMode::Plain,
            TransportIntent::Tls(_) => TransportMode::Tls,
        }
    }
}

/// What stands between the pool and the network.
pub enum Connector {
    /// No encryption.
    Plain,
    /// TLS that authenticates the server only.
    Tls(tokio_postgres_rustls::MakeRustlsConnect),
}

/// Builds the TLS client configuration with rustls: the `ring` provider
/// (`ClientConfig::builder_with_provider`), the default protocol versions
/// (`with_safe_default_protocol_versions`), `roots` as the only trusted
/// roots (`with_root_certificates`) and no client certificate
/// (`with_no_client_auth`).
///
/// The call always succeeds. The one step that can fail is the choice of
/// protocol versions, and it fails only for a provider without a cipher
/// suite for these versions, without a key exchange group, or with a
/// suite that none of its groups serves; the `ring` provider has TLS 1.3
/// suites and elliptic-curve groups that serve all of its suites. Nothing
/// is claimed of what the configuration holds.
#[verifier::external_body]
fn tls_client_config(roots: rustls::RootCertStore) -> (r: Result<rustls::ClientConfig, rustls::Error>)
    ensures
        r is Ok,
{
    let provider = std::sync::Arc::new(rustls::crypto::ring::default_provider());
    let builder = rustls::ClientConfig::builder_with_provider(provider).with_safe_default_protocol_versions()?;
    Ok(builder.with_root_certificates(roots).with_no_client_auth())
}

/// `tokio_postgres_rustls::MakeRustlsConnect::new` wraps a TLS client
/// configuration into a connector for the pool.
pub assume_specification[ tokio_postgres_rustls::MakeRustlsConnect::new ](
    config: rustls::ClientConfig,
) -> (connector: tokio_postgres_rustls::MakeRustlsConnect)
;

/// All that the pool is built from: the settings and the connector.
pub struct PoolPlan {
    settings: PoolSettings,
    certs: Vec<Vec<u8>>,
    connector: Connector,
}

/// The mathematical value of a [`PoolPlan`].
pub struct PlanModel {
    pub settings: PoolModel,
    pub mode: TransportMode,
    /// The certificates that a TLS pool trusts, each in DER; empty for a
    /// plain pool.
    pub certs: Seq<Seq<u8>>,
}

impl PlanModel {
    /// What holds of every plan: the pool is not bounded to zero
    /// connections, a TLS pool trusts at least one certificate and only
    /// certificates that yield a trust anchor, and a plain pool trusts
    /// none.
    pub open spec fn wf(self) -> bool {
        &&& self.settings.max_size != Some(0usize)
        &&& self.mode == TransportMode::Tls ==> usable_roots(self.certs)
        &&& self.mode == TransportMode::Plain ==> self.certs.len() == 0
    }
}

impl View for PoolPlan {
    type V = PlanModel;

    closed spec fn view(&self) -> PlanModel {
        PlanModel {
            settings: self.settings@,
            mode: match self.connector {
                Connector::Plain => TransportMode::Plain,
                Connector::Tls(_) => TransportMode::Tls,
            },
            certs: der_views(self.certs@),
        }
    }
}

/// The outcome of planning, as mathematical values.
pub open spec fn plan_view(outcome: Result<PoolPlan, BootstrapError>) -> Result<PlanModel, ErrorModel> {
    match outcome {
        Ok(plan) => Ok(plan@),
        Err(error) => Err(error@),
    }
}

/// The plan that settings, the certificates to trust and the outcome of
/// building the TLS client configuration give. `configured` says whether
/// that configuration was built; it matters only where there are
/// certificates to trust.
pub open spec fn planned(settings: PoolModel, certs: Seq<Seq<u8>>, configured: bool) -> Result<
    PlanModel,
    ErrorModel,
> {
    if settings.max_size == Some(0usize) {
        Err(ErrorModel::PoolCreation(PoolFault::EmptyPool))
    } else if certs.len() == 0 {
        Ok(PlanModel { settings, mode: TransportMode::Plain, certs })
    } else if configured {
        Ok(PlanModel { settings, mode: TransportMode::Tls, certs })
    } else {
        Err(ErrorModel::PoolCreation(PoolFault::Connector))
    }
}

/// The plan of the pool factory: a pool bounded to zero connections is
/// refused; otherwise the pool is plain where there are no certificates
/// to trust, and TLS, trusting exactly `certs`, where there are.
pub open spec fn factory_plan(settings: PoolModel, certs: Seq<Seq<u8>>) -> Result<PlanModel, ErrorModel> {
    planned(settings, certs, true)
}

impl PoolPlan {
    #[verifier::type_invariant]
    spec fn well_formed(self) -> bool {
        self@.wf()
    }

    /// Plans a TLS pool from the outcome of building the TLS client
    /// configuration for `certs`.
    ///
    /// A pool bounded to zero connections is refused; so is a failed
    /// configuration. Otherwise the plan is for TLS and trusts `certs`.
    fn with_tls(settings: PoolSettings, certs: Vec<Vec<u8>>, configured: Result<
        rustls::ClientConfig,
        rustls::Error,
    >) -> (r: Result<PoolPlan, BootstrapError>)
        requires
            usable_roots(der_views(certs@)),
        ensures
            plan_view(r) == planned(settings@, der_views(certs@), configured is Ok),
    {
        if is_zero(&settings.max_size) {
            return Err(BootstrapError::PoolCreation(PoolFault::EmptyPool));
        }
        match configured {
            Ok(config) => {
                let connector = Connector::Tls(tokio_postgres_rustls::MakeRustlsConnect::new(config));
                Ok(PoolPlan { settings, certs, connector })
            },
            Err(_) => Err(BootstrapError::PoolCreation(PoolFault::Connector)),
        }
    }

    /// Plans the pool for the transport asked for.
    ///
    /// A pool bounded to zero connections is refused. Otherwise the plan
    /// succeeds: for plain transport with the plain connector, for TLS
    /// with a connector whose client configuration is built from the
    /// trust anchors of the store and presents no client certificate.
    pub fn new(settings: PoolSettings, intent: TransportIntent) -> (r: Result<PoolPlan, BootstrapError>)
        ensures
            plan_view(r) == factory_plan(settings@, intent.certificates()),
            r is Ok <==> settings@.max_size != Some(0usize),
            r matches Ok(plan) ==> plan@.wf() && plan@.mode == intent.spec_mode() && plan@.certs
                == intent.certificates(),
            r matches Err(error) ==> error@ == ErrorModel::PoolCreation(PoolFault::EmptyPool),
    {
        match intent {
            TransportIntent::Plain => {
                if is_zero(&settings.max_size) {
                    return Err(BootstrapError::PoolCreation(PoolFault::EmptyPool));
                }
                let certs: Vec<Vec<u8>> = Vec::new();
                assert(der_views(certs@) =~= Seq::<Seq<u8>>::empty());
                Ok(PoolPlan { settings, certs, connector: Connector::Plain })
            },
            TransportIntent::Tls(trust) => {
                let (certs, roots) = trust.into_parts();
                let configured = tls_client_config(roots);
                PoolPlan::with_tls(settings, certs, configured)
            },
        }
    }

    /// The settings the pool is built with.
    pub fn settings(&self) -> (r: &PoolSettings)
        ensures
            r@ == self@.settings,
    {
        &self.settings
    }

    /// The transport of the pool.
    pub fn mode(&self) -> (r: TransportMode)
        ensures
            r == self@.mode,
    {
        match self.connector {
            Connector::Plain => TransportMode::Plain,
            Connector::Tls(_) => TransportMode::Tls,
        }
    }

    /// The certificates that the pool trusts, each in DER; none for a
    /// plain pool.
    pub fn certificates(&self) -> (r: &Vec<Vec<u8>>)
        ensures
            der_views(r@) == self@.certs,
    {
        &self.certs
    }

    /// The connector the pool is built with.
    pub fn connector(&self) -> (r: &Connector)
        ensures
            r is Tls <==> self@.mode == TransportMode::Tls,
    {
        &self.connector
    }
}

/// Whether a pool size is given and is zero.
fn is_zero(size: &Option<usize>) -> (r: bool)
    ensures
        r == (*size == Some(0usize)),
{
    match size {
        Some(n) => *n == 0,
        None => false,
    }
}

} // verus!
