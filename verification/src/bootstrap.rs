//! The bootstrap as a state machine: from the start to a diagnostic query
//! answered, or to the first failure.
//!
//! The caller owns the outside world. It asks [`Bootstrap::action`] what to
//! do, does it, and reports the outcome to [`Bootstrap::step`]. Every
//! decision is taken here.

use vstd::prelude::*;
use vstd::string::StringExecFns;

use crate::error::{BootstrapError, ConfigFault, ErrorModel, PoolFault, SqlOperation};
use crate::pool::{factory_plan, PoolPlan, TransportIntent, TransportMode};
use crate::runner::{diagnostic_lines, diagnostic_query, leading_text, query_text, row_texts, texts, RunStage};
use crate::settings::{resolved, text_of, RawModel, RawSettings, Settings, SettingsModel};
use crate::trust::{pem_certificates, trusted_certificates, usable_roots, TrustStore};

verus! {

/// What the caller reports back.
#[derive(Clone, Debug, PartialEq, Eq)]
pub enum Event {
    /// The pending action asked for no outside work.
    Proceed,
    /// The environment was read; nothing where it could not be read.
    EnvironmentRead(Option<RawSettings>),
    /// The CA certificate file was read; nothing where it could not be
    /// opened or read.
    CertificateRead(Option<Vec<u8>>),
    /// The pool library was asked for a pool; whether it gave one.
    PoolBuilt(bool),
    /// A connection was asked of the pool; whether one came.
    CheckedOut(bool),
    /// The statement was sent to be prepared; whether it was.
    Prepared(bool),
    /// The statement was executed; nothing where that failed, otherwise
    /// for each row its first column as text, or nothing where the column
    /// is not text. Rows after the first one that is not text are not
    /// looked at, and may be left out.
    Executed(Option<Vec<Option<String>>>),
}

/// The mathematical value of an [`Event`].
pub enum EventModel {
    Proceed,
    EnvironmentRead(Option<RawModel>),
    CertificateRead(Option<Seq<u8>>),
    PoolBuilt(bool),
    CheckedOut(bool),
    Prepared(bool),
    Executed(Option<Seq<Option<Seq<char>>>>),
}

impl View for Event {
    type V = EventModel;

    open spec fn view(&self) -> EventModel {
        match *self {
            Event::Proceed => EventModel::Proceed,
            Event::EnvironmentRead(read) => EventModel::EnvironmentRead(
                match read {
                    Some(raw) => Some(raw@),
                    None => None,
                },
            ),
            Event::CertificateRead(read) => EventModel::CertificateRead(
                match read {
                    Some(bytes) => Some(bytes@),
                    None => None,
                },
            ),
            Event::PoolBuilt(built) => EventModel::PoolBuilt(built),
            Event::CheckedOut(connected) => EventModel::CheckedOut(connected),
            Event::Prepared(prepared) => EventModel::Prepared(prepared),
            Event::Executed(outcome) => EventModel::Executed(
                match outcome {
                    Some(rows) => Some(row_texts(rows@)),
                    None => None,
                },
            ),
        }
    }
}

/// What the caller is to do next.
#[derive(Clone, Debug, PartialEq, Eq)]
pub enum Action {
    /// Read the settings from the environment; report
    /// [`Event::EnvironmentRead`].
    ReadEnvironment,
    /// Read the whole file at `path`; report [`Event::CertificateRead`].
    ReadCertificate { path: String },
    /// Nothing to do outside; report [`Event::Proceed`].
    Proceed,
    /// Build the pool from [`Bootstrap::plan`]; report
    /// [`Event::PoolBuilt`].
    CreatePool,
    /// Check a connection out of the pool; report [`Event::CheckedOut`].
    Checkout,
    /// Prepare the statement `sql`; report [`Event::Prepared`].
    Prepare { sql: String },
    /// Execute the prepared statement without parameters; report
    /// [`Event::Executed`].
    Execute,
    /// Log each of `lines` at the informational level, then end the
    /// process with `code`.
    Finish { lines: Vec<String>, code: i32 },
}

/// The mathematical value of an [`Action`].
pub enum ActionModel {
    ReadEnvironment,
    ReadCertificate { path: Seq<char> },
    Proceed,
    CreatePool,
    Checkout,
    Prepare { sql: Seq<char> },
    Execute,
    Finish { lines: Seq<Seq<char>>, code: i32 },
}

impl View for Action {
    type V = ActionModel;

    open spec fn view(&self) -> ActionModel {
        match *self {
            Action::ReadEnvironment => ActionModel::ReadEnvironment,
            Action::ReadCertificate { path } => ActionModel::ReadCertificate { path: path@ },
            Action::Proceed => ActionModel::Proceed,
            Action::CreatePool => ActionModel::CreatePool,
            Action::Checkout => ActionModel::Checkout,
            Action::Prepare { sql } => ActionModel::Prepare { sql: sql@ },
            Action::Execute => ActionModel::Execute,
            Action::Finish { lines, code } => ActionModel::Finish { lines: texts(lines@), code },
        }
    }
}

/// Where a bootstrap stands.
#[derive(Clone, Copy, Debug, PartialEq, Eq, Structural)]
pub enum Phase {
    Start,
    ConfigResolved,
    TrustBuilt,
    TrustSkipped,
    PoolPlanned,
    PoolCreated,
    QueryExecuted,
    Aborted,
}

/// The mathematical value of a [`Bootstrap`].
pub enum BootstrapModel {
    /// Nothing has happened yet.
    Start,
    /// The settings are bound.
    ConfigResolved { settings: SettingsModel },
    /// A CA certificate path was given and its file made a trust store of
    /// `certs`.
    TrustBuilt { settings: SettingsModel, certs: Seq<Seq<u8>> },
    /// No CA certificate path was given.
    TrustSkipped { settings: SettingsModel },
    /// The connector is chosen, and the pool library is to build the pool.
    PoolPlanned { settings: SettingsModel, mode: TransportMode, certs: Seq<Seq<u8>> },
    /// The pool exists, with connections of `mode`; the diagnostic run is
    /// at `stage`.
    PoolCreated { settings: SettingsModel, mode: TransportMode, certs: Seq<Seq<u8>>, stage: RunStage },
    /// The diagnostic query was answered; `lines` are its rows.
    QueryExecuted { lines: Seq<Seq<char>> },
    /// The bootstrap failed with `error`; `lines` are the rows that were
    /// read before the failure.
    Aborted { error: ErrorModel, lines: Seq<Seq<char>> },
}

impl BootstrapModel {
    /// Where the bootstrap stands.
    pub open spec fn phase(self) -> Phase {
        match self {
            BootstrapModel::Start => Phase::Start,
            BootstrapModel::ConfigResolved { .. } => Phase::ConfigResolved,
            BootstrapModel::TrustBuilt { .. } => Phase::TrustBuilt,
            BootstrapModel::TrustSkipped { .. } => Phase::TrustSkipped,
            BootstrapModel::PoolPlanned { .. } => Phase::PoolPlanned,
            BootstrapModel::PoolCreated { .. } => Phase::PoolCreated,
            BootstrapModel::QueryExecuted { .. } => Phase::QueryExecuted,
            BootstrapModel::Aborted { .. } => Phase::Aborted,
        }
    }

    /// What holds of every bootstrap that started at the start.
    ///
    /// Trust is skipped only where no CA certificate path was given, and
    /// built only where one was. A pool, planned or created, is TLS exactly
    /// where a CA certificate path was given; a TLS pool trusts at least
    /// one certificate, a plain pool none; no pool is bounded to zero
    /// connections. After a failure, rows were read only where the failure
    /// is a row that could not be decoded, and they are the rows before
    /// it.
    pub open spec fn coherent(self) -> bool {
        match self {
            BootstrapModel::TrustBuilt { settings, certs } => settings.db_ca_cert is Some && usable_roots(certs),
            BootstrapModel::TrustSkipped { settings } => settings.db_ca_cert is None,
            BootstrapModel::PoolPlanned { settings, mode, certs } => pool_matches_settings(settings, mode, certs),
            BootstrapModel::PoolCreated { settings, mode, certs, .. } => pool_matches_settings(
                settings,
                mode,
                certs,
            ),
            BootstrapModel::Aborted { error, lines } => match error {
                ErrorModel::Decode { row } => lines.len() == row,
                _ => lines.len() == 0,
            },
            _ => true,
        }
    }

    /// What the caller is to do in this state.
    pub open spec fn pending(self) -> ActionModel {
        match self {
            BootstrapModel::Start => ActionModel::ReadEnvironment,
            BootstrapModel::ConfigResolved { settings } => match settings.db_ca_cert {
                Some(path) => ActionModel::ReadCertificate { path },
                None => ActionModel::Proceed,
            },
            BootstrapModel::TrustBuilt { .. } => ActionModel::Proceed,
            BootstrapModel::TrustSkipped { .. } => ActionModel::Proceed,
            BootstrapModel::PoolPlanned { .. } => ActionModel::CreatePool,
            BootstrapModel::PoolCreated { stage, .. } => match stage {
                RunStage::Checkout => ActionModel::Checkout,
                RunStage::Prepare => ActionModel::Prepare { sql: diagnostic_query() },
                RunStage::Execute => ActionModel::Execute,
            },
            BootstrapModel::QueryExecuted { lines } => ActionModel::Finish { lines, code: 0 },
            BootstrapModel::Aborted { lines, .. } => ActionModel::Finish { lines, code: 1 },
        }
    }
}

/// Whether a pool's transport is the one the settings ask for.
pub open spec fn pool_matches_settings(settings: SettingsModel, mode: TransportMode, certs: Seq<Seq<u8>>) -> bool {
    &&& mode == TransportMode::Tls <==> settings.db_ca_cert is Some
    &&& mode == TransportMode::Tls ==> usable_roots(certs)
    &&& mode == TransportMode::Plain ==> certs.len() == 0
    &&& settings.pool_config.max_size != Some(0usize)
}

/// A failure before any row was read.
pub open spec fn failed(error: ErrorModel) -> BootstrapModel {
    BootstrapModel::Aborted { error, lines: Seq::empty() }
}

/// The state that the pool factory leaves: a planned pool, or a failure.
pub open spec fn after_planning(settings: SettingsModel, certs: Seq<Seq<u8>>) -> BootstrapModel {
    match factory_plan(settings.pool_config, certs) {
        Ok(plan) => BootstrapModel::PoolPlanned { settings, mode: plan.mode, certs: plan.certs },
        Err(error) => failed(error),
    }
}

/// The state that follows `pre` on `event`.
///
/// An event that does not answer the pending action leaves the state as
/// it is.
pub open spec fn next(pre: BootstrapModel, event: EventModel) -> BootstrapModel {
    match (pre, event) {
        (BootstrapModel::Start, EventModel::EnvironmentRead(None)) => failed(
            ErrorModel::Config(ConfigFault::Unreadable),
        ),
        (BootstrapModel::Start, EventModel::EnvironmentRead(Some(raw))) => match resolved(raw) {
            Ok(settings) => BootstrapModel::ConfigResolved { settings },
            Err(error) => failed(error),
        },
        (BootstrapModel::ConfigResolved { settings }, EventModel::Proceed) => if settings.db_ca_cert is None {
            BootstrapModel::TrustSkipped { settings }
        } else {
            pre
        },
        (BootstrapModel::ConfigResolved { settings }, EventModel::CertificateRead(read)) => match settings.db_ca_cert {
            None => pre,
            Some(path) => match read {
                None => failed(ErrorModel::CertificateIo { path }),
                Some(bytes) => match trusted_certificates(bytes) {
                    Some(certs) => BootstrapModel::TrustBuilt { settings, certs },
                    None => failed(ErrorModel::CertificateParse { path }),
                },
            },
        },
        (BootstrapModel::TrustSkipped { settings }, EventModel::Proceed) => after_planning(
            settings,
            Seq::empty(),
        ),
        (BootstrapModel::TrustBuilt { settings, certs }, EventModel::Proceed) => after_planning(
            settings,
            certs,
        ),
        (BootstrapModel::PoolPlanned { settings, mode, certs }, EventModel::PoolBuilt(built)) => if built {
            BootstrapModel::PoolCreated { settings, mode, certs, stage: RunStage::Checkout }
        } else {
            failed(ErrorModel::PoolCreation(PoolFault::Rejected))
        },
        (
            BootstrapModel::PoolCreated { settings, mode, certs, stage: RunStage::Checkout },
            EventModel::CheckedOut(connected),
        ) => if connected {
            BootstrapModel::PoolCreated { settings, mode, certs, stage: RunStage::Prepare }
        } else {
            failed(ErrorModel::Connection)
        },
        (
            BootstrapModel::PoolCreated { settings, mode, certs, stage: RunStage::Prepare },
            EventModel::Prepared(prepared),
        ) => if prepared {
            BootstrapModel::PoolCreated { settings, mode, certs, stage: RunStage::Execute }
        } else {
            failed(ErrorModel::Query(SqlOperation::Prepare))
        },
        (BootstrapModel::PoolCreated { stage: RunStage::Execute, .. }, EventModel::Executed(None)) => failed(
            ErrorModel::Query(SqlOperation::Execute),
        ),
        (BootstrapModel::PoolCreated { stage: RunStage::Execute, .. }, EventModel::Executed(Some(rows))) => {
            let lines = leading_text(rows);
            if lines.len() == rows.len() {
                BootstrapModel::QueryExecuted { lines }
            } else {
                BootstrapModel::Aborted { error: ErrorModel::Decode { row: lines.len() }, lines }
            }
        },
        _ => pre,
    }
}

enum State {
    Start,
    ConfigResolved { settings: Settings },
    TrustBuilt { settings: Settings, trust: TrustStore },
    TrustSkipped { settings: Settings },
    PoolPlanned { ca_cert: Option<String>, plan: PoolPlan },
    PoolCreated { ca_cert: Option<String>, plan: PoolPlan, stage: RunStage },
    QueryExecuted { lines: Vec<String> },
    Aborted { error: BootstrapError, lines: Vec<String> },
}

impl State {
    spec fn model(self) -> BootstrapModel {
        match self {
            State::Start => BootstrapModel::Start,
            State::ConfigResolved { settings } => BootstrapModel::ConfigResolved { settings: settings@ },
            State::TrustBuilt { settings, trust } => BootstrapModel::TrustBuilt { settings: settings@, certs: trust@ },
            State::TrustSkipped { settings } => BootstrapModel::TrustSkipped { settings: settings@ },
            State::PoolPlanned { ca_cert, plan } => BootstrapModel::PoolPlanned {
                settings: SettingsModel { pool_config: plan@.settings, db_ca_cert: text_of(ca_cert) },
                mode: plan@.mode,
                certs: plan@.certs,
            },
            State::PoolCreated { ca_cert, plan, stage } => BootstrapModel::PoolCreated {
                settings: SettingsModel { pool_config: plan@.settings, db_ca_cert: text_of(ca_cert) },
                mode: plan@.mode,
                certs: plan@.certs,
                stage,
            },
            State::QueryExecuted { lines } => BootstrapModel::QueryExecuted { lines: texts(lines@) },
            State::Aborted { error, lines } => BootstrapModel::Aborted { error: error@, lines: texts(lines@) },
        }
    }

    /// A failure before any row was read.
    fn failed(error: BootstrapError) -> (r: State)
        ensures
            r.model() == failed(error@),
    {
        let lines: Vec<String> = Vec::new();
        assert(texts(lines@) =~= Seq::<Seq<char>>::empty());
        State::Aborted { error, lines }
    }

    /// Runs the pool factory on the settings and the transport asked for.
    fn plan_pool(settings: Settings, intent: TransportIntent) -> (r: State)
        ensures
            r.model() == after_planning(settings@, intent.certificates()),
    {
        let Settings { pool_config, db_ca_cert } = settings;
        match PoolPlan::new(pool_config, intent) {
            Ok(plan) => State::PoolPlanned { ca_cert: db_ca_cert, plan },
            Err(error) => State::failed(error),
        }
    }
}

/// A bootstrap under way.
pub struct Bootstrap {
    state: State,
}

impl View for Bootstrap {
    type V = BootstrapModel;

    closed spec fn view(&self) -> BootstrapModel {
        self.state.model()
    }
}

/// A copy of a list of texts.
fn copy_lines(lines: &Vec<String>) -> (r: Vec<String>)
    ensures
        texts(r@) == texts(lines@),
{
    let mut copy: Vec<String> = Vec::new();
    let mut i: usize = 0;
    while i < lines.len()
        invariant
            0 <= i <= lines.len(),
            copy@.len() == i,
            forall|k: int| 0 <= k < i ==> copy@[k]@ == lines@[k]@,
        decreases lines.len() - i,
    {
        copy.push(lines[i].clone());
        i = i + 1;
    }
    assert(texts(copy@) =~= texts(lines@));
    copy
}

impl Bootstrap {
    #[verifier::type_invariant]
    spec fn well_formed(self) -> bool {
        self@.coherent()
    }

    /// A bootstrap at the start.
    pub fn new() -> (r: Bootstrap)
        ensures
            r@ == BootstrapModel::Start,
    {
        Bootstrap { state: State::Start }
    }

    /// Where the bootstrap stands.
    pub fn phase(&self) -> (r: Phase)
        ensures
            r == self@.phase(),
    {
        match &self.state {
            State::Start => Phase::Start,
            State::ConfigResolved { .. } => Phase::ConfigResolved,
            State::TrustBuilt { .. } => Phase::TrustBuilt,
            State::TrustSkipped { .. } => Phase::TrustSkipped,
            State::PoolPlanned { .. } => Phase::PoolPlanned,
            State::PoolCreated { .. } => Phase::PoolCreated,
            State::QueryExecuted { .. } => Phase::QueryExecuted,
            State::Aborted { .. } => Phase::Aborted,
        }
    }

    /// What the caller is to do next.
    pub fn action(&self) -> (r: Action)
        ensures
            r@ == self@.pending(),
    {
        match &self.state {
            State::Start => Action::ReadEnvironment,
            State::ConfigResolved { settings } => match &settings.db_ca_cert {
                Some(path) => Action::ReadCertificate { path: path.clone() },
                None => Action::Proceed,
            },
            State::TrustBuilt { .. } => Action::Proceed,
            State::TrustSkipped { .. } => Action::Proceed,
            State::PoolPlanned { .. } => Action::CreatePool,
            State::PoolCreated { stage, .. } => match stage {
                RunStage::Checkout => Action::Checkout,
                RunStage::Prepare => Action::Prepare { sql: String::from_str(query_text()) },
                RunStage::Execute => Action::Execute,
            },
            State::QueryExecuted { lines } => Action::Finish { lines: copy_lines(lines), code: 0 },
            State::Aborted { lines, .. } => Action::Finish { lines: copy_lines(lines), code: 1 },
        }
    }

    /// Takes the outcome of the pending action and moves on.
    ///
    /// The new state is the one that [`next`] gives, and it is coherent
    /// again.
    pub fn step(self, event: Event) -> (r: Bootstrap)
        ensures
            r@ == next(self@, event@),
            self@.coherent(),
            r@.coherent(),
    {
        proof {
            use_type_invariant(&self);
            step_keeps_coherence(self@, event@);
        }
        let state = match self.state {
            State::Start => match event {
                Event::EnvironmentRead(None) => State::failed(BootstrapError::Config(ConfigFault::Unreadable)),
                Event::EnvironmentRead(Some(raw)) => match Settings::resolve(raw) {
                    Ok(settings) => State::ConfigResolved { settings },
                    Err(error) => State::failed(error),
                },
                _ => State::Start,
            },
            State::ConfigResolved { settings } => match event {
                Event::Proceed => if settings.db_ca_cert.is_none() {
                    State::TrustSkipped { settings }
                } else {
                    State::ConfigResolved { settings }
                },
                Event::CertificateRead(read) => {
                    let path = match &settings.db_ca_cert {
                        Some(path) => Some(path.clone()),
                        None => None,
                    };
                    match path {
                        None => State::ConfigResolved { settings },
                        Some(path) => match read {
                            None => State::failed(BootstrapError::CertificateIo { path }),
                            Some(bytes) => match TrustStore::from_pem(path.as_str(), bytes.as_slice()) {
                                Ok(trust) => State::TrustBuilt { settings, trust },
                                Err(error) => State::failed(error),
                            },
                        },
                    }
                },
                _ => State::ConfigResolved { settings },
            },
            State::TrustSkipped { settings } => match event {
                Event::Proceed => State::plan_pool(settings, TransportIntent::Plain),
                _ => State::TrustSkipped { settings },
            },
            State::TrustBuilt { settings, trust } => match event {
                Event::Proceed => State::plan_pool(settings, TransportIntent::Tls(trust)),
                _ => State::TrustBuilt { settings, trust },
            },
            State::PoolPlanned { ca_cert, plan } => match event {
                Event::PoolBuilt(true) => State::PoolCreated { ca_cert, plan, stage: RunStage::Checkout },
                Event::PoolBuilt(false) => State::failed(BootstrapError::PoolCreation(PoolFault::Rejected)),
                _ => State::PoolPlanned { ca_cert, plan },
            },
            State::PoolCreated { ca_cert, plan, stage } => match (stage, event) {
                (RunStage::Checkout, Event::CheckedOut(true)) => State::PoolCreated {
                    ca_cert,
                    plan,
                    stage: RunStage::Prepare,
                },
                (RunStage::Checkout, Event::CheckedOut(false)) => State::failed(BootstrapError::Connection),
                (RunStage::Prepare, Event::Prepared(true)) => State::PoolCreated {
                    ca_cert,
                    plan,
                    stage: RunStage::Execute,
                },
                (RunStage::Prepare, Event::Prepared(false)) => State::failed(
                    BootstrapError::Query(SqlOperation::Prepare),
                ),
                (RunStage::Execute, Event::Executed(None)) => State::failed(
                    BootstrapError::Query(SqlOperation::Execute),
                ),
                (RunStage::Execute, Event::Executed(Some(rows))) => {
                    let lines = diagnostic_lines(&rows);
                    if lines.len() == rows.len() {
                        State::QueryExecuted { lines }
                    } else {
                        State::Aborted { error: BootstrapError::Decode { row: lines.len() }, lines }
                    }
                },
                _ => State::PoolCreated { ca_cert, plan, stage },
            },
            State::QueryExecuted { lines } => State::QueryExecuted { lines },
            State::Aborted { error, lines } => State::Aborted { error, lines },
        };
        Bootstrap { state }
    }

    /// The plan of the pool, once there is one.
    pub fn plan(&self) -> (r: Option<&PoolPlan>)
        ensures
            match self@ {
                BootstrapModel::PoolPlanned { settings, mode, certs } => r is Some && r->0@.settings
                    == settings.pool_config && r->0@.mode == mode && r->0@.certs == certs,
                BootstrapModel::PoolCreated { settings, mode, certs, .. } => r is Some && r->0@.settings
                    == settings.pool_config && r->0@.mode == mode && r->0@.certs == certs,
                _ => r is None,
            },
    {
        match &self.state {
            State::PoolPlanned { plan, .. } => Some(plan),
            State::PoolCreated { plan, .. } => Some(plan),
            _ => None,
        }
    }

    /// The failure that ended the bootstrap, if one did.
    pub fn error(&self) -> (r: Option<&BootstrapError>)
        ensures
            match self@ {
                BootstrapModel::Aborted { error, .. } => r is Some && r->0@ == error,
                _ => r is None,
            },
    {
        match &self.state {
            State::Aborted { error, .. } => Some(error),
            _ => None,
        }
    }
}

/// A step leads from a coherent state to a coherent state.
pub proof fn step_keeps_coherence(pre: BootstrapModel, event: EventModel)
    requires
        pre.coherent(),
    ensures
        next(pre, event).coherent(),
{
    match (pre, event) {
        (BootstrapModel::PoolCreated { stage: RunStage::Execute, .. }, EventModel::Executed(Some(rows))) => {
            crate::runner::leading_text_is_the_text_prefix(rows);
        },
        _ => {},
    }
}

/// How far a bootstrap has come: a number that grows with every step that
/// changes the state.
pub open spec fn progress(state: BootstrapModel) -> nat {
    match state {
        BootstrapModel::Start => 0,
        BootstrapModel::ConfigResolved { .. } => 1,
        BootstrapModel::TrustBuilt { .. } => 2,
        BootstrapModel::TrustSkipped { .. } => 2,
        BootstrapModel::PoolPlanned { .. } => 3,
        BootstrapModel::PoolCreated { stage: RunStage::Checkout, .. } => 4,
        BootstrapModel::PoolCreated { stage: RunStage::Prepare, .. } => 5,
        BootstrapModel::PoolCreated { stage: RunStage::Execute, .. } => 6,
        BootstrapModel::QueryExecuted { .. } => 7,
        BootstrapModel::Aborted { .. } => 7,
    }
}

/// The state that a bootstrap is in after a list of events, taken one
/// after the other from the start.
pub open spec fn run(events: Seq<EventModel>) -> BootstrapModel
    decreases events.len(),
{
    if events.len() == 0 {
        BootstrapModel::Start
    } else {
        next(run(events.drop_last()), events.last())
    }
}

/// Every transition is one-way: a step leaves the state as it is or takes
/// the bootstrap further, never back.
pub proof fn steps_go_forward(pre: BootstrapModel, event: EventModel)
    ensures
        next(pre, event) == pre || progress(next(pre, event)) > progress(pre),
{
}

/// Nothing follows the end: once the query is answered or the bootstrap
/// has failed, no event changes the state.
pub proof fn the_end_is_final(pre: BootstrapModel, event: EventModel)
    requires
        pre is QueryExecuted || pre is Aborted,
    ensures
        next(pre, event) == pre,
{
}

/// Whatever the caller reports, in whatever order, the state is coherent.
pub proof fn every_run_is_coherent(events: Seq<EventModel>)
    ensures
        run(events).coherent(),
    decreases events.len(),
{
    if events.len() > 0 {
        every_run_is_coherent(events.drop_last());
        step_keeps_coherence(run(events.drop_last()), events.last());
    }
}

/// In every run, a pool is plain exactly where the settings give no CA
/// certificate path, and TLS exactly where they give one; a TLS pool
/// trusts at least one certificate.
pub proof fn pool_transport_follows_ca_path(events: Seq<EventModel>)
    ensures
        match run(events) {
            BootstrapModel::PoolPlanned { settings, mode, certs } => {
                &&& mode == TransportMode::Plain <==> settings.db_ca_cert is None
                &&& mode == TransportMode::Tls <==> settings.db_ca_cert is Some
                &&& mode == TransportMode::Tls ==> certs.len() > 0
            },
            BootstrapModel::PoolCreated { settings, mode, certs, .. } => {
                &&& mode == TransportMode::Plain <==> settings.db_ca_cert is None
                &&& mode == TransportMode::Tls <==> settings.db_ca_cert is Some
                &&& mode == TransportMode::Tls ==> certs.len() > 0
            },
            _ => true,
        },
{
    every_run_is_coherent(events);
}

/// A pool keeps its transport: while the pool exists, no step changes
/// its settings, its mode or the certificates it trusts.
pub proof fn pool_transport_is_fixed(pre: BootstrapModel, event: EventModel)
    requires
        pre is PoolPlanned || pre is PoolCreated,
    ensures
        match next(pre, event) {
            BootstrapModel::PoolPlanned { settings, mode, certs } => (pre matches BootstrapModel::PoolPlanned {
                settings: s,
                mode: m,
                certs: c,
            } && settings == s && mode == m && certs == c),
            BootstrapModel::PoolCreated { settings, mode, certs, .. } => match pre {
                BootstrapModel::PoolPlanned { settings: s, mode: m, certs: c } => settings == s && mode == m
                    && certs == c,
                BootstrapModel::PoolCreated { settings: s, mode: m, certs: c, .. } => settings == s && mode == m
                    && certs == c,
                _ => false,
            },
            _ => true,
        },
{
}

/// Settings without a CA certificate path lead to a plain pool: from the
/// start, reading the environment, skipping trust, planning and building
/// the pool end in a pool of plain transport with the resolved settings.
/// A pool size of zero ends in a failure instead.
pub proof fn without_ca_path_the_pool_is_plain(raw: RawModel)
    requires
        resolved(raw) is Ok,
        resolved(raw)->Ok_0.db_ca_cert is None,
    ensures
        ({
            let settings = resolved(raw)->Ok_0;
            let read = next(BootstrapModel::Start, EventModel::EnvironmentRead(Some(raw)));
            let skipped = next(read, EventModel::Proceed);
            let planned = next(skipped, EventModel::Proceed);
            let created = next(planned, EventModel::PoolBuilt(true));
            &&& read == BootstrapModel::ConfigResolved { settings }
            &&& skipped == BootstrapModel::TrustSkipped { settings }
            &&& settings.pool_config.max_size != Some(0usize) ==> created == BootstrapModel::PoolCreated {
                settings,
                mode: TransportMode::Plain,
                certs: Seq::empty(),
                stage: RunStage::Checkout,
            }
            &&& settings.pool_config.max_size == Some(0usize) ==> created == failed(
                ErrorModel::PoolCreation(PoolFault::EmptyPool),
            )
        }),
{
}

/// Settings with a CA certificate path, and a file whose certificates
/// make a trust store, lead to a TLS pool that trusts exactly the
/// certificates of the file, provided the pool size is not zero.
pub proof fn with_ca_path_the_pool_trusts_the_file(raw: RawModel, bytes: Seq<u8>)
    requires
        resolved(raw) is Ok,
        resolved(raw)->Ok_0.db_ca_cert is Some,
        resolved(raw)->Ok_0.pool_config.max_size != Some(0usize),
        trusted_certificates(bytes) is Some,
    ensures
        ({
            let settings = resolved(raw)->Ok_0;
            let certs = trusted_certificates(bytes)->0;
            let read = next(BootstrapModel::Start, EventModel::EnvironmentRead(Some(raw)));
            let built = next(read, EventModel::CertificateRead(Some(bytes)));
            let planned = next(built, EventModel::Proceed);
            let created = next(planned, EventModel::PoolBuilt(true));
            &&& built == BootstrapModel::TrustBuilt { settings, certs }
            &&& created == BootstrapModel::PoolCreated {
                settings,
                mode: TransportMode::Tls,
                certs,
                stage: RunStage::Checkout,
            }
            &&& certs == pem_certificates(bytes)->0
        }),
{
}

/// A CA certificate file that cannot be read ends the bootstrap with a
/// certificate I/O failure that names the path, and the caller is told to
/// finish: no pool is planned.
pub proof fn unreadable_certificate_aborts(settings: SettingsModel)
    requires
        settings.db_ca_cert is Some,
    ensures
        ({
            let after = next(
                BootstrapModel::ConfigResolved { settings },
                EventModel::CertificateRead(None),
            );
            &&& after == failed(ErrorModel::CertificateIo { path: settings.db_ca_cert->0 })
            &&& after.pending() == ActionModel::Finish { lines: Seq::empty(), code: 1 }
        }),
{
}

/// A CA certificate file with a malformed section, without a certificate,
/// or with a certificate that yields no trust anchor ends the bootstrap
/// with a certificate parse failure that names the path: there is no
/// falling back to plain transport.
pub proof fn unusable_certificate_aborts(settings: SettingsModel, bytes: Seq<u8>)
    requires
        settings.db_ca_cert is Some,
        trusted_certificates(bytes) is None,
    ensures
        ({
            let after = next(
                BootstrapModel::ConfigResolved { settings },
                EventModel::CertificateRead(Some(bytes)),
            );
            &&& after == failed(ErrorModel::CertificateParse { path: settings.db_ca_cert->0 })
            &&& after.pending() == ActionModel::Finish { lines: Seq::empty(), code: 1 }
        }),
{
}

/// A fault in the environment values ends the bootstrap at its first
/// step, before any file is asked for and before any pool is planned.
pub proof fn config_fault_aborts_at_once(raw: RawModel)
    requires
        resolved(raw) is Err,
    ensures
        ({
            let after = next(BootstrapModel::Start, EventModel::EnvironmentRead(Some(raw)));
            &&& after == failed(resolved(raw)->Err_0)
            &&& after.pending() == ActionModel::Finish { lines: Seq::empty(), code: 1 }
        }),
{
}

/// The process ends with code 0 exactly where the diagnostic query was
/// answered and every row was text; rows are logged in the order in
/// which they came.
pub proof fn success_is_an_answered_query(rows: Seq<Option<Seq<char>>>, pre: BootstrapModel)
    requires
        pre matches BootstrapModel::PoolCreated { stage: RunStage::Execute, .. },
    ensures
        ({
            let after = next(pre, EventModel::Executed(Some(rows)));
            let all_text = forall|i: int| 0 <= i < rows.len() ==> (#[trigger] rows[i]) is Some;
            &&& all_text ==> after.pending() == ActionModel::Finish { lines: leading_text(rows), code: 0 }
            &&& all_text ==> leading_text(rows).len() == rows.len()
            &&& !all_text ==> after.pending() == ActionModel::Finish { lines: leading_text(rows), code: 1 }
            &&& !all_text ==> (after matches BootstrapModel::Aborted { error: ErrorModel::Decode { row }, .. }
                && row < rows.len() && rows[row as int] is None)
        }),
{
    crate::runner::leading_text_is_the_text_prefix(rows);
    if forall|i: int| 0 <= i < rows.len() ==> (#[trigger] rows[i]) is Some {
        crate::runner::all_text_is_logged(rows);
    } else if leading_text(rows).len() == rows.len() {
        assert forall|i: int| 0 <= i < rows.len() implies (#[trigger] rows[i]) is Some by {
            assert(rows[i] == Some(leading_text(rows)[i]));
        }
    }
}

} // verus!
