use vstd::prelude::*;

use crate::engine::field_or;
use crate::errors::{BridgeError, ErrorModel};

verus! {

/// Per-call engine configuration, passed by value into context construction
/// so that concurrent calls with different keyrings stay independent.
#[derive(Debug)]
pub struct EngineConfig {
    pub binary_path: String,
    pub home_dir: String,
}

/// The mathematical model of an [`EngineConfig`].
pub struct ConfigModel {
    pub binary_path: Seq<char>,
    pub home_dir: Seq<char>,
}

impl View for EngineConfig {
    type V = ConfigModel;

    open spec fn view(&self) -> ConfigModel {
        ConfigModel { binary_path: self.binary_path@, home_dir: self.home_dir@ }
    }
}

/// A session that was acquired and armored but not yet configured. Output
/// armoring is enabled before any configuration is applied.
pub struct PendingContext {
    pub armor: bool,
}

/// A fully configured operation context: ephemeral, standing for exactly one
/// underlying engine session, created per call and never reused.
#[derive(Debug)]
pub struct OperationContext {
    pub armor: bool,
    pub config: EngineConfig,
}

impl OperationContext {
    /// Output armoring is unconditionally enabled on every context.
    pub open spec fn wf(&self) -> bool {
        self.armor
    }
}

/// Whether a protocol-specific session could be acquired from the engine.
pub enum SessionOutcome {
    Acquired,
    Refused,
}

/// Whether the engine accepted the supplied working configuration; a
/// rejection carries the engine's diagnostic.
pub enum ConfigOutcome {
    Applied,
    Rejected(String),
}

/// Begin building a context: a refused session is the coarse
/// engine-unavailable error with no sub-classification; an acquired session
/// has armoring enabled before anything else.
pub fn begin_context(session: SessionOutcome) -> (r: Result<PendingContext, BridgeError>)
    ensures
        session is Acquired <==> r is Ok,
        r matches Ok(p) ==> p.armor,
        r matches Err(e) ==> e@ == ErrorModel::EngineUnavailable,
{
    match session {
        SessionOutcome::Acquired => Ok(PendingContext { armor: true }),
        SessionOutcome::Refused => Err(BridgeError::EngineUnavailable),
    }
}

/// Finish building a context by applying the supplied binary path and home
/// directory as the engine's working configuration. A rejection carries the
/// engine's own diagnostic verbatim; an accepted configuration is held in
/// the context unchanged.
pub fn configure_context(pending: PendingContext, config: EngineConfig, applied: ConfigOutcome) -> (r:
    Result<OperationContext, BridgeError>)
    requires
        pending.armor,
    ensures
        applied is Applied <==> r is Ok,
        r matches Ok(c) ==> c.wf() && c.config@ == config@,
        applied matches ConfigOutcome::Rejected(d) ==> r matches Err(e) && e@
            == ErrorModel::ConfigurationRejected(d@),
{
    match applied {
        ConfigOutcome::Applied => Ok(OperationContext { armor: pending.armor, config }),
        ConfigOutcome::Rejected(d) => Err(BridgeError::ConfigurationRejected(d)),
    }
}

/// Round trip of an accepted configuration: a context built from it holds
/// the configured home directory and binary path unchanged, and an
/// engine-info query whose field reads return exactly those configured
/// values reports them back verbatim.
pub proof fn lemma_engine_info_round_trip(config: ConfigModel)
    ensures
        field_or(Some(config.home_dir), "not found"@) == config.home_dir,
        field_or(Some(config.binary_path), "not found"@) == config.binary_path,
{
}

} // verus!
