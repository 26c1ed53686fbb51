//! The run as a state machine: each outside effect (a filesystem probe, the
//! scaffold tool, the network fetch, the placeholder sweep, the file writes)
//! is an action handed to the driver, and the driver reports its outcome as
//! an event. Every decision between outcomes is made here, verified; the
//! driver only performs actions. Any failure aborts the run at once.

use vstd::prelude::*;
use crate::bundle::SourceBundle;
use crate::chains::{spec_resolve, resolve};
use crate::errors::CloneError;
use crate::materialize::{UnitPlan, plan_bundle, plan_matches};
use crate::url::{build_url, spec_build_url};

verus! {

/// What the driver reports back after performing an action.
pub enum Event {
    /// Whether the destination path already exists.
    DestinationChecked { present: bool },
    /// Whether creating the destination directory succeeded.
    DestinationCreated { ok: bool },
    /// Whether the external scaffold tool succeeded.
    ScaffoldFinished { ok: bool },
    /// The response body, or `None` on transport failure or non-success status.
    FetchFinished { body: Option<String> },
    /// What decoding the body yielded.
    SourceDecoded { result: Result<SourceBundle, CloneError> },
    /// Whether sweeping the placeholder files succeeded.
    CleanFinished { ok: bool },
    /// Whether writing the planned directories and files succeeded.
    WriteFinished { ok: bool },
}

/// What the driver must do next.
pub enum Action {
    /// Probe whether the destination path exists.
    CheckDestination,
    /// Create the destination directory.
    CreateDestination,
    /// Run the external scaffold tool on the destination.
    RunScaffold,
    /// Issue a GET request for this URL.
    Fetch { url: String },
    /// Decode this response body and report the result.
    Decode { body: String },
    /// Remove every placeholder file under the destination.
    CleanPlaceholders,
    /// Create the directories and write the files of these plans, in order.
    WriteFiles { plans: Vec<UnitPlan> },
    /// The run is complete.
    Finished,
    /// The run failed; report the error and stop.
    Abort { error: CloneError },
}

/// Where the run stands.
pub enum Phase {
    Resolved,
    DestChecked,
    DestCreated,
    Scaffolded,
    Fetched,
    Decoded { bundle: SourceBundle },
    Cleaned { bundle: SourceBundle },
    Done,
    Failed { error: CloneError },
}

/// Which event a phase awaits.
pub open spec fn phase_expects(phase: Phase, event: Event) -> bool {
    match phase {
        Phase::Resolved => event is DestinationChecked,
        Phase::DestChecked => event is DestinationCreated,
        Phase::DestCreated => event is ScaffoldFinished,
        Phase::Scaffolded => event is FetchFinished,
        Phase::Fetched => event is SourceDecoded,
        Phase::Decoded { .. } => event is CleanFinished,
        Phase::Cleaned { .. } => event is WriteFinished,
        Phase::Done => false,
        Phase::Failed { .. } => false,
    }
}

/// A finished or failed run awaits no further event: every failure is
/// final, with no retry and no partial recovery.
pub proof fn lemma_terminal_phases(phase: Phase, event: Event)
    requires
        phase is Done || phase is Failed,
    ensures
        !phase_expects(phase, event),
{
}

/// One run of the tool: the resolved chain, the request parameters, the
/// destination, and where the run stands.
pub struct Pipeline {
    pub chain_id: u64,
    pub address: String,
    pub path: String,
    pub base_url: String,
    pub phase: Phase,
}

/// The default explorer endpoint.
pub fn default_base_url() -> (r: &'static str)
    ensures
        r@ == "https://api.etherscan.io/v2/api"@,
{
    "https://api.etherscan.io/v2/api"
}

impl Pipeline {
    /// Starts a run: resolves the chain token, keeps the address and
    /// destination, and awaits the destination probe. An unresolvable
    /// token is `UnknownChain` and no run starts.
    pub fn new(chain: &str, address: String, path: String) -> (r: Result<Pipeline, CloneError>)
        ensures
            spec_resolve(chain@) matches Err(e) ==> r matches Err(e2) && e2 == e,
            spec_resolve(chain@) matches Ok(id) ==> r matches Ok(p) && p.chain_id == id
                && p.address == address && p.path == path && p.base_url@
                == "https://api.etherscan.io/v2/api"@ && p.phase is Resolved,
    {
        let chain_id = match resolve(chain) {
            Err(e) => {
                return Err(e);
            },
            Ok(id) => id,
        };
        let base = default_base_url().to_owned();
        Ok(Pipeline { chain_id, address, path, base_url: base, phase: Phase::Resolved })
    }

    /// The first action of a fresh run: probe the destination. Nothing with
    /// a side effect is asked for before that probe answers.
    pub fn first_action(&self) -> (a: Action)
        requires
            self.phase is Resolved,
        ensures
            a is CheckDestination,
    {
        Action::CheckDestination
    }

    /// Advances the run by one event and says what to do next. The
    /// configuration never changes; only the phase moves. A pre-existing
    /// destination aborts with `DestinationExists` before any action with a
    /// side effect is issued; every failed outside step aborts with its
    /// error kind; a decoded bundle is cleaned and then written as planned.
    pub fn step(self, event: Event) -> (r: (Pipeline, Action))
        requires
            phase_expects(self.phase, event),
        ensures
            r.0.chain_id == self.chain_id && r.0.address == self.address && r.0.path == self.path
                && r.0.base_url == self.base_url,
            (match (self.phase, event) {
                (Phase::Resolved, Event::DestinationChecked { present }) => if present {
                    r.0.phase == (Phase::Failed { error: CloneError::DestinationExists }) && r.1
                        == (Action::Abort { error: CloneError::DestinationExists })
                } else {
                    r.0.phase is DestChecked && r.1 is CreateDestination
                },
                (Phase::DestChecked, Event::DestinationCreated { ok }) => if ok {
                    r.0.phase is DestCreated && r.1 is RunScaffold
                } else {
                    r.0.phase == (Phase::Failed { error: CloneError::FileSystemError }) && r.1
                        == (Action::Abort { error: CloneError::FileSystemError })
                },
                (Phase::DestCreated, Event::ScaffoldFinished { ok }) => if ok {
                    r.0.phase is Scaffolded && (r.1 matches Action::Fetch { url } && url@
                        == spec_build_url(self.chain_id as int, self.base_url@, self.address@))
                } else {
                    r.0.phase == (Phase::Failed { error: CloneError::ScaffoldError }) && r.1 == (
                    Action::Abort { error: CloneError::ScaffoldError })
                },
                (Phase::Scaffolded, Event::FetchFinished { body }) => match body {
                    Some(b) => r.0.phase is Fetched && r.1 == (Action::Decode { body: b }),
                    None => r.0.phase == (Phase::Failed { error: CloneError::NetworkError })
                        && r.1 == (Action::Abort { error: CloneError::NetworkError }),
                },
                (Phase::Fetched, Event::SourceDecoded { result }) => match result {
                    Ok(bundle) => r.0.phase == (Phase::Decoded { bundle }) && r.1
                        is CleanPlaceholders,
                    Err(e) => r.0.phase == (Phase::Failed { error: e }) && r.1 == (Action::Abort {
                        error: e,
                    }),
                },
                (Phase::Decoded { bundle }, Event::CleanFinished { ok }) => if ok {
                    r.0.phase == (Phase::Cleaned { bundle }) && (r.1 matches Action::WriteFiles {
                        plans,
                    } && plans@.len() == bundle@.len() && (forall|k: int|
                        0 <= k < bundle@.len() ==> plan_matches(
                            self.path@,
                            bundle@[k],
                            #[trigger] plans@[k],
                        )))
                } else {
                    r.0.phase == (Phase::Failed { error: CloneError::FileSystemError }) && r.1
                        == (Action::Abort { error: CloneError::FileSystemError })
                },
                (Phase::Cleaned { bundle }, Event::WriteFinished { ok }) => if ok {
                    r.0.phase is Done && r.1 is Finished
                } else {
                    r.0.phase == (Phase::Failed { error: CloneError::FileSystemError }) && r.1
                        == (Action::Abort { error: CloneError::FileSystemError })
                },
                _ => true,
            }),
    {
        let Pipeline { chain_id, address, path, base_url, phase } = self;
        match (phase, event) {
            (Phase::Resolved, Event::DestinationChecked { present }) => {
                if present {
                    let e = CloneError::DestinationExists;
                    (
                        Pipeline {
                            chain_id,
                            address,
                            path,
                            base_url,
                            phase: Phase::Failed { error: e },
                        },
                        Action::Abort { error: e },
                    )
                } else {
                    (
                        Pipeline { chain_id, address, path, base_url, phase: Phase::DestChecked },
                        Action::CreateDestination,
                    )
                }
            },
            (Phase::DestChecked, Event::DestinationCreated { ok }) => {
                if ok {
                    (
                        Pipeline { chain_id, address, path, base_url, phase: Phase::DestCreated },
                        Action::RunScaffold,
                    )
                } else {
                    let e = CloneError::FileSystemError;
                    (
                        Pipeline {
                            chain_id,
                            address,
                            path,
                            base_url,
                            phase: Phase::Failed { error: e },
                        },
                        Action::Abort { error: e },
                    )
                }
            },
            (Phase::DestCreated, Event::ScaffoldFinished { ok }) => {
                if ok {
                    let url = build_url(chain_id, base_url.as_str(), address.as_str());
                    (
                        Pipeline { chain_id, address, path, base_url, phase: Phase::Scaffolded },
                        Action::Fetch { url },
                    )
                } else {
                    let e = CloneError::ScaffoldError;
                    (
                        Pipeline {
                            chain_id,
                            address,
                            path,
                            base_url,
                            phase: Phase::Failed { error: e },
                        },
                        Action::Abort { error: e },
                    )
                }
            },
            (Phase::Scaffolded, Event::FetchFinished { body }) => {
                match body {
                    Some(b) => (
                        Pipeline { chain_id, address, path, base_url, phase: Phase::Fetched },
                        Action::Decode { body: b },
                    ),
                    None => {
                        let e = CloneError::NetworkError;
                        (
                            Pipeline {
                                chain_id,
                                address,
                                path,
                                base_url,
                                phase: Phase::Failed { error: e },
                            },
                            Action::Abort { error: e },
                        )
                    },
                }
            },
            (Phase::Fetched, Event::SourceDecoded { result }) => {
                match result {
                    Ok(bundle) => (
                        Pipeline {
                            chain_id,
                            address,
                            path,
                            base_url,
                            phase: Phase::Decoded { bundle },
                        },
                        Action::CleanPlaceholders,
                    ),
                    Err(e) => (
                        Pipeline {
                            chain_id,
                            address,
                            path,
                            base_url,
                            phase: Phase::Failed { error: e },
                        },
                        Action::Abort { error: e },
                    ),
                }
            },
            (Phase::Decoded { bundle }, Event::CleanFinished { ok }) => {
                if ok {
                    let plans = plan_bundle(path.as_str(), &bundle);
                    (
                        Pipeline {
                            chain_id,
                            address,
                            path,
                            base_url,
                            phase: Phase::Cleaned { bundle },
                        },
                        Action::WriteFiles { plans },
                    )
                } else {
                    let e = CloneError::FileSystemError;
                    (
                        Pipeline {
                            chain_id,
                            address,
                            path,
                            base_url,
                            phase: Phase::Failed { error: e },
                        },
                        Action::Abort { error: e },
                    )
                }
            },
            (Phase::Cleaned { bundle }, Event::WriteFinished { ok }) => {
                if ok {
                    (
                        Pipeline { chain_id, address, path, base_url, phase: Phase::Done },
                        Action::Finished,
                    )
                } else {
                    let e = CloneError::FileSystemError;
                    (
                        Pipeline {
                            chain_id,
                            address,
                            path,
                            base_url,
                            phase: Phase::Failed { error: e },
                        },
                        Action::Abort { error: e },
                    )
                }
            },
            _ => {
                proof {
                    assert(false);
                }
                (
                    Pipeline { chain_id, address, path, base_url, phase: Phase::Done },
                    Action::Finished,
                )
            },
        }
    }
}

} // verus!
