//! The Command Surface: the three externally triggered commands. Each runs
//! as one critical section under the host's registry lock. The work only the
//! host can do — creating the directory on disk, starting and killing OS
//! processes, exiting — sits between or after these calls; everything the
//! registry observes is decided and proved here.

use vstd::prelude::*;

use crate::config::Config;
use crate::paths::opt_view;
use crate::paths::storage_path;
use crate::paths::storage_path_spec;
use crate::laws::lemma_spawn_preserves_wf;
use crate::registry::handles_of;
use crate::registry::next_ordinal_spec;
use crate::registry::spawn_appended;
use crate::registry::wf_registry;
use crate::registry::Instance;
use crate::registry::Registry;

verus! {

/// What SpawnOne decides before the host touches the OS: the ordinal the new
/// instance will carry and the storage path to provision for it.
pub struct SpawnPlan {
    /// The assigned identity: registry size + 1 at planning time.
    pub ordinal: u32,
    /// The storage directory the host must create for this instance.
    pub storage_path: String,
}

/// What the host reports back from provisioning and launching.
pub enum SpawnOutcome {
    /// The process started; the token the host chose for its handle.
    Started(u64),
    /// The storage directory could not be created; the cause.
    ProvisionFailed(String),
    /// The OS refused to create the process; the cause.
    LaunchFailed(String),
}

/// A failed spawn attempt, reported as a diagnostic and never fatal to the
/// manager.
#[derive(Debug)]
pub enum SpawnError {
    /// The storage directory could not be created.
    Provision { path: String, cause: String },
    /// The process could not be started.
    Launch { executable_path: String, cause: String },
}

/// First half of SpawnOne, entered with the registry lock held: assigns the
/// next ordinal from the current size and computes the storage path to
/// provision. Nothing is tracked yet; `finish_spawn` commits or discards.
pub fn plan_spawn(reg: &Registry, config: &Config, home: &Option<String>) -> (plan: SpawnPlan)
    requires
        reg@.len() < u32::MAX,
    ensures
        plan.ordinal == next_ordinal_spec(reg@),
        plan.storage_path@ == storage_path_spec(
            opt_view(config.directory_prefix),
            opt_view(*home),
            plan.ordinal,
        ),
{
    let ordinal = reg.size() as u32 + 1;
    let path = storage_path(config, home, ordinal);
    SpawnPlan { ordinal, storage_path: path }
}

/// Second half of SpawnOne, still under the same lock — the plan must be the
/// one made from this registry state, which holding the lock across both
/// halves guarantees. On a successful launch, appends exactly the planned
/// instance, preserving well-formedness; on any failure, leaves the registry
/// exactly as it was and reports which step failed, with the path or
/// executable it concerned.
pub fn finish_spawn(
    reg: &mut Registry,
    config: &Config,
    plan: SpawnPlan,
    outcome: SpawnOutcome,
) -> (r: Result<u32, SpawnError>)
    requires
        plan.ordinal == next_ordinal_spec(old(reg)@),
    ensures
        wf_registry(old(reg)@) ==> wf_registry(final(reg)@),
        match outcome {
            SpawnOutcome::Started(h) => {
                &&& final(reg)@ == old(reg)@.push(
                    (Instance {
                        ordinal: plan.ordinal,
                        handle: h,
                        storage_path: plan.storage_path,
                    }),
                )
                &&& r == Ok::<u32, SpawnError>(plan.ordinal)
            },
            SpawnOutcome::ProvisionFailed(cause) => {
                &&& final(reg)@ == old(reg)@
                &&& r == Err::<u32, SpawnError>(
                    (SpawnError::Provision { path: plan.storage_path, cause }),
                )
            },
            SpawnOutcome::LaunchFailed(cause) => {
                &&& final(reg)@ == old(reg)@
                &&& r matches Err(e)
                &&& (e matches SpawnError::Launch { executable_path: x, cause: c } && x@
                    == config.executable_path@ && c == cause)
            },
        },
{
    match outcome {
        SpawnOutcome::Started(h) => {
            let inst = Instance {
                ordinal: plan.ordinal,
                handle: h,
                storage_path: plan.storage_path,
            };
            let ghost ginst = inst;
            let ghost pre = reg@;
            reg.append(inst);
            proof {
                if wf_registry(pre) {
                    assert(reg@ == pre.push(ginst) && ginst.ordinal == next_ordinal_spec(pre));
                    assert(spawn_appended(pre, reg@));
                    lemma_spawn_preserves_wf(pre, reg@);
                }
            }
            Ok(plan.ordinal)
        },
        SpawnOutcome::ProvisionFailed(cause) => {
            Err(SpawnError::Provision { path: plan.storage_path, cause })
        },
        SpawnOutcome::LaunchFailed(cause) => {
            Err(
                SpawnError::Launch {
                    executable_path: config.executable_path.clone(),
                    cause,
                },
            )
        },
    }
}

/// The three commands a trigger can invoke, each a zero-argument operation
/// on the manager.
pub enum Command {
    /// Spawn one more instance.
    SpawnOne,
    /// Terminate every tracked instance and keep the manager running.
    TerminateAll,
    /// Terminate every tracked instance and exit the manager itself.
    TerminateAllAndExit,
}

/// The manager process's lifecycle phase.
pub enum ManagerPhase {
    /// The manager runs and answers triggers; the registry may be empty or
    /// not.
    Running,
    /// The manager process has exited.
    Terminated,
}

/// The lifecycle transition each command makes: SpawnOne and TerminateAll
/// keep the manager running whatever their outcome; TerminateAllAndExit is
/// the only way into `Terminated`, and no command leaves it.
pub open spec fn phase_after(phase: ManagerPhase, cmd: Command) -> ManagerPhase {
    match phase {
        ManagerPhase::Terminated => ManagerPhase::Terminated,
        ManagerPhase::Running => match cmd {
            Command::TerminateAllAndExit => ManagerPhase::Terminated,
            Command::SpawnOne => ManagerPhase::Running,
            Command::TerminateAll => ManagerPhase::Running,
        },
    }
}

/// TerminateAll: drains the registry, most recently added first, and hands
/// the host the handle tokens to terminate, in that removal order. The
/// registry is left empty and the manager keeps running; the next spawn is
/// assigned ordinal 1 again.
pub fn terminate_all(reg: &mut Registry) -> (handles: Vec<u64>)
    ensures
        final(reg)@ == Seq::<Instance>::empty(),
        handles@ == handles_of(old(reg)@).reverse(),
        next_ordinal_spec(final(reg)@) == 1,
{
    reg.drain_handles()
}

/// What TerminateAllAndExit decides: the handles to terminate, in insertion
/// order, and the exit code of the manager process itself.
pub struct ExitPlan {
    /// Every tracked instance's handle token, in insertion order.
    pub handles: Vec<u64>,
    /// The manager's exit code: always 0 on this path.
    pub exit_code: i32,
}

/// TerminateAllAndExit: every tracked instance is to be terminated (best
/// effort, failures ignored one by one), in insertion order, before the
/// manager exits with code 0 — also when the registry is empty. The registry
/// is not drained: the manager process is about to end and nothing observes
/// it again.
pub fn terminate_all_and_exit(reg: &Registry) -> (plan: ExitPlan)
    ensures
        plan.handles@ == handles_of(reg@),
        plan.exit_code == 0,
{
    ExitPlan { handles: reg.handles_in_place(), exit_code: 0 }
}

} // verus!
