//! The compile-and-cleanup workflow as a state machine.
//!
//! Every decision of the workflow is made here; the unverified driver
//! only carries out the returned action (switch the toolchain, run
//! the build command, read or delete files) and reports what happened
//! as the next event. The transition relation `next` is the workflow's
//! specification; the lemmas at the end state the properties that hold
//! of every run: a response for a scaffolded project comes only after
//! the scratch directory's removal was ordered, the scratch project
//! keeps its name from creation to removal, and the response reports
//! the toolchain version that was checked during the same call.

use vstd::prelude::*;
use crate::errortext::extract_error;
use crate::errortext::first_occurrence;
use crate::errortext::occurs;
use crate::errortext::spec_main_file_marker;
use crate::response::CompileResponse;
use crate::response::empty_source_response;
use crate::response::failure_response;
use crate::response::spec_no_contract_message;
use crate::response::spec_unexpected_output_message;
use crate::response::spec_artifact_read_message;
use crate::response::success_response;
use crate::response::unexpected_output_message;
use crate::response::artifact_read_message;
use crate::paths::main_file_path;
use crate::paths::abi_path;
use crate::paths::bin_path;
use crate::paths::storage_slots_path;
use crate::paths::project_dir;

verus! {

/// Where one compile call stands in the workflow.
pub enum WorkflowState {
    /// The requested toolchain is being activated.
    SwitchingToolchain { contract: String },
    /// The active toolchain's version string is being queried.
    CheckingVersion { contract: String },
    /// A uniquely named scratch project is being scaffolded.
    CreatingProject { contract: String, version: String },
    /// The source is being written into the scratch project.
    WritingMainFile { contract: String, version: String, project: String },
    /// The external build command is running.
    Building { version: String, project: String },
    /// The build succeeded; its artifact files are being read.
    ReadingArtifacts { version: String, project: String },
    /// The response is settled; the scratch project is being deleted.
    RemovingProject { response: CompileResponse, project: String },
    /// The workflow is finished.
    Done { response: CompileResponse },
}

/// What the driver reports back after carrying out an action.
pub enum WorkflowEvent {
    ToolchainSwitched,
    VersionChecked { version: String },
    ProjectCreated { project: String },
    MainFileWritten,
    BuildSucceeded,
    BuildFailed { stderr: String },
    ArtifactsRead { abi: String, bin: Vec<u8>, storage_slots: String },
    ArtifactsMissing,
    ProjectRemoved { ok: bool },
}

/// What the driver is to do next.
pub enum WorkflowAction {
    /// Hand the response in the final state back to the caller.
    Respond,
    /// Make the named toolchain the active one.
    SwitchToolchain { toolchain: String },
    /// Query the active toolchain's version string.
    QueryVersion,
    /// Scaffold a fresh scratch project under a unique name.
    CreateProject,
    /// Write the contract source to the given path.
    WriteMainFile { path: String, contract: String },
    /// Run the build command against the named scratch project.
    RunBuild { project: String },
    /// Read the three artifact files at the given paths.
    ReadArtifacts { abi_path: String, bin_path: String, storage_slots_path: String },
    /// Delete the given scratch directory and everything under it.
    RemoveProject { dir: String },
}

/// The state/event pairs the workflow can take a step from.
pub open spec fn accepts(pre: WorkflowState, e: WorkflowEvent) -> bool {
    match (pre, e) {
        (WorkflowState::SwitchingToolchain { .. }, WorkflowEvent::ToolchainSwitched) => true,
        (WorkflowState::CheckingVersion { .. }, WorkflowEvent::VersionChecked { .. }) => true,
        (WorkflowState::CreatingProject { .. }, WorkflowEvent::ProjectCreated { .. }) => true,
        (WorkflowState::WritingMainFile { .. }, WorkflowEvent::MainFileWritten) => true,
        (WorkflowState::Building { .. }, WorkflowEvent::BuildSucceeded) => true,
        (WorkflowState::Building { .. }, WorkflowEvent::BuildFailed { .. }) => true,
        (WorkflowState::ReadingArtifacts { .. }, WorkflowEvent::ArtifactsRead { .. }) => true,
        (WorkflowState::ReadingArtifacts { .. }, WorkflowEvent::ArtifactsMissing) => true,
        (WorkflowState::RemovingProject { .. }, WorkflowEvent::ProjectRemoved { .. }) => true,
        _ => false,
    }
}

/// The transition relation of the workflow: from state `pre` under
/// event `e`, the machine moves to `post` and orders `a`.
pub open spec fn next(
    pre: WorkflowState,
    e: WorkflowEvent,
    post: WorkflowState,
    a: WorkflowAction,
) -> bool {
    match (pre, e) {
        (WorkflowState::SwitchingToolchain { contract }, WorkflowEvent::ToolchainSwitched) => {
            &&& post matches WorkflowState::CheckingVersion { contract: c } && c@ == contract@
            &&& a is QueryVersion
        },
        (
            WorkflowState::CheckingVersion { contract },
            WorkflowEvent::VersionChecked { version },
        ) => {
            &&& post matches WorkflowState::CreatingProject { contract: c, version: v } && c@
                == contract@ && v@ == version@
            &&& a is CreateProject
        },
        (
            WorkflowState::CreatingProject { contract, version },
            WorkflowEvent::ProjectCreated { project },
        ) => {
            &&& post matches WorkflowState::WritingMainFile {
                contract: c,
                version: v,
                project: p,
            } && c@ == contract@ && v@ == version@ && p@ == project@
            &&& a matches WorkflowAction::WriteMainFile { path, contract: c2 } && path@
                == "projects/"@ + project@ + "/src/main.sw"@ && c2@ == contract@
        },
        (
            WorkflowState::WritingMainFile { contract, version, project },
            WorkflowEvent::MainFileWritten,
        ) => {
            &&& post matches WorkflowState::Building { version: v, project: p } && v@ == version@
                && p@ == project@
            &&& a matches WorkflowAction::RunBuild { project: p2 } && p2@ == project@
        },
        (WorkflowState::Building { version, project }, WorkflowEvent::BuildSucceeded) => {
            &&& post matches WorkflowState::ReadingArtifacts { version: v, project: p } && v@
                == version@ && p@ == project@
            &&& a matches WorkflowAction::ReadArtifacts {
                abi_path: ap,
                bin_path: bp,
                storage_slots_path: sp,
            } && ap@ == "projects/"@ + project@ + "/out/debug/swaypad-abi.json"@ && bp@
                == "projects/"@ + project@ + "/out/debug/swaypad.bin"@ && sp@ == "projects/"@
                + project@ + "/out/debug/swaypad-storage_slots.json"@
        },
        (WorkflowState::Building { version, project }, WorkflowEvent::BuildFailed { stderr }) => {
            &&& post matches WorkflowState::RemovingProject { response, project: p } && p@
                == project@ && (if occurs(stderr@, spec_main_file_marker()) {
                exists|i: int|
                    first_occurrence(stderr@, spec_main_file_marker(), i)
                        && response@.is_failure(
                        stderr@.subrange(i, stderr@.len() as int),
                        version@,
                    )
            } else {
                response@.is_failure(spec_unexpected_output_message(), version@)
            })
            &&& a matches WorkflowAction::RemoveProject { dir } && dir@ == "projects/"@ + project@
        },
        (
            WorkflowState::ReadingArtifacts { version, project },
            WorkflowEvent::ArtifactsRead { abi, bin, storage_slots },
        ) => {
            &&& post matches WorkflowState::RemovingProject { response, project: p } && p@
                == project@ && response@.is_success(abi@, bin@, storage_slots@, version@)
            &&& a matches WorkflowAction::RemoveProject { dir } && dir@ == "projects/"@ + project@
        },
        (
            WorkflowState::ReadingArtifacts { version, project },
            WorkflowEvent::ArtifactsMissing,
        ) => {
            &&& post matches WorkflowState::RemovingProject { response, project: p } && p@
                == project@ && response@.is_failure(spec_artifact_read_message(), version@)
            &&& a matches WorkflowAction::RemoveProject { dir } && dir@ == "projects/"@ + project@
        },
        (
            WorkflowState::RemovingProject { response, project },
            WorkflowEvent::ProjectRemoved { .. },
        ) => {
            &&& post matches WorkflowState::Done { response: r } && r@ == response@
            &&& a is Respond
        },
        _ => false,
    }
}

/// Begin one compile call. An empty source string is answered at
/// once, with no action beyond handing the response back; any other
/// source starts the workflow by activating the requested toolchain.
pub fn start_workflow(contract: String, toolchain: String) -> (r: (
    WorkflowState,
    WorkflowAction,
))
    ensures
        contract@.len() == 0 ==> ({
            &&& r.0 matches WorkflowState::Done { response } && response@.is_failure(
                spec_no_contract_message(),
                Seq::<char>::empty(),
            )
            &&& r.1 is Respond
        }),
        contract@.len() > 0 ==> ({
            &&& r.0 matches WorkflowState::SwitchingToolchain { contract: c } && c@ == contract@
            &&& r.1 matches WorkflowAction::SwitchToolchain { toolchain: t } && t@ == toolchain@
        }),
{
    if contract.as_str().unicode_len() == 0 {
        (
            WorkflowState::Done { response: empty_source_response() },
            WorkflowAction::Respond,
        )
    } else {
        (
            WorkflowState::SwitchingToolchain { contract },
            WorkflowAction::SwitchToolchain { toolchain },
        )
    }
}

/// Take one step of the workflow: consume the driver's report of the
/// last action and decide the next state and action.
pub fn step_workflow(pre: WorkflowState, e: WorkflowEvent) -> (r: (
    WorkflowState,
    WorkflowAction,
))
    requires
        accepts(pre, e),
    ensures
        next(pre, e, r.0, r.1),
{
    match (pre, e) {
        (WorkflowState::SwitchingToolchain { contract }, WorkflowEvent::ToolchainSwitched) => (
            WorkflowState::CheckingVersion { contract },
            WorkflowAction::QueryVersion,
        ),
        (
            WorkflowState::CheckingVersion { contract },
            WorkflowEvent::VersionChecked { version },
        ) => (
            WorkflowState::CreatingProject { contract, version },
            WorkflowAction::CreateProject,
        ),
        (
            WorkflowState::CreatingProject { contract, version },
            WorkflowEvent::ProjectCreated { project },
        ) => {
            let path = main_file_path(project.as_str());
            let source = contract.clone();
            (
                WorkflowState::WritingMainFile { contract, version, project },
                WorkflowAction::WriteMainFile { path, contract: source },
            )
        },
        (
            WorkflowState::WritingMainFile { contract: _, version, project },
            WorkflowEvent::MainFileWritten,
        ) => {
            let name = project.clone();
            (
                WorkflowState::Building { version, project },
                WorkflowAction::RunBuild { project: name },
            )
        },
        (WorkflowState::Building { version, project }, WorkflowEvent::BuildSucceeded) => {
            let ap = abi_path(project.as_str());
            let bp = bin_path(project.as_str());
            let sp = storage_slots_path(project.as_str());
            (
                WorkflowState::ReadingArtifacts { version, project },
                WorkflowAction::ReadArtifacts {
                    abi_path: ap,
                    bin_path: bp,
                    storage_slots_path: sp,
                },
            )
        },
        (WorkflowState::Building { version, project }, WorkflowEvent::BuildFailed { stderr }) => {
            let response = match extract_error(stderr.as_str()) {
                Some(error) => failure_response(error, version),
                None => failure_response(
                    String::from_str(unexpected_output_message()),
                    version,
                ),
            };
            let dir = project_dir(project.as_str());
            (
                WorkflowState::RemovingProject { response, project },
                WorkflowAction::RemoveProject { dir },
            )
        },
        (
            WorkflowState::ReadingArtifacts { version, project },
            WorkflowEvent::ArtifactsRead { abi, bin, storage_slots },
        ) => {
            let response = success_response(abi, &bin, storage_slots, version);
            let dir = project_dir(project.as_str());
            (
                WorkflowState::RemovingProject { response, project },
                WorkflowAction::RemoveProject { dir },
            )
        },
        (
            WorkflowState::ReadingArtifacts { version, project },
            WorkflowEvent::ArtifactsMissing,
        ) => {
            let response = failure_response(
                String::from_str(artifact_read_message()),
                version,
            );
            let dir = project_dir(project.as_str());
            (
                WorkflowState::RemovingProject { response, project },
                WorkflowAction::RemoveProject { dir },
            )
        },
        (
            WorkflowState::RemovingProject { response, project: _ },
            WorkflowEvent::ProjectRemoved { .. },
        ) => (WorkflowState::Done { response }, WorkflowAction::Respond),
        _ => {
            proof {
                assert(false);
            }
            vstd::pervasive::unreached()
        },
    }
}

/// The name of the scratch project a state holds, from the moment the
/// project exists on disk until its removal is ordered.
pub open spec fn project_of(s: WorkflowState) -> Option<Seq<char>> {
    match s {
        WorkflowState::WritingMainFile { project, .. } => Some(project@),
        WorkflowState::Building { project, .. } => Some(project@),
        WorkflowState::ReadingArtifacts { project, .. } => Some(project@),
        WorkflowState::RemovingProject { project, .. } => Some(project@),
        _ => None,
    }
}

/// The toolchain version a state carries towards the response.
pub open spec fn version_of(s: WorkflowState) -> Option<Seq<char>> {
    match s {
        WorkflowState::CreatingProject { version, .. } => Some(version@),
        WorkflowState::WritingMainFile { version, .. } => Some(version@),
        WorkflowState::Building { version, .. } => Some(version@),
        WorkflowState::ReadingArtifacts { version, .. } => Some(version@),
        WorkflowState::RemovingProject { response, .. } => Some(response.forc_version@),
        WorkflowState::Done { response } => Some(response.forc_version@),
        _ => None,
    }
}

/// A response is handed back only once the scratch directory's
/// removal has been carried out: the workflow orders `Respond` only
/// from the removal state, and only into the final state.
pub proof fn lemma_response_only_after_removal(
    pre: WorkflowState,
    e: WorkflowEvent,
    post: WorkflowState,
    a: WorkflowAction,
)
    requires
        next(pre, e, post, a),
    ensures
        a is Respond ==> pre is RemovingProject && post is Done,
{
}

/// Entering the removal state and ordering the removal go together:
/// whenever a transition settles the response, the same transition
/// orders the deletion of the scratch directory of exactly the
/// project the state holds. So on the success branch and on both
/// failure branches alike, cleanup is ordered before the workflow can
/// finish.
pub proof fn lemma_removal_ordered_on_entry(
    pre: WorkflowState,
    e: WorkflowEvent,
    post: WorkflowState,
    a: WorkflowAction,
)
    requires
        next(pre, e, post, a),
    ensures
        post matches WorkflowState::RemovingProject { project, .. } ==> (a
            matches WorkflowAction::RemoveProject { dir } && dir@ == "projects/"@ + project@),
{
}

/// The scratch project keeps its name throughout one call: no
/// transition changes the project a state holds, so the directory
/// whose removal is ordered is the one that was created.
pub proof fn lemma_project_name_constant(
    pre: WorkflowState,
    e: WorkflowEvent,
    post: WorkflowState,
    a: WorkflowAction,
)
    requires
        next(pre, e, post, a),
    ensures
        project_of(pre) is Some && project_of(post) is Some ==> project_of(post) == project_of(
            pre,
        ),
        project_of(pre) is None && project_of(post) is Some ==> (pre is CreatingProject && (e
            matches WorkflowEvent::ProjectCreated { project } && project_of(post) == Some(
            project@,
        ))),
{
}

/// Each call reports the version checked during that call: the
/// version recorded at the version-check event is carried unchanged
/// into the response of the final state. Two sequential calls with
/// different toolchains are two runs of the machine, so each response
/// carries the version its own run recorded.
pub proof fn lemma_version_recorded(
    pre: WorkflowState,
    e: WorkflowEvent,
    post: WorkflowState,
    a: WorkflowAction,
)
    requires
        next(pre, e, post, a),
    ensures
        pre is CheckingVersion ==> (e matches WorkflowEvent::VersionChecked { version }
            ==> version_of(post) == Some(version@)),
        version_of(pre) is Some ==> version_of(post) == version_of(pre),
{
}

/// One run of the workflow: a chain of states joined by transitions
/// of `next`, with the event consumed and the action ordered at each
/// step.
pub open spec fn is_run(
    states: Seq<WorkflowState>,
    events: Seq<WorkflowEvent>,
    actions: Seq<WorkflowAction>,
) -> bool {
    &&& states.len() == events.len() + 1
    &&& actions.len() == events.len()
    &&& forall|i: int|
        0 <= i < events.len() ==> next(states[i], events[i], states[i + 1], #[trigger] actions[i])
}

/// In a run that finishes, every state that holds a scratch project
/// is followed by the removal state for that same project.
proof fn lemma_run_reaches_removal(
    states: Seq<WorkflowState>,
    events: Seq<WorkflowEvent>,
    actions: Seq<WorkflowAction>,
    i: int,
)
    requires
        is_run(states, events, actions),
        0 <= i < states.len(),
        project_of(states[i]) is Some,
        states.last() is Done,
    ensures
        exists|k: int|
            i <= k < states.len() && (#[trigger] states[k]) is RemovingProject && project_of(
                states[k],
            ) == project_of(states[i]),
    decreases states.len() - i,
{
    if states[i] is RemovingProject {
        assert(i <= i < states.len() && states[i] is RemovingProject && project_of(states[i])
            == project_of(states[i]));
    } else {
        assert(i < states.len() - 1);
        assert(next(states[i], events[i], states[i + 1], actions[i]));
        lemma_run_reaches_removal(states, events, actions, i + 1);
    }
}

/// Scratch directories are never left behind: in every run that
/// finishes, the removal of the scratch directory of whatever project
/// was scaffolded is ordered by some step of the run.
pub proof fn lemma_run_cleans_up(
    states: Seq<WorkflowState>,
    events: Seq<WorkflowEvent>,
    actions: Seq<WorkflowAction>,
    i: int,
)
    requires
        is_run(states, events, actions),
        states.len() > 0,
        states.last() is Done,
        project_of(states[0]) is None,
        0 <= i < states.len(),
        project_of(states[i]) is Some,
    ensures
        exists|j: int|
            0 <= j < actions.len() && ((#[trigger] actions[j])
                matches WorkflowAction::RemoveProject { dir } && dir@ == "projects/"@ + project_of(
                states[i],
            )->0),
{
    lemma_run_reaches_removal(states, events, actions, i);
    let k = choose|k: int|
        i <= k < states.len() && (#[trigger] states[k]) is RemovingProject && project_of(states[k])
            == project_of(states[i]);
    assert(k > 0);
    assert(next(states[k - 1], events[k - 1], states[k], actions[k - 1]));
    assert(!(states[k - 1] is RemovingProject));
    lemma_removal_ordered_on_entry(states[k - 1], events[k - 1], states[k], actions[k - 1]);
    assert(0 <= k - 1 < actions.len() && (actions[k - 1]
        matches WorkflowAction::RemoveProject { dir } && dir@ == "projects/"@ + project_of(
        states[i],
    )->0));
}

/// In a run that finishes, the version a state carries is the one the
/// final response reports.
proof fn lemma_run_version_carried(
    states: Seq<WorkflowState>,
    events: Seq<WorkflowEvent>,
    actions: Seq<WorkflowAction>,
    i: int,
)
    requires
        is_run(states, events, actions),
        0 <= i < states.len(),
        version_of(states[i]) is Some,
        states.last() is Done,
    ensures
        version_of(states.last()) == version_of(states[i]),
    decreases states.len() - i,
{
    if i == states.len() - 1 {
    } else {
        assert(next(states[i], events[i], states[i + 1], actions[i]));
        lemma_version_recorded(states[i], events[i], states[i + 1], actions[i]);
        lemma_run_version_carried(states, events, actions, i + 1);
    }
}

/// Each call reports the toolchain version checked during that call:
/// in every run that finishes, the final response's version field is
/// exactly the version string the run's version-check event carried.
/// Two sequential calls are two runs, so each reports the version of
/// the toolchain active at its own time.
pub proof fn lemma_run_reports_checked_version(
    states: Seq<WorkflowState>,
    events: Seq<WorkflowEvent>,
    actions: Seq<WorkflowAction>,
    j: int,
)
    requires
        is_run(states, events, actions),
        states.len() > 0,
        states.last() is Done,
        0 <= j < events.len(),
    ensures
        events[j] matches WorkflowEvent::VersionChecked { version } ==> version_of(states.last())
            == Some(version@),
{
    if events[j] is VersionChecked {
        assert(next(states[j], events[j], states[j + 1], actions[j]));
        assert(states[j] is CheckingVersion);
        lemma_version_recorded(states[j], events[j], states[j + 1], actions[j]);
        lemma_run_version_carried(states, events, actions, j + 1);
    }
}

} // verus!
