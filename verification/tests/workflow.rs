use swaypad::machine::{start_workflow, step_workflow, WorkflowAction, WorkflowEvent, WorkflowState};

fn unwrap_response(state: WorkflowState) -> swaypad::response::CompileResponse {
    match state {
        WorkflowState::Done { response } => response,
        _ => panic!("workflow did not finish"),
    }
}

#[test]
fn empty_source_is_rejected_without_side_effects() {
    let (state, action) = start_workflow(String::new(), String::from("latest"));
    assert!(matches!(action, WorkflowAction::Respond));
    let response = unwrap_response(state);
    assert_eq!(response.abi, "");
    assert_eq!(response.bytecode, "");
    assert_eq!(response.storage_slots, "");
    assert_eq!(response.error, "No contract.");
    assert_eq!(response.forc_version, "");
}

#[test]
fn successful_build_run() {
    let (state, action) = start_workflow(
        String::from("contract;"),
        String::from("beta-5"),
    );
    match &action {
        WorkflowAction::SwitchToolchain { toolchain } => assert_eq!(toolchain, "beta-5"),
        _ => panic!("expected a toolchain switch"),
    }

    let (state, action) = step_workflow(state, WorkflowEvent::ToolchainSwitched);
    assert!(matches!(action, WorkflowAction::QueryVersion));

    let (state, action) = step_workflow(
        state,
        WorkflowEvent::VersionChecked { version: String::from("forc 0.66.5") },
    );
    assert!(matches!(action, WorkflowAction::CreateProject));

    let (state, action) = step_workflow(
        state,
        WorkflowEvent::ProjectCreated { project: String::from("proj1") },
    );
    match &action {
        WorkflowAction::WriteMainFile { path, contract } => {
            assert_eq!(path, "projects/proj1/src/main.sw");
            assert_eq!(contract, "contract;");
        },
        _ => panic!("expected the main file write"),
    }

    let (state, action) = step_workflow(state, WorkflowEvent::MainFileWritten);
    match &action {
        WorkflowAction::RunBuild { project } => assert_eq!(project, "proj1"),
        _ => panic!("expected the build"),
    }

    let (state, action) = step_workflow(state, WorkflowEvent::BuildSucceeded);
    match &action {
        WorkflowAction::ReadArtifacts { abi_path, bin_path, storage_slots_path } => {
            assert_eq!(abi_path, "projects/proj1/out/debug/swaypad-abi.json");
            assert_eq!(bin_path, "projects/proj1/out/debug/swaypad.bin");
            assert_eq!(
                storage_slots_path,
                "projects/proj1/out/debug/swaypad-storage_slots.json"
            );
        },
        _ => panic!("expected the artifact reads"),
    }

    let (state, action) = step_workflow(
        state,
        WorkflowEvent::ArtifactsRead {
            abi: String::from("[\"abi\"]"),
            bin: vec![0x01, 0x02, 0xa3],
            storage_slots: String::from("[]"),
        },
    );
    match &action {
        WorkflowAction::RemoveProject { dir } => assert_eq!(dir, "projects/proj1"),
        _ => panic!("expected the scratch directory removal"),
    }

    let (state, action) = step_workflow(state, WorkflowEvent::ProjectRemoved { ok: true });
    assert!(matches!(action, WorkflowAction::Respond));
    let response = unwrap_response(state);
    assert_eq!(response.abi, "[\"abi\"]");
    assert_eq!(response.bytecode, "0102a3");
    assert_eq!(response.storage_slots, "[]");
    assert_eq!(response.error, "");
    assert_eq!(response.forc_version, "forc 0.66.5");
    assert!(!response.abi.is_empty());
    assert!(!response.bytecode.is_empty());
}

fn run_to_building(contract: &str, toolchain: &str, version: &str, project: &str) -> WorkflowState {
    let (state, _) = start_workflow(String::from(contract), String::from(toolchain));
    let (state, _) = step_workflow(state, WorkflowEvent::ToolchainSwitched);
    let (state, _) = step_workflow(
        state,
        WorkflowEvent::VersionChecked { version: String::from(version) },
    );
    let (state, _) = step_workflow(
        state,
        WorkflowEvent::ProjectCreated { project: String::from(project) },
    );
    let (state, _) = step_workflow(state, WorkflowEvent::MainFileWritten);
    state
}

#[test]
fn failed_build_truncates_error_at_marker() {
    let state = run_to_building("contract;", "latest", "forc 0.60.0", "scratch7");
    let stderr = "Building projects/scratch7\n   Compiling...\nerror: expected item\n \
                  --> projects/scratch7/src/main.sw:1:1\naborting";
    let (state, action) = step_workflow(
        state,
        WorkflowEvent::BuildFailed { stderr: String::from(stderr) },
    );
    match &action {
        WorkflowAction::RemoveProject { dir } => assert_eq!(dir, "projects/scratch7"),
        _ => panic!("expected the scratch directory removal"),
    }
    let (state, action) = step_workflow(state, WorkflowEvent::ProjectRemoved { ok: true });
    assert!(matches!(action, WorkflowAction::Respond));
    let response = unwrap_response(state);
    assert_eq!(response.error, "/main.sw:1:1\naborting");
    assert_eq!(response.abi, "");
    assert_eq!(response.bytecode, "");
    assert_eq!(response.storage_slots, "");
    assert_eq!(response.forc_version, "forc 0.60.0");
}

#[test]
fn failed_build_without_marker_is_a_recoverable_error() {
    let state = run_to_building("contract;", "latest", "forc 0.60.0", "scratch8");
    let (state, _) = step_workflow(
        state,
        WorkflowEvent::BuildFailed { stderr: String::from("linker exploded, no file named") },
    );
    let (state, _) = step_workflow(state, WorkflowEvent::ProjectRemoved { ok: true });
    let response = unwrap_response(state);
    assert_eq!(response.error, "Unexpected compiler output format.");
    assert_eq!(response.abi, "");
    assert_eq!(response.bytecode, "");
    assert_eq!(response.storage_slots, "");
}

#[test]
fn missing_artifacts_are_a_recoverable_error() {
    let state = run_to_building("contract;", "latest", "forc 0.61.0", "scratch9");
    let (state, _) = step_workflow(state, WorkflowEvent::BuildSucceeded);
    let (state, action) = step_workflow(state, WorkflowEvent::ArtifactsMissing);
    match &action {
        WorkflowAction::RemoveProject { dir } => assert_eq!(dir, "projects/scratch9"),
        _ => panic!("expected the scratch directory removal"),
    }
    let (state, _) = step_workflow(state, WorkflowEvent::ProjectRemoved { ok: true });
    let response = unwrap_response(state);
    assert_eq!(response.error, "Artifact read failure.");
    assert_eq!(response.abi, "");
    assert_eq!(response.forc_version, "forc 0.61.0");
}

#[test]
fn cleanup_failure_does_not_change_the_response() {
    let state = run_to_building("contract;", "latest", "forc 0.61.0", "scratch10");
    let (state, _) = step_workflow(
        state,
        WorkflowEvent::BuildFailed { stderr: String::from("x /main.sw:2:5 bad") },
    );
    let (state, action) = step_workflow(state, WorkflowEvent::ProjectRemoved { ok: false });
    assert!(matches!(action, WorkflowAction::Respond));
    let response = unwrap_response(state);
    assert_eq!(response.error, "/main.sw:2:5 bad");
}

#[test]
fn sequential_calls_report_their_own_toolchain_version() {
    let state = run_to_building("contract;", "beta-4", "forc 0.49.3", "run1");
    let (state, _) = step_workflow(state, WorkflowEvent::BuildSucceeded);
    let (state, _) = step_workflow(
        state,
        WorkflowEvent::ArtifactsRead {
            abi: String::from("[]"),
            bin: vec![0xff],
            storage_slots: String::from("[]"),
        },
    );
    let (state, _) = step_workflow(state, WorkflowEvent::ProjectRemoved { ok: true });
    let first = unwrap_response(state);

    let state = run_to_building("contract;", "beta-5", "forc 0.66.5", "run2");
    let (state, _) = step_workflow(state, WorkflowEvent::BuildSucceeded);
    let (state, _) = step_workflow(
        state,
        WorkflowEvent::ArtifactsRead {
            abi: String::from("[]"),
            bin: vec![0xff],
            storage_slots: String::from("[]"),
        },
    );
    let (state, _) = step_workflow(state, WorkflowEvent::ProjectRemoved { ok: true });
    let second = unwrap_response(state);

    assert_eq!(first.forc_version, "forc 0.49.3");
    assert_eq!(second.forc_version, "forc 0.66.5");
}

#[test]
fn marker_at_start_keeps_everything() {
    let state = run_to_building("contract;", "latest", "v", "p");
    let (state, _) = step_workflow(
        state,
        WorkflowEvent::BuildFailed { stderr: String::from("/main.sw:1:1 oops") },
    );
    let (state, _) = step_workflow(state, WorkflowEvent::ProjectRemoved { ok: true });
    let response = unwrap_response(state);
    assert_eq!(response.error, "/main.sw:1:1 oops");
}
