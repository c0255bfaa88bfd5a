use bexo_services::planner::{
    build_restore_preview, build_run_project_records, build_snapshot_payload,
    merge_launch_task_state, run_restore_mode, snapshot_payload_for, CodexProfileRecord,
    LaunchTaskRecord, ProjectRecord, RestoreRunTaskRecord, SnapshotProjectPayload,
    WorkspaceRecord,
};

fn task(id: &str, task_type: &str, enabled: bool, sort_order: i64) -> LaunchTaskRecord {
    LaunchTaskRecord {
        id: id.to_string(),
        name: format!("task {}", id),
        task_type: task_type.to_string(),
        enabled,
        command: "run".to_string(),
        args: vec!["--fast".to_string()],
        working_dir: None,
        timeout_ms: Some(1000),
        continue_on_failure: false,
        retry_policy: None,
        sort_order,
    }
}

fn project(id: &str, sort_order: i64, profile: Option<&str>, tasks: Vec<LaunchTaskRecord>) -> ProjectRecord {
    ProjectRecord {
        id: id.to_string(),
        name: format!("project {}", id),
        path: format!("D:\\work\\{}", id),
        platform: "windows".to_string(),
        terminal_type: "windows_terminal".to_string(),
        ide_type: Some("vscode".to_string()),
        codex_profile_id: profile.map(str::to_string),
        open_terminal: true,
        open_ide: false,
        auto_resume_codex: profile.is_some(),
        sort_order,
        launch_tasks: tasks,
    }
}

fn profile(id: &str, name: &str) -> CodexProfileRecord {
    CodexProfileRecord {
        id: id.to_string(),
        name: name.to_string(),
        codex_home: "C:\\Codex".to_string(),
        startup_mode: "resume_last".to_string(),
        resume_strategy: "last_session".to_string(),
        default_args: Vec::new(),
    }
}

fn workspace(projects: Vec<ProjectRecord>) -> WorkspaceRecord {
    WorkspaceRecord {
        id: "ws-1".to_string(),
        name: "Workspace".to_string(),
        description: None,
        icon: Some("folder".to_string()),
        color: None,
        projects,
    }
}

fn snapshot_projects() -> Vec<SnapshotProjectPayload> {
    let ws = workspace(vec![
        project("b", 2, None, vec![task("t2", "terminal_command", true, 1)]),
        project("a", 1, Some("p1"), vec![task("t1", "codex", true, 0), task("t0", "ide", false, 1)]),
    ]);
    build_snapshot_payload(&ws, &vec![profile("p1", "Main")], "2026-01-01T00:00:00Z".to_string()).projects
}

#[test]
fn snapshot_sorts_projects_stably_by_sort_order() {
    let ws = workspace(vec![
        project("c", 3, None, Vec::new()),
        project("a", 1, None, Vec::new()),
        project("b", 1, None, Vec::new()),
    ]);
    let snapshot = build_snapshot_payload(&ws, &Vec::new(), "2026-01-01T00:00:00Z".to_string());
    let ids: Vec<&str> = snapshot.projects.iter().map(|p| p.id.as_str()).collect();
    assert_eq!(ids, vec!["a", "b", "c"]);
    assert_eq!(snapshot.workspace.id, "ws-1");
    assert_eq!(snapshot.workspace.icon.as_deref(), Some("folder"));
    assert_eq!(snapshot.captured_at, "2026-01-01T00:00:00Z");
}

#[test]
fn snapshot_takes_the_last_profile_with_the_project_id() {
    let ws = workspace(vec![project("a", 0, Some("p1"), vec![task("t1", "codex", true, 0)])]);
    let profiles = vec![profile("p1", "first"), profile("p2", "other"), profile("p1", "second")];
    let snapshot = build_snapshot_payload(&ws, &profiles, "now".to_string());
    let recorded = snapshot.projects[0].codex_profile.as_ref().expect("profile");
    assert_eq!(recorded.name, "second");
    assert_eq!(snapshot.projects[0].launch_tasks.len(), 1);
    assert_eq!(snapshot.projects[0].launch_tasks[0].args, vec!["--fast".to_string()]);

    let missing = build_snapshot_payload(
        &workspace(vec![project("a", 0, Some("gone"), Vec::new())]),
        &profiles,
        "now".to_string(),
    );
    assert!(missing.projects[0].codex_profile.is_none());
}

#[test]
fn snapshot_of_an_unknown_workspace_is_refused() {
    let error = snapshot_payload_for(&vec![workspace(Vec::new())], "ws-9", &Vec::new(), "now".to_string())
        .unwrap_err();
    assert_eq!(error.code, "WORKSPACE_NOT_FOUND");
    assert_eq!(error.message, "workspace was not found");
    let found = snapshot_payload_for(&vec![workspace(Vec::new())], "ws-1", &Vec::new(), "now".to_string())
        .expect("workspace");
    assert_eq!(found.workspace.name, "Workspace");
}

#[test]
fn restore_mode_drops_the_dry_run_marker() {
    assert_eq!(run_restore_mode("dry_run:terminals_only"), "terminals_only");
    assert_eq!(run_restore_mode("full"), "full");
    assert_eq!(run_restore_mode("dry_run"), "dry_run");
}

#[test]
fn preview_plans_each_project_in_snapshot_order() {
    let projects = snapshot_projects();
    let preview = build_restore_preview(&projects, "full".to_string());
    assert_eq!(preview.mode, "full");
    assert_eq!(preview.projects.len(), 2);
    assert_eq!(preview.projects[0].project_id, "a");
    assert_eq!(preview.projects[1].project_id, "b");
    assert_eq!(preview.stats.total_projects, 2);
    let kinds: Vec<&str> = preview.projects[0].actions.iter().map(|a| a.kind.as_str()).collect();
    assert!(kinds.contains(&"terminal_context"));
    assert!(kinds.contains(&"launch_task"));
    let disabled = preview.projects[0]
        .actions
        .iter()
        .find(|a| a.launch_task_id.as_deref() == Some("t0"))
        .expect("disabled task");
    assert_eq!(disabled.status, "skipped");
    assert_eq!(disabled.reason.as_deref(), Some("启动任务已禁用"));
}

#[test]
fn terminal_only_mode_skips_other_steps() {
    let projects = snapshot_projects();
    let preview = build_restore_preview(&projects, "terminals_only".to_string());
    let codex_task = preview.projects[0]
        .actions
        .iter()
        .find(|a| a.launch_task_id.as_deref() == Some("t1"))
        .expect("codex task");
    assert_eq!(codex_task.status, "skipped");
    assert_eq!(codex_task.reason.as_deref(), Some("当前恢复模式未包含此启动任务"));
    let terminal_task = preview.projects[1]
        .actions
        .iter()
        .find(|a| a.launch_task_id.as_deref() == Some("t2"))
        .expect("terminal task");
    assert_eq!(terminal_task.status, "planned");
}

#[test]
fn run_records_take_the_recorded_state() {
    let projects = snapshot_projects();
    let preview = build_restore_preview(&projects, "full".to_string());
    let rows = vec![
        RestoreRunTaskRecord {
            id: "row-a".to_string(),
            project_id: Some("a".to_string()),
            launch_task_id: None,
            status: "completed".to_string(),
            attempt_count: 1,
            started_at: Some("s".to_string()),
            finished_at: Some("f".to_string()),
            error_message: None,
        },
        RestoreRunTaskRecord {
            id: "row-t1".to_string(),
            project_id: Some("a".to_string()),
            launch_task_id: Some("t1".to_string()),
            status: "failed".to_string(),
            attempt_count: 2,
            started_at: None,
            finished_at: None,
            error_message: Some("boom".to_string()),
        },
    ];
    let records = build_run_project_records("run-1", &preview.projects, &rows);
    assert_eq!(records.len(), 2);
    assert_eq!(records[0].id, "row-a");
    assert_eq!(records[0].status, "completed");
    assert_eq!(records[0].attempt_count, 1);
    assert_eq!(records[0].restore_run_id, "run-1");
    let t1 = records[0]
        .actions
        .iter()
        .find(|a| a.launch_task_id.as_deref() == Some("t1"))
        .expect("t1");
    assert_eq!(t1.status, "failed");
    assert_eq!(t1.reason.as_deref(), Some("boom"));
    assert_eq!(records[1].id, "preview:b");
    assert_eq!(records[1].status, preview.projects[1].status);
    assert_eq!(records[1].attempt_count, 0);

    let merged = merge_launch_task_state(&preview.projects[0].actions[0], &rows[0]);
    assert_eq!(merged.status, "completed");
    assert_eq!(merged.started_at.as_deref(), Some("s"));
}
