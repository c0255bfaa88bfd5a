//! Restore planning: what restoring a workspace snapshot would do for each
//! project (terminal, Codex session, launch tasks, IDE), the status of each
//! project, the statistics of a plan, and how a recorded run is merged
//! back onto its plan.
use vstd::prelude::*;

use crate::error::{AppError, AppResult};
use crate::stable_sort::{lemma_sort_by_key_len, pick, sort_by_key, stable_order};
use crate::text::{chars_eq_str, chars_of, extend_str, is_prefix, string_from};

verus! {

// ---------------------------------------------------------------------------
// Model
// ---------------------------------------------------------------------------

#[derive(Debug)]
pub struct SnapshotCodexProfilePayload {
    pub id: String,
    pub name: String,
    pub codex_home: String,
    pub startup_mode: String,
    pub resume_strategy: String,
    pub default_args: Vec<String>,
}

#[derive(Debug)]
pub struct SnapshotLaunchTaskPayload {
    pub id: String,
    pub name: String,
    pub task_type: String,
    pub enabled: bool,
    pub command: String,
    pub args: Vec<String>,
    pub working_dir: Option<String>,
    pub timeout_ms: Option<i64>,
    pub continue_on_failure: bool,
    pub retry_policy: Option<String>,
    pub sort_order: i64,
}

#[derive(Debug)]
pub struct SnapshotProjectPayload {
    pub id: String,
    pub name: String,
    pub path: String,
    pub platform: String,
    pub terminal_type: String,
    pub ide_type: Option<String>,
    pub open_terminal: bool,
    pub open_ide: bool,
    pub auto_resume_codex: bool,
    pub sort_order: i64,
    pub codex_profile: Option<SnapshotCodexProfilePayload>,
    pub launch_tasks: Vec<SnapshotLaunchTaskPayload>,
}

/// One step of a restore and its state.
#[derive(Debug)]
pub struct RestoreActionPlan {
    pub id: String,
    pub kind: String,
    pub label: String,
    pub adapter: String,
    pub task_type: Option<String>,
    pub launch_task_id: Option<String>,
    pub continue_on_failure: bool,
    pub status: String,
    pub reason: Option<String>,
    pub started_at: Option<String>,
    pub finished_at: Option<String>,
    pub duration_ms: Option<i64>,
    pub executable_path: Option<String>,
    pub executable_source: Option<String>,
    pub cancel_requested_at: Option<String>,
    pub diagnostic_code: Option<String>,
}

#[derive(Debug)]
pub struct RestoreProjectPlan {
    pub project_id: String,
    pub project_name: String,
    pub path: String,
    pub status: String,
    pub reason: Option<String>,
    pub actions: Vec<RestoreActionPlan>,
}

/// How many projects and actions are in each state.
#[derive(Debug)]
pub struct RestorePreviewStats {
    pub total_projects: i64,
    pub planned_projects: i64,
    pub running_projects: i64,
    pub completed_projects: i64,
    pub cancelled_projects: i64,
    pub failed_projects: i64,
    pub blocked_projects: i64,
    pub skipped_projects: i64,
    pub total_actions: i64,
    pub planned_actions: i64,
    pub running_actions: i64,
    pub completed_actions: i64,
    pub cancelled_actions: i64,
    pub failed_actions: i64,
    pub blocked_actions: i64,
    pub skipped_actions: i64,
}

/// The plan of a restore in one mode.
#[derive(Debug)]
pub struct RestorePreview {
    pub mode: String,
    pub stats: RestorePreviewStats,
    pub projects: Vec<RestoreProjectPlan>,
}

/// A recorded task of a restore run: a project's, or a launch task's.
#[derive(Debug)]
pub struct RestoreRunTaskRecord {
    pub id: String,
    pub project_id: Option<String>,
    pub launch_task_id: Option<String>,
    pub status: String,
    pub attempt_count: i64,
    pub started_at: Option<String>,
    pub finished_at: Option<String>,
    pub error_message: Option<String>,
}

/// A project of a restore run, with its actions.
#[derive(Debug)]
pub struct RestoreRunProjectRecord {
    pub id: String,
    pub restore_run_id: String,
    pub project_id: Option<String>,
    pub project_name: String,
    pub path: String,
    pub status: String,
    pub attempt_count: i64,
    pub started_at: Option<String>,
    pub finished_at: Option<String>,
    pub error_message: Option<String>,
    pub actions: Vec<RestoreActionPlan>,
}

pub open spec fn ov(o: Option<String>) -> Option<Seq<char>> {
    match o {
        Some(s) => Some(s@),
        None => None,
    }
}

/// An action as the contracts see it.
pub struct ActionModel {
    pub id: Seq<char>,
    pub kind: Seq<char>,
    pub label: Seq<char>,
    pub adapter: Seq<char>,
    pub task_type: Option<Seq<char>>,
    pub launch_task_id: Option<Seq<char>>,
    pub continue_on_failure: bool,
    pub status: Seq<char>,
    pub reason: Option<Seq<char>>,
    pub started_at: Option<Seq<char>>,
    pub finished_at: Option<Seq<char>>,
    pub duration_ms: Option<i64>,
    pub executable_path: Option<Seq<char>>,
    pub executable_source: Option<Seq<char>>,
    pub cancel_requested_at: Option<Seq<char>>,
    pub diagnostic_code: Option<Seq<char>>,
}

pub open spec fn action_model(a: RestoreActionPlan) -> ActionModel {
    ActionModel {
        id: a.id@,
        kind: a.kind@,
        label: a.label@,
        adapter: a.adapter@,
        task_type: ov(a.task_type),
        launch_task_id: ov(a.launch_task_id),
        continue_on_failure: a.continue_on_failure,
        status: a.status@,
        reason: ov(a.reason),
        started_at: ov(a.started_at),
        finished_at: ov(a.finished_at),
        duration_ms: a.duration_ms,
        executable_path: ov(a.executable_path),
        executable_source: ov(a.executable_source),
        cancel_requested_at: ov(a.cancel_requested_at),
        diagnostic_code: ov(a.diagnostic_code),
    }
}

pub open spec fn action_models(s: Seq<RestoreActionPlan>) -> Seq<ActionModel> {
    s.map_values(|a: RestoreActionPlan| action_model(a))
}

/// A built-in action that has not run.
pub open spec fn simple_action(
    id: Seq<char>,
    kind: Seq<char>,
    label: Seq<char>,
    adapter: Seq<char>,
    status: Seq<char>,
    reason: Option<Seq<char>>,
) -> ActionModel {
    ActionModel {
        id,
        kind,
        label,
        adapter,
        task_type: None,
        launch_task_id: None,
        continue_on_failure: false,
        status,
        reason,
        started_at: None,
        finished_at: None,
        duration_ms: None,
        executable_path: None,
        executable_source: None,
        cancel_requested_at: None,
        diagnostic_code: None,
    }
}

fn action(id: &str, kind: &str, label: &str, adapter: &str, status: &str, reason: Option<String>) -> (r:
    RestoreActionPlan)
    ensures
        action_model(r) == simple_action(id@, kind@, label@, adapter@, status@, ov(reason)),
{
    RestoreActionPlan {
        id: id.to_owned(),
        kind: kind.to_owned(),
        label: label.to_owned(),
        adapter: adapter.to_owned(),
        task_type: None,
        launch_task_id: None,
        continue_on_failure: false,
        status: status.to_owned(),
        reason,
        started_at: None,
        finished_at: None,
        duration_ms: None,
        executable_path: None,
        executable_source: None,
        cancel_requested_at: None,
        diagnostic_code: None,
    }
}

pub fn planned_action(id: &str, kind: &str, label: &str, adapter: &str) -> (r: RestoreActionPlan)
    ensures
        action_model(r) == simple_action(id@, kind@, label@, adapter@, "planned"@, None),
{
    action(id, kind, label, adapter, "planned", None)
}

pub fn skipped_action(id: &str, kind: &str, label: &str, adapter: &str, reason: &str) -> (r:
    RestoreActionPlan)
    ensures
        action_model(r) == simple_action(id@, kind@, label@, adapter@, "skipped"@, Some(reason@)),
{
    action(id, kind, label, adapter, "skipped", Some(reason.to_owned()))
}

pub fn blocked_action(id: &str, kind: &str, label: &str, adapter: &str, reason: &str) -> (r:
    RestoreActionPlan)
    ensures
        action_model(r) == simple_action(id@, kind@, label@, adapter@, "blocked"@, Some(reason@)),
{
    action(id, kind, label, adapter, "blocked", Some(reason.to_owned()))
}

// ---------------------------------------------------------------------------
// Built-in actions
// ---------------------------------------------------------------------------

pub open spec fn mode_includes(mode: Seq<char>, part: Seq<char>) -> bool {
    mode == "full"@ || mode == part
}

/// The terminal step: off unless the project opens a terminal and the mode
/// includes terminals.
pub open spec fn terminal_action(p: SnapshotProjectPayload, mode: Seq<char>) -> ActionModel {
    let (id, kind, adapter) = ("builtin:terminal_context"@, "terminal_context"@, p.terminal_type@);
    if !p.open_terminal {
        simple_action(id, kind, "终端上下文已关闭"@, adapter, "skipped"@, Some("项目未开启自动打开终端"@))
    } else if !mode_includes(mode, "terminals_only"@) {
        simple_action(
            id,
            kind,
            "终端上下文未纳入当前恢复模式"@,
            adapter,
            "skipped"@,
            Some("当前恢复模式未包含终端"@),
        )
    } else {
        simple_action(id, kind, "打开终端上下文"@, adapter, "planned"@, None)
    }
}

pub fn build_terminal_action(project: &SnapshotProjectPayload, mode: &str) -> (r: RestoreActionPlan)
    ensures
        action_model(r) == terminal_action(*project, mode@),
{
    if !project.open_terminal {
        return skipped_action(
            "builtin:terminal_context",
            "terminal_context",
            "终端上下文已关闭",
            project.terminal_type.as_str(),
            "项目未开启自动打开终端",
        );
    }
    let m = chars_of(mode);
    if !(chars_eq_str(m.as_slice(), "full") || chars_eq_str(m.as_slice(), "terminals_only")) {
        return skipped_action(
            "builtin:terminal_context",
            "terminal_context",
            "终端上下文未纳入当前恢复模式",
            project.terminal_type.as_str(),
            "当前恢复模式未包含终端",
        );
    }
    planned_action(
        "builtin:terminal_context",
        "terminal_context",
        "打开终端上下文",
        project.terminal_type.as_str(),
    )
}

/// The Codex step: off unless the project resumes Codex and the mode
/// includes Codex; blocked without a profile; otherwise by the profile's
/// startup mode.
pub open spec fn codex_action(p: SnapshotProjectPayload, mode: Seq<char>) -> ActionModel {
    let (id, kind, adapter) = ("builtin:codex_session"@, "codex_session"@, "codex"@);
    if !p.auto_resume_codex {
        simple_action(id, kind, "Codex 恢复已关闭"@, adapter, "skipped"@, Some("项目未开启自动恢复 Codex"@))
    } else if !mode_includes(mode, "codex_only"@) {
        simple_action(
            id,
            kind,
            "Codex 恢复未纳入当前恢复模式"@,
            adapter,
            "skipped"@,
            Some("当前恢复模式未包含 Codex"@),
        )
    } else {
        match p.codex_profile {
            None => simple_action(
                id,
                kind,
                "Codex Profile 缺失"@,
                adapter,
                "blocked"@,
                Some("项目未绑定 Codex Profile"@),
            ),
            Some(profile) => {
                let sm = profile.startup_mode@;
                if sm == "terminal_only"@ {
                    simple_action(
                        id,
                        kind,
                        "Codex Profile 配置为仅终端"@,
                        adapter,
                        "skipped"@,
                        Some("Profile 启动模式为仅终端"@),
                    )
                } else if sm == "run_codex"@ {
                    simple_action(id, kind, "启动 Codex CLI"@, adapter, "planned"@, None)
                } else if sm == "resume_last"@ {
                    simple_action(id, kind, "恢复最近 Codex 会话"@, adapter, "planned"@, None)
                } else {
                    simple_action(
                        id,
                        kind,
                        "Codex 启动模式无效"@,
                        adapter,
                        "blocked"@,
                        Some("未知的 Profile 启动模式："@ + sm),
                    )
                }
            },
        }
    }
}

pub fn build_codex_action(project: &SnapshotProjectPayload, mode: &str) -> (r: RestoreActionPlan)
    ensures
        action_model(r) == codex_action(*project, mode@),
{
    if !project.auto_resume_codex {
        return skipped_action(
            "builtin:codex_session",
            "codex_session",
            "Codex 恢复已关闭",
            "codex",
            "项目未开启自动恢复 Codex",
        );
    }
    let m = chars_of(mode);
    if !(chars_eq_str(m.as_slice(), "full") || chars_eq_str(m.as_slice(), "codex_only")) {
        return skipped_action(
            "builtin:codex_session",
            "codex_session",
            "Codex 恢复未纳入当前恢复模式",
            "codex",
            "当前恢复模式未包含 Codex",
        );
    }
    let profile = match &project.codex_profile {
        Some(p) => p,
        None => {
            return blocked_action(
                "builtin:codex_session",
                "codex_session",
                "Codex Profile 缺失",
                "codex",
                "项目未绑定 Codex Profile",
            );
        },
    };
    let sm = chars_of(profile.startup_mode.as_str());
    if chars_eq_str(sm.as_slice(), "terminal_only") {
        skipped_action(
            "builtin:codex_session",
            "codex_session",
            "Codex Profile 配置为仅终端",
            "codex",
            "Profile 启动模式为仅终端",
        )
    } else if chars_eq_str(sm.as_slice(), "run_codex") {
        planned_action("builtin:codex_session", "codex_session", "启动 Codex CLI", "codex")
    } else if chars_eq_str(sm.as_slice(), "resume_last") {
        planned_action("builtin:codex_session", "codex_session", "恢复最近 Codex 会话", "codex")
    } else {
        let mut reason: Vec<char> = Vec::new();
        extend_str(&mut reason, "未知的 Profile 启动模式：");
        extend_str(&mut reason, profile.startup_mode.as_str());
        let reason = string_from(reason.as_slice());
        blocked_action(
            "builtin:codex_session",
            "codex_session",
            "Codex 启动模式无效",
            "codex",
            reason.as_str(),
        )
    }
}

/// The IDE step: off unless the project opens its IDE and the mode
/// includes IDEs; blocked without an IDE type.
pub open spec fn ide_action(p: SnapshotProjectPayload, mode: Seq<char>) -> ActionModel {
    let (id, kind) = ("builtin:ide_window"@, "ide_window"@);
    if !p.open_ide {
        simple_action(id, kind, "IDE 打开已关闭"@, "ide"@, "skipped"@, Some("项目未开启自动打开 IDE"@))
    } else if !mode_includes(mode, "ide_only"@) {
        simple_action(
            id,
            kind,
            "IDE 打开未纳入当前恢复模式"@,
            "ide"@,
            "skipped"@,
            Some("当前恢复模式未包含 IDE"@),
        )
    } else {
        match p.ide_type {
            None => simple_action(id, kind, "IDE 类型缺失"@, "ide"@, "blocked"@, Some("项目未配置 IDE 类型"@)),
            Some(t) => simple_action(id, kind, "打开 IDE 工作区"@, t@, "planned"@, None),
        }
    }
}

pub fn build_ide_action(project: &SnapshotProjectPayload, mode: &str) -> (r: RestoreActionPlan)
    ensures
        action_model(r) == ide_action(*project, mode@),
{
    if !project.open_ide {
        return skipped_action(
            "builtin:ide_window",
            "ide_window",
            "IDE 打开已关闭",
            "ide",
            "项目未开启自动打开 IDE",
        );
    }
    let m = chars_of(mode);
    if !(chars_eq_str(m.as_slice(), "full") || chars_eq_str(m.as_slice(), "ide_only")) {
        return skipped_action(
            "builtin:ide_window",
            "ide_window",
            "IDE 打开未纳入当前恢复模式",
            "ide",
            "当前恢复模式未包含 IDE",
        );
    }
    match &project.ide_type {
        None => blocked_action("builtin:ide_window", "ide_window", "IDE 类型缺失", "ide", "项目未配置 IDE 类型"),
        Some(t) => planned_action("builtin:ide_window", "ide_window", "打开 IDE 工作区", t.as_str()),
    }
}

// ---------------------------------------------------------------------------
// Launch tasks
// ---------------------------------------------------------------------------

/// The launch task step for `t` with the given status and reason.
pub open spec fn task_action(t: SnapshotLaunchTaskPayload, status: Seq<char>, reason: Option<Seq<char>>) -> ActionModel {
    ActionModel {
        id: t.id@,
        kind: "launch_task"@,
        label: t.name@,
        adapter: t.task_type@,
        task_type: Some(t.task_type@),
        launch_task_id: Some(t.id@),
        continue_on_failure: t.continue_on_failure,
        status,
        reason,
        started_at: None,
        finished_at: None,
        duration_ms: None,
        executable_path: None,
        executable_source: None,
        cancel_requested_at: None,
        diagnostic_code: None,
    }
}

pub fn launch_task_action(task: &SnapshotLaunchTaskPayload, status: &str, reason: Option<String>) -> (r:
    RestoreActionPlan)
    ensures
        action_model(r) == task_action(*task, status@, ov(reason)),
{
    RestoreActionPlan {
        id: task.id.clone(),
        kind: "launch_task".to_owned(),
        label: task.name.clone(),
        adapter: task.task_type.clone(),
        task_type: Some(task.task_type.clone()),
        launch_task_id: Some(task.id.clone()),
        continue_on_failure: task.continue_on_failure,
        status: status.to_owned(),
        reason,
        started_at: None,
        finished_at: None,
        duration_ms: None,
        executable_path: None,
        executable_source: None,
        cancel_requested_at: None,
        diagnostic_code: None,
    }
}

/// Whether a task of this type runs in this mode.
pub open spec fn task_in_mode(task_type: Seq<char>, mode: Seq<char>) -> bool {
    ||| ((task_type == "terminal_command"@ || task_type == "open_path"@) && mode_includes(
        mode,
        "terminals_only"@,
    ))
    ||| (task_type == "codex"@ && mode_includes(mode, "codex_only"@))
    ||| (task_type == "ide"@ && mode_includes(mode, "ide_only"@))
}

pub open spec fn launch_action(p: SnapshotProjectPayload, t: SnapshotLaunchTaskPayload, mode: Seq<char>) -> ActionModel {
    if !t.enabled {
        task_action(t, "skipped"@, Some("启动任务已禁用"@))
    } else if !task_in_mode(t.task_type@, mode) {
        task_action(t, "skipped"@, Some("当前恢复模式未包含此启动任务"@))
    } else if t.task_type@ == "codex"@ && p.codex_profile is None {
        task_action(t, "blocked"@, Some("项目未绑定 Codex Profile，无法执行 Codex 启动任务"@))
    } else {
        task_action(t, "planned"@, None)
    }
}

pub fn build_launch_task_action(
    project: &SnapshotProjectPayload,
    task: &SnapshotLaunchTaskPayload,
    mode: &str,
) -> (r: RestoreActionPlan)
    ensures
        action_model(r) == launch_action(*project, *task, mode@),
{
    if !task.enabled {
        return launch_task_action(task, "skipped", Some("启动任务已禁用".to_owned()));
    }
    let m = chars_of(mode);
    let tt = chars_of(task.task_type.as_str());
    let full = chars_eq_str(m.as_slice(), "full");
    let included = ((chars_eq_str(tt.as_slice(), "terminal_command") || chars_eq_str(tt.as_slice(), "open_path"))
        && (full || chars_eq_str(m.as_slice(), "terminals_only"))) || (chars_eq_str(tt.as_slice(), "codex")
        && (full || chars_eq_str(m.as_slice(), "codex_only"))) || (chars_eq_str(tt.as_slice(), "ide") && (full
        || chars_eq_str(m.as_slice(), "ide_only")));
    if !included {
        return launch_task_action(task, "skipped", Some("当前恢复模式未包含此启动任务".to_owned()));
    }
    if chars_eq_str(tt.as_slice(), "codex") && project.codex_profile.is_none() {
        return launch_task_action(
            task,
            "blocked",
            Some("项目未绑定 Codex Profile，无法执行 Codex 启动任务".to_owned()),
        );
    }
    launch_task_action(task, "planned", None)
}

/// Stable insertion of `x` by sort order.
/// The launch tasks in the order of a stable sort by sort order.
pub open spec fn sort_tasks(s: Seq<SnapshotLaunchTaskPayload>) -> Seq<SnapshotLaunchTaskPayload> {
    sort_by_key(s, |t: SnapshotLaunchTaskPayload| t.sort_order)
}

proof fn lemma_sort_tasks_len(s: Seq<SnapshotLaunchTaskPayload>)
    ensures
        sort_tasks(s).len() == s.len(),
{
    lemma_sort_by_key_len(s, |t: SnapshotLaunchTaskPayload| t.sort_order);
}

/// The positions of the tasks in stable sort order.
fn sorted_task_order(tasks: &Vec<SnapshotLaunchTaskPayload>) -> (r: Vec<usize>)
    ensures
        forall|i: int| 0 <= i < r@.len() ==> r@[i] < tasks@.len(),
        pick(tasks@, r@) == sort_tasks(tasks@),
{
    let mut keys: Vec<i64> = Vec::new();
    let mut i: usize = 0;
    while i < tasks.len()
        invariant
            i <= tasks@.len(),
            keys@.len() == i,
            forall|k: int| 0 <= k < i ==> keys@[k] == (#[trigger] tasks@[k]).sort_order,
        decreases tasks@.len() - i,
    {
        keys.push(tasks[i].sort_order);
        i = i + 1;
    }
    stable_order::<SnapshotLaunchTaskPayload>(
        &keys,
        Ghost(tasks@),
        Ghost(|t: SnapshotLaunchTaskPayload| t.sort_order),
    )
}

/// The launch task steps, in stable sort order of the tasks.
pub open spec fn launch_actions(p: SnapshotProjectPayload, mode: Seq<char>) -> Seq<ActionModel> {
    sort_tasks(p.launch_tasks@).map_values(|t: SnapshotLaunchTaskPayload| launch_action(p, t, mode))
}

pub fn build_launch_task_actions(project: &SnapshotProjectPayload, mode: &str) -> (r: Vec<
    RestoreActionPlan,
>)
    ensures
        action_models(r@) == launch_actions(*project, mode@),
{
    let order = sorted_task_order(&project.launch_tasks);
    let ghost sorted = sort_tasks(project.launch_tasks@);
    let mut out: Vec<RestoreActionPlan> = Vec::new();
    let mut i: usize = 0;
    while i < order.len()
        invariant
            i <= order@.len(),
            forall|k: int| 0 <= k < order@.len() ==> order@[k] < project.launch_tasks@.len(),
            pick(project.launch_tasks@, order@) == sorted,
            sorted == sort_tasks(project.launch_tasks@),
            out@.len() == i,
            forall|k: int| 0 <= k < i ==> action_model(#[trigger] out@[k]) == launch_action(*project, sorted[k], mode@),
        decreases order@.len() - i,
    {
        let t = &project.launch_tasks[order[i]];
        assert(*t == sorted[i as int]);
        out.push(build_launch_task_action(project, t, mode));
        i = i + 1;
    }
    assert(action_models(out@) =~= launch_actions(*project, mode@));
    out
}

// ---------------------------------------------------------------------------
// Projects
// ---------------------------------------------------------------------------

/// The first action among the first `k` that is blocked.
pub open spec fn first_blocked(s: Seq<ActionModel>, k: int) -> Option<int>
    decreases k,
{
    if k <= 0 {
        None
    } else {
        match first_blocked(s, k - 1) {
            Some(i) => Some(i),
            None => if s[k - 1].status == "blocked"@ {
                Some(k - 1)
            } else {
                None
            },
        }
    }
}

/// The first reason given among the first `k` actions.
pub open spec fn first_reason(s: Seq<ActionModel>, k: int) -> Option<Seq<char>>
    decreases k,
{
    if k <= 0 {
        None
    } else {
        match first_reason(s, k - 1) {
            Some(r) => Some(r),
            None => s[k - 1].reason,
        }
    }
}

/// A project is blocked by its first blocked action (with its reason),
/// planned when some action is planned, and skipped otherwise (with the
/// first reason given).
pub open spec fn project_status(s: Seq<ActionModel>) -> (Seq<char>, Option<Seq<char>>) {
    match first_blocked(s, s.len() as int) {
        Some(i) => ("blocked"@, s[i].reason),
        None => if exists|i: int| 0 <= i < s.len() && (#[trigger] s[i]).status == "planned"@ {
            ("planned"@, None)
        } else {
            ("skipped"@, first_reason(s, s.len() as int))
        },
    }
}

proof fn lemma_first_blocked_stable(s: Seq<ActionModel>, k: int, n: int)
    requires
        0 <= k <= n,
        first_blocked(s, k) is Some,
    ensures
        first_blocked(s, n) == first_blocked(s, k),
    decreases n - k,
{
    if n > k {
        lemma_first_blocked_stable(s, k, n - 1);
    }
}

proof fn lemma_first_reason_stable(s: Seq<ActionModel>, k: int, n: int)
    requires
        0 <= k <= n,
        first_reason(s, k) is Some,
    ensures
        first_reason(s, n) == first_reason(s, k),
    decreases n - k,
{
    if n > k {
        lemma_first_reason_stable(s, k, n - 1);
    }
}

fn copy_opt(o: &Option<String>) -> (r: Option<String>)
    ensures
        r == *o,
{
    match o {
        Some(s) => Some(s.clone()),
        None => None,
    }
}

proof fn lemma_first_blocked_at(s: Seq<ActionModel>, j: int, k: int)
    requires
        0 <= j < k <= s.len(),
        s[j].status == "blocked"@,
        forall|m: int| 0 <= m < j ==> (#[trigger] s[m]).status != "blocked"@,
    ensures
        first_blocked(s, k) == Some(j),
    decreases k,
{
    if k - 1 > j {
        lemma_first_blocked_at(s, j, k - 1);
    } else {
        lemma_first_blocked_none(s, j);
    }
}

proof fn lemma_first_blocked_none(s: Seq<ActionModel>, k: int)
    requires
        0 <= k <= s.len(),
        forall|m: int| 0 <= m < k ==> (#[trigger] s[m]).status != "blocked"@,
    ensures
        first_blocked(s, k) is None,
    decreases k,
{
    if k > 0 {
        lemma_first_blocked_none(s, k - 1);
    }
}

proof fn lemma_first_reason_at(s: Seq<ActionModel>, j: int, k: int)
    requires
        0 <= j < k <= s.len(),
        s[j].reason is Some,
        forall|m: int| 0 <= m < j ==> (#[trigger] s[m]).reason is None,
    ensures
        first_reason(s, k) == s[j].reason,
    decreases k,
{
    if k - 1 > j {
        lemma_first_reason_at(s, j, k - 1);
    } else {
        lemma_first_reason_none(s, j);
    }
}

proof fn lemma_first_reason_none(s: Seq<ActionModel>, k: int)
    requires
        0 <= k <= s.len(),
        forall|m: int| 0 <= m < k ==> (#[trigger] s[m]).reason is None,
    ensures
        first_reason(s, k) is None,
    decreases k,
{
    if k > 0 {
        lemma_first_reason_none(s, k - 1);
    }
}

/// A blocked action blocks its project, whatever other actions are
/// planned: the project is "blocked", with the reason of its first blocked
/// action.
pub proof fn law_blocked_action_blocks_project(actions: Seq<RestoreActionPlan>, j: int)
    requires
        0 <= j < actions.len(),
        actions[j].status@ == "blocked"@,
        forall|m: int| 0 <= m < j ==> (#[trigger] actions[m]).status@ != "blocked"@,
    ensures
        project_status(action_models(actions)) == ("blocked"@, ov(actions[j].reason)),
{
    let s = action_models(actions);
    assert forall|m: int| 0 <= m < j implies (#[trigger] s[m]).status != "blocked"@ by {
        assert(s[m] == action_model(actions[m]));
    }
    lemma_first_blocked_at(s, j, s.len() as int);
}

/// A project with no blocked action is "planned", without a reason, as soon
/// as one of its actions is planned.
pub proof fn law_planned_action_plans_project(actions: Seq<RestoreActionPlan>, j: int)
    requires
        0 <= j < actions.len(),
        actions[j].status@ == "planned"@,
        forall|m: int| 0 <= m < actions.len() ==> (#[trigger] actions[m]).status@ != "blocked"@,
    ensures
        project_status(action_models(actions)) == ("planned"@, None::<Seq<char>>),
{
    let s = action_models(actions);
    assert forall|m: int| 0 <= m < s.len() implies (#[trigger] s[m]).status != "blocked"@ by {
        assert(s[m] == action_model(actions[m]));
    }
    lemma_first_blocked_none(s, s.len() as int);
    assert(s[j].status == "planned"@);
}

/// A project none of whose actions is blocked or planned is "skipped",
/// with the first reason any of its actions gives (none when none does).
pub proof fn law_project_skipped_otherwise(actions: Seq<RestoreActionPlan>)
    requires
        forall|m: int|
            0 <= m < actions.len() ==> (#[trigger] actions[m]).status@ != "blocked"@
                && actions[m].status@ != "planned"@,
    ensures
        project_status(action_models(actions)).0 == "skipped"@,
        forall|j: int|
            0 <= j < actions.len() && (#[trigger] actions[j]).reason is Some && (forall|m: int|
                0 <= m < j ==> (#[trigger] actions[m]).reason is None) ==> project_status(
                action_models(actions),
            ).1 == ov(actions[j].reason),
        (forall|m: int| 0 <= m < actions.len() ==> (#[trigger] actions[m]).reason is None)
            ==> project_status(action_models(actions)).1 is None,
{
    let s = action_models(actions);
    assert forall|m: int| 0 <= m < s.len() implies (#[trigger] s[m]).status != "blocked"@ && s[m].status
        != "planned"@ by {
        assert(s[m] == action_model(actions[m]));
    }
    lemma_first_blocked_none(s, s.len() as int);
    assert forall|j: int|
        0 <= j < actions.len() && (#[trigger] actions[j]).reason is Some && (forall|m: int|
            0 <= m < j ==> (#[trigger] actions[m]).reason is None) implies project_status(s).1 == ov(
        actions[j].reason,
    ) by {
        assert forall|m: int| 0 <= m < j implies (#[trigger] s[m]).reason is None by {
            assert(s[m] == action_model(actions[m]));
            assert(actions[m].reason is None);
        }
        assert(s[j] == action_model(actions[j]));
        lemma_first_reason_at(s, j, s.len() as int);
    }
    if forall|m: int| 0 <= m < actions.len() ==> (#[trigger] actions[m]).reason is None {
        assert forall|m: int| 0 <= m < s.len() implies (#[trigger] s[m]).reason is None by {
            assert(s[m] == action_model(actions[m]));
            assert(actions[m].reason is None);
        }
        lemma_first_reason_none(s, s.len() as int);
    }
}

pub fn summarize_project_status(actions: &[RestoreActionPlan]) -> (r: (String, Option<String>))
    ensures
        (r.0@, ov(r.1)) == project_status(action_models(actions@)),
{
    let ghost s = action_models(actions@);
    let mut i: usize = 0;
    while i < actions.len()
        invariant
            i <= actions@.len(),
            s == action_models(actions@),
            first_blocked(s, i as int) is None,
        decreases actions@.len() - i,
    {
        assert(s[i as int] == action_model(actions@[i as int]));
        if chars_eq_str(chars_of(actions[i].status.as_str()).as_slice(), "blocked") {
            proof {
                lemma_first_blocked_stable(s, i + 1, s.len() as int);
            }
            return ("blocked".to_owned(), copy_opt(&actions[i].reason));
        }
        i = i + 1;
    }
    let mut k: usize = 0;
    while k < actions.len()
        invariant
            k <= actions@.len(),
            s == action_models(actions@),
            first_blocked(s, s.len() as int) is None,
            forall|m: int| 0 <= m < k ==> (#[trigger] s[m]).status != "planned"@,
        decreases actions@.len() - k,
    {
        assert(s[k as int] == action_model(actions@[k as int]));
        if chars_eq_str(chars_of(actions[k].status.as_str()).as_slice(), "planned") {
            assert(s[k as int].status == "planned"@);
            return ("planned".to_owned(), None);
        }
        k = k + 1;
    }
    let mut j: usize = 0;
    while j < actions.len()
        invariant
            j <= actions@.len(),
            s == action_models(actions@),
            first_blocked(s, s.len() as int) is None,
            forall|m: int| 0 <= m < s.len() ==> (#[trigger] s[m]).status != "planned"@,
            first_reason(s, j as int) is None,
        decreases actions@.len() - j,
    {
        assert(s[j as int] == action_model(actions@[j as int]));
        if actions[j].reason.is_some() {
            proof {
                lemma_first_reason_stable(s, j + 1, s.len() as int);
            }
            return ("skipped".to_owned(), copy_opt(&actions[j].reason));
        }
        j = j + 1;
    }
    ("skipped".to_owned(), None)
}

/// The steps of a project in order: terminal, Codex, launch tasks, IDE.
pub open spec fn project_actions(p: SnapshotProjectPayload, mode: Seq<char>) -> Seq<ActionModel> {
    seq![terminal_action(p, mode), codex_action(p, mode)] + launch_actions(p, mode) + seq![
        ide_action(p, mode),
    ]
}

pub fn build_project_plan(project: &SnapshotProjectPayload, mode: &str) -> (r: RestoreProjectPlan)
    ensures
        r.project_id@ == project.id@,
        r.project_name@ == project.name@,
        r.path@ == project.path@,
        action_models(r.actions@) == project_actions(*project, mode@),
        (r.status@, ov(r.reason)) == project_status(project_actions(*project, mode@)),
{
    let mut actions: Vec<RestoreActionPlan> = Vec::new();
    actions.push(build_terminal_action(project, mode));
    actions.push(build_codex_action(project, mode));
    let mut tasks = build_launch_task_actions(project, mode);
    let ghost head = actions@;
    let ghost tail = tasks@;
    actions.append(&mut tasks);
    actions.push(build_ide_action(project, mode));
    assert(action_models(actions@) =~= project_actions(*project, mode@)) by {
        assert(action_models(tail) == launch_actions(*project, mode@));
        assert(actions@ =~= head + tail + seq![actions@.last()]);
    }
    let (status, reason) = summarize_project_status(actions.as_slice());
    RestoreProjectPlan {
        project_id: project.id.clone(),
        project_name: project.name.clone(),
        path: project.path.clone(),
        status,
        reason,
        actions,
    }
}

// ---------------------------------------------------------------------------
// Statistics
// ---------------------------------------------------------------------------

/// The counter a status goes to: planned, running, completed, cancelled,
/// failed, blocked, or (anything else) skipped.
pub open spec fn status_bucket(s: Seq<char>) -> int {
    if s == "planned"@ {
        0
    } else if s == "running"@ {
        1
    } else if s == "completed"@ {
        2
    } else if s == "cancelled"@ {
        3
    } else if s == "failed"@ {
        4
    } else if s == "blocked"@ {
        5
    } else {
        6
    }
}

fn status_bucket_of(s: &str) -> (b: usize)
    ensures
        b == status_bucket(s@),
{
    let c = chars_of(s);
    if chars_eq_str(c.as_slice(), "planned") {
        0
    } else if chars_eq_str(c.as_slice(), "running") {
        1
    } else if chars_eq_str(c.as_slice(), "completed") {
        2
    } else if chars_eq_str(c.as_slice(), "cancelled") {
        3
    } else if chars_eq_str(c.as_slice(), "failed") {
        4
    } else if chars_eq_str(c.as_slice(), "blocked") {
        5
    } else {
        6
    }
}

/// How many of the statuses go to counter `b`.
pub open spec fn count_bucket(s: Seq<Seq<char>>, b: int) -> int
    decreases s.len(),
{
    if s.len() == 0 {
        0
    } else {
        count_bucket(s.drop_last(), b) + if status_bucket(s.last()) == b {
            1int
        } else {
            0int
        }
    }
}

proof fn lemma_count_bucket_bound(s: Seq<Seq<char>>, b: int)
    ensures
        0 <= count_bucket(s, b) <= s.len(),
    decreases s.len(),
{
    if s.len() > 0 {
        lemma_count_bucket_bound(s.drop_last(), b);
    }
}

/// The statistics that count `projects` and `actions` statuses.
pub open spec fn stats_of(st: RestorePreviewStats, projects: Seq<Seq<char>>, actions: Seq<Seq<char>>) -> bool {
    &&& st.total_projects == projects.len()
    &&& st.planned_projects == count_bucket(projects, 0)
    &&& st.running_projects == count_bucket(projects, 1)
    &&& st.completed_projects == count_bucket(projects, 2)
    &&& st.cancelled_projects == count_bucket(projects, 3)
    &&& st.failed_projects == count_bucket(projects, 4)
    &&& st.blocked_projects == count_bucket(projects, 5)
    &&& st.skipped_projects == count_bucket(projects, 6)
    &&& st.total_actions == actions.len()
    &&& st.planned_actions == count_bucket(actions, 0)
    &&& st.running_actions == count_bucket(actions, 1)
    &&& st.completed_actions == count_bucket(actions, 2)
    &&& st.cancelled_actions == count_bucket(actions, 3)
    &&& st.failed_actions == count_bucket(actions, 4)
    &&& st.blocked_actions == count_bucket(actions, 5)
    &&& st.skipped_actions == count_bucket(actions, 6)
}

pub open spec fn action_statuses(s: Seq<RestoreActionPlan>) -> Seq<Seq<char>> {
    s.map_values(|a: RestoreActionPlan| a.status@)
}

pub open spec fn plan_statuses(s: Seq<RestoreProjectPlan>) -> Seq<Seq<char>> {
    s.map_values(|p: RestoreProjectPlan| p.status@)
}

/// The statuses of all actions of the first `k` projects, in order.
pub open spec fn plan_action_statuses(s: Seq<RestoreProjectPlan>, k: int) -> Seq<Seq<char>>
    decreases k,
{
    if k <= 0 {
        Seq::empty()
    } else {
        plan_action_statuses(s, k - 1) + action_statuses(s[k - 1].actions@)
    }
}

pub open spec fn run_statuses(s: Seq<RestoreRunProjectRecord>) -> Seq<Seq<char>> {
    s.map_values(|p: RestoreRunProjectRecord| p.status@)
}

pub open spec fn run_action_statuses(s: Seq<RestoreRunProjectRecord>, k: int) -> Seq<Seq<char>>
    decreases k,
{
    if k <= 0 {
        Seq::empty()
    } else {
        run_action_statuses(s, k - 1) + action_statuses(s[k - 1].actions@)
    }
}

/// Counters, one per bucket, for a sequence of statuses.
struct Tally {
    counts: Vec<i64>,
    total: i64,
}

impl Tally {
    spec fn counts_for(&self, s: Seq<Seq<char>>) -> bool {
        &&& self.counts@.len() == 7
        &&& self.total == s.len()
        &&& forall|b: int| 0 <= b < 7 ==> self.counts@[b] == count_bucket(s, b)
    }

    fn new() -> (t: Self)
        ensures
            t.counts_for(Seq::empty()),
    {
        let mut counts: Vec<i64> = Vec::new();
        let mut b: usize = 0;
        while b < 7
            invariant
                b <= 7,
                counts@.len() == b,
                forall|k: int| 0 <= k < b ==> counts@[k] == 0,
            decreases 7 - b,
        {
            counts.push(0);
            b = b + 1;
        }
        Tally { counts, total: 0 }
    }

    fn add(&mut self, status: &str, Ghost(s): Ghost<Seq<Seq<char>>>)
        requires
            old(self).counts_for(s),
            s.len() + 1 <= i64::MAX,
        ensures
            final(self).counts_for(s.push(status@)),
    {
        let b = status_bucket_of(status);
        proof {
            lemma_count_bucket_bound(s, b as int);
            assert(s.push(status@).drop_last() =~= s);
        }
        let v = self.counts[b];
        self.counts.set(b, v + 1);
        self.total = self.total + 1;
        assert forall|k: int| 0 <= k < 7 implies self.counts@[k] == count_bucket(s.push(status@), k) by {
            let t = s.push(status@);
            assert(t.last() == status@);
            assert(t.drop_last() == s);
            assert(count_bucket(t, k) == count_bucket(s, k) + if status_bucket(status@) == k {
                1int
            } else {
                0int
            });
            assert(old(self).counts@[k] == count_bucket(s, k));
        }
    }

    fn into_stats(self, projects: &Tally) -> (st: RestorePreviewStats)
        requires
            projects.counts@.len() == 7,
            self.counts@.len() == 7,
        ensures
            st.total_projects == projects.total,
            st.planned_projects == projects.counts@[0],
            st.running_projects == projects.counts@[1],
            st.completed_projects == projects.counts@[2],
            st.cancelled_projects == projects.counts@[3],
            st.failed_projects == projects.counts@[4],
            st.blocked_projects == projects.counts@[5],
            st.skipped_projects == projects.counts@[6],
            st.total_actions == self.total,
            st.planned_actions == self.counts@[0],
            st.running_actions == self.counts@[1],
            st.completed_actions == self.counts@[2],
            st.cancelled_actions == self.counts@[3],
            st.failed_actions == self.counts@[4],
            st.blocked_actions == self.counts@[5],
            st.skipped_actions == self.counts@[6],
    {
        RestorePreviewStats {
            total_projects: projects.total,
            planned_projects: projects.counts[0],
            running_projects: projects.counts[1],
            completed_projects: projects.counts[2],
            cancelled_projects: projects.counts[3],
            failed_projects: projects.counts[4],
            blocked_projects: projects.counts[5],
            skipped_projects: projects.counts[6],
            total_actions: self.total,
            planned_actions: self.counts[0],
            running_actions: self.counts[1],
            completed_actions: self.counts[2],
            cancelled_actions: self.counts[3],
            failed_actions: self.counts[4],
            blocked_actions: self.counts[5],
            skipped_actions: self.counts[6],
        }
    }
}

/// Counts the projects and actions of a plan by status.
pub fn build_restore_stats(projects: &[RestoreProjectPlan]) -> (st: RestorePreviewStats)
    requires
        projects@.len() <= i64::MAX,
        plan_action_statuses(projects@, projects@.len() as int).len() <= i64::MAX,
    ensures
        stats_of(st, plan_statuses(projects@), plan_action_statuses(projects@, projects@.len() as int)),
{
    let ghost all = plan_action_statuses(projects@, projects@.len() as int);
    let mut project_tally = Tally::new();
    let mut action_tally = Tally::new();
    let mut i: usize = 0;
    assert(plan_statuses(projects@).take(0) =~= Seq::<Seq<char>>::empty());
    while i < projects.len()
        invariant
            i <= projects@.len() <= i64::MAX,
            all == plan_action_statuses(projects@, projects@.len() as int),
            all.len() <= i64::MAX,
            project_tally.counts_for(plan_statuses(projects@).take(i as int)),
            action_tally.counts_for(plan_action_statuses(projects@, i as int)),
        decreases projects@.len() - i,
    {
        proof {
            lemma_plan_action_statuses_prefix(projects@, i + 1, projects@.len() as int);
            assert(plan_statuses(projects@).take(i + 1) =~= plan_statuses(projects@).take(i as int).push(
                projects@[i as int].status@,
            ));
        }
        project_tally.add(projects[i].status.as_str(), Ghost(plan_statuses(projects@).take(i as int)));
        let actions = &projects[i].actions;
        let ghost base = plan_action_statuses(projects@, i as int);
        let mut k: usize = 0;
        while k < actions.len()
            invariant
                k <= actions@.len(),
                i < projects@.len(),
                *actions == projects@[i as int].actions,
                base.len() + actions@.len() <= i64::MAX,
                action_tally.counts_for(base + action_statuses(actions@).take(k as int)),
            decreases actions@.len() - k,
        {
            proof {
                assert(base + action_statuses(actions@).take(k + 1) =~= (base + action_statuses(
                    actions@,
                ).take(k as int)).push(actions@[k as int].status@));
            }
            action_tally.add(
                actions[k].status.as_str(),
                Ghost(base + action_statuses(actions@).take(k as int)),
            );
            k = k + 1;
        }
        assert(action_statuses(actions@).take(actions@.len() as int) =~= action_statuses(actions@));
        i = i + 1;
    }
    assert(plan_statuses(projects@).take(projects@.len() as int) =~= plan_statuses(projects@));
    action_tally.into_stats(&project_tally)
}

proof fn lemma_plan_action_statuses_prefix(s: Seq<RestoreProjectPlan>, k: int, n: int)
    requires
        0 <= k <= n,
    ensures
        plan_action_statuses(s, k).len() <= plan_action_statuses(s, n).len(),
        k >= 1 ==> plan_action_statuses(s, k - 1).len() + s[k - 1].actions@.len()
            == plan_action_statuses(s, k).len(),
    decreases n - k,
{
    if n > k {
        lemma_plan_action_statuses_prefix(s, k, n - 1);
    }
}

proof fn lemma_run_action_statuses_prefix(s: Seq<RestoreRunProjectRecord>, k: int, n: int)
    requires
        0 <= k <= n,
    ensures
        run_action_statuses(s, k).len() <= run_action_statuses(s, n).len(),
        k >= 1 ==> run_action_statuses(s, k - 1).len() + s[k - 1].actions@.len()
            == run_action_statuses(s, k).len(),
    decreases n - k,
{
    if n > k {
        lemma_run_action_statuses_prefix(s, k, n - 1);
    }
}

/// Counts the projects and actions of a restore run by status.
pub fn build_restore_run_detail_stats(tasks: &[RestoreRunProjectRecord]) -> (st: RestorePreviewStats)
    requires
        tasks@.len() <= i64::MAX,
        run_action_statuses(tasks@, tasks@.len() as int).len() <= i64::MAX,
    ensures
        stats_of(st, run_statuses(tasks@), run_action_statuses(tasks@, tasks@.len() as int)),
{
    let ghost all = run_action_statuses(tasks@, tasks@.len() as int);
    let mut project_tally = Tally::new();
    let mut action_tally = Tally::new();
    let mut i: usize = 0;
    assert(run_statuses(tasks@).take(0) =~= Seq::<Seq<char>>::empty());
    while i < tasks.len()
        invariant
            i <= tasks@.len() <= i64::MAX,
            all == run_action_statuses(tasks@, tasks@.len() as int),
            all.len() <= i64::MAX,
            project_tally.counts_for(run_statuses(tasks@).take(i as int)),
            action_tally.counts_for(run_action_statuses(tasks@, i as int)),
        decreases tasks@.len() - i,
    {
        proof {
            lemma_run_action_statuses_prefix(tasks@, i + 1, tasks@.len() as int);
            assert(run_statuses(tasks@).take(i + 1) =~= run_statuses(tasks@).take(i as int).push(
                tasks@[i as int].status@,
            ));
        }
        project_tally.add(tasks[i].status.as_str(), Ghost(run_statuses(tasks@).take(i as int)));
        let actions = &tasks[i].actions;
        let ghost base = run_action_statuses(tasks@, i as int);
        let mut k: usize = 0;
        while k < actions.len()
            invariant
                k <= actions@.len(),
                i < tasks@.len(),
                *actions == tasks@[i as int].actions,
                base.len() + actions@.len() <= i64::MAX,
                action_tally.counts_for(base + action_statuses(actions@).take(k as int)),
            decreases actions@.len() - k,
        {
            proof {
                assert(base + action_statuses(actions@).take(k + 1) =~= (base + action_statuses(
                    actions@,
                ).take(k as int)).push(actions@[k as int].status@));
            }
            action_tally.add(
                actions[k].status.as_str(),
                Ghost(base + action_statuses(actions@).take(k as int)),
            );
            k = k + 1;
        }
        assert(action_statuses(actions@).take(actions@.len() as int) =~= action_statuses(actions@));
        i = i + 1;
    }
    assert(run_statuses(tasks@).take(tasks@.len() as int) =~= run_statuses(tasks@));
    action_tally.into_stats(&project_tally)
}

// ---------------------------------------------------------------------------
// Plans and runs
// ---------------------------------------------------------------------------

/// The plan of a restore of `projects` in `mode` (an already checked
/// restore mode): one plan per project, and their statistics.
/// The number of steps the plans of the first `k` projects hold: the
/// terminal, Codex and IDE steps and one per launch task.
pub open spec fn preview_action_total(projects: Seq<SnapshotProjectPayload>, k: int) -> int
    decreases k,
{
    if k <= 0 {
        0
    } else {
        preview_action_total(projects, k - 1) + projects[k - 1].launch_tasks@.len() + 3
    }
}

pub fn build_restore_preview(projects: &Vec<SnapshotProjectPayload>, mode: String) -> (r: RestorePreview)
    requires
        projects@.len() <= i64::MAX,
        preview_action_total(projects@, projects@.len() as int) <= i64::MAX,
    ensures
        r.mode@ == mode@,
        r.projects@.len() == projects@.len(),
        forall|i: int|
            0 <= i < projects@.len() ==> action_models((#[trigger] r.projects@[i]).actions@) == project_actions(
                projects@[i],
                mode@,
            ) && (r.projects@[i].status@, ov(r.projects@[i].reason)) == project_status(
                project_actions(projects@[i], mode@),
            ) && r.projects@[i].project_id@ == projects@[i].id@,
        stats_of(r.stats, plan_statuses(r.projects@), plan_action_statuses(r.projects@, r.projects@.len() as int)),
{
    let mut plans: Vec<RestoreProjectPlan> = Vec::new();
    let mut i: usize = 0;
    while i < projects.len()
        invariant
            i <= projects@.len(),
            plans@.len() == i,
            forall|k: int|
                0 <= k < i ==> action_models((#[trigger] plans@[k]).actions@) == project_actions(
                    projects@[k],
                    mode@,
                ) && (plans@[k].status@, ov(plans@[k].reason)) == project_status(
                    project_actions(projects@[k], mode@),
                ) && plans@[k].project_id@ == projects@[k].id@,
            plan_action_statuses(plans@, i as int).len() == preview_action_total(projects@, i as int),
        decreases projects@.len() - i,
    {
        let plan = build_project_plan(&projects[i], mode.as_str());
        proof {
            lemma_sort_tasks_len(projects@[i as int].launch_tasks@);
            assert(action_models(plan.actions@).len() == plan.actions@.len());
            lemma_plan_action_statuses_agree(plans@, plans@.push(plan), i as int);
        }
        plans.push(plan);
        i = i + 1;
    }
    let stats = build_restore_stats(plans.as_slice());
    RestorePreview { mode, stats, projects: plans }
}

proof fn lemma_plan_action_statuses_agree(a: Seq<RestoreProjectPlan>, b: Seq<RestoreProjectPlan>, k: int)
    requires
        0 <= k <= a.len(),
        k <= b.len(),
        forall|i: int| 0 <= i < k ==> a[i] == b[i],
    ensures
        plan_action_statuses(a, k) == plan_action_statuses(b, k),
    decreases k,
{
    if k > 0 {
        lemma_plan_action_statuses_agree(a, b, k - 1);
    }
}

pub open spec fn or_else(a: Option<Seq<char>>, b: Option<Seq<char>>) -> Option<Seq<char>> {
    match a {
        Some(x) => Some(x),
        None => b,
    }
}

/// A planned launch task step with the state its recorded task reached.
pub open spec fn merged_action(a: ActionModel, row: RestoreRunTaskRecord) -> ActionModel {
    ActionModel {
        status: row.status@,
        reason: or_else(ov(row.error_message), a.reason),
        started_at: or_else(ov(row.started_at), a.started_at),
        finished_at: or_else(ov(row.finished_at), a.finished_at),
        ..a
    }
}

fn copy_action(a: &RestoreActionPlan) -> (r: RestoreActionPlan)
    ensures
        action_model(r) == action_model(*a),
{
    RestoreActionPlan {
        id: a.id.clone(),
        kind: a.kind.clone(),
        label: a.label.clone(),
        adapter: a.adapter.clone(),
        task_type: copy_opt(&a.task_type),
        launch_task_id: copy_opt(&a.launch_task_id),
        continue_on_failure: a.continue_on_failure,
        status: a.status.clone(),
        reason: copy_opt(&a.reason),
        started_at: copy_opt(&a.started_at),
        finished_at: copy_opt(&a.finished_at),
        duration_ms: a.duration_ms,
        executable_path: copy_opt(&a.executable_path),
        executable_source: copy_opt(&a.executable_source),
        cancel_requested_at: copy_opt(&a.cancel_requested_at),
        diagnostic_code: copy_opt(&a.diagnostic_code),
    }
}

fn first_of(a: &Option<String>, b: &Option<String>) -> (r: Option<String>)
    ensures
        ov(r) == or_else(ov(*a), ov(*b)),
{
    match a {
        Some(x) => Some(x.clone()),
        None => copy_opt(b),
    }
}

pub fn merge_launch_task_state(action: &RestoreActionPlan, row: &RestoreRunTaskRecord) -> (r:
    RestoreActionPlan)
    ensures
        action_model(r) == merged_action(action_model(*action), *row),
{
    let mut merged = copy_action(action);
    merged.status = row.status.clone();
    merged.reason = first_of(&row.error_message, &action.reason);
    merged.started_at = first_of(&row.started_at, &action.started_at);
    merged.finished_at = first_of(&row.finished_at, &action.finished_at);
    merged
}

/// The last recorded row of launch task `id`.
pub open spec fn launch_row(rows: Seq<RestoreRunTaskRecord>, id: Seq<char>, k: int) -> Option<int>
    decreases k,
{
    if k <= 0 {
        None
    } else if ov(rows[k - 1].launch_task_id) == Some(id) {
        Some(k - 1)
    } else {
        launch_row(rows, id, k - 1)
    }
}

/// The last recorded row of project `id` (rows of launch tasks excluded).
pub open spec fn project_row(rows: Seq<RestoreRunTaskRecord>, id: Seq<char>, k: int) -> Option<int>
    decreases k,
{
    if k <= 0 {
        None
    } else if rows[k - 1].launch_task_id is None && ov(rows[k - 1].project_id) == Some(id) {
        Some(k - 1)
    } else {
        project_row(rows, id, k - 1)
    }
}

/// A planned step with what the run recorded for it, if anything.
pub open spec fn run_action(a: ActionModel, rows: Seq<RestoreRunTaskRecord>) -> ActionModel {
    match a.launch_task_id {
        Some(id) => match launch_row(rows, id, rows.len() as int) {
            Some(i) => merged_action(a, rows[i]),
            None => a,
        },
        None => a,
    }
}

/// `r` is project plan `p` of run `run_id` as recorded in `rows`.
pub open spec fn run_record(r: RestoreRunProjectRecord, run_id: Seq<char>, p: RestoreProjectPlan, rows: Seq<RestoreRunTaskRecord>) -> bool {
    let row = project_row(rows, p.project_id@, rows.len() as int);
    &&& r.restore_run_id@ == run_id
    &&& ov(r.project_id) == Some(p.project_id@)
    &&& r.project_name@ == p.project_name@
    &&& r.path@ == p.path@
    &&& action_models(r.actions@) == action_models(p.actions@).map_values(|a: ActionModel| run_action(a, rows))
    &&& match row {
        Some(i) => {
            &&& r.id@ == rows[i].id@
            &&& r.status@ == rows[i].status@
            &&& r.attempt_count == rows[i].attempt_count
            &&& ov(r.started_at) == ov(rows[i].started_at)
            &&& ov(r.finished_at) == ov(rows[i].finished_at)
            &&& ov(r.error_message) == or_else(ov(rows[i].error_message), ov(p.reason))
        },
        None => {
            &&& r.id@ == "preview:"@ + p.project_id@
            &&& r.status@ == p.status@
            &&& r.attempt_count == 0
            &&& r.started_at is None
            &&& r.finished_at is None
            &&& ov(r.error_message) == ov(p.reason)
        },
    }
}

fn find_launch_row(rows: &[RestoreRunTaskRecord], id: &String) -> (r: Option<usize>)
    ensures
        match r {
            Some(j) => j < rows@.len() && launch_row(rows@, id@, rows@.len() as int) == Some(j as int),
            None => launch_row(rows@, id@, rows@.len() as int) is None,
        },
{
    let mut k: usize = rows.len();
    while k > 0
        invariant
            k <= rows@.len(),
            launch_row(rows@, id@, rows@.len() as int) == launch_row(rows@, id@, k as int),
        decreases k,
    {
        let matches = match &rows[k - 1].launch_task_id {
            Some(l) => l.eq(id),
            None => false,
        };
        if matches {
            return Some(k - 1);
        }
        k = k - 1;
    }
    None
}

fn find_project_row(rows: &[RestoreRunTaskRecord], id: &String) -> (r: Option<usize>)
    ensures
        match r {
            Some(j) => j < rows@.len() && project_row(rows@, id@, rows@.len() as int) == Some(j as int),
            None => project_row(rows@, id@, rows@.len() as int) is None,
        },
{
    let mut k: usize = rows.len();
    while k > 0
        invariant
            k <= rows@.len(),
            project_row(rows@, id@, rows@.len() as int) == project_row(rows@, id@, k as int),
        decreases k,
    {
        let matches = rows[k - 1].launch_task_id.is_none() && match &rows[k - 1].project_id {
            Some(p) => p.eq(id),
            None => false,
        };
        if matches {
            return Some(k - 1);
        }
        k = k - 1;
    }
    None
}

/// Puts what a run recorded onto its plan: each project takes its recorded
/// task's state (the last row for it), or stays as planned under the id
/// `preview:<project id>`; each launch task step takes its recorded state.
pub fn build_run_project_records(
    run_id: &str,
    projects: &[RestoreProjectPlan],
    rows: &[RestoreRunTaskRecord],
) -> (r: Vec<RestoreRunProjectRecord>)
    ensures
        r@.len() == projects@.len(),
        forall|i: int| 0 <= i < r@.len() ==> run_record(#[trigger] r@[i], run_id@, projects@[i], rows@),
{
    let mut out: Vec<RestoreRunProjectRecord> = Vec::new();
    let mut i: usize = 0;
    while i < projects.len()
        invariant
            i <= projects@.len(),
            out@.len() == i,
            forall|k: int| 0 <= k < i ==> run_record(#[trigger] out@[k], run_id@, projects@[k], rows@),
        decreases projects@.len() - i,
    {
        let project = &projects[i];
        let task = find_project_row(rows, &project.project_id);
        let mut actions: Vec<RestoreActionPlan> = Vec::new();
        let mut k: usize = 0;
        while k < project.actions.len()
            invariant
                k <= project.actions@.len(),
                actions@.len() == k,
                forall|m: int|
                    0 <= m < k ==> action_model(#[trigger] actions@[m]) == run_action(
                        action_model(project.actions@[m]),
                        rows@,
                    ),
            decreases project.actions@.len() - k,
        {
            let a = &project.actions[k];
            assert(*a == project.actions@[k as int]);
            let merged = match &a.launch_task_id {
                Some(l) => match find_launch_row(rows, l) {
                    Some(j) => {
                        assert(action_model(*a).launch_task_id == Some(l@));
                        assert(launch_row(rows@, l@, rows@.len() as int) == Some(j as int));
                        merge_launch_task_state(a, &rows[j])
                    },
                    None => copy_action(a),
                },
                None => copy_action(a),
            };
            assert(action_model(merged) == run_action(action_model(project.actions@[k as int]), rows@));
            actions.push(merged);
            k = k + 1;
        }
        assert(action_models(actions@) =~= action_models(project.actions@).map_values(
            |a: ActionModel| run_action(a, rows@),
        ));
        let record = match task {
            Some(j) => {
                let row = &rows[j];
                RestoreRunProjectRecord {
                    id: row.id.clone(),
                    restore_run_id: run_id.to_owned(),
                    project_id: Some(project.project_id.clone()),
                    project_name: project.project_name.clone(),
                    path: project.path.clone(),
                    status: row.status.clone(),
                    attempt_count: row.attempt_count,
                    started_at: copy_opt(&row.started_at),
                    finished_at: copy_opt(&row.finished_at),
                    error_message: first_of(&row.error_message, &project.reason),
                    actions,
                }
            },
            None => {
                let mut id: Vec<char> = Vec::new();
                extend_str(&mut id, "preview:");
                extend_str(&mut id, project.project_id.as_str());
                RestoreRunProjectRecord {
                    id: string_from(id.as_slice()),
                    restore_run_id: run_id.to_owned(),
                    project_id: Some(project.project_id.clone()),
                    project_name: project.project_name.clone(),
                    path: project.path.clone(),
                    status: project.status.clone(),
                    attempt_count: 0,
                    started_at: None,
                    finished_at: None,
                    error_message: copy_opt(&project.reason),
                    actions,
                }
            },
        };
        out.push(record);
        i = i + 1;
    }
    out
}

/// A dry run recorded as `dry_run:<mode>` is read back (see
/// `run_restore_mode`) in the mode it was started in.
pub proof fn law_dry_run_mode_read_back(mode: Seq<char>)
    ensures
        is_prefix("dry_run:"@, "dry_run:"@ + mode),
        ("dry_run:"@ + mode).skip(8) == mode,
{
    reveal_strlit("dry_run:");
    assert(("dry_run:"@ + mode).take(8) =~= "dry_run:"@);
    assert(("dry_run:"@ + mode).skip(8) =~= mode);
}

/// The restore mode of a recorded run: its mode without the `dry_run:`
/// marker.
pub fn run_restore_mode(run_mode: &str) -> (r: String)
    ensures
        is_prefix("dry_run:"@, run_mode@) ==> r@ == run_mode@.skip(8),
        !is_prefix("dry_run:"@, run_mode@) ==> r@ == run_mode@,
{
    let c = chars_of(run_mode);
    proof {
        reveal_strlit("dry_run:");
    }
    if crate::text::starts_with_str(c.as_slice(), "dry_run:") {
        let rest = crate::text::slice_chars(c.as_slice(), 8, c.len());
        return string_from(rest.as_slice());
    }
    run_mode.to_owned()
}

// ---------------------------------------------------------------------------
// Snapshots of a workspace
// ---------------------------------------------------------------------------

#[derive(Debug)]
pub struct LaunchTaskRecord {
    pub id: String,
    pub name: String,
    pub task_type: String,
    pub enabled: bool,
    pub command: String,
    pub args: Vec<String>,
    pub working_dir: Option<String>,
    pub timeout_ms: Option<i64>,
    pub continue_on_failure: bool,
    pub retry_policy: Option<String>,
    pub sort_order: i64,
}

#[derive(Debug)]
pub struct ProjectRecord {
    pub id: String,
    pub name: String,
    pub path: String,
    pub platform: String,
    pub terminal_type: String,
    pub ide_type: Option<String>,
    pub codex_profile_id: Option<String>,
    pub open_terminal: bool,
    pub open_ide: bool,
    pub auto_resume_codex: bool,
    pub sort_order: i64,
    pub launch_tasks: Vec<LaunchTaskRecord>,
}

#[derive(Debug)]
pub struct WorkspaceRecord {
    pub id: String,
    pub name: String,
    pub description: Option<String>,
    pub icon: Option<String>,
    pub color: Option<String>,
    pub projects: Vec<ProjectRecord>,
}

#[derive(Debug)]
pub struct CodexProfileRecord {
    pub id: String,
    pub name: String,
    pub codex_home: String,
    pub startup_mode: String,
    pub resume_strategy: String,
    pub default_args: Vec<String>,
}

#[derive(Debug)]
pub struct SnapshotWorkspacePayload {
    pub id: String,
    pub name: String,
    pub description: Option<String>,
    pub icon: Option<String>,
    pub color: Option<String>,
}

/// What a snapshot records of a workspace, at the time it was taken.
#[derive(Debug)]
pub struct SnapshotPayload {
    pub workspace: SnapshotWorkspacePayload,
    pub projects: Vec<SnapshotProjectPayload>,
    pub captured_at: String,
}

/// Whether `s` records launch task `t`.
pub open spec fn task_recorded(s: SnapshotLaunchTaskPayload, t: LaunchTaskRecord) -> bool {
    &&& s.id == t.id
    &&& s.name == t.name
    &&& s.task_type == t.task_type
    &&& s.enabled == t.enabled
    &&& s.command == t.command
    &&& s.args@ == t.args@
    &&& s.working_dir == t.working_dir
    &&& s.timeout_ms == t.timeout_ms
    &&& s.continue_on_failure == t.continue_on_failure
    &&& s.retry_policy == t.retry_policy
    &&& s.sort_order == t.sort_order
}

/// Whether `s` records Codex profile `p`.
pub open spec fn profile_recorded(s: SnapshotCodexProfilePayload, p: CodexProfileRecord) -> bool {
    &&& s.id == p.id
    &&& s.name == p.name
    &&& s.codex_home == p.codex_home
    &&& s.startup_mode == p.startup_mode
    &&& s.resume_strategy == p.resume_strategy
    &&& s.default_args@ == p.default_args@
}

/// The position of the last profile among the first `n` with the given id.
pub open spec fn last_profile_index(profiles: Seq<CodexProfileRecord>, id: Seq<char>, n: int) -> Option<int>
    decreases n,
{
    if n <= 0 {
        None
    } else if profiles[n - 1].id@ == id {
        Some(n - 1)
    } else {
        last_profile_index(profiles, id, n - 1)
    }
}

/// Whether `s` records the profile a project names: the last profile with
/// its id, if there is one.
pub open spec fn project_profile_recorded(
    s: Option<SnapshotCodexProfilePayload>,
    p: ProjectRecord,
    profiles: Seq<CodexProfileRecord>,
) -> bool {
    match p.codex_profile_id {
        Some(id) => match last_profile_index(profiles, id@, profiles.len() as int) {
            Some(i) => s matches Some(x) && profile_recorded(x, profiles[i]),
            None => s is None,
        },
        None => s is None,
    }
}

/// Whether `s` records project `p`, with the profile it names and its
/// launch tasks in order.
pub open spec fn project_recorded(s: SnapshotProjectPayload, p: ProjectRecord, profiles: Seq<CodexProfileRecord>) -> bool {
    &&& s.id == p.id
    &&& s.name == p.name
    &&& s.path == p.path
    &&& s.platform == p.platform
    &&& s.terminal_type == p.terminal_type
    &&& s.ide_type == p.ide_type
    &&& s.open_terminal == p.open_terminal
    &&& s.open_ide == p.open_ide
    &&& s.auto_resume_codex == p.auto_resume_codex
    &&& s.sort_order == p.sort_order
    &&& project_profile_recorded(s.codex_profile, p, profiles)
    &&& s.launch_tasks@.len() == p.launch_tasks@.len()
    &&& forall|k: int|
        0 <= k < s.launch_tasks@.len() ==> task_recorded(
            #[trigger] s.launch_tasks@[k],
            p.launch_tasks@[k],
        )
}

/// The projects of a workspace in the order of a stable sort by sort order.
pub open spec fn sorted_projects(w: WorkspaceRecord) -> Seq<ProjectRecord> {
    sort_by_key(w.projects@, |p: ProjectRecord| p.sort_order)
}

/// Whether `s` is the snapshot of workspace `w` taken at `captured_at`.
pub open spec fn snapshot_of(s: SnapshotPayload, w: WorkspaceRecord, profiles: Seq<CodexProfileRecord>, captured_at: Seq<char>) -> bool {
    &&& s.workspace.id == w.id
    &&& s.workspace.name == w.name
    &&& s.workspace.description == w.description
    &&& s.workspace.icon == w.icon
    &&& s.workspace.color == w.color
    &&& s.captured_at@ == captured_at
    &&& s.projects@.len() == w.projects@.len()
    &&& forall|i: int|
        0 <= i < s.projects@.len() ==> project_recorded(
            #[trigger] s.projects@[i],
            sorted_projects(w)[i],
            profiles,
        )
}

fn copy_string_list(v: &Vec<String>) -> (r: Vec<String>)
    ensures
        r@ == v@,
{
    let mut r: Vec<String> = Vec::new();
    let mut i: usize = 0;
    while i < v.len()
        invariant
            i <= v@.len(),
            r@ == v@.take(i as int),
        decreases v@.len() - i,
    {
        r.push(v[i].clone());
        assert(v@.take(i + 1) =~= v@.take(i as int).push(v@[i as int]));
        i = i + 1;
    }
    assert(v@.take(v@.len() as int) =~= v@);
    r
}

fn record_task(t: &LaunchTaskRecord) -> (r: SnapshotLaunchTaskPayload)
    ensures
        task_recorded(r, *t),
{
    SnapshotLaunchTaskPayload {
        id: t.id.clone(),
        name: t.name.clone(),
        task_type: t.task_type.clone(),
        enabled: t.enabled,
        command: t.command.clone(),
        args: copy_string_list(&t.args),
        working_dir: copy_opt(&t.working_dir),
        timeout_ms: t.timeout_ms,
        continue_on_failure: t.continue_on_failure,
        retry_policy: copy_opt(&t.retry_policy),
        sort_order: t.sort_order,
    }
}

fn find_profile(profiles: &Vec<CodexProfileRecord>, id: &String) -> (r: Option<usize>)
    ensures
        match r {
            Some(i) => i < profiles@.len() && last_profile_index(profiles@, id@, profiles@.len() as int)
                == Some(i as int),
            None => last_profile_index(profiles@, id@, profiles@.len() as int) is None,
        },
{
    let mut n: usize = profiles.len();
    while n > 0
        invariant
            n <= profiles@.len(),
            last_profile_index(profiles@, id@, profiles@.len() as int) == last_profile_index(
                profiles@,
                id@,
                n as int,
            ),
        decreases n,
    {
        if profiles[n - 1].id.eq(id) {
            return Some(n - 1);
        }
        n = n - 1;
    }
    None
}

fn record_project(p: &ProjectRecord, profiles: &Vec<CodexProfileRecord>) -> (r: SnapshotProjectPayload)
    ensures
        project_recorded(r, *p, profiles@),
{
    let codex_profile = match &p.codex_profile_id {
        Some(id) => match find_profile(profiles, id) {
            Some(i) => {
                let prof = &profiles[i];
                Some(
                    SnapshotCodexProfilePayload {
                        id: prof.id.clone(),
                        name: prof.name.clone(),
                        codex_home: prof.codex_home.clone(),
                        startup_mode: prof.startup_mode.clone(),
                        resume_strategy: prof.resume_strategy.clone(),
                        default_args: copy_string_list(&prof.default_args),
                    },
                )
            },
            None => None,
        },
        None => None,
    };
    let mut tasks: Vec<SnapshotLaunchTaskPayload> = Vec::new();
    let mut i: usize = 0;
    while i < p.launch_tasks.len()
        invariant
            i <= p.launch_tasks@.len(),
            tasks@.len() == i,
            forall|k: int| 0 <= k < i ==> task_recorded(#[trigger] tasks@[k], p.launch_tasks@[k]),
        decreases p.launch_tasks@.len() - i,
    {
        tasks.push(record_task(&p.launch_tasks[i]));
        i = i + 1;
    }
    SnapshotProjectPayload {
        id: p.id.clone(),
        name: p.name.clone(),
        path: p.path.clone(),
        platform: p.platform.clone(),
        terminal_type: p.terminal_type.clone(),
        ide_type: copy_opt(&p.ide_type),
        open_terminal: p.open_terminal,
        open_ide: p.open_ide,
        auto_resume_codex: p.auto_resume_codex,
        sort_order: p.sort_order,
        codex_profile,
        launch_tasks: tasks,
    }
}

/// The snapshot of a workspace taken at `captured_at`: its details, and its
/// projects sorted (stably) by sort order, each with the Codex profile it
/// names (the last one with that id) and its launch tasks.
pub fn build_snapshot_payload(
    workspace: &WorkspaceRecord,
    profiles: &Vec<CodexProfileRecord>,
    captured_at: String,
) -> (r: SnapshotPayload)
    ensures
        snapshot_of(r, *workspace, profiles@, captured_at@),
{
    let mut keys: Vec<i64> = Vec::new();
    let mut i: usize = 0;
    while i < workspace.projects.len()
        invariant
            i <= workspace.projects@.len(),
            keys@.len() == i,
            forall|k: int| 0 <= k < i ==> keys@[k] == (#[trigger] workspace.projects@[k]).sort_order,
        decreases workspace.projects@.len() - i,
    {
        keys.push(workspace.projects[i].sort_order);
        i = i + 1;
    }
    let order = stable_order::<ProjectRecord>(
        &keys,
        Ghost(workspace.projects@),
        Ghost(|p: ProjectRecord| p.sort_order),
    );
    let ghost sorted = sorted_projects(*workspace);
    proof {
        lemma_sort_by_key_len(workspace.projects@, |p: ProjectRecord| p.sort_order);
    }
    let mut projects: Vec<SnapshotProjectPayload> = Vec::new();
    let mut j: usize = 0;
    while j < order.len()
        invariant
            j <= order@.len(),
            order@.len() == sorted.len(),
            forall|k: int| 0 <= k < order@.len() ==> order@[k] < workspace.projects@.len(),
            pick(workspace.projects@, order@) == sorted,
            projects@.len() == j,
            forall|k: int|
                0 <= k < j ==> project_recorded(#[trigger] projects@[k], sorted[k], profiles@),
        decreases order@.len() - j,
    {
        let p = &workspace.projects[order[j]];
        assert(*p == sorted[j as int]);
        projects.push(record_project(p, profiles));
        j = j + 1;
    }
    SnapshotPayload {
        workspace: SnapshotWorkspacePayload {
            id: workspace.id.clone(),
            name: workspace.name.clone(),
            description: copy_opt(&workspace.description),
            icon: copy_opt(&workspace.icon),
            color: copy_opt(&workspace.color),
        },
        projects,
        captured_at,
    }
}

/// The snapshot of the workspace with the given id (the first one, if
/// several have it); `WORKSPACE_NOT_FOUND` when none does.
pub fn snapshot_payload_for(
    workspaces: &Vec<WorkspaceRecord>,
    workspace_id: &str,
    profiles: &Vec<CodexProfileRecord>,
    captured_at: String,
) -> (r: AppResult<SnapshotPayload>)
    ensures
        match r {
            Ok(s) => exists|i: int|
                0 <= i < workspaces@.len() && (#[trigger] workspaces@[i]).id@ == workspace_id@
                    && (forall|k: int| 0 <= k < i ==> (#[trigger] workspaces@[k]).id@ != workspace_id@)
                    && snapshot_of(s, workspaces@[i], profiles@, captured_at@),
            Err(e) => (forall|i: int| 0 <= i < workspaces@.len() ==> (#[trigger] workspaces@[i]).id@
                != workspace_id@) && e.code@ == "WORKSPACE_NOT_FOUND"@ && e.message@
                == "workspace was not found"@ && e.detail_map() == map![
                "workspaceId"@ => workspace_id@,
            ],
        },
{
    let id = workspace_id.to_owned();
    let mut i: usize = 0;
    while i < workspaces.len()
        invariant
            i <= workspaces@.len(),
            id@ == workspace_id@,
            forall|k: int| 0 <= k < i ==> (#[trigger] workspaces@[k]).id@ != workspace_id@,
        decreases workspaces@.len() - i,
    {
        if workspaces[i].id.eq(&id) {
            let s = build_snapshot_payload(&workspaces[i], profiles, captured_at);
            return Ok(s);
        }
        i = i + 1;
    }
    Err(AppError::new("WORKSPACE_NOT_FOUND", "workspace was not found").with_detail("workspaceId", workspace_id))
}

} // verus!
