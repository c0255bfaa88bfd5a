use bexo_services::preferences::{TerminalCommandTemplate, WorkspacePreferences};
use bexo_services::terminal_prefs::{
    indexed_field_name, validate_balanced_terminal_quotes, validate_command_templates,
    validate_template_command_line, validate_template_sort_order, validate_template_text_field,
    validate_workspace_id_preferences, validate_workspace_preferences,
};

fn template(id: &str, name: &str, command_line: &str, sort_order: i64) -> TerminalCommandTemplate {
    TerminalCommandTemplate {
        id: id.to_string(),
        name: name.to_string(),
        command_line: command_line.to_string(),
        sort_order,
    }
}

fn field_of(error: &bexo_services::error::AppError) -> Option<String> {
    error.details.as_ref().and_then(|d| d.get("field")).cloned()
}

#[test]
fn indexed_field_names_spell_the_index() {
    assert_eq!(indexed_field_name("workspace.pinnedWorkspaceIds", 3, ""), "workspace.pinnedWorkspaceIds[3]");
    assert_eq!(indexed_field_name("terminal.commandTemplates", 12, ".id"), "terminal.commandTemplates[12].id");
}

#[test]
fn workspace_ids_are_trimmed_deduplicated_and_bounded() {
    let ids = vec![" a ".to_string(), "".to_string(), "b".to_string(), "a".to_string()];
    assert_eq!(validate_workspace_id_preferences("workspace.selectedWorkspaceIds", ids).unwrap(), vec!["a", "b"]);
    let long = vec!["ok".to_string(), "x".repeat(65)];
    let error = validate_workspace_id_preferences("workspace.selectedWorkspaceIds", long).unwrap_err();
    assert_eq!(field_of(&error).as_deref(), Some("workspace.selectedWorkspaceIds[1]"));
    let many = vec!["id".to_string(); 501];
    let error = validate_workspace_id_preferences("workspace.pinnedWorkspaceIds", many).unwrap_err();
    assert_eq!(error.message, "workspace.pinnedWorkspaceIds cannot exceed 500 entries");

    let preferences = WorkspacePreferences {
        selected_workspace_ids: vec!["a".to_string(), " a".to_string()],
        pinned_workspace_ids: vec!["p".to_string()],
    };
    let validated = validate_workspace_preferences(preferences).unwrap();
    assert_eq!(validated.selected_workspace_ids, vec!["a"]);
    assert_eq!(validated.pinned_workspace_ids, vec!["p"]);
}

#[test]
fn quotes_must_be_closed_and_backslash_escapes() {
    assert!(validate_balanced_terminal_quotes("echo \"hi\" 'there'").is_ok());
    assert!(validate_balanced_terminal_quotes("echo \"it's\"").is_ok());
    assert!(validate_balanced_terminal_quotes("echo \\\"").is_ok());
    assert!(validate_balanced_terminal_quotes("echo \"open").is_err());
    assert!(validate_balanced_terminal_quotes("echo 'open").is_err());
}

#[test]
fn template_fields_are_checked_one_by_one() {
    assert_eq!(validate_template_text_field("f", "  Build ".to_string(), 80, "名称").unwrap(), "Build");
    let error = validate_template_text_field("f", "   ".to_string(), 80, "名称").unwrap_err();
    assert_eq!(error.message, "名称不能为空");
    assert!(validate_template_text_field("f", "x".repeat(81), 80, "名称").is_err());
    assert_eq!(validate_template_command_line("c", " npm run dev ".to_string()).unwrap(), "npm run dev");
    assert!(validate_template_command_line("c", "a\nb".to_string()).is_err());
    assert!(validate_template_command_line("c", "echo \"x".to_string()).is_err());
    assert!(validate_template_command_line("c", "x".repeat(513)).is_err());
    assert_eq!(validate_template_sort_order("s", 3).unwrap(), 3);
    assert!(validate_template_sort_order("s", -1).is_err());
}

#[test]
fn templates_are_sorted_stably_and_renumbered() {
    let templates = vec![
        template("b", " Second ", "npm test", 5),
        template("a", "First", "npm run dev", 1),
        template("c", "Third", "cargo build", 5),
    ];
    let validated = validate_command_templates(templates).unwrap();
    let ids: Vec<&str> = validated.iter().map(|t| t.id.as_str()).collect();
    assert_eq!(ids, vec!["a", "b", "c"]);
    let orders: Vec<i64> = validated.iter().map(|t| t.sort_order).collect();
    assert_eq!(orders, vec![0, 1, 2]);
    assert_eq!(validated[1].name, "Second");
}

#[test]
fn template_errors_name_the_offending_field() {
    let duplicate = vec![template("a", "One", "ls", 0), template(" a ", "Two", "ls", 1)];
    let error = validate_command_templates(duplicate).unwrap_err();
    assert_eq!(field_of(&error).as_deref(), Some("terminal.commandTemplates[1].id"));
    assert_eq!(error.details.as_ref().and_then(|d| d.get("id")).map(String::as_str), Some("a"));

    let negative = vec![template("a", "One", "ls", -2)];
    let error = validate_command_templates(negative).unwrap_err();
    assert_eq!(field_of(&error).as_deref(), Some("terminal.commandTemplates[0].sortOrder"));

    let unbalanced = vec![template("a", "One", "echo 'x", 0)];
    let error = validate_command_templates(unbalanced).unwrap_err();
    assert_eq!(field_of(&error).as_deref(), Some("terminal.commandTemplates[0].commandLine"));

    let too_many: Vec<TerminalCommandTemplate> =
        (0..101).map(|i| template(&format!("t{}", i), "T", "ls", i)).collect();
    let error = validate_command_templates(too_many).unwrap_err();
    assert_eq!(error.message, "terminal.commandTemplates cannot exceed 100 entries");
}
