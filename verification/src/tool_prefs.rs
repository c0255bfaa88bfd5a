//! Validation of the configured tool paths and custom editors.
//!
//! Whether a configured executable can be resolved, and what the file
//! system says about an absolute editor command, are found out by the
//! caller; these functions take those answers as arguments.
use vstd::prelude::*;

use crate::error::{lemma_detail_keys_distinct, AppError, AppResult};
use crate::preferences::{CustomEditorPreference, IdePreferences, TerminalPreferences};
use crate::terminal_prefs::{
    indexed_field, indexed_field_name, templates_error, template_models, renumbered, sort_by_order,
    text_rejection, validate_command_templates, validate_template_text_field, validated_templates,
    TextRejection,
};
use crate::text::{
    extend_str, has_char, has_char_exec, has_ws, has_ws_chars, is_windows_absolute,
    is_windows_absolute_path, string_from, trim, trim_chars, utf8_len, utf8_len_exceeds,
};
use crate::view_prefs::field_error;

verus! {

// ---------------------------------------------------------------------------
// Tool paths
// ---------------------------------------------------------------------------

/// The path a tool setting names, trimmed; none when absent or blank.
pub open spec fn tool_path_value(value: Option<String>) -> Option<Seq<char>> {
    match value {
        Some(raw) => if trim(raw@).len() == 0 {
            None
        } else {
            Some(trim(raw@))
        },
        None => None,
    }
}

/// The trimmed path that has to be resolved, if any.
pub fn tool_path_to_resolve(value: &Option<String>) -> (r: Option<String>)
    ensures
        opt_seq(r) == tool_path_value(*value),
{
    match value {
        Some(raw) => {
            let t = trim_chars(raw.as_str());
            if t.len() == 0 {
                None
            } else {
                Some(string_from(t.as_slice()))
            }
        },
        None => None,
    }
}

pub open spec fn opt_seq(o: Option<String>) -> Option<Seq<char>> {
    match o {
        Some(s) => Some(s@),
        None => None,
    }
}

pub open spec fn tool_path_too_long(value: Option<String>) -> bool {
    tool_path_value(value) matches Some(t) && utf8_len(t) > 320
}

/// What `validate_tool_path` reports: a blank or absent path is no path; a
/// path over 320 bytes is refused; otherwise the resolver's answer decides.
pub open spec fn tool_path_ok(value: Option<String>, resolved: Result<(), AppError>) -> bool {
    tool_path_value(value) is None || (!tool_path_too_long(value) && resolved is Ok)
}

pub open spec fn tool_path_error(
    e: AppError,
    field: Seq<char>,
    value: Option<String>,
    resolved: Result<(), AppError>,
) -> bool {
    if tool_path_too_long(value) {
        e.code@ == "VALIDATION_ERROR"@ && e.message@ == field + " exceeds 320 characters"@
    } else {
        resolved matches Err(r) && e.code == r.code && e.message == r.message && e.detail_map()
            == r.detail_map().insert("field"@, field)
    }
}

/// Validates an optional tool path. `resolved` is the outcome of resolving
/// the trimmed path to the tool's executable; it is only consulted when the
/// path is present and not too long.
pub fn validate_tool_path(field: &str, value: Option<String>, resolved: Result<(), AppError>) -> (r:
    AppResult<Option<String>>)
    ensures
        r is Ok <==> tool_path_ok(value, resolved),
        r matches Ok(v) ==> opt_seq(v) == tool_path_value(value),
        r matches Err(e) ==> tool_path_error(e, field@, value, resolved),
{
    let raw = match value {
        Some(raw) => raw,
        None => {
            return Ok(None);
        },
    };
    let trimmed = trim_chars(raw.as_str());
    if trimmed.len() == 0 {
        return Ok(None);
    }
    if utf8_len_exceeds(trimmed.as_slice(), 320) {
        let mut m: Vec<char> = Vec::new();
        extend_str(&mut m, field);
        extend_str(&mut m, " exceeds 320 characters");
        let message = string_from(m.as_slice());
        return Err(AppError::validation(message.as_str()));
    }
    match resolved {
        Ok(()) => Ok(Some(string_from(trimmed.as_slice()))),
        Err(error) => Err(error.with_detail("field", field)),
    }
}

// ---------------------------------------------------------------------------
// Custom editors
// ---------------------------------------------------------------------------

/// What the file system says about an absolute editor command.
pub enum PathStatus {
    File,
    NotFile,
    Missing(String),
}

pub enum EditorCommandRejection {
    Empty,
    TooLong,
    MultiLine,
    Missing(Seq<char>),
    NotFile,
    HasArguments,
}

/// Why an editor command is refused, checked in this order: blank, over 320
/// bytes, more than one line; an absolute path must name an existing file;
/// any other command must be a single word.
pub open spec fn editor_command_rejection(v: Seq<char>, status: PathStatus) -> Option<
    EditorCommandRejection,
> {
    let t = trim(v);
    if t.len() == 0 {
        Some(EditorCommandRejection::Empty)
    } else if utf8_len(t) > 320 {
        Some(EditorCommandRejection::TooLong)
    } else if has_char(t, '\n') || has_char(t, '\r') {
        Some(EditorCommandRejection::MultiLine)
    } else if is_windows_absolute(t) {
        match status {
            PathStatus::File => None,
            PathStatus::NotFile => Some(EditorCommandRejection::NotFile),
            PathStatus::Missing(reason) => Some(EditorCommandRejection::Missing(reason@)),
        }
    } else if has_ws(t) {
        Some(EditorCommandRejection::HasArguments)
    } else {
        None
    }
}

pub open spec fn editor_command_error(e: AppError, field: Seq<char>, v: Seq<char>, rej: EditorCommandRejection) -> bool {
    &&& field_error(e, field)
    &&& match rej {
        EditorCommandRejection::Missing(reason) => e.has_detail("command"@, trim(v)) && e.has_detail(
            "reason"@,
            reason,
        ),
        EditorCommandRejection::NotFile => e.has_detail("command"@, trim(v)),
        _ => true,
    }
}

/// The trimmed command when it is an absolute path, the one path whose
/// status `validate_custom_editor_command` needs.
pub fn custom_editor_command_path(value: &str) -> (r: Option<String>)
    ensures
        r matches Some(p) ==> p@ == trim(value@) && is_windows_absolute(trim(value@)),
        r is None ==> !is_windows_absolute(trim(value@)),
{
    let t = trim_chars(value);
    if is_windows_absolute_path(t.as_slice()) {
        Some(string_from(t.as_slice()))
    } else {
        None
    }
}

pub fn validate_custom_editor_command(field: &str, value: String, status: &PathStatus) -> (r:
    AppResult<String>)
    ensures
        match editor_command_rejection(value@, *status) {
            Some(rej) => r matches Err(e) && editor_command_error(e, field@, value@, rej),
            None => r matches Ok(v) && v@ == trim(value@),
        },
{
    proof {
        lemma_detail_keys_distinct();
    }
    let trimmed = trim_chars(value.as_str());
    if trimmed.len() == 0 {
        return Err(AppError::validation("编辑器命令不能为空").with_detail("field", field));
    }
    if utf8_len_exceeds(trimmed.as_slice(), 320) {
        return Err(AppError::validation("编辑器命令不能超过 320 个字符").with_detail("field", field));
    }
    if has_char_exec(trimmed.as_slice(), '\n') || has_char_exec(trimmed.as_slice(), '\r') {
        return Err(AppError::validation("编辑器命令必须是单行").with_detail("field", field));
    }
    let text = string_from(trimmed.as_slice());
    if is_windows_absolute_path(trimmed.as_slice()) {
        return match status {
            PathStatus::File => Ok(text),
            PathStatus::NotFile => Err(
                AppError::validation("编辑器命令必须指向可执行文件").with_detail("field", field).with_detail(
                    "command",
                    text.as_str(),
                ),
            ),
            PathStatus::Missing(reason) => Err(
                AppError::validation("编辑器命令路径不存在").with_detail("field", field).with_detail(
                    "command",
                    text.as_str(),
                ).with_detail("reason", reason.as_str()),
            ),
        };
    }
    if has_ws_chars(trimmed.as_slice()) {
        return Err(
            AppError::validation("编辑器命令不能包含参数，请只填写命令名").with_detail("field", field),
        );
    }
    Ok(text)
}

pub enum EditorRejection {
    TooMany,
    Id(nat, TextRejection),
    DuplicateId(nat, Seq<char>),
    Name(nat, TextRejection),
    Command(nat, EditorCommandRejection),
}

pub open spec fn editor_id_taken(es: Seq<CustomEditorPreference>, i: int) -> bool {
    exists|j: int| 0 <= j < i && #[trigger] trim(es[j].id@) == trim(es[i].id@)
}

/// Why editor `i` is refused, given that the editors before it passed;
/// `statuses[i]` is what the file system says of its command.
pub open spec fn editor_error_at(es: Seq<CustomEditorPreference>, statuses: Seq<PathStatus>, i: int) -> Option<
    EditorRejection,
> {
    let ed = es[i];
    if text_rejection(ed.id@, 64) is Some {
        Some(EditorRejection::Id(i as nat, text_rejection(ed.id@, 64)->Some_0))
    } else if editor_id_taken(es, i) {
        Some(EditorRejection::DuplicateId(i as nat, trim(ed.id@)))
    } else if text_rejection(ed.name@, 80) is Some {
        Some(EditorRejection::Name(i as nat, text_rejection(ed.name@, 80)->Some_0))
    } else if editor_command_rejection(ed.command@, statuses[i]) is Some {
        Some(EditorRejection::Command(i as nat, editor_command_rejection(ed.command@, statuses[i])->Some_0))
    } else {
        None
    }
}

pub open spec fn first_editor_error(es: Seq<CustomEditorPreference>, statuses: Seq<PathStatus>, k: int) -> Option<
    EditorRejection,
>
    decreases k,
{
    if k <= 0 {
        None
    } else {
        match first_editor_error(es, statuses, k - 1) {
            Some(e) => Some(e),
            None => editor_error_at(es, statuses, k - 1),
        }
    }
}

proof fn lemma_first_editor_error_stable(
    es: Seq<CustomEditorPreference>,
    statuses: Seq<PathStatus>,
    k: int,
    n: int,
)
    requires
        0 <= k <= n,
        first_editor_error(es, statuses, k) is Some,
    ensures
        first_editor_error(es, statuses, n) == first_editor_error(es, statuses, k),
    decreases n - k,
{
    if n > k {
        lemma_first_editor_error_stable(es, statuses, k, n - 1);
    }
}

pub open spec fn editors_error(es: Seq<CustomEditorPreference>, statuses: Seq<PathStatus>) -> Option<
    EditorRejection,
> {
    if es.len() > 100 {
        Some(EditorRejection::TooMany)
    } else {
        first_editor_error(es, statuses, es.len() as int)
    }
}

pub open spec fn editor_field(i: nat, suffix: Seq<char>) -> Seq<char> {
    indexed_field("ide.customEditors"@, i) + suffix
}

pub open spec fn editor_rejection_error(
    e: AppError,
    es: Seq<CustomEditorPreference>,
    rej: EditorRejection,
) -> bool {
    match rej {
        EditorRejection::TooMany => e.code@ == "VALIDATION_ERROR"@ && e.message@
            == "ide.customEditors cannot exceed 100 entries"@,
        EditorRejection::Id(i, _) => field_error(e, editor_field(i, ".id"@)),
        EditorRejection::DuplicateId(i, id) => field_error(e, editor_field(i, ".id"@)) && e.has_detail(
            "id"@,
            id,
        ),
        EditorRejection::Name(i, _) => field_error(e, editor_field(i, ".name"@)),
        EditorRejection::Command(i, c) => editor_command_error(
            e,
            editor_field(i, ".command"@),
            es[i as int].command@,
            c,
        ),
    }
}

/// `v` is editor `e` with its fields trimmed.
pub open spec fn validated_editor(e: CustomEditorPreference, v: CustomEditorPreference) -> bool {
    &&& v.id@ == trim(e.id@)
    &&& v.name@ == trim(e.name@)
    &&& v.command@ == trim(e.command@)
}

/// Validates the custom editors: at most 100, each with a unique id (at
/// most 64 bytes), a name (at most 80 bytes) and a valid command.
/// `statuses[i]` is what the file system says of editor `i`'s command when
/// that command is an absolute path.
pub fn validate_custom_editors(editors: Vec<CustomEditorPreference>, statuses: &Vec<PathStatus>) -> (r:
    AppResult<Vec<CustomEditorPreference>>)
    requires
        statuses@.len() == editors@.len(),
    ensures
        match editors_error(editors@, statuses@) {
            Some(rej) => r matches Err(e) && editor_rejection_error(e, editors@, rej),
            None => r matches Ok(v) && v@.len() == editors@.len() && forall|i: int|
                0 <= i < v@.len() ==> validated_editor(editors@[i], #[trigger] v@[i]),
        },
{
    proof {
        lemma_detail_keys_distinct();
    }
    if editors.len() > 100 {
        return Err(AppError::validation("ide.customEditors cannot exceed 100 entries"));
    }
    let ghost es = editors@;
    let n = editors.len();
    let mut rest = editors;
    let mut validated: Vec<CustomEditorPreference> = Vec::new();
    let mut index: usize = 0;
    while index < n
        invariant
            index <= n == es.len() <= 100,
            es == editors@,
            statuses@.len() == n,
            rest@ == es.skip(index as int),
            first_editor_error(es, statuses@, index as int) is None,
            validated@.len() == index,
            forall|i: int| 0 <= i < index ==> validated_editor(es[i], #[trigger] validated@[i]),
        decreases n - index,
    {
        proof {
            lemma_detail_keys_distinct();
            if editor_error_at(es, statuses@, index as int) is Some {
                lemma_first_editor_error_stable(es, statuses@, index + 1, n as int);
            }
        }
        let editor = rest.remove(0);
        assert(editor == es[index as int]);
        assert(es.skip(index as int).remove(0) =~= es.skip(index + 1));
        let id_field = indexed_field_name("ide.customEditors", index, ".id");
        let id = match validate_template_text_field(id_field.as_str(), editor.id, 64, "编辑器 ID") {
            Ok(v) => v,
            Err(e) => {
                return Err(e);
            },
        };
        let id_chars = crate::text::chars_of(id.as_str());
        let mut k: usize = 0;
        while k < validated.len()
            invariant
                k <= validated@.len() == index,
                index < es.len() <= 100,
                es == editors@,
                statuses@.len() == es.len(),
                forall|i: int| 0 <= i < index ==> validated_editor(es[i], #[trigger] validated@[i]),
                first_editor_error(es, statuses@, index as int) is None,
                editor_error_at(es, statuses@, index as int) is Some ==> editors_error(es, statuses@)
                    == editor_error_at(es, statuses@, index as int),
                text_rejection(es[index as int].id@, 64) is None,
                id@ == trim(es[index as int].id@),
                id_field@ == editor_field(index as nat, ".id"@),
                id_chars@ == trim(es[index as int].id@),
                forall|m: int| 0 <= m < k ==> trim(#[trigger] es[m].id@) != trim(es[index as int].id@),
            decreases validated@.len() - k,
        {
            proof {
                lemma_detail_keys_distinct();
            }
            assert(validated_editor(es[k as int], validated@[k as int]));
            let existing = crate::text::chars_of(validated[k].id.as_str());
            if crate::text::chars_eq(existing.as_slice(), id_chars.as_slice()) {
                assert(editor_id_taken(es, index as int));
                return Err(
                    AppError::validation("custom editor ids must be unique").with_detail(
                        "field",
                        id_field.as_str(),
                    ).with_detail("id", id.as_str()),
                );
            }
            k = k + 1;
        }
        assert(!editor_id_taken(es, index as int));
        let name_field = indexed_field_name("ide.customEditors", index, ".name");
        let name = match validate_template_text_field(name_field.as_str(), editor.name, 80, "编辑器名称") {
            Ok(v) => v,
            Err(e) => {
                return Err(e);
            },
        };
        let command_field = indexed_field_name("ide.customEditors", index, ".command");
        let command = match validate_custom_editor_command(
            command_field.as_str(),
            editor.command,
            &statuses[index],
        ) {
            Ok(v) => v,
            Err(e) => {
                return Err(e);
            },
        };
        validated.push(CustomEditorPreference { id, name, command });
        index = index + 1;
    }
    Ok(validated)
}

} // verus!
