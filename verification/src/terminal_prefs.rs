//! Validation of the workspace id lists and of the terminal command
//! templates.
use vstd::prelude::*;

use crate::error::{lemma_detail_keys_distinct, AppError, AppResult};
use crate::preferences::{StartupPreferences, TerminalCommandShell, TerminalCommandTemplate, WorkspacePreferences};
use crate::text::{
    chars_eq, decimal, decimal_string, extend_str, has_char, has_char_exec, string_from, string_views,
    trim, trim_chars, utf8_len, utf8_len_exceeds,
};
use crate::view_prefs::field_error;

verus! {

/// `prefix[index]`, the field name of an element of a list.
pub open spec fn indexed_field(prefix: Seq<char>, index: nat) -> Seq<char> {
    prefix + "["@ + decimal(index) + "]"@
}

/// Builds `prefix[index]` followed by `suffix`.
pub fn indexed_field_name(prefix: &str, index: usize, suffix: &str) -> (r: String)
    ensures
        r@ == indexed_field(prefix@, index as nat) + suffix@,
{
    let mut v: Vec<char> = Vec::new();
    extend_str(&mut v, prefix);
    extend_str(&mut v, "[");
    let digits = decimal_string(index as u64);
    extend_str(&mut v, digits.as_str());
    extend_str(&mut v, "]");
    extend_str(&mut v, suffix);
    string_from(v.as_slice())
}

fn message_with_prefix(prefix: &str, tail: &str) -> (r: String)
    ensures
        r@ == prefix@ + tail@,
{
    let mut v: Vec<char> = Vec::new();
    extend_str(&mut v, prefix);
    extend_str(&mut v, tail);
    string_from(v.as_slice())
}

// ---------------------------------------------------------------------------
// Workspace ids
// ---------------------------------------------------------------------------

/// The index of the first id among the first `k` that is longer than 64
/// bytes once trimmed.
pub open spec fn first_long_id(values: Seq<String>, k: int) -> Option<int>
    decreases k,
{
    if k <= 0 {
        None
    } else {
        match first_long_id(values, k - 1) {
            Some(i) => Some(i),
            None => if utf8_len(trim(values[k - 1]@)) > 64 {
                Some(k - 1)
            } else {
                None
            },
        }
    }
}

/// The trimmed, non-blank ids among the first `k`, each kept once, in the
/// order of their first occurrence.
pub open spec fn kept_ids(values: Seq<String>, k: int) -> Seq<Seq<char>>
    decreases k,
{
    if k <= 0 {
        Seq::empty()
    } else {
        let prev = kept_ids(values, k - 1);
        let t = trim(values[k - 1]@);
        if t.len() == 0 || prev.contains(t) {
            prev
        } else {
            prev.push(t)
        }
    }
}


proof fn lemma_first_long_id_stable(values: Seq<String>, k: int, n: int)
    requires
        0 <= k <= n,
        first_long_id(values, k) is Some,
    ensures
        first_long_id(values, n) == first_long_id(values, k),
    decreases n - k,
{
    if n > k {
        lemma_first_long_id_stable(values, k, n - 1);
    }
}

pub open spec fn ids_ok(values: Seq<String>) -> bool {
    values.len() <= 500 && first_long_id(values, values.len() as int) is None
}

/// The error that a refused id list gets.
pub open spec fn ids_error(e: AppError, field_prefix: Seq<char>, values: Seq<String>) -> bool {
    if values.len() > 500 {
        e.code@ == "VALIDATION_ERROR"@ && e.message@ == field_prefix + " cannot exceed 500 entries"@
    } else {
        field_error(e, indexed_field(field_prefix, first_long_id(values, values.len() as int)->Some_0 as nat))
    }
}

/// Validates a list of workspace ids: at most 500 entries; blank ones are
/// dropped, the others trimmed, at most 64 bytes long, and kept once.
pub fn validate_workspace_id_preferences(field_prefix: &str, values: Vec<String>) -> (r: AppResult<
    Vec<String>,
>)
    ensures
        values@.len() > 500 ==> (r matches Err(e) && e.code@ == "VALIDATION_ERROR"@ && e.message@
            == field_prefix@ + " cannot exceed 500 entries"@),
        values@.len() <= 500 ==> match first_long_id(values@, values@.len() as int) {
            Some(i) => r matches Err(e) && field_error(e, indexed_field(field_prefix@, i as nat)),
            None => r matches Ok(v) && string_views(v@) == kept_ids(values@, values@.len() as int),
        },
{
    if values.len() > 500 {
        let message = message_with_prefix(field_prefix, " cannot exceed 500 entries");
        return Err(AppError::validation(message.as_str()));
    }
    let mut normalized: Vec<String> = Vec::new();
    let mut index: usize = 0;
    while index < values.len()
        invariant
            index <= values@.len() <= 500,
            first_long_id(values@, index as int) is None,
            string_views(normalized@) == kept_ids(values@, index as int),
        decreases values@.len() - index,
    {
        let trimmed = trim_chars(values[index].as_str());
        if trimmed.len() == 0 {
            index = index + 1;
            continue;
        }
        if utf8_len_exceeds(trimmed.as_slice(), 64) {
            proof {
                lemma_first_long_id_stable(values@, index + 1, values@.len() as int);
            }
            let field = indexed_field_name(field_prefix, index, "");
            proof {
                reveal_strlit("");
                assert(field@ =~= indexed_field(field_prefix@, index as nat));
            }
            return Err(
                AppError::validation("工作区 ID 不能超过 64 个字符").with_detail("field", field.as_str()),
            );
        }
        let mut seen = false;
        let mut k: usize = 0;
        while k < normalized.len()
            invariant
                k <= normalized@.len(),
                string_views(normalized@) == kept_ids(values@, index as int),
                trimmed@ == trim(values@[index as int]@),
                !seen ==> forall|m: int| 0 <= m < k ==> (#[trigger] normalized@[m])@ != trimmed@,
                seen ==> kept_ids(values@, index as int).contains(trimmed@),
            decreases normalized@.len() - k,
        {
            let nk = chars_of_string(&normalized[k]);
            if chars_eq(nk.as_slice(), trimmed.as_slice()) {
                assert(string_views(normalized@)[k as int] == trimmed@);
                seen = true;
            }
            k = k + 1;
        }
        if !seen {
            assert(!kept_ids(values@, index as int).contains(trimmed@)) by {
                if kept_ids(values@, index as int).contains(trimmed@) {
                    let m = choose|m: int|
                        0 <= m < kept_ids(values@, index as int).len() && kept_ids(
                            values@,
                            index as int,
                        )[m] == trimmed@;
                    assert(string_views(normalized@)[m] == normalized@[m]@);
                }
            }
            normalized.push(string_from(trimmed.as_slice()));
            assert(string_views(normalized@) =~= kept_ids(values@, index as int).push(trimmed@));
        }
        index = index + 1;
    }
    Ok(normalized)
}

fn chars_of_string(s: &String) -> (v: Vec<char>)
    ensures
        v@ == s@,
{
    crate::text::chars_of(s.as_str())
}

pub fn validate_workspace_preferences(input: WorkspacePreferences) -> (r: AppResult<
    WorkspacePreferences,
>)
    ensures
        ({
            let sel = input.selected_workspace_ids@;
            let pin = input.pinned_workspace_ids@;
            &&& r is Ok <==> ids_ok(sel) && ids_ok(pin)
            &&& r matches Ok(w) ==> string_views(w.selected_workspace_ids@) == kept_ids(
                sel,
                sel.len() as int,
            ) && string_views(w.pinned_workspace_ids@) == kept_ids(pin, pin.len() as int)
            &&& r matches Err(e) ==> if !ids_ok(sel) {
                ids_error(e, "workspace.selectedWorkspaceIds"@, sel)
            } else {
                ids_error(e, "workspace.pinnedWorkspaceIds"@, pin)
            }
        }),
{
    let selected_workspace_ids = match validate_workspace_id_preferences(
        "workspace.selectedWorkspaceIds",
        input.selected_workspace_ids,
    ) {
        Ok(v) => v,
        Err(e) => {
            return Err(e);
        },
    };
    let pinned_workspace_ids = match validate_workspace_id_preferences(
        "workspace.pinnedWorkspaceIds",
        input.pinned_workspace_ids,
    ) {
        Ok(v) => v,
        Err(e) => {
            return Err(e);
        },
    };
    Ok(WorkspacePreferences { selected_workspace_ids, pinned_workspace_ids })
}

/// Startup preferences need no checks.
pub fn validate_startup_preferences(input: StartupPreferences) -> (r: AppResult<StartupPreferences>)
    ensures
        r == Ok::<StartupPreferences, AppError>(input),
{
    Ok(input)
}

/// Any shell is accepted.
pub fn validate_terminal_command_shell(input: TerminalCommandShell) -> (r: TerminalCommandShell)
    ensures
        r == input,
{
    input
}

// ---------------------------------------------------------------------------
// Quotes
// ---------------------------------------------------------------------------

/// One step of the quote scan: the open quote, and whether the previous
/// character was an unconsumed backslash.
pub open spec fn quote_step(st: (Option<char>, bool), c: char) -> (Option<char>, bool) {
    if st.1 {
        (st.0, false)
    } else if c == '\\' {
        (st.0, true)
    } else if st.0 is Some {
        if c == st.0->0 {
            (None, false)
        } else {
            st
        }
    } else if c == '"' || c == '\'' {
        (Some(c), false)
    } else {
        st
    }
}

pub open spec fn quote_state(s: Seq<char>, k: int) -> (Option<char>, bool)
    decreases k,
{
    if k <= 0 {
        (None, false)
    } else {
        quote_step(quote_state(s, k - 1), s[k - 1])
    }
}

/// Every quote (`"` or `'`) that a command line opens is closed; a
/// backslash escapes the next character.
pub open spec fn quotes_balanced(s: Seq<char>) -> bool {
    quote_state(s, s.len() as int).0 is None
}

pub fn validate_balanced_terminal_quotes(command_line: &str) -> (r: AppResult<()>)
    ensures
        r is Ok <==> quotes_balanced(command_line@),
        r matches Err(e) ==> e.code@ == "VALIDATION_ERROR"@,
{
    let chars = crate::text::chars_of(command_line);
    let mut quote: Option<char> = None;
    let mut escaped = false;
    let mut i: usize = 0;
    while i < chars.len()
        invariant
            i <= chars@.len(),
            chars@ == command_line@,
            (quote, escaped) == quote_state(chars@, i as int),
        decreases chars@.len() - i,
    {
        let c = chars[i];
        if escaped {
            escaped = false;
        } else if c == '\\' {
            escaped = true;
        } else if let Some(active) = quote {
            if c == active {
                quote = None;
            }
        } else if c == '"' || c == '\'' {
            quote = Some(c);
        }
        i = i + 1;
    }
    if quote.is_some() {
        return Err(AppError::validation("终端命令包含未闭合的引号"));
    }
    Ok(())
}

// ---------------------------------------------------------------------------
// Template fields
// ---------------------------------------------------------------------------

pub enum TextRejection {
    Empty,
    TooLong,
}

/// Why a required text field is refused: blank, or longer than `max` bytes
/// once trimmed.
pub open spec fn text_rejection(v: Seq<char>, max: nat) -> Option<TextRejection> {
    if trim(v).len() == 0 {
        Some(TextRejection::Empty)
    } else if utf8_len(trim(v)) > max {
        Some(TextRejection::TooLong)
    } else {
        None
    }
}

pub fn validate_template_text_field(field: &str, value: String, max_length: usize, label: &str) -> (r:
    AppResult<String>)
    ensures
        r is Err <==> text_rejection(value@, max_length as nat) is Some,
        r matches Ok(v) ==> v@ == trim(value@),
        r matches Err(e) ==> field_error(e, field@),
{
    let trimmed = trim_chars(value.as_str());
    if trimmed.len() == 0 {
        let message = message_with_prefix(label, "不能为空");
        return Err(AppError::validation(message.as_str()).with_detail("field", field));
    }
    if utf8_len_exceeds(trimmed.as_slice(), max_length) {
        let mut m: Vec<char> = Vec::new();
        extend_str(&mut m, label);
        extend_str(&mut m, "不能超过 ");
        let digits = decimal_string(max_length as u64);
        extend_str(&mut m, digits.as_str());
        extend_str(&mut m, " 个字符");
        let message = string_from(m.as_slice());
        return Err(AppError::validation(message.as_str()).with_detail("field", field));
    }
    Ok(string_from(trimmed.as_slice()))
}

pub enum CommandRejection {
    Empty,
    TooLong,
    MultiLine,
    UnbalancedQuotes,
}

/// Why a template command line is refused, checked in this order.
pub open spec fn command_rejection(v: Seq<char>) -> Option<CommandRejection> {
    let t = trim(v);
    if t.len() == 0 {
        Some(CommandRejection::Empty)
    } else if utf8_len(t) > 512 {
        Some(CommandRejection::TooLong)
    } else if has_char(t, '\n') || has_char(t, '\r') {
        Some(CommandRejection::MultiLine)
    } else if !quotes_balanced(t) {
        Some(CommandRejection::UnbalancedQuotes)
    } else {
        None
    }
}

pub fn validate_template_command_line(field: &str, value: String) -> (r: AppResult<String>)
    ensures
        r is Err <==> command_rejection(value@) is Some,
        r matches Ok(v) ==> v@ == trim(value@),
        r matches Err(e) ==> field_error(e, field@),
{
    let trimmed = trim_chars(value.as_str());
    if trimmed.len() == 0 {
        return Err(AppError::validation("终端命令不能为空").with_detail("field", field));
    }
    if utf8_len_exceeds(trimmed.as_slice(), 512) {
        return Err(AppError::validation("终端命令不能超过 512 个字符").with_detail("field", field));
    }
    if has_char_exec(trimmed.as_slice(), '\n') || has_char_exec(trimmed.as_slice(), '\r') {
        return Err(AppError::validation("终端命令必须是单行").with_detail("field", field));
    }
    let text = string_from(trimmed.as_slice());
    match validate_balanced_terminal_quotes(text.as_str()) {
        Ok(()) => Ok(text),
        Err(e) => Err(e.with_detail("field", field)),
    }
}

pub fn validate_template_sort_order(field: &str, value: i64) -> (r: AppResult<i64>)
    ensures
        r is Ok <==> value >= 0,
        r matches Ok(v) ==> v == value,
        r matches Err(e) ==> field_error(e, field@),
{
    if value < 0 {
        return Err(AppError::validation("模板排序不能小于 0").with_detail("field", field));
    }
    Ok(value)
}

// ---------------------------------------------------------------------------
// Command templates
// ---------------------------------------------------------------------------

/// A template as the contracts see it.
pub struct TemplateModel {
    pub id: Seq<char>,
    pub name: Seq<char>,
    pub command_line: Seq<char>,
    pub sort_order: int,
}

pub open spec fn template_model(t: TerminalCommandTemplate) -> TemplateModel {
    TemplateModel { id: t.id@, name: t.name@, command_line: t.command_line@, sort_order: t.sort_order as int }
}

/// A template once its text fields are trimmed.
pub open spec fn validated_template(t: TerminalCommandTemplate) -> TemplateModel {
    TemplateModel {
        id: trim(t.id@),
        name: trim(t.name@),
        command_line: trim(t.command_line@),
        sort_order: t.sort_order as int,
    }
}

pub open spec fn template_models(s: Seq<TerminalCommandTemplate>) -> Seq<TemplateModel> {
    s.map_values(|t: TerminalCommandTemplate| template_model(t))
}

pub open spec fn validated_templates(s: Seq<TerminalCommandTemplate>) -> Seq<TemplateModel> {
    s.map_values(|t: TerminalCommandTemplate| validated_template(t))
}

/// Stable insertion of `x` into `s` by sort order.
pub open spec fn insert_by_order(s: Seq<TemplateModel>, x: TemplateModel) -> Seq<TemplateModel>
    decreases s.len(),
{
    if s.len() == 0 {
        seq![x]
    } else if s.last().sort_order <= x.sort_order {
        s.push(x)
    } else {
        insert_by_order(s.drop_last(), x).push(s.last())
    }
}

/// The templates in the order of a stable sort by sort order.
pub open spec fn sort_by_order(s: Seq<TemplateModel>) -> Seq<TemplateModel>
    decreases s.len(),
{
    if s.len() == 0 {
        Seq::empty()
    } else {
        insert_by_order(sort_by_order(s.drop_last()), s.last())
    }
}

/// The same templates with sort orders `0, 1, 2, ...`.
pub open spec fn renumbered(s: Seq<TemplateModel>) -> Seq<TemplateModel> {
    Seq::new(s.len(), |k: int| TemplateModel { sort_order: k, ..s[k] })
}

proof fn lemma_insert_by_order_at(s: Seq<TemplateModel>, x: TemplateModel, j: int)
    requires
        0 <= j <= s.len(),
        forall|m: int| j <= m < s.len() ==> (#[trigger] s[m]).sort_order > x.sort_order,
        j == 0 || s[j - 1].sort_order <= x.sort_order,
    ensures
        insert_by_order(s, x) == s.insert(j, x),
    decreases s.len() - j,
{
    if j == s.len() {
        assert(s.insert(j, x) =~= s.push(x));
    } else {
        let t = s.drop_last();
        assert forall|m: int| j <= m < t.len() implies (#[trigger] t[m]).sort_order > x.sort_order by {
            assert(t[m] == s[m]);
        }
        if j > 0 {
            assert(t[j - 1] == s[j - 1]);
        }
        lemma_insert_by_order_at(t, x, j);
        assert(t.insert(j, x).push(s.last()) =~= s.insert(j, x));
    }
}

proof fn lemma_insert_by_order_len(s: Seq<TemplateModel>, x: TemplateModel)
    ensures
        insert_by_order(s, x).len() == s.len() + 1,
    decreases s.len(),
{
    if s.len() > 0 && s.last().sort_order > x.sort_order {
        lemma_insert_by_order_len(s.drop_last(), x);
    }
}

proof fn lemma_sort_by_order_len(s: Seq<TemplateModel>)
    ensures
        sort_by_order(s).len() == s.len(),
    decreases s.len(),
{
    if s.len() > 0 {
        lemma_sort_by_order_len(s.drop_last());
        lemma_insert_by_order_len(sort_by_order(s.drop_last()), s.last());
    }
}

/// Stable sort by sort order.
fn sort_templates(input: Vec<TerminalCommandTemplate>) -> (r: Vec<TerminalCommandTemplate>)
    ensures
        template_models(r@) == sort_by_order(template_models(input@)),
{
    let ghost orig = template_models(input@);
    let ghost orig_exec = input@;
    let mut rest = input;
    let mut out: Vec<TerminalCommandTemplate> = Vec::new();
    let mut k: usize = 0;
    let n = rest.len();
    while k < n
        invariant
            k <= n == orig.len() == orig_exec.len(),
            orig == template_models(orig_exec),
            rest@ == orig_exec.skip(k as int),
            template_models(out@) == sort_by_order(orig.take(k as int)),
        decreases n - k,
    {
        let x = rest.remove(0);
        assert(x == orig_exec[k as int]);
        let ghost xm = template_model(x);
        let mut j: usize = out.len();
        while j > 0 && out[j - 1].sort_order > x.sort_order
            invariant
                j <= out@.len(),
                forall|m: int| j <= m < out@.len() ==> (#[trigger] out@[m]).sort_order > x.sort_order,
            decreases j,
        {
            j = j - 1;
        }
        proof {
            let om = template_models(out@);
            assert forall|m: int| j <= m < om.len() implies (#[trigger] om[m]).sort_order
                > xm.sort_order by {
                assert(om[m] == template_model(out@[m]));
            }
            if j > 0 {
                assert(om[j - 1] == template_model(out@[j - 1]));
            }
            lemma_insert_by_order_at(om, xm, j as int);
            assert(orig.take(k + 1).drop_last() =~= orig.take(k as int));
            assert(orig.take(k + 1).last() == xm);
            assert(orig_exec.skip(k as int).remove(0) =~= orig_exec.skip(k + 1));
        }
        let ghost before = out@;
        out.insert(j, x);
        assert(template_models(out@) =~= template_models(before).insert(j as int, xm));
        k = k + 1;
    }
    assert(orig.take(n as int) =~= orig);
    out
}

pub enum TemplateRejection {
    TooMany,
    Id(nat, TextRejection),
    DuplicateId(nat, Seq<char>),
    Name(nat, TextRejection),
    Command(nat, CommandRejection),
    SortOrder(nat),
}

/// An earlier template has the same (trimmed) id as template `i`.
pub open spec fn id_taken(ts: Seq<TerminalCommandTemplate>, i: int) -> bool {
    exists|j: int| 0 <= j < i && #[trigger] trim(ts[j].id@) == trim(ts[i].id@)
}

/// Why template `i` is refused, given that the templates before it passed.
pub open spec fn template_error_at(ts: Seq<TerminalCommandTemplate>, i: int) -> Option<
    TemplateRejection,
> {
    let t = ts[i];
    if text_rejection(t.id@, 64) is Some {
        Some(TemplateRejection::Id(i as nat, text_rejection(t.id@, 64)->Some_0))
    } else if id_taken(ts, i) {
        Some(TemplateRejection::DuplicateId(i as nat, trim(t.id@)))
    } else if text_rejection(t.name@, 80) is Some {
        Some(TemplateRejection::Name(i as nat, text_rejection(t.name@, 80)->Some_0))
    } else if command_rejection(t.command_line@) is Some {
        Some(TemplateRejection::Command(i as nat, command_rejection(t.command_line@)->Some_0))
    } else if t.sort_order < 0 {
        Some(TemplateRejection::SortOrder(i as nat))
    } else {
        None
    }
}

pub open spec fn first_template_error(ts: Seq<TerminalCommandTemplate>, k: int) -> Option<
    TemplateRejection,
>
    decreases k,
{
    if k <= 0 {
        None
    } else {
        match first_template_error(ts, k - 1) {
            Some(e) => Some(e),
            None => template_error_at(ts, k - 1),
        }
    }
}

proof fn lemma_first_template_error_stable(ts: Seq<TerminalCommandTemplate>, k: int, n: int)
    requires
        0 <= k <= n,
        first_template_error(ts, k) is Some,
    ensures
        first_template_error(ts, n) == first_template_error(ts, k),
    decreases n - k,
{
    if n > k {
        lemma_first_template_error_stable(ts, k, n - 1);
    }
}

/// Why the template list is refused, if it is.
pub open spec fn templates_error(ts: Seq<TerminalCommandTemplate>) -> Option<TemplateRejection> {
    if ts.len() > 100 {
        Some(TemplateRejection::TooMany)
    } else {
        first_template_error(ts, ts.len() as int)
    }
}

pub open spec fn template_field(i: nat, suffix: Seq<char>) -> Seq<char> {
    indexed_field("terminal.commandTemplates"@, i) + suffix
}

pub open spec fn template_rejection_error(e: AppError, rej: TemplateRejection) -> bool {
    match rej {
        TemplateRejection::TooMany => e.code@ == "VALIDATION_ERROR"@ && e.message@
            == "terminal.commandTemplates cannot exceed 100 entries"@,
        TemplateRejection::Id(i, _) => field_error(e, template_field(i, ".id"@)),
        TemplateRejection::DuplicateId(i, id) => field_error(e, template_field(i, ".id"@))
            && e.has_detail("id"@, id),
        TemplateRejection::Name(i, _) => field_error(e, template_field(i, ".name"@)),
        TemplateRejection::Command(i, _) => field_error(e, template_field(i, ".commandLine"@)),
        TemplateRejection::SortOrder(i) => field_error(e, template_field(i, ".sortOrder"@)),
    }
}

/// Validates the terminal command templates: at most 100; each with a
/// unique id (at most 64 bytes), a name (at most 80 bytes), a single-line
/// command with balanced quotes (at most 512 bytes) and a non-negative sort
/// order. The result is stably sorted by sort order and renumbered from 0.
pub fn validate_command_templates(templates: Vec<TerminalCommandTemplate>) -> (r: AppResult<
    Vec<TerminalCommandTemplate>,
>)
    ensures
        match templates_error(templates@) {
            Some(rej) => r matches Err(e) && template_rejection_error(e, rej),
            None => r matches Ok(v) && template_models(v@) == renumbered(
                sort_by_order(validated_templates(templates@)),
            ),
        },
{
    proof {
        lemma_detail_keys_distinct();
    }
    if templates.len() > 100 {
        return Err(AppError::validation("terminal.commandTemplates cannot exceed 100 entries"));
    }
    let ghost ts = templates@;
    let mut validated: Vec<TerminalCommandTemplate> = Vec::new();
    let mut index: usize = 0;
    let n = templates.len();
    let mut rest = templates;
    while index < n
        invariant
            index <= n == ts.len() <= 100,
            ts == templates@,
            validated@.len() == index,
            rest@ == ts.skip(index as int),
            first_template_error(ts, index as int) is None,
            template_models(validated@) == validated_templates(ts.take(index as int)),
        decreases n - index,
    {
        proof {
            lemma_detail_keys_distinct();
            if template_error_at(ts, index as int) is Some {
                lemma_first_template_error_stable(ts, index + 1, n as int);
            }
        }
        let template = rest.remove(0);
        assert(template == ts[index as int]);
        assert(ts.skip(index as int).remove(0) =~= ts.skip(index + 1));
        let id_field = indexed_field_name("terminal.commandTemplates", index, ".id");
        let id = match validate_template_text_field(id_field.as_str(), template.id, 64, "模板 ID") {
            Ok(v) => v,
            Err(e) => {
                return Err(e);
            },
        };
        let id_chars = crate::text::chars_of(id.as_str());
        let mut k: usize = 0;
        while k < validated.len()
            invariant
                k <= validated@.len() == index,
                template_models(validated@) == validated_templates(ts.take(index as int)),
                index < ts.len() <= 100,
                ts == templates@,
                first_template_error(ts, index as int) is None,
                template_error_at(ts, index as int) is Some ==> templates_error(ts) == template_error_at(
                    ts,
                    index as int,
                ),
                text_rejection(ts[index as int].id@, 64) is None,
                id@ == trim(ts[index as int].id@),
                id_field@ == template_field(index as nat, ".id"@),
                id_chars@ == trim(ts[index as int].id@),
                forall|m: int| 0 <= m < k ==> trim(#[trigger] ts[m].id@) != trim(ts[index as int].id@),
            decreases validated@.len() - k,
        {
            assert(template_models(validated@)[k as int] == template_model(validated@[k as int]));
            assert(validated_templates(ts.take(index as int))[k as int] == validated_template(
                ts[k as int],
            ));
            proof {
                lemma_detail_keys_distinct();
            }
            let existing = crate::text::chars_of(validated[k].id.as_str());
            if chars_eq(existing.as_slice(), id_chars.as_slice()) {
                assert(id_taken(ts, index as int));
                return Err(
                    AppError::validation("terminal command template ids must be unique").with_detail(
                        "field",
                        id_field.as_str(),
                    ).with_detail("id", id.as_str()),
                );
            }
            k = k + 1;
        }
        assert(!id_taken(ts, index as int));
        let name_field = indexed_field_name("terminal.commandTemplates", index, ".name");
        let name = match validate_template_text_field(name_field.as_str(), template.name, 80, "模板名称") {
            Ok(v) => v,
            Err(e) => {
                return Err(e);
            },
        };
        let command_field = indexed_field_name("terminal.commandTemplates", index, ".commandLine");
        let command_line = match validate_template_command_line(
            command_field.as_str(),
            template.command_line,
        ) {
            Ok(v) => v,
            Err(e) => {
                return Err(e);
            },
        };
        let sort_field = indexed_field_name("terminal.commandTemplates", index, ".sortOrder");
        let sort_order = match validate_template_sort_order(sort_field.as_str(), template.sort_order) {
            Ok(v) => v,
            Err(e) => {
                return Err(e);
            },
        };
        let ghost before = validated@;
        validated.push(TerminalCommandTemplate { id, name, command_line, sort_order });
        assert(ts.take(index + 1) =~= ts.take(index as int).push(ts[index as int]));
        assert(template_models(validated@) =~= template_models(before).push(
            validated_template(ts[index as int]),
        ));
        index = index + 1;
    }
    assert(ts.take(n as int) =~= ts);
    let ghost validated_models = template_models(validated@);
    let mut sorted = sort_templates(validated);
    let ghost sorted_models = template_models(sorted@);
    proof {
        lemma_sort_by_order_len(validated_models);
    }
    let mut k: usize = 0;
    while k < sorted.len()
        invariant
            k <= sorted@.len() == sorted_models.len() <= 100,
            forall|m: int|
                0 <= m < sorted@.len() ==> #[trigger] template_model(sorted@[m]) == (if m < k {
                    TemplateModel { sort_order: m, ..sorted_models[m] }
                } else {
                    sorted_models[m]
                }),
        decreases sorted@.len() - k,
    {
        let mut t = sorted[k].clone();
        assert(template_model(sorted@[k as int]) == sorted_models[k as int]);
        t.sort_order = k as i64;
        let ghost before = sorted@;
        sorted.set(k, t);
        assert forall|m: int| 0 <= m < sorted@.len() implies #[trigger] template_model(sorted@[m]) == (
        if m < k + 1 {
            TemplateModel { sort_order: m, ..sorted_models[m] }
        } else {
            sorted_models[m]
        }) by {
            if m != k {
                assert(sorted@[m] == before[m]);
                assert(template_model(before[m]) == (if m < k {
                    TemplateModel { sort_order: m, ..sorted_models[m] }
                } else {
                    sorted_models[m]
                }));
            }
        }
        k = k + 1;
    }
    assert(template_models(sorted@) =~= renumbered(sorted_models));
    Ok(sorted)
}

} // verus!
