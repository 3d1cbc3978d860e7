//! The modal input state machine of a session: multi-key navigation,
//! commands that a session refuses, and the confirmation asked before files change.
use vstd::prelude::*;
use vstd::string::*;

verus! {

/// Whether a session refuses the command named `n`: commands that assume
/// file-system navigation, several panes, language-server features, macros
/// or other behaviour that a synthetic buffer cannot support.
pub open spec fn is_unsupported_name(n: Seq<char>) -> bool {
        n == "global_search"@
        || n == "global_refactor"@
        || n == "file_picker"@
        || n == "file_picker_in_current_directory"@
        || n == "code_action"@
        || n == "buffer_picker"@
        || n == "jumplist_picker"@
        || n == "symbol_picker"@
        || n == "select_references_to_symbol_under_cursor"@
        || n == "workspace_symbol_picker"@
        || n == "diagnostics_picker"@
        || n == "workspace_diagnostics_picker"@
        || n == "last_picker"@
        || n == "goto_definition"@
        || n == "goto_type_definition"@
        || n == "goto_implementation"@
        || n == "goto_file"@
        || n == "goto_file_hsplit"@
        || n == "goto_file_vsplit"@
        || n == "goto_reference"@
        || n == "goto_window_top"@
        || n == "goto_window_center"@
        || n == "goto_window_bottom"@
        || n == "goto_last_accessed_file"@
        || n == "goto_last_modified_file"@
        || n == "goto_last_modification"@
        || n == "goto_line"@
        || n == "goto_last_line"@
        || n == "goto_first_diag"@
        || n == "goto_last_diag"@
        || n == "goto_next_diag"@
        || n == "goto_prev_diag"@
        || n == "goto_line_start"@
        || n == "goto_line_end"@
        || n == "goto_next_buffer"@
        || n == "goto_previous_buffer"@
        || n == "signature_help"@
        || n == "completion"@
        || n == "hover"@
        || n == "select_next_sibling"@
        || n == "select_prev_sibling"@
        || n == "jump_view_right"@
        || n == "jump_view_left"@
        || n == "jump_view_up"@
        || n == "jump_view_down"@
        || n == "swap_view_right"@
        || n == "swap_view_left"@
        || n == "swap_view_up"@
        || n == "swap_view_down"@
        || n == "transpose_view"@
        || n == "rotate_view"@
        || n == "hsplit"@
        || n == "hsplit_new"@
        || n == "vsplit"@
        || n == "vsplit_new"@
        || n == "wonly"@
        || n == "select_textobject_around"@
        || n == "select_textobject_inner"@
        || n == "goto_next_function"@
        || n == "goto_prev_function"@
        || n == "goto_next_class"@
        || n == "goto_prev_class"@
        || n == "goto_next_parameter"@
        || n == "goto_prev_parameter"@
        || n == "goto_next_comment"@
        || n == "goto_prev_comment"@
        || n == "goto_next_test"@
        || n == "goto_prev_test"@
        || n == "goto_next_paragraph"@
        || n == "goto_prev_paragraph"@
        || n == "dap_launch"@
        || n == "dap_toggle_breakpoint"@
        || n == "dap_continue"@
        || n == "dap_pause"@
        || n == "dap_step_in"@
        || n == "dap_step_out"@
        || n == "dap_next"@
        || n == "dap_variables"@
        || n == "dap_terminate"@
        || n == "dap_edit_condition"@
        || n == "dap_edit_log"@
        || n == "dap_switch_thread"@
        || n == "dap_switch_stack_frame"@
        || n == "dap_enable_exceptions"@
        || n == "dap_disable_exceptions"@
        || n == "shell_pipe"@
        || n == "shell_pipe_to"@
        || n == "shell_insert_output"@
        || n == "shell_append_output"@
        || n == "shell_keep_pipe"@
        || n == "suspend"@
        || n == "rename_symbol"@
        || n == "record_macro"@
        || n == "replay_macro"@
        || n == "command_palette"@
}

/// Whether a session refuses the command `name`.
pub fn is_unsupported(name: &String) -> (r: bool)
    ensures
        r == is_unsupported_name(name@),
{
    let mut found = false;
    if !found && *name == String::from_str("global_search") {
        found = true;
    }
    if !found && *name == String::from_str("global_refactor") {
        found = true;
    }
    if !found && *name == String::from_str("file_picker") {
        found = true;
    }
    if !found && *name == String::from_str("file_picker_in_current_directory") {
        found = true;
    }
    if !found && *name == String::from_str("code_action") {
        found = true;
    }
    if !found && *name == String::from_str("buffer_picker") {
        found = true;
    }
    if !found && *name == String::from_str("jumplist_picker") {
        found = true;
    }
    if !found && *name == String::from_str("symbol_picker") {
        found = true;
    }
    if !found && *name == String::from_str("select_references_to_symbol_under_cursor") {
        found = true;
    }
    if !found && *name == String::from_str("workspace_symbol_picker") {
        found = true;
    }
    if !found && *name == String::from_str("diagnostics_picker") {
        found = true;
    }
    if !found && *name == String::from_str("workspace_diagnostics_picker") {
        found = true;
    }
    if !found && *name == String::from_str("last_picker") {
        found = true;
    }
    if !found && *name == String::from_str("goto_definition") {
        found = true;
    }
    if !found && *name == String::from_str("goto_type_definition") {
        found = true;
    }
    if !found && *name == String::from_str("goto_implementation") {
        found = true;
    }
    if !found && *name == String::from_str("goto_file") {
        found = true;
    }
    if !found && *name == String::from_str("goto_file_hsplit") {
        found = true;
    }
    if !found && *name == String::from_str("goto_file_vsplit") {
        found = true;
    }
    if !found && *name == String::from_str("goto_reference") {
        found = true;
    }
    if !found && *name == String::from_str("goto_window_top") {
        found = true;
    }
    if !found && *name == String::from_str("goto_window_center") {
        found = true;
    }
    if !found && *name == String::from_str("goto_window_bottom") {
        found = true;
    }
    if !found && *name == String::from_str("goto_last_accessed_file") {
        found = true;
    }
    if !found && *name == String::from_str("goto_last_modified_file") {
        found = true;
    }
    if !found && *name == String::from_str("goto_last_modification") {
        found = true;
    }
    if !found && *name == String::from_str("goto_line") {
        found = true;
    }
    if !found && *name == String::from_str("goto_last_line") {
        found = true;
    }
    if !found && *name == String::from_str("goto_first_diag") {
        found = true;
    }
    if !found && *name == String::from_str("goto_last_diag") {
        found = true;
    }
    if !found && *name == String::from_str("goto_next_diag") {
        found = true;
    }
    if !found && *name == String::from_str("goto_prev_diag") {
        found = true;
    }
    if !found && *name == String::from_str("goto_line_start") {
        found = true;
    }
    if !found && *name == String::from_str("goto_line_end") {
        found = true;
    }
    if !found && *name == String::from_str("goto_next_buffer") {
        found = true;
    }
    if !found && *name == String::from_str("goto_previous_buffer") {
        found = true;
    }
    if !found && *name == String::from_str("signature_help") {
        found = true;
    }
    if !found && *name == String::from_str("completion") {
        found = true;
    }
    if !found && *name == String::from_str("hover") {
        found = true;
    }
    if !found && *name == String::from_str("select_next_sibling") {
        found = true;
    }
    if !found && *name == String::from_str("select_prev_sibling") {
        found = true;
    }
    if !found && *name == String::from_str("jump_view_right") {
        found = true;
    }
    if !found && *name == String::from_str("jump_view_left") {
        found = true;
    }
    if !found && *name == String::from_str("jump_view_up") {
        found = true;
    }
    if !found && *name == String::from_str("jump_view_down") {
        found = true;
    }
    if !found && *name == String::from_str("swap_view_right") {
        found = true;
    }
    if !found && *name == String::from_str("swap_view_left") {
        found = true;
    }
    if !found && *name == String::from_str("swap_view_up") {
        found = true;
    }
    if !found && *name == String::from_str("swap_view_down") {
        found = true;
    }
    if !found && *name == String::from_str("transpose_view") {
        found = true;
    }
    if !found && *name == String::from_str("rotate_view") {
        found = true;
    }
    if !found && *name == String::from_str("hsplit") {
        found = true;
    }
    if !found && *name == String::from_str("hsplit_new") {
        found = true;
    }
    if !found && *name == String::from_str("vsplit") {
        found = true;
    }
    if !found && *name == String::from_str("vsplit_new") {
        found = true;
    }
    if !found && *name == String::from_str("wonly") {
        found = true;
    }
    if !found && *name == String::from_str("select_textobject_around") {
        found = true;
    }
    if !found && *name == String::from_str("select_textobject_inner") {
        found = true;
    }
    if !found && *name == String::from_str("goto_next_function") {
        found = true;
    }
    if !found && *name == String::from_str("goto_prev_function") {
        found = true;
    }
    if !found && *name == String::from_str("goto_next_class") {
        found = true;
    }
    if !found && *name == String::from_str("goto_prev_class") {
        found = true;
    }
    if !found && *name == String::from_str("goto_next_parameter") {
        found = true;
    }
    if !found && *name == String::from_str("goto_prev_parameter") {
        found = true;
    }
    if !found && *name == String::from_str("goto_next_comment") {
        found = true;
    }
    if !found && *name == String::from_str("goto_prev_comment") {
        found = true;
    }
    if !found && *name == String::from_str("goto_next_test") {
        found = true;
    }
    if !found && *name == String::from_str("goto_prev_test") {
        found = true;
    }
    if !found && *name == String::from_str("goto_next_paragraph") {
        found = true;
    }
    if !found && *name == String::from_str("goto_prev_paragraph") {
        found = true;
    }
    if !found && *name == String::from_str("dap_launch") {
        found = true;
    }
    if !found && *name == String::from_str("dap_toggle_breakpoint") {
        found = true;
    }
    if !found && *name == String::from_str("dap_continue") {
        found = true;
    }
    if !found && *name == String::from_str("dap_pause") {
        found = true;
    }
    if !found && *name == String::from_str("dap_step_in") {
        found = true;
    }
    if !found && *name == String::from_str("dap_step_out") {
        found = true;
    }
    if !found && *name == String::from_str("dap_next") {
        found = true;
    }
    if !found && *name == String::from_str("dap_variables") {
        found = true;
    }
    if !found && *name == String::from_str("dap_terminate") {
        found = true;
    }
    if !found && *name == String::from_str("dap_edit_condition") {
        found = true;
    }
    if !found && *name == String::from_str("dap_edit_log") {
        found = true;
    }
    if !found && *name == String::from_str("dap_switch_thread") {
        found = true;
    }
    if !found && *name == String::from_str("dap_switch_stack_frame") {
        found = true;
    }
    if !found && *name == String::from_str("dap_enable_exceptions") {
        found = true;
    }
    if !found && *name == String::from_str("dap_disable_exceptions") {
        found = true;
    }
    if !found && *name == String::from_str("shell_pipe") {
        found = true;
    }
    if !found && *name == String::from_str("shell_pipe_to") {
        found = true;
    }
    if !found && *name == String::from_str("shell_insert_output") {
        found = true;
    }
    if !found && *name == String::from_str("shell_append_output") {
        found = true;
    }
    if !found && *name == String::from_str("shell_keep_pipe") {
        found = true;
    }
    if !found && *name == String::from_str("suspend") {
        found = true;
    }
    if !found && *name == String::from_str("rename_symbol") {
        found = true;
    }
    if !found && *name == String::from_str("record_macro") {
        found = true;
    }
    if !found && *name == String::from_str("replay_macro") {
        found = true;
    }
    if !found && *name == String::from_str("command_palette") {
        found = true;
    }
    found
}

/// The mode of a session. `StickyNavigation` holds a handle to the node of
/// the key-binding trie reached by the keys pressed so far.
#[derive(Clone, Copy, PartialEq, Eq, Structural, Debug)]
pub enum SessionState {
    Browsing,
    StickyNavigation(usize),
    ConfirmPending,
}

/// A key event, as far as a session tells keys apart.
#[derive(Clone, Copy, PartialEq, Eq, Structural, Debug)]
pub enum Key {
    Escape,
    Char(char),
    Other,
}

/// What a key resolves to in a node of the key-binding trie.
pub enum Resolution {
    /// A leaf bound to the command of that name.
    Command(String),
    /// An inner node, by handle: a prefix of longer key sequences.
    Node(usize),
    /// A leaf bound to a sequence of commands.
    Sequence,
}

/// A status line message.
#[derive(Clone, Copy, PartialEq, Eq, Structural, Debug)]
pub enum Status {
    NotSupported,
    Aborted,
    ConfirmPrompt,
}

/// What the host does after a key.
#[derive(Clone, Copy, PartialEq, Eq, Structural, Debug)]
pub enum Effect {
    /// The key is left to the ordinary editing commands and outer layers.
    Ignored,
    /// The key was handled here.
    Consumed,
    /// Write the changes to the files, report them, and close the session.
    Commit,
    /// Close the session, discarding the buffer.
    Close,
}

/// What happens to the help box of the next keys.
#[derive(Clone, Copy, PartialEq, Eq, Structural, Debug)]
pub enum Info {
    Keep,
    Clear,
    Show(usize),
}

/// The answer of a session to one key.
#[derive(Clone, Copy, PartialEq, Eq, Structural, Debug)]
pub struct Reaction {
    pub state: SessionState,
    pub effect: Effect,
    pub status: Option<Status>,
    pub info: Info,
}

pub open spec fn reaction(state: SessionState, effect: Effect, status: Option<Status>, info: Info) -> Reaction {
    Reaction { state, effect, status, info }
}

/// The name of the command that closes the pane.
pub open spec fn close_name() -> Seq<char> {
    "wclose"@
}

/// The name of the command that opens the command line.
pub open spec fn prompt_name() -> Seq<char> {
    "command_mode"@
}

/// The answer to a key that resolved to `res` while in `state`.
pub open spec fn resolved_reaction(state: SessionState, res: Option<Resolution>) -> Reaction {
    match res {
        None => reaction(state, Effect::Ignored, None, Info::Keep),
        Some(Resolution::Command(name)) => if is_unsupported_name(name@) {
            reaction(state, Effect::Consumed, Some(Status::NotSupported), Info::Keep)
        } else if name@ == close_name() {
            reaction(state, Effect::Close, None, Info::Keep)
        } else if name@ == prompt_name() {
            reaction(SessionState::ConfirmPending, Effect::Consumed, Some(Status::ConfirmPrompt), Info::Keep)
        } else {
            reaction(SessionState::Browsing, Effect::Ignored, None, Info::Clear)
        },
        Some(Resolution::Sequence) => reaction(state, Effect::Ignored, None, Info::Keep),
        Some(Resolution::Node(n)) => reaction(
            SessionState::StickyNavigation(n),
            Effect::Consumed,
            None,
            Info::Show(n),
        ),
    }
}

/// What a key resolves to: in a sticky state, its resolution in the sticky
/// node when there is one, else its resolution in the top-level bindings.
pub open spec fn effective_resolution(
    state: SessionState,
    from_node: Option<Resolution>,
    from_mode: Option<Resolution>,
) -> Option<Resolution> {
    match state {
        SessionState::StickyNavigation(_) => if from_node is Some {
            from_node
        } else {
            from_mode
        },
        _ => from_mode,
    }
}

/// The answer of a session in `state` to `key`. `from_node` is what the key
/// resolves to in the node of a sticky state, `from_mode` what it resolves to
/// in the top-level bindings of the current editing mode; the first is tried
/// first.
pub open spec fn react(
    state: SessionState,
    key: Key,
    from_node: Option<Resolution>,
    from_mode: Option<Resolution>,
) -> Reaction {
    if state == SessionState::ConfirmPending {
        if key == Key::Char('y') || key == Key::Char('Y') {
            reaction(state, Effect::Commit, None, Info::Keep)
        } else {
            reaction(SessionState::Browsing, Effect::Consumed, Some(Status::Aborted), Info::Keep)
        }
    } else if key == Key::Escape {
        reaction(SessionState::Browsing, Effect::Ignored, None, Info::Keep)
    } else {
        resolved_reaction(state, effective_resolution(state, from_node, from_mode))
    }
}

fn resolved_step(state: SessionState, res: Option<Resolution>) -> (r: Reaction)
    ensures
        r == resolved_reaction(state, res),
{
    match res {
        None => Reaction { state, effect: Effect::Ignored, status: None, info: Info::Keep },
        Some(Resolution::Command(name)) => {
            let close = String::from_str("wclose");
            let prompt = String::from_str("command_mode");
            if is_unsupported(&name) {
                Reaction { state, effect: Effect::Consumed, status: Some(Status::NotSupported), info: Info::Keep }
            } else if name == close {
                Reaction { state, effect: Effect::Close, status: None, info: Info::Keep }
            } else if name == prompt {
                Reaction {
                    state: SessionState::ConfirmPending,
                    effect: Effect::Consumed,
                    status: Some(Status::ConfirmPrompt),
                    info: Info::Keep,
                }
            } else {
                Reaction { state: SessionState::Browsing, effect: Effect::Ignored, status: None, info: Info::Clear }
            }
        },
        Some(Resolution::Sequence) => Reaction { state, effect: Effect::Ignored, status: None, info: Info::Keep },
        Some(Resolution::Node(n)) => Reaction {
            state: SessionState::StickyNavigation(n),
            effect: Effect::Consumed,
            status: None,
            info: Info::Show(n),
        },
    }
}

/// Decides the answer of a session in `state` to `key`; see [`react`].
pub fn step(state: SessionState, key: Key, from_node: Option<Resolution>, from_mode: Option<Resolution>) -> (r: Reaction)
    ensures
        r == react(state, key, from_node, from_mode),
{
    if state == SessionState::ConfirmPending {
        if key == Key::Char('y') || key == Key::Char('Y') {
            Reaction { state, effect: Effect::Commit, status: None, info: Info::Keep }
        } else {
            Reaction {
                state: SessionState::Browsing,
                effect: Effect::Consumed,
                status: Some(Status::Aborted),
                info: Info::Keep,
            }
        }
    } else if key == Key::Escape {
        Reaction { state: SessionState::Browsing, effect: Effect::Ignored, status: None, info: Info::Keep }
    } else {
        let res = match state {
            SessionState::StickyNavigation(_) => if from_node.is_some() {
                from_node
            } else {
                from_mode
            },
            _ => from_mode,
        };
        resolved_step(state, res)
    }
}

/// The text of a status message.
pub open spec fn status_text(s: Status) -> Seq<char> {
    match s {
        Status::NotSupported => "Command not supported in refactor view"@,
        Status::Aborted => "Aborted"@,
        Status::ConfirmPrompt => "Apply changes to documents? (y/n): "@,
    }
}

impl Status {
    /// The text shown on the status line.
    pub fn text(&self) -> (r: String)
        ensures
            r@ == status_text(*self),
    {
        match self {
            Status::NotSupported => String::from_str("Command not supported in refactor view"),
            Status::Aborted => String::from_str("Aborted"),
            Status::ConfirmPrompt => String::from_str("Apply changes to documents? (y/n): "),
        }
    }
}

/// The character of a decimal digit.
pub open spec fn digit_char(d: nat) -> char {
    seq!['0', '1', '2', '3', '4', '5', '6', '7', '8', '9'][d as int]
}

/// The decimal digits of `n`, most significant first.
pub open spec fn decimal(n: nat) -> Seq<char>
    decreases n,
{
    if n < 10 {
        seq![digit_char(n)]
    } else {
        decimal(n / 10) + seq![digit_char(n % 10)]
    }
}

/// The report of a commit that touched `documents` files and `lines` lines.
pub open spec fn summary_spec(documents: nat, lines: nat) -> Seq<char> {
    "Refactored "@ + decimal(documents) + " documents, "@ + decimal(lines) + " lines changed."@
}

/// Relies on std's `ToString` for `usize`, which writes its decimal digits.
#[verifier::external_body]
pub(crate) fn decimal_string(n: usize) -> (r: String)
    ensures
        r@ == decimal(n as nat),
{
    n.to_string()
}

/// The status message reporting a commit.
pub fn summary_text(documents: usize, lines: usize) -> (r: String)
    ensures
        r@ == summary_spec(documents as nat, lines as nat),
{
    let r = String::from_str("Refactored ");
    let r = r.concat(decimal_string(documents).as_str());
    let r = r.concat(" documents, ");
    let r = r.concat(decimal_string(lines).as_str());
    r.concat(" lines changed.")
}

proof fn lemma_prompt_supported()
    ensures
        !is_unsupported_name(prompt_name()),
        !is_unsupported_name(close_name()),
        prompt_name() != close_name(),
{
    broadcast use vstd::string::group_string_axioms;

    reveal_strlit("command_mode");
    reveal_strlit("wclose");
    assert("command_mode"@.len() == 12 && "wclose"@.len() == 6);
    reveal_strlit("global_search");
    reveal_strlit("global_refactor");
    reveal_strlit("file_picker");
    reveal_strlit("file_picker_in_current_directory");
    reveal_strlit("code_action");
    reveal_strlit("buffer_picker");
    reveal_strlit("jumplist_picker");
    reveal_strlit("symbol_picker");
    reveal_strlit("select_references_to_symbol_under_cursor");
    reveal_strlit("workspace_symbol_picker");
    reveal_strlit("diagnostics_picker");
    reveal_strlit("workspace_diagnostics_picker");
    reveal_strlit("last_picker");
    reveal_strlit("goto_definition");
    reveal_strlit("goto_type_definition");
    reveal_strlit("goto_implementation");
    reveal_strlit("goto_file");
    reveal_strlit("goto_file_hsplit");
    reveal_strlit("goto_file_vsplit");
    reveal_strlit("goto_reference");
    reveal_strlit("goto_window_top");
    reveal_strlit("goto_window_center");
    reveal_strlit("goto_window_bottom");
    reveal_strlit("goto_last_accessed_file");
    reveal_strlit("goto_last_modified_file");
    reveal_strlit("goto_last_modification");
    reveal_strlit("goto_line");
    reveal_strlit("goto_last_line");
    reveal_strlit("goto_first_diag");
    reveal_strlit("goto_last_diag");
    reveal_strlit("goto_next_diag");
    reveal_strlit("goto_prev_diag");
    reveal_strlit("goto_line_start");
    reveal_strlit("goto_line_end");
    reveal_strlit("goto_next_buffer");
    reveal_strlit("goto_previous_buffer");
    reveal_strlit("signature_help");
    reveal_strlit("completion");
    reveal_strlit("hover");
    reveal_strlit("select_next_sibling");
    reveal_strlit("select_prev_sibling");
    reveal_strlit("jump_view_right");
    reveal_strlit("jump_view_left");
    reveal_strlit("jump_view_up");
    reveal_strlit("jump_view_down");
    reveal_strlit("swap_view_right");
    reveal_strlit("swap_view_left");
    reveal_strlit("swap_view_up");
    reveal_strlit("swap_view_down");
    reveal_strlit("transpose_view");
    reveal_strlit("rotate_view");
    reveal_strlit("hsplit");
    reveal_strlit("hsplit_new");
    reveal_strlit("vsplit");
    reveal_strlit("vsplit_new");
    reveal_strlit("wonly");
    reveal_strlit("select_textobject_around");
    reveal_strlit("select_textobject_inner");
    reveal_strlit("goto_next_function");
    reveal_strlit("goto_prev_function");
    reveal_strlit("goto_next_class");
    reveal_strlit("goto_prev_class");
    reveal_strlit("goto_next_parameter");
    reveal_strlit("goto_prev_parameter");
    reveal_strlit("goto_next_comment");
    reveal_strlit("goto_prev_comment");
    reveal_strlit("goto_next_test");
    reveal_strlit("goto_prev_test");
    reveal_strlit("goto_next_paragraph");
    reveal_strlit("goto_prev_paragraph");
    reveal_strlit("dap_launch");
    reveal_strlit("dap_toggle_breakpoint");
    reveal_strlit("dap_continue");
    reveal_strlit("dap_pause");
    reveal_strlit("dap_step_in");
    reveal_strlit("dap_step_out");
    reveal_strlit("dap_next");
    reveal_strlit("dap_variables");
    reveal_strlit("dap_terminate");
    reveal_strlit("dap_edit_condition");
    reveal_strlit("dap_edit_log");
    reveal_strlit("dap_switch_thread");
    reveal_strlit("dap_switch_stack_frame");
    reveal_strlit("dap_enable_exceptions");
    reveal_strlit("dap_disable_exceptions");
    reveal_strlit("shell_pipe");
    reveal_strlit("shell_pipe_to");
    reveal_strlit("shell_insert_output");
    reveal_strlit("shell_append_output");
    reveal_strlit("shell_keep_pipe");
    reveal_strlit("suspend");
    reveal_strlit("rename_symbol");
    reveal_strlit("record_macro");
    reveal_strlit("replay_macro");
    reveal_strlit("command_palette");
    assert("global_search"@.len() == 13 && "command_mode"@.len() == 12);
    assert("global_refactor"@.len() == 15 && "command_mode"@.len() == 12);
    assert("file_picker"@.len() == 11 && "command_mode"@.len() == 12);
    assert("file_picker_in_current_directory"@.len() == 32 && "command_mode"@.len() == 12);
    assert("code_action"@.len() == 11 && "command_mode"@.len() == 12);
    assert("buffer_picker"@.len() == 13 && "command_mode"@.len() == 12);
    assert("jumplist_picker"@.len() == 15 && "command_mode"@.len() == 12);
    assert("symbol_picker"@.len() == 13 && "command_mode"@.len() == 12);
    assert("select_references_to_symbol_under_cursor"@.len() == 40 && "command_mode"@.len() == 12);
    assert("workspace_symbol_picker"@.len() == 23 && "command_mode"@.len() == 12);
    assert("diagnostics_picker"@.len() == 18 && "command_mode"@.len() == 12);
    assert("workspace_diagnostics_picker"@.len() == 28 && "command_mode"@.len() == 12);
    assert("last_picker"@.len() == 11 && "command_mode"@.len() == 12);
    assert("goto_definition"@.len() == 15 && "command_mode"@.len() == 12);
    assert("goto_type_definition"@.len() == 20 && "command_mode"@.len() == 12);
    assert("goto_implementation"@.len() == 19 && "command_mode"@.len() == 12);
    assert("goto_file"@.len() == 9 && "command_mode"@.len() == 12);
    assert("goto_file_hsplit"@.len() == 16 && "command_mode"@.len() == 12);
    assert("goto_file_vsplit"@.len() == 16 && "command_mode"@.len() == 12);
    assert("goto_reference"@.len() == 14 && "command_mode"@.len() == 12);
    assert("goto_window_top"@.len() == 15 && "command_mode"@.len() == 12);
    assert("goto_window_center"@.len() == 18 && "command_mode"@.len() == 12);
    assert("goto_window_bottom"@.len() == 18 && "command_mode"@.len() == 12);
    assert("goto_last_accessed_file"@.len() == 23 && "command_mode"@.len() == 12);
    assert("goto_last_modified_file"@.len() == 23 && "command_mode"@.len() == 12);
    assert("goto_last_modification"@.len() == 22 && "command_mode"@.len() == 12);
    assert("goto_line"@.len() == 9 && "command_mode"@.len() == 12);
    assert("goto_last_line"@.len() == 14 && "command_mode"@.len() == 12);
    assert("goto_first_diag"@.len() == 15 && "command_mode"@.len() == 12);
    assert("goto_last_diag"@.len() == 14 && "command_mode"@.len() == 12);
    assert("goto_next_diag"@.len() == 14 && "command_mode"@.len() == 12);
    assert("goto_prev_diag"@.len() == 14 && "command_mode"@.len() == 12);
    assert("goto_line_start"@.len() == 15 && "command_mode"@.len() == 12);
    assert("goto_line_end"@.len() == 13 && "command_mode"@.len() == 12);
    assert("goto_next_buffer"@.len() == 16 && "command_mode"@.len() == 12);
    assert("goto_previous_buffer"@.len() == 20 && "command_mode"@.len() == 12);
    assert("signature_help"@.len() == 14 && "command_mode"@.len() == 12);
    assert("completion"@.len() == 10 && "command_mode"@.len() == 12);
    assert("hover"@.len() == 5 && "command_mode"@.len() == 12);
    assert("select_next_sibling"@.len() == 19 && "command_mode"@.len() == 12);
    assert("select_prev_sibling"@.len() == 19 && "command_mode"@.len() == 12);
    assert("jump_view_right"@.len() == 15 && "command_mode"@.len() == 12);
    assert("jump_view_left"@.len() == 14 && "command_mode"@.len() == 12);
    assert("jump_view_up"@ != "command_mode"@) by {
        if "jump_view_up"@ == "command_mode"@ {
            assert("jump_view_up"@[0] == "command_mode"@[0]);
            assert("jump_view_up"@[0] == 'j' && "command_mode"@[0] == 'c');
        }
    }
    assert("jump_view_down"@.len() == 14 && "command_mode"@.len() == 12);
    assert("swap_view_right"@.len() == 15 && "command_mode"@.len() == 12);
    assert("swap_view_left"@.len() == 14 && "command_mode"@.len() == 12);
    assert("swap_view_up"@ != "command_mode"@) by {
        if "swap_view_up"@ == "command_mode"@ {
            assert("swap_view_up"@[0] == "command_mode"@[0]);
            assert("swap_view_up"@[0] == 's' && "command_mode"@[0] == 'c');
        }
    }
    assert("swap_view_down"@.len() == 14 && "command_mode"@.len() == 12);
    assert("transpose_view"@.len() == 14 && "command_mode"@.len() == 12);
    assert("rotate_view"@.len() == 11 && "command_mode"@.len() == 12);
    assert("hsplit"@.len() == 6 && "command_mode"@.len() == 12);
    assert("hsplit_new"@.len() == 10 && "command_mode"@.len() == 12);
    assert("vsplit"@.len() == 6 && "command_mode"@.len() == 12);
    assert("vsplit_new"@.len() == 10 && "command_mode"@.len() == 12);
    assert("wonly"@.len() == 5 && "command_mode"@.len() == 12);
    assert("select_textobject_around"@.len() == 24 && "command_mode"@.len() == 12);
    assert("select_textobject_inner"@.len() == 23 && "command_mode"@.len() == 12);
    assert("goto_next_function"@.len() == 18 && "command_mode"@.len() == 12);
    assert("goto_prev_function"@.len() == 18 && "command_mode"@.len() == 12);
    assert("goto_next_class"@.len() == 15 && "command_mode"@.len() == 12);
    assert("goto_prev_class"@.len() == 15 && "command_mode"@.len() == 12);
    assert("goto_next_parameter"@.len() == 19 && "command_mode"@.len() == 12);
    assert("goto_prev_parameter"@.len() == 19 && "command_mode"@.len() == 12);
    assert("goto_next_comment"@.len() == 17 && "command_mode"@.len() == 12);
    assert("goto_prev_comment"@.len() == 17 && "command_mode"@.len() == 12);
    assert("goto_next_test"@.len() == 14 && "command_mode"@.len() == 12);
    assert("goto_prev_test"@.len() == 14 && "command_mode"@.len() == 12);
    assert("goto_next_paragraph"@.len() == 19 && "command_mode"@.len() == 12);
    assert("goto_prev_paragraph"@.len() == 19 && "command_mode"@.len() == 12);
    assert("dap_launch"@.len() == 10 && "command_mode"@.len() == 12);
    assert("dap_toggle_breakpoint"@.len() == 21 && "command_mode"@.len() == 12);
    assert("dap_continue"@ != "command_mode"@) by {
        if "dap_continue"@ == "command_mode"@ {
            assert("dap_continue"@[0] == "command_mode"@[0]);
            assert("dap_continue"@[0] == 'd' && "command_mode"@[0] == 'c');
        }
    }
    assert("dap_pause"@.len() == 9 && "command_mode"@.len() == 12);
    assert("dap_step_in"@.len() == 11 && "command_mode"@.len() == 12);
    assert("dap_step_out"@ != "command_mode"@) by {
        if "dap_step_out"@ == "command_mode"@ {
            assert("dap_step_out"@[0] == "command_mode"@[0]);
            assert("dap_step_out"@[0] == 'd' && "command_mode"@[0] == 'c');
        }
    }
    assert("dap_next"@.len() == 8 && "command_mode"@.len() == 12);
    assert("dap_variables"@.len() == 13 && "command_mode"@.len() == 12);
    assert("dap_terminate"@.len() == 13 && "command_mode"@.len() == 12);
    assert("dap_edit_condition"@.len() == 18 && "command_mode"@.len() == 12);
    assert("dap_edit_log"@ != "command_mode"@) by {
        if "dap_edit_log"@ == "command_mode"@ {
            assert("dap_edit_log"@[0] == "command_mode"@[0]);
            assert("dap_edit_log"@[0] == 'd' && "command_mode"@[0] == 'c');
        }
    }
    assert("dap_switch_thread"@.len() == 17 && "command_mode"@.len() == 12);
    assert("dap_switch_stack_frame"@.len() == 22 && "command_mode"@.len() == 12);
    assert("dap_enable_exceptions"@.len() == 21 && "command_mode"@.len() == 12);
    assert("dap_disable_exceptions"@.len() == 22 && "command_mode"@.len() == 12);
    assert("shell_pipe"@.len() == 10 && "command_mode"@.len() == 12);
    assert("shell_pipe_to"@.len() == 13 && "command_mode"@.len() == 12);
    assert("shell_insert_output"@.len() == 19 && "command_mode"@.len() == 12);
    assert("shell_append_output"@.len() == 19 && "command_mode"@.len() == 12);
    assert("shell_keep_pipe"@.len() == 15 && "command_mode"@.len() == 12);
    assert("suspend"@.len() == 7 && "command_mode"@.len() == 12);
    assert("rename_symbol"@.len() == 13 && "command_mode"@.len() == 12);
    assert("record_macro"@ != "command_mode"@) by {
        if "record_macro"@ == "command_mode"@ {
            assert("record_macro"@[0] == "command_mode"@[0]);
            assert("record_macro"@[0] == 'r' && "command_mode"@[0] == 'c');
        }
    }
    assert("replay_macro"@ != "command_mode"@) by {
        if "replay_macro"@ == "command_mode"@ {
            assert("replay_macro"@[0] == "command_mode"@[0]);
            assert("replay_macro"@[0] == 'r' && "command_mode"@[0] == 'c');
        }
    }
    assert("command_palette"@.len() == 15 && "command_mode"@.len() == 12);
    assert("global_search"@.len() == 13 && "wclose"@.len() == 6);
    assert("global_refactor"@.len() == 15 && "wclose"@.len() == 6);
    assert("file_picker"@.len() == 11 && "wclose"@.len() == 6);
    assert("file_picker_in_current_directory"@.len() == 32 && "wclose"@.len() == 6);
    assert("code_action"@.len() == 11 && "wclose"@.len() == 6);
    assert("buffer_picker"@.len() == 13 && "wclose"@.len() == 6);
    assert("jumplist_picker"@.len() == 15 && "wclose"@.len() == 6);
    assert("symbol_picker"@.len() == 13 && "wclose"@.len() == 6);
    assert("select_references_to_symbol_under_cursor"@.len() == 40 && "wclose"@.len() == 6);
    assert("workspace_symbol_picker"@.len() == 23 && "wclose"@.len() == 6);
    assert("diagnostics_picker"@.len() == 18 && "wclose"@.len() == 6);
    assert("workspace_diagnostics_picker"@.len() == 28 && "wclose"@.len() == 6);
    assert("last_picker"@.len() == 11 && "wclose"@.len() == 6);
    assert("goto_definition"@.len() == 15 && "wclose"@.len() == 6);
    assert("goto_type_definition"@.len() == 20 && "wclose"@.len() == 6);
    assert("goto_implementation"@.len() == 19 && "wclose"@.len() == 6);
    assert("goto_file"@.len() == 9 && "wclose"@.len() == 6);
    assert("goto_file_hsplit"@.len() == 16 && "wclose"@.len() == 6);
    assert("goto_file_vsplit"@.len() == 16 && "wclose"@.len() == 6);
    assert("goto_reference"@.len() == 14 && "wclose"@.len() == 6);
    assert("goto_window_top"@.len() == 15 && "wclose"@.len() == 6);
    assert("goto_window_center"@.len() == 18 && "wclose"@.len() == 6);
    assert("goto_window_bottom"@.len() == 18 && "wclose"@.len() == 6);
    assert("goto_last_accessed_file"@.len() == 23 && "wclose"@.len() == 6);
    assert("goto_last_modified_file"@.len() == 23 && "wclose"@.len() == 6);
    assert("goto_last_modification"@.len() == 22 && "wclose"@.len() == 6);
    assert("goto_line"@.len() == 9 && "wclose"@.len() == 6);
    assert("goto_last_line"@.len() == 14 && "wclose"@.len() == 6);
    assert("goto_first_diag"@.len() == 15 && "wclose"@.len() == 6);
    assert("goto_last_diag"@.len() == 14 && "wclose"@.len() == 6);
    assert("goto_next_diag"@.len() == 14 && "wclose"@.len() == 6);
    assert("goto_prev_diag"@.len() == 14 && "wclose"@.len() == 6);
    assert("goto_line_start"@.len() == 15 && "wclose"@.len() == 6);
    assert("goto_line_end"@.len() == 13 && "wclose"@.len() == 6);
    assert("goto_next_buffer"@.len() == 16 && "wclose"@.len() == 6);
    assert("goto_previous_buffer"@.len() == 20 && "wclose"@.len() == 6);
    assert("signature_help"@.len() == 14 && "wclose"@.len() == 6);
    assert("completion"@.len() == 10 && "wclose"@.len() == 6);
    assert("hover"@.len() == 5 && "wclose"@.len() == 6);
    assert("select_next_sibling"@.len() == 19 && "wclose"@.len() == 6);
    assert("select_prev_sibling"@.len() == 19 && "wclose"@.len() == 6);
    assert("jump_view_right"@.len() == 15 && "wclose"@.len() == 6);
    assert("jump_view_left"@.len() == 14 && "wclose"@.len() == 6);
    assert("jump_view_up"@.len() == 12 && "wclose"@.len() == 6);
    assert("jump_view_down"@.len() == 14 && "wclose"@.len() == 6);
    assert("swap_view_right"@.len() == 15 && "wclose"@.len() == 6);
    assert("swap_view_left"@.len() == 14 && "wclose"@.len() == 6);
    assert("swap_view_up"@.len() == 12 && "wclose"@.len() == 6);
    assert("swap_view_down"@.len() == 14 && "wclose"@.len() == 6);
    assert("transpose_view"@.len() == 14 && "wclose"@.len() == 6);
    assert("rotate_view"@.len() == 11 && "wclose"@.len() == 6);
    assert("hsplit"@ != "wclose"@) by {
        if "hsplit"@ == "wclose"@ {
            assert("hsplit"@[0] == "wclose"@[0]);
            assert("hsplit"@[0] == 'h' && "wclose"@[0] == 'w');
        }
    }
    assert("hsplit_new"@.len() == 10 && "wclose"@.len() == 6);
    assert("vsplit"@ != "wclose"@) by {
        if "vsplit"@ == "wclose"@ {
            assert("vsplit"@[0] == "wclose"@[0]);
            assert("vsplit"@[0] == 'v' && "wclose"@[0] == 'w');
        }
    }
    assert("vsplit_new"@.len() == 10 && "wclose"@.len() == 6);
    assert("wonly"@.len() == 5 && "wclose"@.len() == 6);
    assert("select_textobject_around"@.len() == 24 && "wclose"@.len() == 6);
    assert("select_textobject_inner"@.len() == 23 && "wclose"@.len() == 6);
    assert("goto_next_function"@.len() == 18 && "wclose"@.len() == 6);
    assert("goto_prev_function"@.len() == 18 && "wclose"@.len() == 6);
    assert("goto_next_class"@.len() == 15 && "wclose"@.len() == 6);
    assert("goto_prev_class"@.len() == 15 && "wclose"@.len() == 6);
    assert("goto_next_parameter"@.len() == 19 && "wclose"@.len() == 6);
    assert("goto_prev_parameter"@.len() == 19 && "wclose"@.len() == 6);
    assert("goto_next_comment"@.len() == 17 && "wclose"@.len() == 6);
    assert("goto_prev_comment"@.len() == 17 && "wclose"@.len() == 6);
    assert("goto_next_test"@.len() == 14 && "wclose"@.len() == 6);
    assert("goto_prev_test"@.len() == 14 && "wclose"@.len() == 6);
    assert("goto_next_paragraph"@.len() == 19 && "wclose"@.len() == 6);
    assert("goto_prev_paragraph"@.len() == 19 && "wclose"@.len() == 6);
    assert("dap_launch"@.len() == 10 && "wclose"@.len() == 6);
    assert("dap_toggle_breakpoint"@.len() == 21 && "wclose"@.len() == 6);
    assert("dap_continue"@.len() == 12 && "wclose"@.len() == 6);
    assert("dap_pause"@.len() == 9 && "wclose"@.len() == 6);
    assert("dap_step_in"@.len() == 11 && "wclose"@.len() == 6);
    assert("dap_step_out"@.len() == 12 && "wclose"@.len() == 6);
    assert("dap_next"@.len() == 8 && "wclose"@.len() == 6);
    assert("dap_variables"@.len() == 13 && "wclose"@.len() == 6);
    assert("dap_terminate"@.len() == 13 && "wclose"@.len() == 6);
    assert("dap_edit_condition"@.len() == 18 && "wclose"@.len() == 6);
    assert("dap_edit_log"@.len() == 12 && "wclose"@.len() == 6);
    assert("dap_switch_thread"@.len() == 17 && "wclose"@.len() == 6);
    assert("dap_switch_stack_frame"@.len() == 22 && "wclose"@.len() == 6);
    assert("dap_enable_exceptions"@.len() == 21 && "wclose"@.len() == 6);
    assert("dap_disable_exceptions"@.len() == 22 && "wclose"@.len() == 6);
    assert("shell_pipe"@.len() == 10 && "wclose"@.len() == 6);
    assert("shell_pipe_to"@.len() == 13 && "wclose"@.len() == 6);
    assert("shell_insert_output"@.len() == 19 && "wclose"@.len() == 6);
    assert("shell_append_output"@.len() == 19 && "wclose"@.len() == 6);
    assert("shell_keep_pipe"@.len() == 15 && "wclose"@.len() == 6);
    assert("suspend"@.len() == 7 && "wclose"@.len() == 6);
    assert("rename_symbol"@.len() == 13 && "wclose"@.len() == 6);
    assert("record_macro"@.len() == 12 && "wclose"@.len() == 6);
    assert("replay_macro"@.len() == 12 && "wclose"@.len() == 6);
    assert("command_palette"@.len() == 15 && "wclose"@.len() == 6);
}

/// A key that resolves to a refused command, outside the confirmation
/// prompt, leaves the mode unchanged and reports that the command is not
/// supported.
pub proof fn law_unsupported_command_refused(
    state: SessionState,
    key: Key,
    from_node: Option<Resolution>,
    from_mode: Option<Resolution>,
    name: String,
)
    requires
        state != SessionState::ConfirmPending,
        key != Key::Escape,
        effective_resolution(state, from_node, from_mode) == Some(Resolution::Command(name)),
        is_unsupported_name(name@),
    ensures
        react(state, key, from_node, from_mode).state == state,
        react(state, key, from_node, from_mode).status == Some(Status::NotSupported),
        react(state, key, from_node, from_mode).effect == Effect::Consumed,
{
}

/// A key that opens the command line enters the confirmation prompt; any
/// key there but `y` or `Y` then returns to browsing, reports "Aborted", and
/// commits nothing.
pub proof fn law_prompt_abort(
    state: SessionState,
    key: Key,
    from_node: Option<Resolution>,
    from_mode: Option<Resolution>,
    name: String,
    next: Key,
    next_node: Option<Resolution>,
    next_mode: Option<Resolution>,
)
    requires
        state != SessionState::ConfirmPending,
        key != Key::Escape,
        effective_resolution(state, from_node, from_mode) == Some(Resolution::Command(name)),
        name@ == prompt_name(),
        next != Key::Char('y'),
        next != Key::Char('Y'),
    ensures
        react(state, key, from_node, from_mode).state == SessionState::ConfirmPending,
        react(state, key, from_node, from_mode).status == Some(Status::ConfirmPrompt),
        ({
            let r = react(react(state, key, from_node, from_mode).state, next, next_node, next_mode);
            &&& r.state == SessionState::Browsing
            &&& r.status == Some(Status::Aborted)
            &&& r.effect == Effect::Consumed
        }),
{
    lemma_prompt_supported();
}

} // verus!
