use vstd::prelude::*;
use crate::config::{KeyConfig, MouseConfig};
use crate::input::{Key, MouseKind};

verus! {

pub const CMD_GROUP_GENERAL: &'static str = "-- General --";
pub const CMD_GROUP_PROCESS: &'static str = "-- Process --";
pub const CMD_GROUP_CPU: &'static str = "-- CPU --";
pub const CMD_GROUP_MEMORY: &'static str = "-- Memory --";
pub const CMD_GROUP_NETWORK: &'static str = "-- Network --";

/// What `{:?}` writes for a character (`'c'` with escapes where needed).
pub uninterp spec fn char_debug_text(c: char) -> Seq<char>;

/// A printable ASCII character other than a quote or a backslash: `{:?}` writes it
/// unescaped between single quotes.
pub open spec fn plain_debug_char(c: char) -> bool {
    ' ' <= c && c <= '~' && c != '\'' && c != '"' && c != '\\'
}

/// Writes a character as `{:?}` does. The standard library's `Debug` for `char` puts the
/// character between single quotes; a printable ASCII character other than a quote or a
/// backslash stands there unescaped. Other escapes are left to the name.
#[verifier::external_body]
fn char_debug(c: char) -> (s: String)
    ensures
        s@ == char_debug_text(c),
        plain_debug_char(c) ==> s@ == seq!['\'', c, '\''],
{
    format!("{:?}", c)
}

/// What `{:?}` writes for a key.
pub open spec fn key_debug_text(k: Key) -> Seq<char> {
    match k {
        Key::Enter => "Enter"@,
        Key::Esc => "Esc"@,
        Key::Char(c) => "Char("@ + char_debug_text(c) + ")"@,
        Key::Backspace => "Backspace"@,
        Key::Up => "Up"@,
        Key::Down => "Down"@,
        Key::Left => "Left"@,
        Key::Right => "Right"@,
        Key::Tab => "Tab"@,
        Key::Unkown => "Unkown"@,
    }
}

/// What `{:?}` writes for a kind of mouse event.
pub open spec fn mouse_kind_debug_text(k: MouseKind) -> Seq<char> {
    match k {
        MouseKind::LeftClick => "LeftClick"@,
        MouseKind::MiddleClick => "MiddleClick"@,
        MouseKind::ScrollUp => "ScrollUp"@,
        MouseKind::ScrollDown => "ScrollDown"@,
        MouseKind::Drag => "Drag"@,
        MouseKind::Unkown => "Unkown"@,
    }
}

/// Writes a key as `{:?}` does; a printable character key `c` (other than a quote or a
/// backslash) is written `Char('c')`.
pub fn key_debug(k: Key) -> (s: String)
    ensures
        s@ == key_debug_text(k),
        k matches Key::Char(c) ==> (plain_debug_char(c) ==> s@ == "Char("@ + seq!['\'', c, '\''] + ")"@),
{
    match k {
        Key::Enter => String::from_str("Enter"),
        Key::Esc => String::from_str("Esc"),
        Key::Char(c) => {
            let mut s = String::from_str("Char(");
            let quoted = char_debug(c);
            s.append(quoted.as_str());
            s.append(")");
            s
        },
        Key::Backspace => String::from_str("Backspace"),
        Key::Up => String::from_str("Up"),
        Key::Down => String::from_str("Down"),
        Key::Left => String::from_str("Left"),
        Key::Right => String::from_str("Right"),
        Key::Tab => String::from_str("Tab"),
        Key::Unkown => String::from_str("Unkown"),
    }
}

/// Writes a kind of mouse event as `{:?}` does.
pub fn mouse_kind_debug(k: MouseKind) -> (s: String)
    ensures
        s@ == mouse_kind_debug_text(k),
{
    match k {
        MouseKind::LeftClick => String::from_str("LeftClick"),
        MouseKind::MiddleClick => String::from_str("MiddleClick"),
        MouseKind::ScrollUp => String::from_str("ScrollUp"),
        MouseKind::ScrollDown => String::from_str("ScrollDown"),
        MouseKind::Drag => String::from_str("Drag"),
        MouseKind::Unkown => String::from_str("Unkown"),
    }
}

/// The line of the help screen that describes a command, and the group it is listed in.
#[derive(Clone, PartialEq, PartialOrd, Ord, Eq)]
pub struct CommandText {
    pub name: String,
    pub group: &'static str,
    pub hide_help: bool,
}

impl CommandText {
    pub fn new(name: String, group: &'static str) -> (r: Self)
        ensures
            r.name@ == name@,
            r.group@ == group@,
            !r.hide_help,
    {
        Self { name, group, hide_help: false }
    }
}

/// A command as the help screen lists it.
pub struct CommandInfo {
    pub text: CommandText,
}

impl CommandInfo {
    pub fn new(text: CommandText) -> (r: Self)
        ensures
            r.text == text,
    {
        Self { text }
    }
}

/// `"<label> [<key>]"`.
pub open spec fn one_key_text(label: Seq<char>, k: Key) -> Seq<char> {
    label + " ["@ + key_debug_text(k) + "]"@
}

/// `"<label> [<first>/<second>]"`.
pub open spec fn two_keys_text(label: Seq<char>, first: Key, second: Key) -> Seq<char> {
    label + " ["@ + key_debug_text(first) + "/"@ + key_debug_text(second) + "]"@
}

fn one_key_name(label: &str, k: Key) -> (s: String)
    ensures
        s@ == one_key_text(label@, k),
{
    let mut s = String::from_str(label);
    s.append(" [");
    let key = key_debug(k);
    s.append(key.as_str());
    s.append("]");
    s
}

fn two_keys_name(label: &str, first: Key, second: Key) -> (s: String)
    ensures
        s@ == two_keys_text(label@, first, second),
{
    let mut s = String::from_str(label);
    s.append(" [");
    let first = key_debug(first);
    s.append(first.as_str());
    s.append("/");
    let second = key_debug(second);
    s.append(second.as_str());
    s.append("]");
    s
}

pub fn move_selection(key: &KeyConfig) -> (r: CommandText)
    ensures
        r.name@ == two_keys_text("Move selection up/down"@, key.move_up, key.move_down),
        r.group@ == CMD_GROUP_GENERAL@,
        !r.hide_help,
{
    CommandText::new(two_keys_name("Move selection up/down", key.move_up, key.move_down), CMD_GROUP_GENERAL)
}

pub fn selection_to_top_bottom(key: &KeyConfig) -> (r: CommandText)
    ensures
        r.name@ == two_keys_text("Move selection to top/bottom"@, key.move_top, key.move_bottom),
        r.group@ == CMD_GROUP_GENERAL@,
        !r.hide_help,
{
    CommandText::new(
        two_keys_name("Move selection to top/bottom", key.move_top, key.move_bottom),
        CMD_GROUP_GENERAL,
    )
}

pub fn filter_submit(key: &KeyConfig) -> (r: CommandText)
    ensures
        r.name@ == two_keys_text("Filter/Submit filter"@, key.filter, key.enter),
        r.group@ == CMD_GROUP_GENERAL@,
        !r.hide_help,
{
    CommandText::new(two_keys_name("Filter/Submit filter", key.filter, key.enter), CMD_GROUP_GENERAL)
}

pub fn exit_popup(key: &KeyConfig) -> (r: CommandText)
    ensures
        r.name@ == one_key_text("Exit current screen"@, key.exit),
        r.group@ == CMD_GROUP_GENERAL@,
        !r.hide_help,
{
    CommandText::new(one_key_name("Exit current screen", key.exit), CMD_GROUP_GENERAL)
}

pub fn help(key: &KeyConfig) -> (r: CommandText)
    ensures
        r.name@ == one_key_text("Help"@, key.help),
        r.group@ == CMD_GROUP_GENERAL@,
        !r.hide_help,
{
    CommandText::new(one_key_name("Help", key.help), CMD_GROUP_GENERAL)
}

pub fn terminate_process(key: &KeyConfig) -> (r: CommandText)
    ensures
        r.name@ == one_key_text("Terminate selected process"@, key.terminate),
        r.group@ == CMD_GROUP_GENERAL@,
        !r.hide_help,
{
    CommandText::new(one_key_name("Terminate selected process", key.terminate), CMD_GROUP_GENERAL)
}

pub fn sort_list_by_name(key: &KeyConfig, mouse: &MouseConfig) -> (r: CommandText)
    ensures
        r.name@ == one_key_text("Sort by name toggle"@, key.sort_name_toggle),
        r.group@ == CMD_GROUP_PROCESS@,
        !r.hide_help,
{
    CommandText::new(one_key_name("Sort by name toggle", key.sort_name_toggle), CMD_GROUP_PROCESS)
}

pub fn sort_list_by_pid(key: &KeyConfig, mouse: &MouseConfig) -> (r: CommandText)
    ensures
        r.name@ == one_key_text("Sort by PID toggle"@, key.sort_pid_toggle),
        r.group@ == CMD_GROUP_PROCESS@,
        !r.hide_help,
{
    CommandText::new(one_key_name("Sort by PID toggle", key.sort_pid_toggle), CMD_GROUP_PROCESS)
}

pub fn sort_list_by_cpu_usage(key: &KeyConfig, mouse: &MouseConfig) -> (r: CommandText)
    ensures
        r.name@ == one_key_text("Sort by cpu usage toggle"@, key.sort_cpu_toggle),
        r.group@ == CMD_GROUP_PROCESS@,
        !r.hide_help,
{
    CommandText::new(one_key_name("Sort by cpu usage toggle", key.sort_cpu_toggle), CMD_GROUP_PROCESS)
}

pub fn sort_list_by_memory_usage(key: &KeyConfig, mouse: &MouseConfig) -> (r: CommandText)
    ensures
        r.name@ == one_key_text("Sort by memory usage toggle"@, key.sort_memory_toggle),
        r.group@ == CMD_GROUP_PROCESS@,
        !r.hide_help,
{
    CommandText::new(
        one_key_name("Sort by memory usage toggle", key.sort_memory_toggle),
        CMD_GROUP_PROCESS,
    )
}

/// `"Select process by mouse [<click>] | [<down>/<up>]"`.
pub open spec fn select_process_text(mouse: MouseConfig) -> Seq<char> {
    "Select process by mouse ["@ + mouse_kind_debug_text(mouse.left_click) + "] | ["@
        + mouse_kind_debug_text(mouse.scroll_down) + "/"@ + mouse_kind_debug_text(mouse.scroll_up)
        + "]"@
}

pub fn select_process(key: &KeyConfig, mouse: &MouseConfig) -> (r: CommandText)
    ensures
        r.name@ == select_process_text(*mouse),
        r.group@ == CMD_GROUP_PROCESS@,
        !r.hide_help,
{
    let mut name = String::from_str("Select process by mouse [");
    let click = mouse_kind_debug(mouse.left_click);
    name.append(click.as_str());
    name.append("] | [");
    let down = mouse_kind_debug(mouse.scroll_down);
    name.append(down.as_str());
    name.append("/");
    let up = mouse_kind_debug(mouse.scroll_up);
    name.append(up.as_str());
    name.append("]");
    CommandText::new(name, CMD_GROUP_PROCESS)
}

} // verus!
