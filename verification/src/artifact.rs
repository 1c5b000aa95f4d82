//! What is kept of a session on disk, and what the server offers to its callers.

use crate::text;
use crate::text::{append_decimal, chars_of, decimal_text, str_eq};
use vstd::prelude::*;
use vstd::string::*;

verus! {

/// The largest number of characters of a window's name in a file's name.
pub const MAX_NAME_CHARS: usize = 80;

/// Whether a character may stand in a file's name.
pub open spec fn is_plain(c: char) -> bool {
    ||| 'a' <= c <= 'z'
    ||| 'A' <= c <= 'Z'
    ||| '0' <= c <= '9'
    ||| c == '-'
    ||| c == '_'
}

/// A character of a file's name.
pub open spec fn plain(c: char) -> char {
    if is_plain(c) {
        c
    } else {
        '_'
    }
}

/// A text as part of a file's name: its first characters, with an underscore in the
/// place of each that may not stand there.
pub open spec fn plain_name(value: Seq<char>) -> Seq<char> {
    Seq::new(
        if value.len() < MAX_NAME_CHARS { value.len() } else { MAX_NAME_CHARS as nat },
        |i: int| plain(value[i]),
    )
}

/// Whatever a text is, what is made of it for a file's name holds nothing but
/// letters and digits of ASCII, hyphens and underscores, and is not long.
pub proof fn plain_names_are_plain(value: Seq<char>)
    ensures
        plain_name(value).len() <= MAX_NAME_CHARS,
        forall|i: int| 0 <= i < plain_name(value).len() ==> is_plain(#[trigger] plain_name(value)[i]),
{
}

/// A text that may stand in a file's name stays as it is.
pub proof fn plain_names_stay(value: Seq<char>)
    requires
        value.len() <= MAX_NAME_CHARS,
        forall|i: int| 0 <= i < value.len() ==> is_plain(#[trigger] value[i]),
    ensures
        plain_name(value) == value,
{
    assert(plain_name(value) =~= value);
}

/// Makes a text part of a file's name.
pub fn sanitize_filename(value: &str) -> (name: String)
    ensures
        name@ == plain_name(value@),
{
    let characters = chars_of(value);
    let mut name = String::new();
    let mut index: usize = 0;
    while index < characters.len() && index < MAX_NAME_CHARS
        invariant
            index <= characters@.len(),
            index <= MAX_NAME_CHARS,
            characters@ == value@,
            name@ == plain_name(value@).take(index as int),
        decreases characters@.len() - index,
    {
        let c = characters[index];
        let kept = ('a' <= c && c <= 'z') || ('A' <= c && c <= 'Z') || ('0' <= c && c <= '9') || c
            == '-' || c == '_';
        name.push(
            if kept {
                c
            } else {
                '_'
            },
        );
        index = index + 1;
        proof {
            assert(name@ =~= plain_name(value@).take(index as int));
        }
    }
    proof {
        assert(plain_name(value@).take(index as int) =~= plain_name(value@));
    }
    name
}

/// A number in decimal with at least six digits.
pub open spec fn six_digits(number: u64) -> Seq<char> {
    let digits = text::decimal(number as nat);
    if digits.len() < 6 {
        Seq::new((6 - digits.len()) as nat, |i: int| '0') + digits
    } else {
        digits
    }
}

/// The name of the file of a picture.
pub open spec fn png_name(id: u64, operation: Seq<char>, window_id: Option<Seq<char>>) -> Seq<char> {
    six_digits(id) + "-"@ + operation + "-"@ + plain_name(
        match window_id {
            Some(name) => name,
            None => "auto"@,
        },
    ) + ".png"@
}

fn append_six_digits(message: &mut String, number: u64)
    ensures
        final(message)@ == old(message)@ + six_digits(number),
{
    let digits = decimal_text(number);
    let characters = chars_of(digits.as_str());
    let mut missing: usize = if characters.len() < 6 {
        6 - characters.len()
    } else {
        0
    };
    let ghost needed = missing as nat;
    let ghost before = message@;
    proof {
        assert(message@ =~= before + Seq::new(0, |i: int| '0'));
    }
    while missing > 0
        invariant
            missing <= needed,
            message@ == before + Seq::new((needed - missing) as nat, |i: int| '0'),
        decreases missing,
    {
        message.push('0');
        missing = missing - 1;
        proof {
            assert(message@ =~= before + Seq::new((needed - missing) as nat, |i: int| '0'));
        }
    }
    message.append(digits.as_str());
    proof {
        assert(message@ =~= before + six_digits(number));
    }
}

/// The numbers under which pictures are kept.
#[derive(Debug, Clone, Copy, PartialEq, Eq, Structural)]
pub struct ArtifactNumbers {
    pub next_id: u64,
}

impl ArtifactNumbers {
    /// Numbers from one on.
    pub fn new() -> (numbers: Self)
        ensures
            numbers.next_id == 1,
    {
        ArtifactNumbers { next_id: 1 }
    }

    /// Names the file of the next picture.
    pub fn name_png(&mut self, operation: &str, window_id: &Option<String>) -> (name: String)
        ensures
            name@ == png_name(old(self).next_id, operation@, text::optional(*window_id)),
            final(self).next_id == if old(self).next_id == u64::MAX {
                0
            } else {
                old(self).next_id + 1
            },
    {
        let mut name = String::new();
        append_six_digits(&mut name, self.next_id);
        proof {
            assert(name@ =~= six_digits(self.next_id));
        }
        name.append("-");
        name.append(operation);
        name.append("-");
        let window = match window_id {
            Some(window_id) => sanitize_filename(window_id.as_str()),
            None => sanitize_filename("auto"),
        };
        name.append(window.as_str());
        name.append(".png");
        self.next_id = self.next_id.wrapping_add(1);
        name
    }
}

/// The name of the directory in which a session is kept.
pub fn directory_name(process_id: u32, since_epoch_ms: u64, instance: u64) -> (name: String)
    ensures
        name@ == "wayland-mcp-artifacts-"@ + text::decimal(process_id as nat) + "-"@
            + text::decimal(since_epoch_ms as nat) + "-"@ + text::decimal(instance as nat),
{
    let mut name = "wayland-mcp-artifacts-".to_owned();
    append_decimal(&mut name, process_id as u64);
    name.append("-");
    append_decimal(&mut name, since_epoch_ms);
    name.append("-");
    append_decimal(&mut name, instance);
    name
}

/// A tool that the server offers, with the fields of its input and those of them
/// that have to be there.
#[derive(Debug, PartialEq, Eq)]
pub struct ToolDescription {
    pub name: String,
    pub description: String,
    pub properties: Vec<ToolProperty>,
    pub required: Vec<String>,
}

/// A text that a tool takes.
#[derive(Debug, PartialEq, Eq)]
pub struct ToolProperty {
    pub name: String,
    pub description: String,
}

/// The tools that the server offers: the console alone, which takes code.
pub fn tool_inventory() -> (tools: Vec<ToolDescription>)
    ensures
        tools@.len() == 1,
        tools@[0].name@ == "gui_console"@,
        tools@[0].description@
            == "Persistent JavaScript Wayland graphics console. Pass code; state and globalThis function definitions survive calls. First evaluate `return wayland.help` for the exact API. Supported helpers cover click, drag, scroll, named keys, keymap-aware shortcuts and text, window discovery, and action/commit waits; raw pointerEvent and keyboardEvent calls remain available. Coordinates come from returned screenshots and are never silently clamped. Native GPU apps need caller-granted access to the returned Unix socket and /dev/dri/renderD*; request caller-supported permission if blocked, never silently substitute software rendering."@,
        tools@[0].properties@.len() == 1,
        tools@[0].properties@[0].name@ == "code"@,
        tools@[0].properties@[0].description@
            == "JavaScript evaluated in the persistent console. Use `return wayland.help` first; define persistent helpers with globalThis.name = async function (...) { ... }."@,
        tools@[0].required@.len() == 1,
        tools@[0].required@[0]@ == "code"@,
{
    let code = ToolProperty {
        name: "code".to_owned(),
        description:
            "JavaScript evaluated in the persistent console. Use `return wayland.help` first; define persistent helpers with globalThis.name = async function (...) { ... }.".to_owned(),
    };
    let mut properties: Vec<ToolProperty> = Vec::new();
    properties.push(code);
    let mut required: Vec<String> = Vec::new();
    required.push("code".to_owned());
    let mut tools: Vec<ToolDescription> = Vec::new();
    tools.push(
        ToolDescription {
            name: "gui_console".to_owned(),
            description:
                "Persistent JavaScript Wayland graphics console. Pass code; state and globalThis function definitions survive calls. First evaluate `return wayland.help` for the exact API. Supported helpers cover click, drag, scroll, named keys, keymap-aware shortcuts and text, window discovery, and action/commit waits; raw pointerEvent and keyboardEvent calls remain available. Coordinates come from returned screenshots and are never silently clamped. Native GPU apps need caller-granted access to the returned Unix socket and /dev/dri/renderD*; request caller-supported permission if blocked, never silently substitute software rendering.".to_owned(),
            properties,
            required,
        },
    );
    tools
}

/// Checks that a tool of a name is offered.
pub fn check_tool(name: &str) -> (checked: Result<(), String>)
    ensures
        text::outcome(checked) == if name@ == "gui_console"@ {
            Ok(())
        } else {
            Err("unknown tool: "@ + name@)
        },
{
    if str_eq(name, "gui_console") {
        Ok(())
    } else {
        let mut message = "unknown tool: ".to_owned();
        message.append(name);
        Err(message)
    }
}

} // verus!
