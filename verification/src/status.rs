use vstd::prelude::*;
use crate::json::{get_field, str_field, str_eq, Json};

verus! {

/// The last path component: everything after the final `/`, or the whole
/// path when it has none.
pub open spec fn spec_basename(p: Seq<char>) -> Seq<char>
    decreases p.len(),
{
    if p.len() == 0 {
        p
    } else if p.last() == '/' {
        Seq::empty()
    } else {
        spec_basename(p.drop_last()).push(p.last())
    }
}

/// A command cut to its first fifty characters for display.
pub open spec fn spec_shortened(cmd: Seq<char>) -> Seq<char> {
    if cmd.len() > 50 {
        cmd.take(50)
    } else {
        cmd
    }
}

/// The string field `key` of the entry's `input` object.
pub open spec fn input_str_field(item: Json, key: Seq<char>) -> Option<Seq<char>> {
    match get_field(item, "input"@) {
        Some(inp) => str_field(inp, key),
        None => None,
    }
}

/// The status line of a `tool_use` entry whose tool name is `name`.
pub open spec fn spec_named_tool_status(item: Json, name: Seq<char>) -> Seq<char> {
    if name == "Bash"@ {
        spec_bash_status(item)
    } else if name == "Read"@ {
        spec_read_status(item)
    } else if name == "Glob"@ {
        "Searching for files..."@
    } else if name == "Grep"@ {
        "Searching in files..."@
    } else if name == "Edit"@ {
        "Editing file..."@
    } else if name == "Write"@ {
        "Writing file..."@
    } else if name == "WebSearch"@ {
        "Searching the web..."@
    } else if name == "WebFetch"@ {
        "Fetching web page..."@
    } else if name == "Task"@ {
        "Running sub-task..."@
    } else {
        "Using "@ + name + "..."@
    }
}

/// The status line of a shell-command tool use: its description when it has
/// one, else its command cut to fifty characters, else a fixed phrase.
pub open spec fn spec_bash_status(item: Json) -> Seq<char> {
    match input_str_field(item, "description"@) {
        Some(d) => "Running: "@ + d,
        None => match input_str_field(item, "command"@) {
            Some(c) => "Running: "@ + spec_shortened(c),
            None => "Running command..."@,
        },
    }
}

/// The status line of a file-read tool use: the file's base name when the
/// entry names a path, else a fixed phrase.
pub open spec fn spec_read_status(item: Json) -> Seq<char> {
    match input_str_field(item, "file_path"@) {
        Some(p) => "Reading: "@ + spec_basename(p),
        None => "Reading file..."@,
    }
}

/// The human-readable status line of one `tool_use` entry: nothing when the
/// entry has no string tool name, so that an incomplete entry yields no
/// partial text.
pub open spec fn spec_tool_status(item: Json) -> Option<Seq<char>> {
    match str_field(item, "name"@) {
        Some(name) => Some(spec_named_tool_status(item, name)),
        None => None,
    }
}

/// The status of the first `tool_use` entry among a message's content
/// entries, if one is there.
pub open spec fn spec_first_tool_status(items: Seq<Json>) -> Option<Seq<char>>
    decreases items.len(),
{
    if items.len() == 0 {
        None
    } else if str_field(items[0], "type"@) == Some("tool_use"@) {
        spec_tool_status(items[0])
    } else {
        spec_first_tool_status(items.drop_first())
    }
}

/// The status one decoded event yields: a value only for an `assistant`
/// event whose message content holds a `tool_use` entry.
pub open spec fn spec_status(j: Json) -> Option<Seq<char>> {
    if str_field(j, "type"@) == Some("assistant"@) {
        match get_field(j, "message"@) {
            Some(m) => match get_field(m, "content"@) {
                Some(c) => match c {
                    Json::Arr(items) => spec_first_tool_status(items@),
                    _ => None,
                },
                None => None,
            },
            None => None,
        }
    } else {
        None
    }
}

/// Relies on `String::push`: appends exactly the given character.
#[verifier::external_body]
fn push_char(s: &mut String, c: char)
    ensures
        final(s)@ == old(s)@.push(c),
{
    s.push(c);
}

/// The last path component, built character by character.
fn basename(p: &str) -> (r: String)
    ensures
        r@ == spec_basename(p@),
{
    let n = p.unicode_len();
    let mut out = String::new();
    let mut i: usize = 0;
    while i < n
        invariant
            n == p@.len(),
            i <= n,
            out@ == spec_basename(p@.take(i as int)),
        decreases n - i,
    {
        let c = p.get_char(i);
        if c == '/' {
            out = String::new();
        } else {
            push_char(&mut out, c);
        }
        proof {
            assert(p@.take(i as int + 1).drop_last() =~= p@.take(i as int));
            assert(p@.take(i as int + 1).last() == p@[i as int]);
        }
        i = i + 1;
    }
    proof {
        assert(p@.take(n as int) =~= p@);
    }
    out
}

/// The command cut to its first fifty characters.
fn shortened(cmd: &str) -> (r: String)
    ensures
        r@ == spec_shortened(cmd@),
{
    let n = cmd.unicode_len();
    if n > 50 {
        let cut = cmd.substring_char(0, 50);
        proof {
            assert(cmd@.subrange(0, 50) =~= cmd@.take(50));
        }
        cut.to_owned()
    } else {
        cmd.to_owned()
    }
}

/// The status line of a shell-command tool use.
fn bash_status(item: &Json) -> (r: String)
    ensures
        r@ == spec_bash_status(*item),
{
    match item.get("input") {
        Some(inp) => match inp.get_str("description") {
            Some(d) => String::from_str("Running: ").concat(d.as_str()),
            None => match inp.get_str("command") {
                Some(c) => String::from_str("Running: ").concat(shortened(c.as_str()).as_str()),
                None => String::from_str("Running command..."),
            },
        },
        None => String::from_str("Running command..."),
    }
}

/// The status line of a file-read tool use.
fn read_status(item: &Json) -> (r: String)
    ensures
        r@ == spec_read_status(*item),
{
    match item.get("input") {
        Some(inp) => match inp.get_str("file_path") {
            Some(p) => String::from_str("Reading: ").concat(basename(p.as_str()).as_str()),
            None => String::from_str("Reading file..."),
        },
        None => String::from_str("Reading file..."),
    }
}

/// The status line of one `tool_use` entry: nothing when the entry has no
/// string tool name.
fn tool_status(item: &Json) -> (r: Option<String>)
    ensures
        r.deep_view() == spec_tool_status(*item),
{
    let name: &str = match item.get_str("name") {
        Some(s) => s.as_str(),
        None => {
            return None;
        },
    };
    Some(named_tool_status(item, name))
}

/// The status line of a `tool_use` entry whose tool name is `name`.
fn named_tool_status(item: &Json, name: &str) -> (r: String)
    ensures
        r@ == spec_named_tool_status(*item, name@),
{
    if str_eq(name, "Bash") {
        bash_status(item)
    } else if str_eq(name, "Read") {
        read_status(item)
    } else if str_eq(name, "Glob") {
        String::from_str("Searching for files...")
    } else if str_eq(name, "Grep") {
        String::from_str("Searching in files...")
    } else if str_eq(name, "Edit") {
        String::from_str("Editing file...")
    } else if str_eq(name, "Write") {
        String::from_str("Writing file...")
    } else if str_eq(name, "WebSearch") {
        String::from_str("Searching the web...")
    } else if str_eq(name, "WebFetch") {
        String::from_str("Fetching web page...")
    } else if str_eq(name, "Task") {
        String::from_str("Running sub-task...")
    } else {
        String::from_str("Using ").concat(name).concat("...")
    }
}

/// The status of the first `tool_use` entry of the content list.
fn first_tool_status(items: &Vec<Json>) -> (r: Option<String>)
    ensures
        r.deep_view() == spec_first_tool_status(items@),
{
    let n = items.len();
    let mut i: usize = 0;
    proof {
        assert(items@.skip(0) =~= items@);
    }
    while i < n
        invariant
            n == items@.len(),
            i <= n,
            spec_first_tool_status(items@) == spec_first_tool_status(items@.skip(i as int)),
        decreases n - i,
    {
        let item = &items[i];
        proof {
            assert(items@.skip(i as int)[0] == items@[i as int]);
        }
        let is_tool_use = match item.get_str("type") {
            Some(t) => str_eq(t.as_str(), "tool_use"),
            None => false,
        };
        if is_tool_use {
            return tool_status(item);
        }
        proof {
            assert(items@.skip(i as int).drop_first() =~= items@.skip(i as int + 1));
        }
        i = i + 1;
    }
    proof {
        assert(items@.skip(n as int) =~= Seq::<Json>::empty());
    }
    None
}

/// The status a decoded event yields, exactly as `spec_status` reads it:
/// total, and empty for every value without the expected shape.
pub fn extract_status(j: &Json) -> (r: Option<String>)
    ensures
        r.deep_view() == spec_status(*j),
{
    let is_assistant = match j.get_str("type") {
        Some(t) => str_eq(t.as_str(), "assistant"),
        None => false,
    };
    if !is_assistant {
        return None;
    }
    let msg = match j.get("message") {
        Some(m) => m,
        None => {
            return None;
        },
    };
    let content = match msg.get("content") {
        Some(c) => c,
        None => {
            return None;
        },
    };
    match content {
        Json::Arr(items) => first_tool_status(items),
        _ => None,
    }
}

} // verus!
