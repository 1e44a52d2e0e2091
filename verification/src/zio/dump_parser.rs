//! Grammar of one fiber dump.
//!
//! A dump is free text of which three things are read. Its first line is
//! `#<id> (<age>)`, possibly followed by ` waiting on #<other>`. Its second
//! line is `Status: <Kind>(...)`. Somewhere in the text the words
//! `was spawned by:` may appear; the back-reference `Fiber:Id(<time>,<id>)`
//! that follows them names the parent.

use vstd::prelude::*;
use crate::text::{
    chars_of,
    find_char,
    find_pattern,
    find_sub,
    index_of,
    matches_at,
    occurs_at,
    parse_decimal,
    parse_usize,
    same_text,
    slice_of,
    trim,
    trim_start,
    trimmed,
    trimmed_start,
};
use crate::zio::model::{Fiber, FiberStatus};

verus! {

/// What the grammar reads from a dump.
pub struct DumpFields {
    pub id: usize,
    pub parent_id: Option<usize>,
    pub status: FiberStatus,
}

/// The words that every status line starts with.
pub open spec fn status_key() -> Seq<char> {
    seq!['S', 't', 'a', 't', 'u', 's', ':', ' ']
}

/// The words that announce the parent of a fiber.
pub open spec fn spawn_marker() -> Seq<char> {
    seq!['w', 'a', 's', ' ', 's', 'p', 'a', 'w', 'n', 'e', 'd', ' ', 'b', 'y', ':']
}

/// The id on a first line: the digits between the leading `#` and the
/// first space.
pub open spec fn fiber_id(line: Seq<char>) -> Option<usize> {
    let space = index_of(line, ' ', 0);
    if line.len() > 0 && line[0] == '#' && space < line.len() {
        parse_decimal(line.subrange(1, space))
    } else {
        None
    }
}

/// The status that `name` spells.
pub open spec fn status_named(name: Seq<char>) -> Option<FiberStatus> {
    if name == FiberStatus::Done.name() {
        Some(FiberStatus::Done)
    } else if name == FiberStatus::Finishing.name() {
        Some(FiberStatus::Finishing)
    } else if name == FiberStatus::Running.name() {
        Some(FiberStatus::Running)
    } else if name == FiberStatus::Suspended.name() {
        Some(FiberStatus::Suspended)
    } else {
        None
    }
}

/// The status on a second line: after leading white space the line reads
/// `Status: `, then the name of a status, then `(`.
pub open spec fn fiber_status(line: Seq<char>) -> Option<FiberStatus> {
    let body = trim_start(line);
    let name_end = index_of(body, '(', status_key().len() as int);
    if occurs_at(body, status_key(), 0) && name_end < body.len() {
        status_named(body.subrange(status_key().len() as int, name_end))
    } else {
        None
    }
}

/// The parent named in a dump: after the first `was spawned by:`, the
/// digits between the first `,` and the first `)`. A dump without those
/// words, or without such digits behind them, names no parent.
pub open spec fn fiber_parent(dump: Seq<char>) -> Option<usize> {
    let at = find_sub(dump, spawn_marker(), 0);
    if at >= dump.len() {
        None
    } else {
        let tail = dump.subrange(at, dump.len() as int);
        let comma = index_of(tail, ',', 0);
        let close = index_of(tail, ')', 0);
        if comma < close && close < tail.len() {
            parse_decimal(tail.subrange(comma + 1, close))
        } else {
            None
        }
    }
}

/// The fields of a dump, or `None` where the text does not follow the
/// grammar: fewer than two lines, no id on the first, or no known status
/// on the second.
pub open spec fn dump_fields(dump: Seq<char>) -> Option<DumpFields> {
    let text = trim(dump);
    let first_end = index_of(text, '\n', 0);
    if first_end >= text.len() {
        None
    } else {
        let rest = text.subrange(first_end + 1, text.len() as int);
        let second = rest.subrange(0, index_of(rest, '\n', 0));
        match (fiber_id(text.subrange(0, first_end)), fiber_status(second)) {
            (Some(id), Some(status)) => Some(
                DumpFields { id, parent_id: fiber_parent(dump), status },
            ),
            _ => None,
        }
    }
}

fn parse_id(line: &Vec<char>) -> (id: Option<usize>)
    ensures
        id == fiber_id(line@),
{
    if line.len() == 0 || line[0] != '#' {
        return None;
    }
    let space = find_char(line, ' ', 1);
    assert(index_of(line@, ' ', 0) == index_of(line@, ' ', 1));
    if space >= line.len() {
        return None;
    }
    let digits = slice_of(line, 1, space);
    parse_usize(&digits)
}

fn parse_status_name(name: &Vec<char>) -> (status: Option<FiberStatus>)
    ensures
        status == status_named(name@),
{
    proof {
        reveal_strlit("Done");
        reveal_strlit("Finishing");
        reveal_strlit("Running");
        reveal_strlit("Suspended");
        assert("Done"@ =~= FiberStatus::Done.name());
        assert("Finishing"@ =~= FiberStatus::Finishing.name());
        assert("Running"@ =~= FiberStatus::Running.name());
        assert("Suspended"@ =~= FiberStatus::Suspended.name());
    }
    if same_text(name, "Done") {
        Some(FiberStatus::Done)
    } else if same_text(name, "Finishing") {
        Some(FiberStatus::Finishing)
    } else if same_text(name, "Running") {
        Some(FiberStatus::Running)
    } else if same_text(name, "Suspended") {
        Some(FiberStatus::Suspended)
    } else {
        None
    }
}

fn parse_status(line: &Vec<char>) -> (status: Option<FiberStatus>)
    ensures
        status == fiber_status(line@),
{
    let body = trimmed_start(line);
    proof {
        reveal_strlit("Status: ");
    }
    let key = chars_of("Status: ");
    assert(key@ =~= status_key());
    if body.len() < key.len() || !matches_at(&body, &key, 0) {
        return None;
    }
    let name_end = find_char(&body, '(', key.len());
    if name_end >= body.len() {
        return None;
    }
    let name = slice_of(&body, key.len(), name_end);
    parse_status_name(&name)
}

fn parse_parent(dump: &Vec<char>) -> (parent: Option<usize>)
    ensures
        parent == fiber_parent(dump@),
{
    proof {
        reveal_strlit("was spawned by:");
    }
    let marker = chars_of("was spawned by:");
    assert(marker@ =~= spawn_marker());
    let at = find_pattern(dump, &marker, 0);
    if at >= dump.len() {
        return None;
    }
    let tail = slice_of(dump, at, dump.len());
    let comma = find_char(&tail, ',', 0);
    let close = find_char(&tail, ')', 0);
    if comma < close && close < tail.len() {
        let digits = slice_of(&tail, comma + 1, close);
        parse_usize(&digits)
    } else {
        None
    }
}

/// Reads the fields of a dump from its characters.
pub fn parse_fields(dump: &Vec<char>) -> (fields: Option<DumpFields>)
    ensures
        fields == dump_fields(dump@),
{
    let text = trimmed(dump);
    let first_end = find_char(&text, '\n', 0);
    if first_end >= text.len() {
        return None;
    }
    let first = slice_of(&text, 0, first_end);
    let rest = slice_of(&text, first_end + 1, text.len());
    let second_end = find_char(&rest, '\n', 0);
    let second = slice_of(&rest, 0, second_end);
    match (parse_id(&first), parse_status(&second)) {
        (Some(id), Some(status)) => Some(DumpFields { id, parent_id: parse_parent(dump), status }),
        _ => None,
    }
}

/// Parses one fiber dump. The fiber keeps the text it was parsed from.
pub fn parse_fiber_dump(dump: String) -> (fiber: Option<Fiber>)
    ensures
        match dump_fields(dump@) {
            Some(fields) => fiber == Some(
                Fiber {
                    id: fields.id,
                    parent_id: fields.parent_id,
                    status: fields.status,
                    dump: dump,
                },
            ),
            None => fiber is None,
        },
{
    let chars = chars_of(dump.as_str());
    match parse_fields(&chars) {
        Some(fields) => Some(
            Fiber { id: fields.id, parent_id: fields.parent_id, status: fields.status, dump },
        ),
        None => None,
    }
}

} // verus!
