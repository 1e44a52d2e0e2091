//! What is sent to a node and what is read from its answers. The answers
//! come as lines; sending the words is left to the caller.

use vstd::prelude::*;
use vstd::string::*;
use crate::text::{chars_of, matches_at, occurs_at, same_text};
use crate::zookeeper::model::{Mode, Word, ZAddr, ZNode};

verus! {

/// A four-letter word as it is sent.
pub open spec fn word_text(word: Word) -> Seq<char> {
    match word {
        Word::Srvr => "srvr"@,
        Word::Conf => "conf"@,
        Word::Wchc => "wchc"@,
    }
}

/// The shell command that sends `word` to the node at `host` and `port`
/// and prints its answer.
pub open spec fn command_text(host: Seq<char>, port: Seq<char>, word: Word) -> Seq<char> {
    "echo -n '"@ + word_text(word) + "' | nc -w 3 "@ + host + " "@ + port
}

/// The shell command that sends `word` to the node at `addr`.
pub fn nc_command(addr: &ZAddr, word: Word) -> (command: String)
    ensures
        command@ == command_text(addr.host@, addr.port@, word),
{
    let mut command = "echo -n '".to_owned();
    match word {
        Word::Srvr => command.append("srvr"),
        Word::Conf => command.append("conf"),
        Word::Wchc => command.append("wchc"),
    }
    command.append("' | nc -w 3 ");
    command.append(addr.host.as_str());
    command.append(" ");
    command.append(addr.port.as_str());
    command
}

/// The lines of `lines` that start with `prefix`, in order.
pub open spec fn lines_starting(lines: Seq<String>, prefix: Seq<char>) -> Seq<String>
    decreases lines.len(),
{
    if lines.len() == 0 {
        Seq::empty()
    } else {
        let rest = lines_starting(lines.drop_last(), prefix);
        if occurs_at(lines.last()@, prefix, 0) {
            rest.push(lines.last())
        } else {
            rest
        }
    }
}

/// `s` without its first `n` characters; nothing when it has no more
/// than that.
pub open spec fn without_first(s: Seq<char>, n: nat) -> Seq<char> {
    if n < s.len() {
        s.subrange(n as int, s.len() as int)
    } else {
        Seq::empty()
    }
}

/// The mode that a node names with `word`.
pub open spec fn mode_named(word: Seq<char>) -> Mode {
    if word == "follower"@ {
        Mode::Follower
    } else if word == "leader"@ {
        Mode::Leader
    } else if word == "standalone"@ {
        Mode::Standalone
    } else {
        Mode::Unknown
    }
}

fn starts_with(line: &String, prefix: &Vec<char>) -> (starts: bool)
    ensures
        starts == occurs_at(line@, prefix@, 0),
{
    let chars = chars_of(line.as_str());
    prefix.len() <= chars.len() && matches_at(&chars, prefix, 0)
}

/// Keeps the lines that start with `contains`.
pub fn grep(lines: Vec<String>, contains: String) -> (kept: Vec<String>)
    ensures
        kept@ == lines_starting(lines@, contains@),
{
    let prefix = chars_of(contains.as_str());
    let mut kept: Vec<String> = Vec::new();
    let mut i: usize = 0;
    while i < lines.len()
        invariant
            i <= lines@.len(),
            prefix@ == contains@,
            kept@ == lines_starting(lines@.take(i as int), contains@),
        decreases lines@.len() - i,
    {
        assert(lines@.take(i + 1).drop_last() =~= lines@.take(i as int));
        if starts_with(&lines[i], &prefix) {
            kept.push(lines[i].clone());
        }
        i = i + 1;
    }
    assert(lines@.take(i as int) =~= lines@);
    kept
}

/// Drops the first `n` characters of `s`.
pub fn drop_n_chars(s: String, n: usize) -> (rest: String)
    ensures
        rest@ == without_first(s@, n as nat),
{
    let len = s.as_str().unicode_len();
    if n < len {
        s.as_str().substring_char(n, len).to_owned()
    } else {
        String::new()
    }
}

/// Reads the mode that a node names with `word`.
pub fn parse_mode(word: &String) -> (mode: Mode)
    ensures
        mode == mode_named(word@),
{
    let chars = chars_of(word.as_str());
    if same_text(&chars, "follower") {
        Mode::Follower
    } else if same_text(&chars, "leader") {
        Mode::Leader
    } else if same_text(&chars, "standalone") {
        Mode::Standalone
    } else {
        Mode::Unknown
    }
}

/// The status in the answers `srvr_out` to `srvr` and `conf_out` to
/// `conf`: the mode stands behind `Mode: ` on the last line that starts
/// with `Mode`, the id behind `serverId=` on the last line that starts
/// with `serverId`. Without either line there is no status.
pub open spec fn status_in(srvr_out: Seq<String>, conf_out: Seq<String>, node: Option<ZNode>) -> bool {
    let modes = lines_starting(srvr_out, "Mode"@);
    let ids = lines_starting(conf_out, "serverId"@);
    if modes.len() > 0 && ids.len() > 0 {
        &&& node is Some
        &&& node->0.mode == mode_named(without_first(modes.last()@, 6))
        &&& node->0.id@ == without_first(ids.last()@, 9)
    } else {
        node is None
    }
}

/// Reads the status of a node from its answers to `srvr` and `conf`.
pub fn node_status(srvr_out: Vec<String>, conf_out: Vec<String>) -> (node: Option<ZNode>)
    ensures
        status_in(srvr_out@, conf_out@, node),
{
    let mut modes = grep(srvr_out, "Mode".to_owned());
    let mut server_ids = grep(conf_out, "serverId".to_owned());
    let mode = modes.pop();
    let server_id = server_ids.pop();
    match (mode, server_id) {
        (Some(m), Some(id)) => {
            let word = drop_n_chars(m, 6);
            Some(ZNode { id: drop_n_chars(id, 9), mode: parse_mode(&word) })
        },
        _ => None,
    }
}

} // verus!
