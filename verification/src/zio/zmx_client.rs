//! Client side of the fiber-dump exchange.
//!
//! The runtime is asked for a dump with one frame, an array that holds the
//! bulk string `dump`, and answers with an array frame whose elements are
//! the dumps of the fibers, one text each. Frames are encoded and decoded
//! by the `redis_protocol` crate; what is read out of the decoded frame,
//! and what becomes of it, is decided here.

use vstd::prelude::*;
use vstd::string::*;
use bytes::BytesMut;
use redis_protocol::types::Frame;
use crate::text::{decimal, push_decimal};
use crate::zio::dump_parser::{dump_fields, parse_fiber_dump};
use crate::zio::model::Fiber;

verus! {

/// A source of fiber dumps.
pub trait ZMXClient {
    /// Where the dumps come from, for messages.
    fn address(&self) -> String;

    /// Fetches the fibers that are alive now.
    fn dump_fibers(&self) -> Result<Vec<Fiber>, String>;
}

/// One element of an answered array.
#[derive(Debug, PartialEq, Eq)]
pub enum ReplyItem {
    /// A string frame, with the text it holds.
    Text(String),
    /// A frame that holds no text, as the decoder prints it.
    Other(String),
}

/// What is read of a decoded answer.
#[derive(Debug, PartialEq, Eq)]
pub enum Reply {
    /// An array frame, with its elements.
    Array(Vec<ReplyItem>),
    /// No frame yet, or a frame that is no array; with the number of
    /// bytes that the decoder consumed.
    Other(usize),
}

pub open spec fn crlf() -> Seq<u8> {
    seq![0x0d, 0x0a]
}

/// The bytes of the decimal digits of `n`.
pub open spec fn decimal_bytes(n: nat) -> Seq<u8> {
    decimal(n).map_values(|c: char| c as u8)
}

/// The encoding of one bulk string: `$`, its length, a line break, its
/// bytes and a line break.
pub open spec fn bulk_string(data: Seq<u8>) -> Seq<u8> {
    seq![0x24u8] + decimal_bytes(data.len()) + crlf() + data + crlf()
}

/// The encodings of `parts[from..]` as bulk strings, one after the other.
pub open spec fn bulk_strings(parts: Seq<Seq<u8>>, from: int) -> Seq<u8>
    decreases parts.len() - from,
{
    if from < 0 || from >= parts.len() {
        Seq::empty()
    } else {
        bulk_string(parts[from]) + bulk_strings(parts, from + 1)
    }
}

/// The encoding of an array of bulk strings: `*`, the number of elements,
/// a line break, and the elements.
pub open spec fn bulk_array(parts: Seq<Seq<u8>>) -> Seq<u8> {
    seq![0x2au8] + decimal_bytes(parts.len()) + crlf() + bulk_strings(parts, 0)
}

/// The bytes of the command that asks for a dump.
pub open spec fn dump_command() -> Seq<u8> {
    bulk_array(seq![seq![0x64u8, 0x75, 0x6d, 0x70]])
}

/// What `redis_protocol::decode::decode` makes of `bytes`, as far as the
/// client reads it.
pub uninterp spec fn resp_decoded(bytes: Seq<u8>) -> Result<Reply, String>;

/// Encodes an array frame of the bulk strings `parts`.
///
/// Calls `redis_protocol::encode::encode_bytes` on a fresh buffer. For an
/// array of bulk strings the encoder writes `*`, the count, a line break
/// and each element as `$`, length, line break, bytes, line break. The
/// claim is made for at most nine parts of at most nine bytes each, where
/// the crate's own count of the digits of a length is plainly one; on
/// such a frame the encoder does not fail, and an empty vector stands for
/// the failure that its signature allows.
#[verifier::external_body]
fn encode_bulk_array(parts: &Vec<Vec<u8>>) -> (bytes: Vec<u8>)
    requires
        parts@.len() <= 9,
        forall|i: int| 0 <= i < parts@.len() ==> (#[trigger] parts@[i])@.len() <= 9,
    ensures
        bytes@ == bulk_array(parts.deep_view()),
{
    let frame = Frame::Array(parts.iter().map(|p| Frame::BulkString(p.clone())).collect());
    let mut buffer = BytesMut::new();
    let written = redis_protocol::encode::encode_bytes(&mut buffer, &frame).ok();
    match written {
        Some(_) => buffer.to_vec(),
        None => Vec::new(),
    }
}

/// Decodes the first frame of `bytes`.
///
/// Calls `redis_protocol::decode::decode`. Of an array frame the elements
/// are kept: the text of each, as `Frame::as_str` gives it, or the printed
/// frame where it gives none. Of anything else that the decoder accepts,
/// the number of bytes it consumed is kept. A rejection comes back as the
/// printed error. The outcome depends on the bytes alone.
#[verifier::external_body]
fn decode_reply(bytes: &Vec<u8>) -> (outcome: Result<Reply, String>)
    ensures
        outcome == resp_decoded(bytes@),
{
    let item = |f: &Frame| match f.as_str() {
        Some(text) => ReplyItem::Text(text.to_owned()),
        None => ReplyItem::Other(format!("{:?}", f)),
    };
    match redis_protocol::decode::decode(bytes.as_slice()) {
        Ok((Some(Frame::Array(frames)), _)) => Ok(Reply::Array(frames.iter().map(item).collect())),
        Ok((_, consumed)) => Ok(Reply::Other(consumed)),
        Err(e) => Err(format!("{:?}", e)),
    }
}

/// The element holds no dump that follows the grammar.
pub open spec fn item_fails(item: ReplyItem) -> bool {
    match item {
        ReplyItem::Text(text) => dump_fields(text@) is None,
        ReplyItem::Other(_) => true,
    }
}

/// Index of the first element at or after `from` that fails, or
/// `items.len()` when none does.
pub open spec fn first_failing(items: Seq<ReplyItem>, from: int) -> int
    decreases items.len() - from,
{
    if from < 0 || from >= items.len() {
        items.len() as int
    } else if item_fails(items[from]) {
        from
    } else {
        first_failing(items, from + 1)
    }
}

/// The words with which a failing element is refused.
pub open spec fn item_failure(item: ReplyItem) -> Seq<char> {
    match item {
        ReplyItem::Text(text) => "Unknown dump format, failed to parse: "@ + text@,
        ReplyItem::Other(printed) => "Failed to parse dump - invalid frame: "@ + printed@,
    }
}

/// `fiber` is the fiber whose dump `item` holds.
pub open spec fn is_fiber_of(fiber: Fiber, item: ReplyItem) -> bool {
    &&& item matches ReplyItem::Text(text)
    &&& dump_fields(text@) matches Some(fields)
    &&& fiber == (Fiber {
        id: fields.id,
        parent_id: fields.parent_id,
        status: fields.status,
        dump: text,
    })
}

/// `dump` is what the decoded answer `outcome` comes to: the fibers of an
/// array whose elements all hold dumps, in the order of the elements; or
/// the words that refuse a rejected answer, an answer that is no array,
/// or the first element that holds no dump.
pub open spec fn reads(outcome: Result<Reply, String>, dump: Result<Vec<Fiber>, String>) -> bool {
    match outcome {
        Err(e) => dump is Err && dump->Err_0@ == "Error parsing bytes: "@ + e@,
        Ok(Reply::Other(consumed)) => dump is Err && dump->Err_0@ == "Incomplete frame, parsed "@
            + decimal(consumed as nat) + " bytes"@,
        Ok(Reply::Array(items)) => {
            let bad = first_failing(items@, 0);
            if bad < items@.len() {
                dump is Err && dump->Err_0@ == item_failure(items@[bad])
            } else {
                &&& dump is Ok
                &&& dump->Ok_0@.len() == items@.len()
                &&& forall|i: int|
                    0 <= i < items@.len() ==> is_fiber_of(#[trigger] dump->Ok_0@[i], items@[i])
            }
        },
    }
}

/// Reads the fibers out of a decoded answer. One element that holds no
/// dump fails the whole answer.
pub fn read_dump(outcome: Result<Reply, String>) -> (dump: Result<Vec<Fiber>, String>)
    ensures
        reads(outcome, dump),
{
    let items = match outcome {
        Err(e) => {
            let mut message = "Error parsing bytes: ".to_owned();
            message.append(e.as_str());
            return Err(message);
        },
        Ok(Reply::Other(consumed)) => {
            let mut message = "Incomplete frame, parsed ".to_owned();
            push_decimal(&mut message, consumed as u64);
            message.append(" bytes");
            return Err(message);
        },
        Ok(Reply::Array(items)) => items,
    };
    let mut fibers: Vec<Fiber> = Vec::new();
    let mut i: usize = 0;
    while i < items.len()
        invariant
            i <= items@.len(),
            fibers@.len() == i,
            outcome == Ok::<Reply, String>(Reply::Array(items)),
            first_failing(items@, 0) == first_failing(items@, i as int),
            forall|j: int| 0 <= j < i ==> is_fiber_of(#[trigger] fibers@[j], items@[j]),
        decreases items@.len() - i,
    {
        match &items[i] {
            ReplyItem::Other(printed) => {
                let mut message = "Failed to parse dump - invalid frame: ".to_owned();
                message.append(printed.as_str());
                assert(item_fails(items@[i as int]));
                return Err(message);
            },
            ReplyItem::Text(text) => match parse_fiber_dump(text.clone()) {
                None => {
                    let mut message = "Unknown dump format, failed to parse: ".to_owned();
                    message.append(text.as_str());
                    assert(item_fails(items@[i as int]));
                    return Err(message);
                },
                Some(fiber) => {
                    fibers.push(fiber);
                },
            },
        }
        i = i + 1;
    }
    Ok(fibers)
}

/// The bytes to send to a runtime to ask it for a dump.
pub fn dump_request() -> (bytes: Vec<u8>)
    ensures
        bytes@ == dump_command(),
{
    let mut word: Vec<u8> = Vec::new();
    word.push(0x64);
    word.push(0x75);
    word.push(0x6d);
    word.push(0x70);
    let mut parts: Vec<Vec<u8>> = Vec::new();
    parts.push(word);
    assert(parts.deep_view() =~= seq![seq![0x64u8, 0x75, 0x6d, 0x70]]) by {
        assert(parts.deep_view().len() == 1);
        assert(parts.deep_view()[0] =~= seq![0x64u8, 0x75, 0x6d, 0x70]);
    }
    encode_bulk_array(&parts)
}

/// Reads the fibers out of the bytes that a runtime answered.
pub fn read_reply(bytes: &Vec<u8>) -> (dump: Result<Vec<Fiber>, String>)
    ensures
        reads(resp_decoded(bytes@), dump),
{
    read_dump(decode_reply(bytes))
}

/// The client of a runtime that listens at an address. It frames the
/// exchange; the socket is the caller's.
#[derive(Debug, PartialEq, Eq)]
pub struct NetworkZMXClient {
    pub address: String,
}

impl NetworkZMXClient {
    pub fn new(address: String) -> (client: NetworkZMXClient)
        ensures
            client.address == address,
    {
        NetworkZMXClient { address }
    }

    /// The address of the runtime.
    pub fn address(&self) -> (address: String)
        ensures
            address == self.address,
    {
        self.address.clone()
    }

    /// The bytes to send.
    pub fn request(&self) -> (bytes: Vec<u8>)
        ensures
            bytes@ == dump_command(),
    {
        dump_request()
    }

    /// The fibers in the bytes that were answered.
    pub fn fibers_in(&self, reply: &Vec<u8>) -> (dump: Result<Vec<Fiber>, String>)
        ensures
            reads(resp_decoded(reply@), dump),
    {
        read_reply(reply)
    }
}

/// A client that answers with what it was given, for use in place of a
/// runtime.
#[derive(Debug, PartialEq, Eq)]
pub struct StubZMXClient {
    pub dump: Result<Vec<Fiber>, String>,
}

impl StubZMXClient {
    pub fn new(dump: Result<Vec<Fiber>, String>) -> (client: StubZMXClient)
        ensures
            client.dump == dump,
    {
        StubZMXClient { dump }
    }
}

impl ZMXClient for StubZMXClient {
    fn address(&self) -> (address: String)
        ensures
            address@ == "<stub>"@,
    {
        "<stub>".to_owned()
    }

    fn dump_fibers(&self) -> (dump: Result<Vec<Fiber>, String>)
        ensures
            match self.dump {
                Ok(fibers) => dump is Ok && dump->Ok_0@ == fibers@,
                Err(e) => dump == Err::<Vec<Fiber>, String>(e),
            },
    {
        match &self.dump {
            Ok(fibers) => {
                let mut copy: Vec<Fiber> = Vec::new();
                let mut i: usize = 0;
                while i < fibers.len()
                    invariant
                        i <= fibers@.len(),
                        copy@ == fibers@.take(i as int),
                    decreases fibers@.len() - i,
                {
                    copy.push(fibers[i].clone());
                    i = i + 1;
                    assert(copy@ =~= fibers@.take(i as int));
                }
                assert(fibers@.take(i as int) =~= fibers@);
                Ok(copy)
            },
            Err(e) => Err(e.clone()),
        }
    }
}

} // verus!
