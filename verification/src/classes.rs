//! Reading the application classes of a window: the property comes in
//! chunks, and holds the classes as text with a zero character after each.

use vstd::prelude::*;
use vstd::utf8::{decode_utf8, valid_utf8};

use crate::text::{split, split_on, views_of};

verus! {

/// How much of the property one request asks for, in units of four bytes.
pub const CHUNK_LENGTH: u32 = 8;

/// The state of reading one window's class property.
#[derive(Debug)]
pub struct ClassQuery {
    /// Where the next chunk begins, in units of four bytes.
    pub offset: u32,
    /// The bytes read so far.
    pub buf: Vec<u8>,
    /// Whether the reading has ended.
    pub finished: bool,
}

/// What the windowing system answered to a request for a chunk.
#[derive(Debug)]
pub enum ChunkReply {
    /// A chunk: its bytes, its length in items, and how many bytes of the
    /// property lie behind it.
    Chunk { value: Vec<u8>, value_len: u32, bytes_after: u32 },
    /// The request failed.
    Failed,
}

/// What the reader does next.
#[derive(Debug, Clone, Copy, PartialEq, Eq, Structural)]
pub enum NextRead {
    /// Ask for the chunk of `length` units that begins at `offset`.
    Ask { offset: u32, length: u32 },
    /// Stop: what was read is all there is to have.
    Stop,
}

/// The state after `reply`: a chunk's bytes are added to those read, and the
/// next chunk begins a quarter of the chunk's length further on; the reading
/// ends with a chunk that has nothing behind it, and with a failure.
pub open spec fn after_reply(query: ClassQuery, reply: ChunkReply) -> (Seq<u8>, int, bool) {
    match reply {
        ChunkReply::Chunk { value, value_len, bytes_after } => if bytes_after == 0 {
            (query.buf@ + value@, query.offset as int, true)
        } else {
            (query.buf@ + value@, query.offset + value_len / 4, false)
        },
        ChunkReply::Failed => (query.buf@, query.offset as int, true),
    }
}

/// What a reader in this state does next.
pub open spec fn next_read(offset: int, finished: bool) -> NextRead {
    if finished {
        NextRead::Stop
    } else {
        NextRead::Ask { offset: offset as u32, length: CHUNK_LENGTH }
    }
}

/// Whether the offset stays in range when a reader in this state takes `reply`.
pub open spec fn can_take(query: ClassQuery, reply: ChunkReply) -> bool {
    reply matches ChunkReply::Chunk { value, value_len, bytes_after } ==> query.offset + value_len
        / 4 <= u32::MAX
}

impl ClassQuery {
    /// A reader that has read nothing yet. Its first request is for the chunk
    /// at the beginning of the property.
    pub fn new() -> (r: (ClassQuery, NextRead))
        ensures
            r.0.offset == 0,
            r.0.buf@ == Seq::<u8>::empty(),
            !r.0.finished,
            r.1 == (NextRead::Ask { offset: 0, length: CHUNK_LENGTH }),
    {
        (
            ClassQuery { offset: 0, buf: Vec::new(), finished: false },
            NextRead::Ask { offset: 0, length: CHUNK_LENGTH },
        )
    }

    /// Whether this reader can take `reply`: it has not finished, and the
    /// offset stays in range.
    pub fn accepts(&self, reply: &ChunkReply) -> (r: bool)
        ensures
            r == (!self.finished && can_take(*self, *reply)),
    {
        if self.finished {
            return false;
        }
        match reply {
            ChunkReply::Chunk { value: _, value_len, bytes_after: _ } => *value_len / 4
                <= u32::MAX - self.offset,
            ChunkReply::Failed => true,
        }
    }

    /// Takes the answer to the last request, and says what to do next.
    pub fn advance(&mut self, reply: &ChunkReply) -> (r: NextRead)
        requires
            !old(self).finished,
            can_take(*old(self), *reply),
        ensures
            final(self).buf@ == after_reply(*old(self), *reply).0,
            final(self).offset == after_reply(*old(self), *reply).1,
            final(self).finished == after_reply(*old(self), *reply).2,
            r == next_read(final(self).offset as int, final(self).finished),
    {
        match reply {
            ChunkReply::Chunk { value, value_len, bytes_after } => {
                let ghost before = self.buf@;
                let mut i: usize = 0;
                while i < value.len()
                    invariant
                        i <= value@.len(),
                        self.buf@ == before + value@.take(i as int),
                        self.offset == old(self).offset,
                        self.finished == old(self).finished,
                    decreases value@.len() - i,
                {
                    self.buf.push(value[i]);
                    i += 1;
                    assert(self.buf@ =~= before + value@.take(i as int));
                }
                assert(value@.take(i as int) =~= value@);
                if *bytes_after == 0 {
                    self.finished = true;
                    NextRead::Stop
                } else {
                    self.offset = self.offset + *value_len / 4;
                    NextRead::Ask { offset: self.offset, length: CHUNK_LENGTH }
                }
            },
            ChunkReply::Failed => {
                self.finished = true;
                NextRead::Stop
            },
        }
    }

    /// The classes in what was read; see `wm_classes`.
    pub fn classes(self) -> (r: Option<Vec<String>>)
        ensures
            r is Some <==> valid_utf8(self.buf@),
            r is Some ==> views_of(r->0@) == split_on(decode_utf8(self.buf@), '\0'),
    {
        wm_classes(self.buf)
    }
}

/// The text that `bytes` encode.
///
/// Calls `String::from_utf8`, which checks that the bytes are valid UTF-8 and
/// then makes them a string without changing them; it fails on bytes that are
/// not valid UTF-8.
#[verifier::external_body]
fn utf8_text(bytes: Vec<u8>) -> (r: Option<String>)
    ensures
        r is Some <==> valid_utf8(bytes@),
        r is Some ==> r->0@ == decode_utf8(bytes@),
{
    String::from_utf8(bytes).ok()
}

/// The classes that a class property holds: the pieces of its text between
/// the zero characters. None where the bytes are not valid UTF-8.
pub fn wm_classes(buf: Vec<u8>) -> (r: Option<Vec<String>>)
    ensures
        r is Some <==> valid_utf8(buf@),
        r is Some ==> views_of(r->0@) == split_on(decode_utf8(buf@), '\0'),
{
    match utf8_text(buf) {
        Some(text) => Some(split(text.as_str(), '\0')),
        None => None,
    }
}

} // verus!
