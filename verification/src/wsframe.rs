//! Websocket messages as the tunnels and relays see them, and what they
//! carry as bytes.

use vstd::prelude::*;
use vstd::slice::slice_to_vec;
use vstd::utf8::encode_utf8;

verus! {

/// A websocket message.
pub enum Frame {
    /// A text message.
    Text(String),
    /// A binary message.
    Binary(Vec<u8>),
    /// A control message (close, ping or pong), which carries no data.
    Control,
}

/// The bytes a data message carries: a binary message its bytes, a text
/// message the UTF-8 encoding of its text; a control message none.
pub open spec fn frame_bytes(frame: Frame) -> Option<Seq<u8>> {
    match frame {
        Frame::Text(text) => Some(encode_utf8(text@)),
        Frame::Binary(bytes) => Some(bytes@),
        Frame::Control => None,
    }
}

/// The bytes a data message carries, to be written to a plain stream.
pub fn frame_payload(frame: Frame) -> (payload: Option<Vec<u8>>)
    ensures
        match frame_bytes(frame) {
            Some(bytes) => payload matches Some(p) && p@ == bytes,
            None => payload is None,
        },
        frame matches Frame::Binary(bytes) ==> (payload matches Some(p) && p@ == bytes@),
        frame matches Frame::Text(text) ==> (payload matches Some(p) && p@ == encode_utf8(text@)),
        frame is Control ==> payload is None,
{
    match frame {
        Frame::Text(text) => Some(slice_to_vec(text.as_str().as_bytes())),
        Frame::Binary(bytes) => Some(bytes),
        Frame::Control => None,
    }
}

/// A binary message carries exactly its bytes, a text message exactly the
/// UTF-8 encoding of its text, a control message nothing.
pub proof fn lemma_frame_bytes_cases(frame: Frame)
    ensures
        frame matches Frame::Binary(bytes) ==> frame_bytes(frame) == Some(bytes@),
        frame matches Frame::Text(text) ==> frame_bytes(frame) == Some(encode_utf8(text@)),
        frame is Control ==> frame_bytes(frame) is None,
{
}

/// The message that carries a chunk read from a plain stream: none for an
/// empty read, else a binary message with the chunk.
pub fn chunk_frame(chunk: Vec<u8>) -> (frame: Option<Frame>)
    ensures
        chunk@.len() == 0 ==> frame is None,
        chunk@.len() > 0 ==> (frame matches Some(Frame::Binary(bytes)) && bytes@ == chunk@),
{
    if chunk.len() == 0 {
        None
    } else {
        Some(Frame::Binary(chunk))
    }
}

/// Copies `chunk` to the front of `buf` and gives its length; the rest of
/// `buf` is left as it was.
pub fn copy_chunk(buf: &mut [u8], chunk: &[u8]) -> (len: usize)
    requires
        chunk@.len() <= old(buf)@.len(),
    ensures
        len == chunk@.len(),
        final(buf)@.len() == old(buf)@.len(),
        final(buf)@.subrange(0, len as int) == chunk@,
        final(buf)@.subrange(len as int, final(buf)@.len() as int) == old(buf)@.subrange(
            len as int,
            old(buf)@.len() as int,
        ),
{
    let len = chunk.len();
    let mut i: usize = 0;
    while i < len
        invariant
            len == chunk@.len(),
            len <= old(buf)@.len(),
            i <= len,
            buf@.len() == old(buf)@.len(),
            forall|j: int| 0 <= j < i ==> buf@[j] == chunk@[j],
            forall|j: int| len <= j < buf@.len() ==> buf@[j] == old(buf)@[j],
        decreases len - i,
    {
        buf[i] = chunk[i];
        i = i + 1;
    }
    assert(buf@.subrange(0, len as int) =~= chunk@);
    assert(buf@.subrange(len as int, buf@.len() as int) =~= old(buf)@.subrange(
        len as int,
        old(buf)@.len() as int,
    ));
    len
}

/// What a websocket message read into `buf` gives: a binary message is
/// copied to the front of `buf` and its length returned; any other message
/// fills nothing and gives 0.
pub fn read_frame_into(buf: &mut [u8], frame: Frame) -> (len: usize)
    requires
        frame matches Frame::Binary(bytes) ==> bytes@.len() <= old(buf)@.len(),
    ensures
        final(buf)@.len() == old(buf)@.len(),
        match frame {
            Frame::Binary(bytes) => len == bytes@.len() && final(buf)@.subrange(0, len as int)
                == bytes@ && final(buf)@.subrange(len as int, final(buf)@.len() as int)
                == old(buf)@.subrange(len as int, old(buf)@.len() as int),
            _ => len == 0 && final(buf)@ == old(buf)@,
        },
{
    match frame {
        Frame::Binary(bytes) => copy_chunk(buf, bytes.as_slice()),
        _ => 0,
    }
}

} // verus!
