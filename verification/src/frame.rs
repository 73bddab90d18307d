//! The framing between the broker and its server: a chunk for the server is
//! the client's payload followed by one byte, the client's id.

use vstd::prelude::*;

verus! {

/// The bytes that carry `payload` from client `id` to the server.
pub open spec fn server_frame(id: u8, payload: Seq<u8>) -> Seq<u8> {
    payload.push(id)
}

/// What a chunk from the server means: `None` for an empty chunk, else
/// the client id in its last byte and the payload before it.
pub open spec fn server_frame_parts(bytes: Seq<u8>) -> Option<(u8, Seq<u8>)> {
    if bytes.len() == 0 {
        None
    } else {
        Some((bytes.last(), bytes.drop_last()))
    }
}

/// Appends the client id to the payload.
pub fn frame_for_server(id: u8, payload: Vec<u8>) -> (bytes: Vec<u8>)
    ensures
        bytes@ == server_frame(id, payload@),
        bytes@.len() == payload@.len() + 1,
        bytes@[payload@.len() as int] == id,
        bytes@.subrange(0, payload@.len() as int) == payload@,
{
    let mut bytes = payload;
    bytes.push(id);
    bytes
}

/// Splits a chunk into the client id (its last byte) and the payload.
/// An empty chunk has no id and gives `None`.
pub fn parse_server_frame(bytes: Vec<u8>) -> (res: Option<(u8, Vec<u8>)>)
    ensures
        match res {
            Some((id, payload)) => server_frame_parts(bytes@) == Some((id, payload@)),
            None => server_frame_parts(bytes@) is None,
        },
        res is None <==> bytes@.len() == 0,
        res matches Some((id, payload)) ==> id == bytes@[bytes@.len() - 1] && payload@
            == bytes@.subrange(0, bytes@.len() - 1),
{
    let mut payload = bytes;
    match payload.pop() {
        Some(id) => Some((id, payload)),
        None => None,
    }
}

/// Framing a payload and parsing it again gives back the id and the payload.
pub proof fn lemma_parse_after_frame(id: u8, payload: Seq<u8>)
    ensures
        server_frame_parts(server_frame(id, payload)) == Some((id, payload)),
{
    assert(server_frame(id, payload).drop_last() =~= payload);
}

/// A non-empty chunk is the frame of the parts it parses into.
pub proof fn lemma_frame_after_parse(bytes: Seq<u8>)
    requires
        bytes.len() > 0,
    ensures
        server_frame_parts(bytes) matches Some((id, payload)) && server_frame(id, payload) == bytes,
{
    assert(bytes.drop_last().push(bytes.last()) =~= bytes);
}

/// A frame for the server is the payload, byte for byte, followed by exactly
/// one more byte, the id.
pub proof fn lemma_server_frame_layout(id: u8, payload: Seq<u8>)
    ensures
        server_frame(id, payload).len() == payload.len() + 1,
        server_frame(id, payload)[payload.len() as int] == id,
        forall|i: int| 0 <= i < payload.len() ==> #[trigger] server_frame(id, payload)[i] == payload[i],
{
}

/// An empty chunk from the server has no parts; a non-empty one parts into
/// its last byte, as the id, and all bytes before it, in order, as the payload.
pub proof fn lemma_server_frame_parts_layout(bytes: Seq<u8>)
    ensures
        bytes.len() == 0 ==> server_frame_parts(bytes) is None,
        bytes.len() > 0 ==> (server_frame_parts(bytes) matches Some((id, payload)) && id
            == bytes[bytes.len() - 1] && payload.len() == bytes.len() - 1 && forall|i: int|
            0 <= i < payload.len() ==> #[trigger] payload[i] == bytes[i]),
{
}

} // verus!
