//! How messages travel on a stream socket: the length of the body in four
//! bytes, least significant first, then the body.

use vstd::prelude::*;

verus! {

/// The size of the length prefix.
pub const PREFIX_LEN: usize = 4;

/// The number that four bytes write, least significant first.
pub open spec fn spec_decode_len(prefix: Seq<u8>) -> nat {
    (prefix[0] as nat) + (prefix[1] as nat) * 256 + (prefix[2] as nat) * 65536 + (
    prefix[3] as nat) * 16777216
}

/// The four bytes that write `len`, least significant first.
pub open spec fn spec_encode_len(len: nat) -> Seq<u8> {
    seq![
        (len % 256) as u8,
        (len / 256 % 256) as u8,
        (len / 65536 % 256) as u8,
        (len / 16777216 % 256) as u8,
    ]
}

/// A body with its length before it.
pub open spec fn spec_frame(body: Seq<u8>) -> Seq<u8> {
    spec_encode_len(body.len()) + body
}

/// Writing a length and reading it again gives the length.
pub proof fn lemma_len_round_trip(len: nat)
    requires
        len <= u32::MAX,
    ensures
        spec_encode_len(len).len() == PREFIX_LEN,
        spec_decode_len(spec_encode_len(len)) == len,
{
}

/// The frame for `body`; none for a body whose length four bytes cannot
/// write.
pub fn frame(body: &[u8]) -> (r: Option<Vec<u8>>)
    ensures
        r is Some == (body@.len() <= u32::MAX),
        r matches Some(bytes) ==> bytes@ == spec_frame(body@),
{
    let len = body.len();
    if len > u32::MAX as usize {
        return None;
    }
    let mut bytes: Vec<u8> = Vec::new();
    bytes.push((len % 256) as u8);
    bytes.push((len / 256 % 256) as u8);
    bytes.push((len / 65536 % 256) as u8);
    bytes.push((len / 16777216 % 256) as u8);
    let mut i: usize = 0;
    while i < len
        invariant
            i <= len,
            len == body@.len(),
            bytes@ == spec_encode_len(len as nat) + body@.take(i as int),
        decreases len - i,
    {
        bytes.push(body[i]);
        i += 1;
        assert(body@.take(i as int) =~= body@.take(i - 1).push(body@[i - 1]));
        assert(bytes@ =~= spec_encode_len(len as nat) + body@.take(i as int));
    }
    assert(body@.take(len as int) =~= body@);
    Some(bytes)
}

/// What the bytes received so far hold.
pub enum Unframed {
    /// Not yet a whole message; this many bytes are missing at least.
    Incomplete { missing: usize },
    /// A whole message, and the bytes that follow it.
    Complete { body: Vec<u8>, rest: Vec<u8> },
}

/// What `unframe` finds in `buf`.
pub open spec fn spec_unframe(buf: Seq<u8>) -> (bool, Seq<u8>, Seq<u8>, nat) {
    if buf.len() < PREFIX_LEN {
        (false, Seq::<u8>::empty(), Seq::<u8>::empty(), (PREFIX_LEN - buf.len()) as nat)
    } else {
        let len = spec_decode_len(buf.take(PREFIX_LEN as int));
        if buf.len() < PREFIX_LEN + len {
            (
                false,
                Seq::<u8>::empty(),
                Seq::<u8>::empty(),
                (PREFIX_LEN + len - buf.len()) as nat,
            )
        } else {
            (
                true,
                buf.subrange(PREFIX_LEN as int, PREFIX_LEN + len),
                buf.subrange(PREFIX_LEN + len, buf.len() as int),
                0,
            )
        }
    }
}

/// Takes the first message out of the bytes received so far, if it is there
/// in full.
pub fn unframe(buf: &[u8]) -> (r: Unframed)
    ensures
        match r {
            Unframed::Incomplete { missing } => !spec_unframe(buf@).0 && missing == spec_unframe(
                buf@,
            ).3,
            Unframed::Complete { body, rest } => spec_unframe(buf@).0 && body@ == spec_unframe(
                buf@,
            ).1 && rest@ == spec_unframe(buf@).2,
        },
{
    if buf.len() < PREFIX_LEN {
        return Unframed::Incomplete { missing: PREFIX_LEN - buf.len() };
    }
    let len: u64 = buf[0] as u64 + buf[1] as u64 * 256 + buf[2] as u64 * 65536 + buf[3] as u64
        * 16777216;
    assert(len == spec_decode_len(buf@.take(PREFIX_LEN as int)));
    let have: u64 = (buf.len() - PREFIX_LEN) as u64;
    if have < len {
        return Unframed::Incomplete { missing: (len - have) as usize };
    }
    let end: usize = PREFIX_LEN + len as usize;
    let mut body: Vec<u8> = Vec::new();
    let mut i: usize = PREFIX_LEN;
    while i < end
        invariant
            PREFIX_LEN <= i <= end <= buf@.len(),
            body@ == buf@.subrange(PREFIX_LEN as int, i as int),
        decreases end - i,
    {
        body.push(buf[i]);
        i += 1;
        assert(buf@.subrange(PREFIX_LEN as int, i as int) =~= buf@.subrange(
            PREFIX_LEN as int,
            i - 1,
        ).push(buf@[i - 1]));
    }
    let mut rest: Vec<u8> = Vec::new();
    let mut j: usize = end;
    while j < buf.len()
        invariant
            end <= j <= buf@.len(),
            rest@ == buf@.subrange(end as int, j as int),
        decreases buf.len() - j,
    {
        rest.push(buf[j]);
        j += 1;
        assert(buf@.subrange(end as int, j as int) =~= buf@.subrange(end as int, j - 1).push(
            buf@[j - 1],
        ));
    }
    Unframed::Complete { body, rest }
}

/// What was framed is what is unframed: a frame followed by anything holds
/// its body as the first message and the rest as the rest.
pub proof fn lemma_unframe_frame(body: Seq<u8>, rest: Seq<u8>)
    requires
        body.len() <= u32::MAX,
    ensures
        spec_unframe(spec_frame(body) + rest) == (true, body, rest, 0nat),
{
    lemma_len_round_trip(body.len());
    let buf = spec_frame(body) + rest;
    assert(buf.take(PREFIX_LEN as int) =~= spec_encode_len(body.len()));
    assert(buf.subrange(PREFIX_LEN as int, PREFIX_LEN + body.len()) =~= body);
    assert(buf.subrange(PREFIX_LEN + body.len(), buf.len() as int) =~= rest);
}

} // verus!
