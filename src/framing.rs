//! Length-prefixed framing for the byte-stream link: each frame is the
//! payload's length as four little-endian bytes, then the payload.
use vstd::prelude::*;

verus! {

/// Why bytes could not be read as a frame.
#[derive(Clone, Copy, Debug, PartialEq, Eq, Structural)]
pub enum FrameError {
    /// Fewer than the four bytes of a length prefix were there.
    IncompleteLength { available: usize },
    /// The prefix declared more payload bytes than were there.
    Truncated { declared: u32, available: usize },
    /// The payload is too long for a four-byte length prefix.
    TooLarge { len: usize },
}

/// The number that four little-endian bytes hold.
pub open spec fn le_u32_value(b: Seq<u8>) -> int
    recommends
        b.len() >= 4,
{
    b[0] as int + 256 * (b[1] as int) + 65536 * (b[2] as int) + 16777216 * (b[3] as int)
}

/// The four little-endian bytes of `n`.
pub open spec fn le_u32_bytes(n: int) -> Seq<u8> {
    seq![
        (n % 256) as u8,
        ((n / 256) % 256) as u8,
        ((n / 65536) % 256) as u8,
        ((n / 16777216) % 256) as u8,
    ]
}

/// The frame that carries `payload`.
pub open spec fn frame_of(payload: Seq<u8>) -> Seq<u8> {
    le_u32_bytes(payload.len() as int) + payload
}

/// Reads the frame at the front of `bytes`: its payload and the number of
/// bytes it takes up, or why there is no whole frame there.
pub open spec fn parse_frame(bytes: Seq<u8>) -> Result<(Seq<u8>, int), FrameError> {
    if bytes.len() < 4 {
        Err(FrameError::IncompleteLength { available: bytes.len() as usize })
    } else if bytes.len() - 4 < le_u32_value(bytes) {
        Err(FrameError::Truncated {
            declared: le_u32_value(bytes) as u32,
            available: (bytes.len() - 4) as usize,
        })
    } else {
        Ok((bytes.subrange(4, 4 + le_u32_value(bytes)), 4 + le_u32_value(bytes)))
    }
}

proof fn lemma_le_u32_round_trip(n: int)
    requires
        0 <= n <= u32::MAX,
    ensures
        le_u32_value(le_u32_bytes(n)) == n,
        le_u32_bytes(n).len() == 4,
{
    let b = le_u32_bytes(n);
    assert(b[0] as int == n % 256);
    assert(b[1] as int == (n / 256) % 256);
    assert(b[2] as int == (n / 65536) % 256);
    assert(b[3] as int == (n / 16777216) % 256);
    assert(n % 256 + 256 * ((n / 256) % 256) + 65536 * ((n / 65536) % 256) + 16777216 * ((n
        / 16777216) % 256) == n) by (nonlinear_arith)
        requires
            0 <= n <= u32::MAX,
    ;
}

/// A frame read back gives the payload it was made from, whatever follows it.
pub proof fn lemma_frame_round_trip(payload: Seq<u8>, rest: Seq<u8>)
    requires
        payload.len() <= u32::MAX,
    ensures
        parse_frame(frame_of(payload) + rest) == Ok::<(Seq<u8>, int), FrameError>(
            (payload, 4 + payload.len() as int),
        ),
{
    lemma_le_u32_round_trip(payload.len() as int);
    let bytes = frame_of(payload) + rest;
    assert(bytes.subrange(0, 4) =~= le_u32_bytes(payload.len() as int));
    assert(le_u32_value(bytes) == le_u32_value(le_u32_bytes(payload.len() as int)));
    assert(bytes.subrange(4, 4 + payload.len() as int) =~= payload);
}

/// Frames `payload`: its length as four little-endian bytes, then the payload.
pub fn encode_frame(payload: &[u8]) -> (r: Result<Vec<u8>, FrameError>)
    ensures
        r is Ok <==> payload@.len() <= u32::MAX,
        r is Ok ==> r->Ok_0@ == frame_of(payload@),
        r is Err ==> r->Err_0 == (FrameError::TooLarge { len: payload@.len() as usize }),
{
    let len = payload.len();
    if len > 0xffff_ffff {
        return Err(FrameError::TooLarge { len });
    }
    let mut out: Vec<u8> = Vec::new();
    out.push((len % 256) as u8);
    out.push(((len / 256) % 256) as u8);
    out.push(((len / 65536) % 256) as u8);
    out.push(((len / 16777216) % 256) as u8);
    assert(out@ =~= le_u32_bytes(len as int));
    let mut i: usize = 0;
    while i < len
        invariant
            i <= len,
            len == payload@.len(),
            out@ =~= le_u32_bytes(len as int) + payload@.subrange(0, i as int),
        decreases len - i,
    {
        out.push(payload[i]);
        i += 1;
        assert(out@ =~= le_u32_bytes(len as int) + payload@.subrange(0, i as int));
    }
    assert(payload@.subrange(0, len as int) =~= payload@);
    Ok(out)
}

/// Reads the four-byte little-endian length at the front of `bytes`.
fn read_len(bytes: &[u8]) -> (r: u32)
    requires
        bytes@.len() >= 4,
    ensures
        r as int == le_u32_value(bytes@),
{
    let v: u64 = bytes[0] as u64 + 256 * (bytes[1] as u64) + 65536 * (bytes[2] as u64)
        + 16777216 * (bytes[3] as u64);
    v as u32
}

/// Reads the frame at the front of `bytes`, giving its payload and the
/// number of bytes it takes up. Bytes after the frame are left alone.
pub fn decode_frame(bytes: &[u8]) -> (r: Result<(Vec<u8>, usize), FrameError>)
    ensures
        match (r, parse_frame(bytes@)) {
            (Ok((p, n)), Ok((q, m))) => p@ == q && n == m,
            (Err(e), Err(f)) => e == f,
            _ => false,
        },
{
    if bytes.len() < 4 {
        return Err(FrameError::IncompleteLength { available: bytes.len() });
    }
    let declared = read_len(bytes);
    let available = bytes.len() - 4;
    if available < declared as usize {
        return Err(FrameError::Truncated { declared, available });
    }
    let end = 4 + declared as usize;
    let mut payload: Vec<u8> = Vec::new();
    let mut i: usize = 4;
    while i < end
        invariant
            4 <= i <= end,
            end <= bytes@.len(),
            payload@ =~= bytes@.subrange(4, i as int),
        decreases end - i,
    {
        payload.push(bytes[i]);
        i += 1;
    }
    Ok((payload, end))
}

/// What the end of the stream means for bytes still buffered: nothing
/// wrong when none are left or a whole frame is, else the reason the rest
/// is not a frame.
pub open spec fn end_of_stream(buffered: Seq<u8>) -> Result<(), FrameError> {
    if buffered.len() == 0 {
        Ok(())
    } else {
        match parse_frame(buffered) {
            Ok(_) => Ok(()),
            Err(e) => Err(e),
        }
    }
}

/// Copies `bytes[from..]` into a vector of its own.
fn tail_from(bytes: &Vec<u8>, from: usize) -> (r: Vec<u8>)
    requires
        from <= bytes@.len(),
    ensures
        r@ == bytes@.subrange(from as int, bytes@.len() as int),
{
    let mut out: Vec<u8> = Vec::new();
    let mut i: usize = from;
    while i < bytes.len()
        invariant
            from <= i <= bytes@.len(),
            out@ =~= bytes@.subrange(from as int, i as int),
        decreases bytes@.len() - i,
    {
        out.push(bytes[i]);
        i += 1;
    }
    out
}

/// Splits a byte stream, which arrives in pieces of any size, into frames.
pub struct FrameDecoder {
    buffered: Vec<u8>,
}

impl View for FrameDecoder {
    type V = Seq<u8>;

    /// The bytes received and not yet taken out as frames.
    closed spec fn view(&self) -> Seq<u8> {
        self.buffered@
    }
}

impl FrameDecoder {
    /// A decoder that has received nothing.
    pub fn new() -> (r: Self)
        ensures
            r@ == Seq::<u8>::empty(),
    {
        FrameDecoder { buffered: Vec::new() }
    }

    /// Takes in the next bytes of the stream.
    pub fn push(&mut self, data: &[u8])
        ensures
            final(self)@ == old(self)@ + data@,
    {
        let mut i: usize = 0;
        while i < data.len()
            invariant
                i <= data@.len(),
                self@ =~= old(self)@ + data@.subrange(0, i as int),
            decreases data@.len() - i,
        {
            self.buffered.push(data[i]);
            i += 1;
        }
        assert(data@.subrange(0, data@.len() as int) =~= data@);
    }

    /// Takes the next whole frame out of the buffer and gives its payload;
    /// `None`, with the buffer unchanged, until the whole frame is there.
    pub fn next_frame(&mut self) -> (r: Option<Vec<u8>>)
        ensures
            match parse_frame(old(self)@) {
                Ok((p, n)) => r is Some && r->Some_0@ == p && final(self)@ == old(self)@.subrange(
                    n,
                    old(self)@.len() as int,
                ),
                Err(_) => r is None && final(self)@ == old(self)@,
            },
    {
        match decode_frame(self.buffered.as_slice()) {
            Ok((payload, used)) => {
                let rest = tail_from(&self.buffered, used);
                self.buffered = rest;
                Some(payload)
            },
            Err(_) => None,
        }
    }

    /// Says whether the stream may end here: an error when the buffered
    /// bytes are a cut-off length prefix or a cut-off payload.
    pub fn finish(&self) -> (r: Result<(), FrameError>)
        ensures
            r == end_of_stream(self@),
    {
        if self.buffered.len() == 0 {
            return Ok(());
        }
        match decode_frame(self.buffered.as_slice()) {
            Ok(_) => Ok(()),
            Err(e) => Err(e),
        }
    }
}

} // verus!
