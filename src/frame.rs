use vstd::arithmetic::div_mod::lemma_fundamental_div_mod;
use vstd::prelude::*;

verus! {

/// Number of bytes in the length header that starts every frame.
pub const HEADER_LEN: usize = 4;

/// Largest payload length that the header can carry.
pub const MAX_PAYLOAD: u64 = 0xffff_ffff;

/// The value of four bytes read as a little-endian unsigned integer.
pub open spec fn le_value(b0: u8, b1: u8, b2: u8, b3: u8) -> nat {
    b0 as nat + 256 * (b1 as nat) + 65536 * (b2 as nat) + 16777216 * (b3 as nat)
}

/// The four little-endian bytes of `n`, for `n < 2^32`.
pub open spec fn le_bytes(n: nat) -> Seq<u8> {
    seq![
        (n % 256) as u8,
        ((n / 256) % 256) as u8,
        ((n / 65536) % 256) as u8,
        ((n / 16777216) % 256) as u8,
    ]
}

/// The payload length that the header at the front of `b` declares (`b` holds at least
/// four bytes).
pub open spec fn declared_len(b: Seq<u8>) -> nat {
    le_value(b[0], b[1], b[2], b[3])
}

/// The wire form of a message: its length as four little-endian bytes, then the message.
pub open spec fn encoding(m: Seq<u8>) -> Seq<u8> {
    le_bytes(m.len()) + m
}

/// Whether `b` starts with a whole frame.
pub open spec fn holds_frame(b: Seq<u8>) -> bool {
    b.len() >= HEADER_LEN && HEADER_LEN + declared_len(b) <= b.len()
}

/// Whether the header at the front of `b` declares a length that no `usize` can hold.
pub open spec fn header_overflows(b: Seq<u8>) -> bool {
    b.len() >= HEADER_LEN && declared_len(b) > usize::MAX
}

/// The payload of the frame at the front of `b`.
pub open spec fn frame_payload(b: Seq<u8>) -> Seq<u8> {
    b.subrange(HEADER_LEN as int, HEADER_LEN + declared_len(b))
}

/// What follows the frame at the front of `b`.
pub open spec fn after_frame(b: Seq<u8>) -> Seq<u8> {
    b.subrange(HEADER_LEN + declared_len(b), b.len() as int)
}

/// Why a frame could not be taken from a buffer, or a message could not be framed.
#[derive(Debug, Clone, Copy, PartialEq, Eq, Structural)]
pub enum ParseError {
    /// The buffer does not yet hold a whole frame.
    NotReady,
    /// The header is malformed, or a message is too long for the header.
    Corrupt,
}

impl ParseError {
    /// A short description of the error.
    pub fn to_string(&self) -> (r: String)
        ensures
            *self == ParseError::NotReady ==> r@ == "Not ready"@,
            *self == ParseError::Corrupt ==> r@ == "Corrupt"@,
    {
        match self {
            ParseError::NotReady => String::from_str("Not ready"),
            ParseError::Corrupt => String::from_str("Corrupt"),
        }
    }
}

/// One message, as carried by a frame.
#[derive(Debug)]
pub struct Frame(Vec<u8>);

impl View for Frame {
    type V = Seq<u8>;

    closed spec fn view(&self) -> Seq<u8> {
        self.0@
    }
}

impl Frame {
    /// Wraps a message.
    pub fn new(message: Vec<u8>) -> (r: Frame)
        ensures
            r@ == message@,
    {
        Frame(message)
    }

    /// Unwraps the message.
    pub fn into_message(self) -> (r: Vec<u8>)
        ensures
            r@ == self@,
    {
        self.0
    }

    /// Takes the frame at the front of `buffer`, if a whole one is there, and removes its
    /// bytes. While the buffer holds no whole frame it is left as it was, so that the same
    /// buffer can be offered again once more bytes have arrived.
    pub fn try_from(buffer: &mut Vec<u8>) -> (r: Result<Frame, ParseError>)
        ensures
            match r {
                Ok(f) => {
                    &&& holds_frame(old(buffer)@)
                    &&& !header_overflows(old(buffer)@)
                    &&& f@ == frame_payload(old(buffer)@)
                    &&& final(buffer)@ == after_frame(old(buffer)@)
                },
                Err(ParseError::Corrupt) => {
                    &&& header_overflows(old(buffer)@)
                    &&& final(buffer)@ == old(buffer)@
                },
                Err(ParseError::NotReady) => {
                    &&& !holds_frame(old(buffer)@)
                    &&& !header_overflows(old(buffer)@)
                    &&& final(buffer)@ == old(buffer)@
                },
            },
    {
        if buffer.len() < HEADER_LEN {
            return Err(ParseError::NotReady);
        }
        let declared: u32 = le_u32(buffer[0], buffer[1], buffer[2], buffer[3]);
        if declared as u64 > usize::MAX as u64 {
            return Err(ParseError::Corrupt);
        }
        let size: usize = declared as usize;
        if size > buffer.len() - HEADER_LEN {
            return Err(ParseError::NotReady);
        }
        let rest = buffer.split_off(HEADER_LEN + size);
        let message = buffer.split_off(HEADER_LEN);
        *buffer = rest;
        Ok(Frame(message))
    }

    /// Serialises the frame: the wire form of its message, or `Corrupt` where the message
    /// is too long for the header.
    pub fn try_into(self) -> (r: Result<Vec<u8>, ParseError>)
        ensures
            match r {
                Ok(v) => self@.len() <= MAX_PAYLOAD && v@ == encoding(self@),
                Err(e) => self@.len() > MAX_PAYLOAD && e == ParseError::Corrupt,
            },
    {
        let n = self.0.len();
        if n as u64 > MAX_PAYLOAD {
            return Err(ParseError::Corrupt);
        }
        let size: u32 = n as u32;
        let mut result: Vec<u8> = Vec::new();
        result.push((size % 256) as u8);
        result.push(((size / 256) % 256) as u8);
        result.push(((size / 65536) % 256) as u8);
        result.push(((size / 16777216) % 256) as u8);
        let mut message = self.0;
        result.append(&mut message);
        proof {
            assert(result@ =~= encoding(self@));
        }
        Ok(result)
    }
}

/// Reads four bytes as a little-endian unsigned integer.
fn le_u32(b0: u8, b1: u8, b2: u8, b3: u8) -> (r: u32)
    ensures
        r as nat == le_value(b0, b1, b2, b3),
{
    b0 as u32 + 256 * (b1 as u32) + 65536 * (b2 as u32) + 16777216 * (b3 as u32)
}

/// The header that `le_bytes` writes reads back as the length it was written from.
pub proof fn lemma_header_round_trip(n: nat)
    requires
        n <= MAX_PAYLOAD,
    ensures
        le_bytes(n).len() == HEADER_LEN,
        le_value(le_bytes(n)[0], le_bytes(n)[1], le_bytes(n)[2], le_bytes(n)[3]) == n,
{
    let q1 = n / 256;
    let q2 = q1 / 256;
    let q3 = q2 / 256;
    lemma_fundamental_div_mod(n as int, 256);
    lemma_fundamental_div_mod(q1 as int, 256);
    lemma_fundamental_div_mod(q2 as int, 256);
    assert(q3 < 256) by (nonlinear_arith)
        requires
            n <= 0xffff_ffff,
            q1 == n / 256,
            q2 == q1 / 256,
            q3 == q2 / 256,
    ;
    assert(n / 65536 == q2) by (nonlinear_arith)
        requires
            q1 == n / 256,
            q2 == q1 / 256,
    ;
    assert(n / 16777216 == q3) by (nonlinear_arith)
        requires
            q1 == n / 256,
            q2 == q1 / 256,
            q3 == q2 / 256,
    ;
    assert(n == n % 256 + 256 * (q1 % 256) + 65536 * (q2 % 256) + 16777216 * q3)
        by (nonlinear_arith)
        requires
            n == n % 256 + 256 * q1,
            q1 == q1 % 256 + 256 * q2,
            q2 == q2 % 256 + 256 * q3,
    ;
}

/// A frame followed by further bytes: decoding takes exactly the framed message and leaves
/// exactly the bytes that followed it.
pub proof fn lemma_frame_then_rest(m: Seq<u8>, rest: Seq<u8>)
    requires
        m.len() <= MAX_PAYLOAD,
    ensures
        holds_frame(encoding(m) + rest),
        !header_overflows(encoding(m) + rest),
        frame_payload(encoding(m) + rest) == m,
        after_frame(encoding(m) + rest) == rest,
{
    lemma_header_round_trip(m.len());
    let b = encoding(m) + rest;
    assert(declared_len(b) == m.len());
    assert(frame_payload(b) =~= m);
    assert(after_frame(b) =~= rest);
}

/// Decoding the wire form of a message gives the message back and consumes every byte.
pub proof fn lemma_round_trip(m: Seq<u8>)
    requires
        m.len() <= MAX_PAYLOAD,
    ensures
        holds_frame(encoding(m)),
        !header_overflows(encoding(m)),
        frame_payload(encoding(m)) == m,
        after_frame(encoding(m)).len() == 0,
{
    lemma_frame_then_rest(m, Seq::empty());
    assert(encoding(m) + Seq::<u8>::empty() =~= encoding(m));
}

/// Any proper prefix of a frame's wire form holds no whole frame, so decoding it reports
/// `NotReady` and leaves it as it was.
pub proof fn lemma_partial_frame(m: Seq<u8>, k: nat)
    requires
        m.len() <= MAX_PAYLOAD,
        k < encoding(m).len(),
    ensures
        !holds_frame(encoding(m).take(k as int)),
        !header_overflows(encoding(m).take(k as int)),
{
    lemma_header_round_trip(m.len());
    let p = encoding(m).take(k as int);
    if p.len() >= HEADER_LEN {
        assert(p[0] == encoding(m)[0] && p[1] == encoding(m)[1]);
        assert(p[2] == encoding(m)[2] && p[3] == encoding(m)[3]);
        assert(declared_len(p) == m.len());
    }
}

/// Three frames written back to back decode, one call after another, to the three
/// messages in the order they were written, and leave no bytes behind.
pub proof fn lemma_three_frames(m1: Seq<u8>, m2: Seq<u8>, m3: Seq<u8>)
    requires
        m1.len() <= MAX_PAYLOAD,
        m2.len() <= MAX_PAYLOAD,
        m3.len() <= MAX_PAYLOAD,
    ensures
        ({
            let b1 = encoding(m1) + encoding(m2) + encoding(m3);
            let b2 = after_frame(b1);
            let b3 = after_frame(b2);
            &&& holds_frame(b1) && !header_overflows(b1) && frame_payload(b1) == m1
            &&& holds_frame(b2) && !header_overflows(b2) && frame_payload(b2) == m2
            &&& holds_frame(b3) && !header_overflows(b3) && frame_payload(b3) == m3
            &&& after_frame(b3).len() == 0
        }),
{
    let tail = encoding(m2) + encoding(m3);
    assert(encoding(m1) + encoding(m2) + encoding(m3) =~= encoding(m1) + tail);
    lemma_frame_then_rest(m1, tail);
    lemma_frame_then_rest(m2, encoding(m3));
    lemma_round_trip(m3);
}

} // verus!
