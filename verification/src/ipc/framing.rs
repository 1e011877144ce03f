//! Length-prefixed frames: `u32_le(len) || payload`.
//!
//! One frame per logical message, no line trimming, and a reader that takes
//! exactly the announced number of bytes. The payload is opaque here: the
//! serialiser on either side turns values into bytes and back.

use vstd::prelude::*;

verus! {

/// Largest payload, in bytes, that a reader accepts (256 MiB).
pub const MAX_FRAME_BYTES: usize = 268435456;

#[verifier::external_type_specification]
#[verifier::external_body]
pub struct ExIoError(std::io::Error);

#[verifier::external_type_specification]
#[verifier::external_body]
pub struct ExBincodeErrorKind(bincode::ErrorKind);

/// Why a frame could not be written or read.
#[derive(Debug)]
pub enum FramingError {
    /// The byte stream failed or ended before a whole frame arrived.
    Io(std::io::Error),
    /// The payload length does not fit the header, or exceeds [`MAX_FRAME_BYTES`] on read.
    FrameTooLarge { len: usize },
    /// The payload bytes were not a valid encoding of the expected message.
    Bincode(Box<bincode::ErrorKind>),
}

/// Why a frame could not be read from a byte buffer.
#[derive(Debug, Clone, PartialEq, Eq)]
pub enum FrameError {
    /// The buffer ends after fewer than `needed` bytes: the header (4 bytes)
    /// or the whole announced frame. This is the condition a stream reader
    /// reports as `std::io::ErrorKind::UnexpectedEof`.
    UnexpectedEof { needed: usize },
    /// The header announces a payload of `len` bytes, more than [`MAX_FRAME_BYTES`].
    FrameTooLarge { len: usize },
}

/// Bytes a reader needs to finish what `s` starts: the header, or the header
/// and the payload it announces.
pub open spec fn frame_bytes_needed(s: Seq<u8>) -> int {
    if s.len() < 4 {
        4
    } else {
        4 + le_u32_value(s)
    }
}

/// The four little-endian bytes of `n`.
pub open spec fn le_u32_bytes(n: int) -> Seq<u8> {
    seq![
        (n % 256) as u8,
        ((n / 256) % 256) as u8,
        ((n / 65536) % 256) as u8,
        ((n / 16777216) % 256) as u8,
    ]
}

/// The number that the first four bytes of `b` spell in little-endian order.
pub open spec fn le_u32_value(b: Seq<u8>) -> int {
    b[0] as int + 256 * (b[1] as int) + 65536 * (b[2] as int) + 16777216 * (b[3] as int)
}

/// The frame that carries `payload`: its length as four little-endian bytes, then the payload.
pub open spec fn frame(payload: Seq<u8>) -> Seq<u8> {
    le_u32_bytes(payload.len() as int) + payload
}

/// What a reader makes of the bytes at the front of a stream.
pub ghost enum FrameOutcome {
    /// The stream ends before the header or before the announced payload is complete.
    Short,
    /// The header announces a payload longer than [`MAX_FRAME_BYTES`].
    Oversized(int),
    /// A whole frame: its payload.
    Complete(Seq<u8>),
}

/// Reading one frame from the front of `s`.
pub open spec fn frame_outcome(s: Seq<u8>) -> FrameOutcome {
    if s.len() < 4 {
        FrameOutcome::Short
    } else if le_u32_value(s) > MAX_FRAME_BYTES {
        FrameOutcome::Oversized(le_u32_value(s))
    } else if s.len() < 4 + le_u32_value(s) {
        FrameOutcome::Short
    } else {
        FrameOutcome::Complete(s.subrange(4, 4 + le_u32_value(s)))
    }
}

/// Header bytes and the length they announce determine each other.
pub proof fn lemma_le_u32_roundtrip(n: int)
    requires
        0 <= n <= u32::MAX,
    ensures
        le_u32_bytes(n).len() == 4,
        le_u32_value(le_u32_bytes(n)) == n,
{
    let b0 = n % 256;
    let q1 = n / 256;
    let b1 = q1 % 256;
    let q2 = q1 / 256;
    let b2 = q2 % 256;
    let q3 = q2 / 256;
    let b3 = q3 % 256;
    assert(n / 65536 == q2) by (nonlinear_arith)
        requires
            q1 == n / 256,
            q2 == q1 / 256,
            n >= 0,
    {
        vstd::arithmetic::div_mod::lemma_div_denominator(n, 256, 256);
    }
    assert(n / 16777216 == q3) by (nonlinear_arith)
        requires
            q2 == n / 65536,
            q3 == q2 / 256,
            n >= 0,
    {
        vstd::arithmetic::div_mod::lemma_div_denominator(n, 65536, 256);
    }
    assert(q3 < 256) by (nonlinear_arith)
        requires
            q3 == n / 16777216,
            0 <= n <= u32::MAX,
    ;
    assert(n == b0 + 256 * b1 + 65536 * b2 + 16777216 * b3) by (nonlinear_arith)
        requires
            n >= 0,
            b0 == n % 256,
            q1 == n / 256,
            b1 == q1 % 256,
            q2 == q1 / 256,
            b2 == q2 % 256,
            q3 == q2 / 256,
            b3 == q3,
    {
        vstd::arithmetic::div_mod::lemma_fundamental_div_mod(n, 256);
        vstd::arithmetic::div_mod::lemma_fundamental_div_mod(q1, 256);
        vstd::arithmetic::div_mod::lemma_fundamental_div_mod(q2, 256);
    }
    let b = le_u32_bytes(n);
    assert(b[0] as int == b0);
    assert(b[1] as int == b1);
    assert(b[2] as int == b2);
    assert(b[3] as int == b3);
}

/// The header of a length `n` holds, byte by byte, `n`'s base-256 digits,
/// least significant first.
pub proof fn lemma_le_u32_bytes_plain(n: int)
    requires
        0 <= n <= u32::MAX,
    ensures
        le_u32_bytes(n).len() == 4,
        le_u32_bytes(n)[0] as int == n % 256,
        le_u32_bytes(n)[1] as int == (n / 256) % 256,
        le_u32_bytes(n)[2] as int == (n / 65536) % 256,
        le_u32_bytes(n)[3] as int == n / 16777216,
        le_u32_bytes(n)[0] + 256 * le_u32_bytes(n)[1] + 65536 * le_u32_bytes(n)[2] + 16777216
            * le_u32_bytes(n)[3] == n,
{
    lemma_le_u32_roundtrip(n);
    assert(n / 16777216 < 256) by (nonlinear_arith)
        requires
            0 <= n <= u32::MAX,
    ;
}

/// The length a header announces is the plain base-256 value of its four
/// bytes, least significant first.
pub proof fn lemma_le_u32_value_plain(b: Seq<u8>)
    requires
        b.len() >= 4,
    ensures
        le_u32_value(b) == b[0] + 256 * b[1] + 65536 * b[2] + 16777216 * b[3],
{
}

/// A frame is the payload's length as four little-endian bytes, then the payload.
pub proof fn lemma_frame_plain(payload: Seq<u8>)
    requires
        payload.len() <= u32::MAX,
    ensures
        frame(payload).len() == 4 + payload.len(),
        frame(payload)[0] + 256 * frame(payload)[1] + 65536 * frame(payload)[2] + 16777216 * frame(
            payload,
        )[3] == payload.len(),
        frame(payload)[0] as int == payload.len() % 256,
        frame(payload)[1] as int == (payload.len() / 256) % 256,
        frame(payload)[2] as int == (payload.len() / 65536) % 256,
        frame(payload)[3] as int == payload.len() / 16777216,
        frame(payload).subrange(4, frame(payload).len() as int) == payload,
{
    lemma_le_u32_bytes_plain(payload.len() as int);
    let f = frame(payload);
    let h = le_u32_bytes(payload.len() as int);
    assert(f[0] == h[0] && f[1] == h[1] && f[2] == h[2] && f[3] == h[3]);
    assert(f.subrange(4, f.len() as int) =~= payload);
}

/// A frame read back gives the payload that was written, whatever follows it
/// in the stream, as long as the payload is within the reader's limit.
pub proof fn lemma_frame_roundtrip(payload: Seq<u8>, rest: Seq<u8>)
    requires
        payload.len() <= MAX_FRAME_BYTES,
    ensures
        frame_outcome(frame(payload) + rest) == FrameOutcome::Complete(payload),
{
    lemma_le_u32_roundtrip(payload.len() as int);
    let s = frame(payload) + rest;
    let h = le_u32_bytes(payload.len() as int);
    assert(s.subrange(0, 4) =~= h);
    assert(le_u32_value(s) == le_u32_value(h));
    assert(s.subrange(4, 4 + payload.len() as int) =~= payload);
}

/// A whole frame read from a stream is exactly the frame of its payload
/// followed by the bytes that come after it.
pub proof fn lemma_frame_complete_splits(s: Seq<u8>)
    requires
        frame_outcome(s) is Complete,
    ensures
        ({
            let payload = frame_outcome(s)->Complete_0;
            s == frame(payload) + s.subrange(4 + payload.len() as int, s.len() as int)
        }),
{
    let n = le_u32_value(s);
    let payload = s.subrange(4, 4 + n);
    assert(0 <= n);
    lemma_le_u32_roundtrip(n);
    let h = le_u32_bytes(n);
    assert(h[0] == s[0] && h[1] == s[1] && h[2] == s[2] && h[3] == s[3]) by {
        lemma_le_u32_bytes_of_value(s);
    }
    assert(s =~= frame(payload) + s.subrange(4 + payload.len() as int, s.len() as int));
}

/// The header bytes of a stream are the little-endian bytes of the length they announce.
proof fn lemma_le_u32_bytes_of_value(s: Seq<u8>)
    requires
        s.len() >= 4,
    ensures
        le_u32_bytes(le_u32_value(s)) =~= s.subrange(0, 4),
{
    let b0 = s[0] as int;
    let b1 = s[1] as int;
    let b2 = s[2] as int;
    let b3 = s[3] as int;
    let n = le_u32_value(s);
    assert(n % 256 == b0 && (n / 256) % 256 == b1 && (n / 65536) % 256 == b2 && (n / 16777216)
        % 256 == b3) by (nonlinear_arith)
        requires
            0 <= b0 < 256,
            0 <= b1 < 256,
            0 <= b2 < 256,
            0 <= b3 < 256,
            n == b0 + 256 * b1 + 65536 * b2 + 16777216 * b3,
    ;
}

/// Every proper prefix of a frame whose payload is within the limit reads as
/// a stream that ended too early.
pub proof fn lemma_frame_prefix_short(payload: Seq<u8>, k: int)
    requires
        payload.len() <= MAX_FRAME_BYTES,
        0 <= k < frame(payload).len(),
    ensures
        frame_outcome(frame(payload).subrange(0, k)) == FrameOutcome::Short,
{
    lemma_le_u32_roundtrip(payload.len() as int);
    let s = frame(payload).subrange(0, k);
    if k >= 4 {
        assert(s.subrange(0, 4) =~= le_u32_bytes(payload.len() as int));
        assert(le_u32_value(s) == payload.len());
    }
}

/// A frame that the writer accepts but whose payload exceeds the reader's
/// limit is refused by the reader with its announced length.
pub proof fn lemma_oversized_frame_refused(payload: Seq<u8>, rest: Seq<u8>)
    requires
        MAX_FRAME_BYTES < payload.len() <= u32::MAX,
    ensures
        frame_outcome(frame(payload) + rest) == FrameOutcome::Oversized(payload.len() as int),
{
    lemma_le_u32_roundtrip(payload.len() as int);
    let s = frame(payload) + rest;
    assert(s.subrange(0, 4) =~= le_u32_bytes(payload.len() as int));
    assert(le_u32_value(s) == le_u32_value(le_u32_bytes(payload.len() as int)));
}

/// The four little-endian bytes of `n`.
pub fn encode_frame_header(n: u32) -> (header: [u8; 4])
    ensures
        header@ == le_u32_bytes(n as int),
        header[0] as int == n % 256,
        header[1] as int == (n / 256) % 256,
        header[2] as int == (n / 65536) % 256,
        header[3] as int == n / 16777216,
        header[0] + 256 * header[1] + 65536 * header[2] + 16777216 * header[3] == n,
{
    proof {
        lemma_le_u32_roundtrip(n as int);
        lemma_le_u32_bytes_plain(n as int);
    }
    let header = [
        (n % 256) as u8,
        ((n / 256) % 256) as u8,
        ((n / 65536) % 256) as u8,
        ((n / 16777216) % 256) as u8,
    ];
    assert(header@ =~= le_u32_bytes(n as int));
    header
}

/// Frames `payload` for the wire: `u32_le(len) || payload`.
///
/// Fails with [`FramingError::FrameTooLarge`] exactly when the length does not
/// fit the 32-bit header. The writer does not apply [`MAX_FRAME_BYTES`]; only
/// the reader does.
pub fn encode_frame(payload: &[u8]) -> (res: Result<Vec<u8>, FramingError>)
    ensures
        payload@.len() <= u32::MAX <==> res is Ok,
        res matches Ok(bytes) ==> bytes@ == frame(payload@),
        res matches Err(e) ==> e matches FramingError::FrameTooLarge { len } && len == payload@.len(),
        res matches Ok(bytes) ==> {
            &&& bytes@.len() == 4 + payload@.len()
            &&& bytes@[0] + 256 * bytes@[1] + 65536 * bytes@[2] + 16777216 * bytes@[3]
                == payload@.len()
            &&& bytes@[0] as int == payload@.len() % 256
            &&& bytes@[1] as int == (payload@.len() / 256) % 256
            &&& bytes@[2] as int == (payload@.len() / 65536) % 256
            &&& bytes@[3] as int == payload@.len() / 16777216
            &&& bytes@.subrange(4, bytes@.len() as int) == payload@
        },
{
    let n = payload.len();
    if n > 4294967295usize {
        return Err(FramingError::FrameTooLarge { len: n });
    }
    let header = encode_frame_header(n as u32);
    let mut out: Vec<u8> = Vec::new();
    let mut i: usize = 0;
    while i < 4
        invariant
            0 <= i <= 4,
            header@ == le_u32_bytes(n as int),
            out@ =~= header@.subrange(0, i as int),
        decreases 4 - i,
    {
        out.push(header[i]);
        i = i + 1;
    }
    let mut j: usize = 0;
    while j < n
        invariant
            n == payload@.len(),
            0 <= j <= n,
            out@ =~= le_u32_bytes(n as int) + payload@.subrange(0, j as int),
        decreases n - j,
    {
        out.push(payload[j]);
        j = j + 1;
    }
    assert(payload@.subrange(0, n as int) =~= payload@);
    proof {
        lemma_frame_plain(payload@);
    }
    Ok(out)
}

/// Reads the length announced by a frame header and checks it against the
/// reader's limit.
///
/// Gives the announced length when it is at most [`MAX_FRAME_BYTES`], and
/// [`FramingError::FrameTooLarge`] with that length otherwise.
pub fn decode_frame_len(header: [u8; 4]) -> (res: Result<usize, FramingError>)
    ensures
        le_u32_value(header@) <= MAX_FRAME_BYTES <==> res is Ok,
        res matches Ok(len) ==> len == le_u32_value(header@),
        res matches Err(e) ==> e matches FramingError::FrameTooLarge { len } && len
            == le_u32_value(header@),
        header[0] + 256 * header[1] + 65536 * header[2] + 16777216 * header[3] <= MAX_FRAME_BYTES
            <==> res is Ok,
        res matches Ok(len) ==> len == header[0] + 256 * header[1] + 65536 * header[2]
            + 16777216 * header[3],
        res matches Err(e) ==> e matches FramingError::FrameTooLarge { len } && len == header[0]
            + 256 * header[1] + 65536 * header[2] + 16777216 * header[3],
{
    let v: u64 = header[0] as u64 + 256 * (header[1] as u64) + 65536 * (header[2] as u64)
        + 16777216 * (header[3] as u64);
    assert(v == le_u32_value(header@));
    if v > 268435456u64 {
        assert(v <= u32::MAX);
        return Err(FramingError::FrameTooLarge { len: v as usize });
    }
    Ok(v as usize)
}

/// Reads one frame from the front of `input`.
///
/// On success gives the payload and the number of bytes the frame took
/// (header and payload); whatever follows stays unread. A header that
/// announces more than [`MAX_FRAME_BYTES`] gives [`FrameError::FrameTooLarge`];
/// input that ends before the header or before the announced payload gives
/// [`FrameError::UnexpectedEof`] with the number of bytes the frame needs.
pub fn decode_frame(input: &[u8]) -> (res: Result<(Vec<u8>, usize), FrameError>)
    ensures
        match frame_outcome(input@) {
            FrameOutcome::Complete(payload) => res matches Ok((bytes, used)) && bytes@ == payload
                && used == 4 + payload.len(),
            FrameOutcome::Oversized(n) => res == Err::<(Vec<u8>, usize), FrameError>(
                FrameError::FrameTooLarge { len: n as usize },
            ),
            FrameOutcome::Short => res == Err::<(Vec<u8>, usize), FrameError>(
                FrameError::UnexpectedEof { needed: frame_bytes_needed(input@) as usize },
            ) && input@.len() < frame_bytes_needed(input@) <= 4 + MAX_FRAME_BYTES,
        },
        input@.len() < 4 ==> res == Err::<(Vec<u8>, usize), FrameError>(
            FrameError::UnexpectedEof { needed: 4 },
        ),
        input@.len() >= 4 ==> ({
            let announced = input@[0] + 256 * input@[1] + 65536 * input@[2] + 16777216 * input@[3];
            &&& announced > MAX_FRAME_BYTES ==> res == Err::<(Vec<u8>, usize), FrameError>(
                FrameError::FrameTooLarge { len: announced as usize },
            )
            &&& announced <= MAX_FRAME_BYTES && input@.len() < 4 + announced ==> res == Err::<
                (Vec<u8>, usize),
                FrameError,
            >(FrameError::UnexpectedEof { needed: (4 + announced) as usize })
            &&& announced <= MAX_FRAME_BYTES && input@.len() >= 4 + announced ==> (res matches Ok(
                (bytes, used),
            ) && used == 4 + announced && bytes@ == input@.subrange(4, 4 + announced))
        }),
{
    if input.len() < 4 {
        return Err(FrameError::UnexpectedEof { needed: 4 });
    }
    proof {
        lemma_le_u32_value_plain(input@);
    }
    let header: [u8; 4] = [input[0], input[1], input[2], input[3]];
    assert(le_u32_value(header@) == le_u32_value(input@));
    let len = match decode_frame_len(header) {
        Ok(len) => len,
        Err(_) => {
            let v: usize = header[0] as usize + 256 * (header[1] as usize) + 65536 * (
            header[2] as usize) + 16777216 * (header[3] as usize);
            return Err(FrameError::FrameTooLarge { len: v });
        },
    };
    if input.len() - 4 < len {
        return Err(FrameError::UnexpectedEof { needed: 4 + len });
    }
    let end = 4 + len;
    let mut out: Vec<u8> = Vec::new();
    let mut i: usize = 4;
    while i < end
        invariant
            4 <= i <= end,
            end <= input@.len(),
            out@ =~= input@.subrange(4, i as int),
        decreases end - i,
    {
        out.push(input[i]);
        i = i + 1;
    }
    Ok((out, end))
}

} // verus!
