//! IPC boundary: endpoint, transport errors, the stream/listener/connector
//! seams, and the framing: an eight-byte big-endian length prefix, then the
//! payload. A truncated frame or an oversized declared length is a
//! `Protocol` error, never a panic.

use vstd::prelude::*;

use crate::text::{push_str, string_of};

verus! {

/// Upper bound of one frame's payload, in bytes.
pub const MAX_FRAME_BYTES: u64 = 8 * 1024 * 1024;

/// Width of the length prefix, in bytes.
pub const FRAME_LEN_PREFIX: usize = 8;

/// IPC endpoint, resolved by the assembly root.
#[derive(Debug, Clone, PartialEq, Eq)]
pub enum IpcEndpoint {
    /// Unix domain socket path.
    SocketPath(String),
    /// Windows named pipe (deferred).
    NamedPipe(String),
}

/// Transport errors (apart from the domain errors carried in responses).
#[derive(Debug, Clone, PartialEq, Eq)]
pub enum IpcError {
    /// Binding the server failed.
    Bind,
    /// Setting owner-only permissions failed.
    Permission,
    /// The client could not connect (daemon down, socket absent).
    Connect,
    /// Framing violation: truncation, oversized length or undecodable payload.
    Protocol,
    /// Version mismatch observed at the transport.
    VersionMismatch,
    /// Other I/O failure.
    Io(String),
}

/// The message of a transport error.
pub open spec fn spec_ipc_message(e: IpcError) -> Seq<char> {
    match e {
        IpcError::Bind => "소켓 바인딩 실패"@,
        IpcError::Permission => "소유자-전용 권한 설정 실패"@,
        IpcError::Connect => "데몬에 연결할 수 없음"@,
        IpcError::Protocol => "프로토콜 위반(프레이밍/디코드)"@,
        IpcError::VersionMismatch => "프로토콜 버전 불일치"@,
        IpcError::Io(d) => "IPC I/O 실패: "@ + d@,
    }
}

impl IpcError {
    /// The message of the error.
    pub fn message(&self) -> (s: String)
        ensures
            s@ == spec_ipc_message(*self),
    {
        match self {
            IpcError::Bind => string_of("소켓 바인딩 실패"),
            IpcError::Permission => string_of("소유자-전용 권한 설정 실패"),
            IpcError::Connect => string_of("데몬에 연결할 수 없음"),
            IpcError::Protocol => string_of("프로토콜 위반(프레이밍/디코드)"),
            IpcError::VersionMismatch => string_of("프로토콜 버전 불일치"),
            IpcError::Io(d) => {
                let mut s = string_of("IPC I/O 실패: ");
                push_str(&mut s, d.as_str());
                s
            },
        }
    }
}

/// A two-way frame channel: one request and one response per connection.
pub trait IpcStream {
    /// Receives one frame.
    fn read_frame(&mut self) -> Result<Vec<u8>, IpcError>;

    /// Sends one frame.
    fn write_frame(&mut self, payload: &[u8]) -> Result<(), IpcError>;
}

/// Server side: accepts the next connection.
pub trait IpcListener {
    /// Accepts the next connection (blocking).
    fn accept(&self) -> Result<Box<dyn IpcStream>, IpcError>;
}

/// Client side: connects to an endpoint.
pub trait IpcConnector {
    /// Connects (`Connect` when the daemon is down).
    fn connect(&self, endpoint: &IpcEndpoint) -> Result<Box<dyn IpcStream>, IpcError>;
}

/// The eight big-endian bytes of `n`.
pub open spec fn be_bytes(n: u64) -> Seq<u8> {
    seq![
        ((n >> 56u64) & 0xff) as u8,
        ((n >> 48u64) & 0xff) as u8,
        ((n >> 40u64) & 0xff) as u8,
        ((n >> 32u64) & 0xff) as u8,
        ((n >> 24u64) & 0xff) as u8,
        ((n >> 16u64) & 0xff) as u8,
        ((n >> 8u64) & 0xff) as u8,
        (n & 0xff) as u8,
    ]
}

/// The `u64` read big-endian from eight bytes.
pub open spec fn be_value(b0: u8, b1: u8, b2: u8, b3: u8, b4: u8, b5: u8, b6: u8, b7: u8) -> u64 {
    ((b0 as u64) << 56u64) | ((b1 as u64) << 48u64) | ((b2 as u64) << 40u64) | ((b3 as u64)
        << 32u64) | ((b4 as u64) << 24u64) | ((b5 as u64) << 16u64) | ((b6 as u64) << 8u64) | (
    b7 as u64)
}

/// The length stored in the first eight bytes of `b`.
pub open spec fn be_prefix(b: Seq<u8>) -> u64 {
    be_value(b[0], b[1], b[2], b[3], b[4], b[5], b[6], b[7])
}

/// Reading back the eight bytes of `n` gives `n`.
pub proof fn lemma_be_roundtrip(n: u64)
    ensures
        be_prefix(be_bytes(n)) == n,
{
    assert(be_value(
        ((n >> 56u64) & 0xff) as u8,
        ((n >> 48u64) & 0xff) as u8,
        ((n >> 40u64) & 0xff) as u8,
        ((n >> 32u64) & 0xff) as u8,
        ((n >> 24u64) & 0xff) as u8,
        ((n >> 16u64) & 0xff) as u8,
        ((n >> 8u64) & 0xff) as u8,
        (n & 0xff) as u8,
    ) == n) by (bit_vector);
}

/// Writing a frame: refused (`Protocol`, nothing written) over the bound,
/// else the big-endian length then the payload.
pub open spec fn spec_write_frame(out: Seq<u8>, payload: Seq<u8>) -> (Seq<u8>, Result<(), IpcError>) {
    if payload.len() > MAX_FRAME_BYTES {
        (out, Err(IpcError::Protocol))
    } else {
        (out + be_bytes(payload.len() as u64) + payload, Ok(()))
    }
}

/// Appends one frame of `payload` to `writer`.
pub fn write_frame_to(writer: &mut Vec<u8>, payload: &[u8]) -> (r: Result<(), IpcError>)
    ensures
        (final(writer)@, r) == spec_write_frame(old(writer)@, payload@),
{
    let len = payload.len() as u64;
    if len > MAX_FRAME_BYTES {
        return Err(IpcError::Protocol);
    }
    let ghost start = writer@;
    writer.push(((len >> 56u64) & 0xff) as u8);
    writer.push(((len >> 48u64) & 0xff) as u8);
    writer.push(((len >> 40u64) & 0xff) as u8);
    writer.push(((len >> 32u64) & 0xff) as u8);
    writer.push(((len >> 24u64) & 0xff) as u8);
    writer.push(((len >> 16u64) & 0xff) as u8);
    writer.push(((len >> 8u64) & 0xff) as u8);
    writer.push((len & 0xff) as u8);
    assert(writer@ =~= start + be_bytes(len));
    let ghost head = writer@;
    let n = payload.len();
    let mut i: usize = 0;
    while i < n
        invariant
            n == payload@.len(),
            i <= n,
            writer@ == head + payload@.take(i as int),
        decreases n - i,
    {
        writer.push(payload[i]);
        i = i + 1;
        assert(payload@.take(i as int) =~= payload@.take(i - 1).push(payload@[i - 1]));
    }
    assert(payload@.take(n as int) =~= payload@);
    Ok(())
}

/// The length declared by a frame header; `Protocol` over the bound.
pub fn frame_header_len(header: &[u8; 8]) -> (r: Result<u64, IpcError>)
    ensures
        ({
            let len = be_value(
                header[0],
                header[1],
                header[2],
                header[3],
                header[4],
                header[5],
                header[6],
                header[7],
            );
            r == if len > MAX_FRAME_BYTES {
                Err::<u64, IpcError>(IpcError::Protocol)
            } else {
                Ok(len)
            }
        }),
{
    let len: u64 = ((header[0] as u64) << 56u64) | ((header[1] as u64) << 48u64) | ((header[2] as u64)
        << 40u64) | ((header[3] as u64) << 32u64) | ((header[4] as u64) << 24u64) | ((
    header[5] as u64) << 16u64) | ((header[6] as u64) << 8u64) | (header[7] as u64);
    if len > MAX_FRAME_BYTES {
        Err(IpcError::Protocol)
    } else {
        Ok(len)
    }
}

/// An in-memory byte source read frame by frame.
#[derive(Debug)]
pub struct FrameReader {
    bytes: Vec<u8>,
    pos: usize,
}

/// Reading one frame at `pos`: the result and the position after it. A
/// header or payload cut short is `Protocol` and exhausts the source; an
/// oversized length is `Protocol` after the header.
pub open spec fn spec_read_frame(bytes: Seq<u8>, pos: int) -> (Result<Seq<u8>, IpcError>, int) {
    let rest = bytes.skip(pos);
    if rest.len() < 8 {
        (Err(IpcError::Protocol), bytes.len() as int)
    } else {
        let len = be_prefix(rest);
        if len > MAX_FRAME_BYTES {
            (Err(IpcError::Protocol), pos + 8)
        } else if rest.len() - 8 < len {
            (Err(IpcError::Protocol), bytes.len() as int)
        } else {
            (Ok(rest.subrange(8, 8 + len)), pos + 8 + len)
        }
    }
}

impl FrameReader {
    #[verifier::type_invariant]
    spec fn within(&self) -> bool {
        self.pos <= self.bytes@.len()
    }

    /// The bytes of the source.
    pub closed spec fn spec_bytes(&self) -> Seq<u8> {
        self.bytes@
    }

    /// The read position.
    pub closed spec fn spec_pos(&self) -> int {
        self.pos as int
    }

    /// A source over `bytes`, positioned at the start.
    pub fn new(bytes: Vec<u8>) -> (r: Self)
        ensures
            r.spec_bytes() == bytes@,
            r.spec_pos() == 0,
    {
        FrameReader { bytes, pos: 0 }
    }

    /// The read position.
    pub fn position(&self) -> (p: usize)
        ensures
            p == self.spec_pos(),
    {
        self.pos
    }
}

/// Reads one frame from the source (see `spec_read_frame`).
pub fn read_frame_from(reader: &mut FrameReader) -> (r: Result<Vec<u8>, IpcError>)
    ensures
        final(reader).spec_bytes() == old(reader).spec_bytes(),
        ({
            let (res, pos) = spec_read_frame(old(reader).spec_bytes(), old(reader).spec_pos());
            &&& final(reader).spec_pos() == pos
            &&& match (r, res) {
                (Ok(v), Ok(s)) => v@ == s,
                (Err(e), Err(f)) => e == f,
                _ => false,
            }
        }),
{
    proof {
        use_type_invariant(&*reader);
    }
    let total = reader.bytes.len();
    let pos = reader.pos;
    let ghost rest = reader.bytes@.skip(pos as int);
    if total - pos < FRAME_LEN_PREFIX {
        reader.pos = total;
        return Err(IpcError::Protocol);
    }
    let header: [u8; 8] = [
        reader.bytes[pos],
        reader.bytes[pos + 1],
        reader.bytes[pos + 2],
        reader.bytes[pos + 3],
        reader.bytes[pos + 4],
        reader.bytes[pos + 5],
        reader.bytes[pos + 6],
        reader.bytes[pos + 7],
    ];
    let len = match frame_header_len(&header) {
        Ok(len) => len,
        Err(e) => {
            reader.pos = pos + FRAME_LEN_PREFIX;
            return Err(e);
        },
    };
    let start = pos + FRAME_LEN_PREFIX;
    if ((total - start) as u64) < len {
        reader.pos = total;
        return Err(IpcError::Protocol);
    }
    let end = start + len as usize;
    let mut payload: Vec<u8> = Vec::new();
    let mut i: usize = start;
    while i < end
        invariant
            start <= i <= end,
            end <= reader.bytes@.len(),
            payload@ == reader.bytes@.subrange(start as int, i as int),
        decreases end - i,
    {
        payload.push(reader.bytes[i]);
        i = i + 1;
        assert(payload@ =~= reader.bytes@.subrange(start as int, i as int));
    }
    reader.pos = end;
    assert(payload@ =~= rest.subrange(8, 8 + len));
    Ok(payload)
}

/// Frame round trip: reading the frame just written gives the payload back
/// and moves past it; every proper prefix of a frame reads as `Protocol`.
pub proof fn lemma_frame_roundtrip(payload: Seq<u8>, k: int)
    requires
        payload.len() <= MAX_FRAME_BYTES,
        0 <= k < 8 + payload.len(),
    ensures
        spec_read_frame(spec_write_frame(Seq::empty(), payload).0, 0) == (
            Ok::<Seq<u8>, IpcError>(payload),
            8 + payload.len() as int,
        ),
        spec_read_frame(spec_write_frame(Seq::empty(), payload).0.take(k), 0).0 == Err::<
            Seq<u8>,
            IpcError,
        >(IpcError::Protocol),
{
    let n = payload.len() as u64;
    lemma_be_roundtrip(n);
    let f = spec_write_frame(Seq::empty(), payload).0;
    assert(f =~= be_bytes(n) + payload);
    assert(f.skip(0) =~= f);
    assert(f.subrange(8, 8 + n) =~= payload);
    let t = f.take(k);
    assert(t.skip(0) =~= t);
    if k >= 8 {
        assert(be_prefix(t) == be_prefix(f));
    }
}

} // verus!
