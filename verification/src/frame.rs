//! WebSocket frame headers (RFC 6455, section 5.2): reading a header from
//! bytes and masking payloads.

use vstd::prelude::*;

verus! {

/// Bit of the first header byte that marks the final fragment of a message.
pub const FIN: u8 = 0x80;
/// Bit of the first header byte reserved for the first extension.
pub const RSV_1: u8 = 0x40;
/// Bit of the first header byte reserved for the second extension.
pub const RSV_2: u8 = 0x20;
/// Bit of the first header byte reserved for the third extension.
pub const RSV_3: u8 = 0x10;
/// Bit of the codec flags that is set when this endpoint is the server.
pub const ROLE: u8 = 0x01;

/// The operation of a frame.
#[derive(Debug, Clone, Copy, PartialEq, Eq, Structural)]
pub enum OpCode {
    Continuation,
    Text,
    Binary,
    Close,
    Ping,
    Pong,
}

/// The operation denoted by an opcode, if it is not reserved.
pub open spec fn spec_opcode(code: u8) -> Option<OpCode> {
    if code == 0 {
        Some(OpCode::Continuation)
    } else if code == 1 {
        Some(OpCode::Text)
    } else if code == 2 {
        Some(OpCode::Binary)
    } else if code == 8 {
        Some(OpCode::Close)
    } else if code == 9 {
        Some(OpCode::Ping)
    } else if code == 10 {
        Some(OpCode::Pong)
    } else {
        None
    }
}

impl OpCode {
    /// The operation of an opcode; reserved opcodes are refused.
    pub fn try_from_u8(code: u8) -> (res: Result<OpCode, ProtocolError>)
        ensures
            match spec_opcode(code) {
                Some(op) => res == Ok::<OpCode, ProtocolError>(op),
                None => res == Err::<OpCode, ProtocolError>(ProtocolError::OpCode(code)),
            },
    {
        match code {
            0 => Ok(OpCode::Continuation),
            1 => Ok(OpCode::Text),
            2 => Ok(OpCode::Binary),
            8 => Ok(OpCode::Close),
            9 => Ok(OpCode::Ping),
            10 => Ok(OpCode::Pong),
            _ => Err(ProtocolError::OpCode(code)),
        }
    }

    /// Whether the operation is a control operation.
    pub fn is_control(&self) -> (res: bool)
        ensures
            res == (*self is Close || *self is Ping || *self is Pong),
    {
        matches!(self, OpCode::Close | OpCode::Ping | OpCode::Pong)
    }
}

/// The flags of the first header byte: `FIN` and the three reserved bits.
#[derive(Debug, Clone, Copy, PartialEq, Eq, Structural)]
pub struct HeaderFlags {
    pub bits: u8,
}

impl HeaderFlags {
    /// The flags of a byte, without its opcode bits.
    pub fn from_bits_truncate(byte: u8) -> (res: HeaderFlags)
        ensures
            res.bits == byte & 0xF0,
    {
        HeaderFlags { bits: byte & 0xF0 }
    }

    /// Whether the frame is the final fragment of its message.
    pub fn is_fin(&self) -> (res: bool)
        ensures
            res == (self.bits & FIN != 0),
    {
        self.bits & FIN != 0
    }
}

/// The flags of a codec: the negotiated extension bits (at the positions of
/// the reserved header bits) and the role bit.
#[derive(Debug, Clone, Copy, PartialEq, Eq, Structural)]
pub struct CodecFlags {
    pub bits: u8,
}

impl CodecFlags {
    /// Whether the codec acts as the server.
    pub fn is_server(&self) -> (res: bool)
        ensures
            res == (self.bits & ROLE != 0),
    {
        self.bits & ROLE != 0
    }
}

/// Violations of the protocol found while reading a header.
#[derive(Debug, Clone, Copy, PartialEq, Eq, Structural)]
pub enum ProtocolError {
    /// A control frame was fragmented.
    FragmentedControl,
    /// A reserved bit was set that no extension negotiated.
    UnknownExtension,
    /// A client sent an unmasked frame.
    UnmaskedFrame,
    /// A server sent a masked frame.
    MaskedFrame,
    /// The payload is longer than allowed.
    FrameOverflow,
    /// A reserved opcode.
    OpCode(u8),
}

/// The header of a frame.
#[derive(Debug, Clone, PartialEq, Eq, Structural)]
pub struct FrameHeader {
    pub opcode: OpCode,
    pub flags: HeaderFlags,
    pub mask: Option<u32>,
}

/// The outcome of reading a header: the header, the offset of the payload and
/// the payload's length; or the number of bytes still missing.
#[derive(Debug, Clone, PartialEq, Eq, Structural)]
pub enum HeaderRead {
    Complete(FrameHeader, usize, usize),
    Incomplete(usize),
}

/// The big-endian value of a sequence of bytes.
pub open spec fn be_value(s: Seq<u8>) -> nat
    decreases s.len(),
{
    if s.len() == 0 {
        0
    } else {
        be_value(s.drop_last()) * 256 + s.last() as nat
    }
}

/// 256 to the power `n`.
pub open spec fn pow256(n: nat) -> nat
    decreases n,
{
    if n == 0 {
        1
    } else {
        256 * pow256((n - 1) as nat)
    }
}

proof fn lemma_be_step(x: nat, p: nat, b: nat)
    by (nonlinear_arith)
    requires
        x < p,
        b < 256,
    ensures
        x * 256 + b < 256 * p,
{
}

/// The value of `n` bytes is less than `256^n`.
proof fn lemma_be_bound(s: Seq<u8>)
    ensures
        be_value(s) < pow256(s.len()),
    decreases s.len(),
{
    if s.len() > 0 {
        lemma_be_bound(s.drop_last());
        lemma_be_step(be_value(s.drop_last()), pow256((s.len() - 1) as nat), s.last() as nat);
    }
}

/// Reads `width` bytes at `offset` as a big-endian integer.
fn read_be(source: &[u8], offset: usize, width: usize) -> (res: u64)
    requires
        width <= 8,
        offset + width <= source@.len(),
    ensures
        res == be_value(source@.subrange(offset as int, offset + width)),
{
    let mut acc: u64 = 0;
    let mut i: usize = 0;
    let len = source.len();
    proof {
        assert(pow256(8) == 0x1_0000_0000_0000_0000) by {
            reveal_with_fuel(pow256, 9);
        }
    }
    while i < width
        invariant
            width <= 8,
            offset + width <= source@.len(),
            len == source@.len(),
            i <= width,
            acc == be_value(source@.subrange(offset as int, offset + i)),
            pow256(8) == 0x1_0000_0000_0000_0000,
        decreases width - i,
    {
        let ghost prefix = source@.subrange(offset as int, offset + i);
        let ghost next = source@.subrange(offset as int, offset + i + 1);
        proof {
            assert(next.drop_last() =~= prefix);
            lemma_be_bound(next);
            lemma_pow_mono(next.len(), 8);
            assert(next.last() == source@[offset + i]);
            assert(be_value(next) == acc * 256 + source@[offset + i]);
        }
        acc = acc * 256 + source[offset + i] as u64;
        i += 1;
    }
    acc
}

proof fn lemma_pow_mono(a: nat, b: nat)
    requires
        a <= b,
    ensures
        pow256(a) <= pow256(b),
    decreases b,
{
    if a < b {
        lemma_pow_mono(a, (b - 1) as nat);
    }
}


/// Whether an operation is a control operation.
pub open spec fn spec_is_control(op: OpCode) -> bool {
    op is Close || op is Ping || op is Pong
}

/// The end of reading a header once the payload length is known at
/// `offset`: the length is checked against the limit, then the mask, when the
/// frame is masked, is read.
pub open spec fn spec_finish_header(
    source: Seq<u8>,
    op: OpCode,
    flags: u8,
    masked: bool,
    offset: int,
    length: usize,
    max_size: usize,
) -> Result<HeaderRead, ProtocolError> {
    if length > max_size {
        Err(ProtocolError::FrameOverflow)
    } else if masked {
        if source.len() < offset + 4 {
            Ok(HeaderRead::Incomplete((offset + 4 - source.len()) as usize))
        } else {
            Ok(HeaderRead::Complete(
                FrameHeader {
                    opcode: op,
                    flags: HeaderFlags { bits: flags },
                    mask: Some(be_value(source.subrange(offset, offset + 4)) as u32),
                },
                (offset + 4) as usize,
                length,
            ))
        }
    } else {
        Ok(HeaderRead::Complete(
            FrameHeader { opcode: op, flags: HeaderFlags { bits: flags }, mask: None },
            offset as usize,
            length,
        ))
    }
}

/// What reading a frame header from `source` gives (RFC 6455, 5.2): the
/// number of missing bytes while the header is incomplete; an error for a
/// reserved opcode, a fragmented control frame, an unnegotiated reserved bit,
/// a masking that does not fit the role, or a payload over the limit;
/// otherwise the header, the offset of the payload and its length.
pub open spec fn spec_read_header(source: Seq<u8>, codec: u8, max_size: usize) -> Result<HeaderRead, ProtocolError> {
    if source.len() < 2 {
        Ok(HeaderRead::Incomplete((2 - source.len()) as usize))
    } else {
        let first = source[0];
        let flags = first & 0xF0;
        match spec_opcode(first & 0xF) {
            None => Err(ProtocolError::OpCode(first & 0xF)),
            Some(op) => if spec_is_control(op) && flags & FIN == 0 {
                Err(ProtocolError::FragmentedControl)
            } else if flags & !codec & 0x70 != 0 {
                Err(ProtocolError::UnknownExtension)
            } else {
                let second = source[1];
                let masked = second & 0x80 != 0;
                let server = codec & ROLE != 0;
                if !masked && server {
                    Err(ProtocolError::UnmaskedFrame)
                } else if masked && !server {
                    Err(ProtocolError::MaskedFrame)
                } else {
                    let payload_length = second & 0x7F;
                    if payload_length == 126 {
                        if source.len() < 4 {
                            Ok(HeaderRead::Incomplete((4 - source.len()) as usize))
                        } else {
                            spec_finish_header(source, op, flags, masked, 4,
                                be_value(source.subrange(2, 4)) as usize, max_size)
                        }
                    } else if payload_length == 127 {
                        if source.len() < 10 {
                            Ok(HeaderRead::Incomplete((10 - source.len()) as usize))
                        } else {
                            spec_finish_header(source, op, flags, masked, 10,
                                be_value(source.subrange(2, 10)) as u64 as usize, max_size)
                        }
                    } else {
                        spec_finish_header(source, op, flags, masked, 2, payload_length as usize, max_size)
                    }
                }
            },
        }
    }
}

/// Once the bytes of a header are there, reading it gives the same result
/// however many bytes follow: a complete header, or an error, read from a
/// buffer is what is read from any longer buffer that starts with it.
pub proof fn header_read_ignores_following_bytes(s: Seq<u8>, t: Seq<u8>, codec: u8, max_size: usize)
    requires
        !(spec_read_header(s, codec, max_size) matches Ok(HeaderRead::Incomplete(_))),
    ensures
        spec_read_header(s + t, codec, max_size) == spec_read_header(s, codec, max_size),
{
    let u = s + t;
    if s.len() >= 2 {
        assert(u[0] == s[0]);
        assert(u[1] == s[1]);
        if s.len() >= 4 {
            assert(u.subrange(2, 4) =~= s.subrange(2, 4));
        }
        if s.len() >= 6 {
            assert(u.subrange(2, 6) =~= s.subrange(2, 6));
        }
        if s.len() >= 8 {
            assert(u.subrange(4, 8) =~= s.subrange(4, 8));
        }
        if s.len() >= 10 {
            assert(u.subrange(2, 10) =~= s.subrange(2, 10));
        }
        if s.len() >= 14 {
            assert(u.subrange(10, 14) =~= s.subrange(10, 14));
        }
    }
}

/// The number of bytes of the extended payload length that follow the first
/// two bytes of a header, by its second byte: 2 for the length code 126, 8
/// for 127, none otherwise.
pub open spec fn extended_length_bytes(second: u8) -> int {
    if second & 0x7F == 126 {
        2
    } else if second & 0x7F == 127 {
        8
    } else {
        0
    }
}

/// The layout of a header that reads complete (RFC 6455, 5.2): the opcode
/// and flags come from the first byte; the payload length is the 7-bit
/// length or, for the codes 126 and 127, the big-endian 16 or 64 bits after
/// the first two bytes, and it is within the limit; a frame is masked exactly
/// when the codec is the server's, and then its mask is the big-endian value
/// of the 4 bytes after the length; the payload starts after all of these.
pub proof fn complete_header_layout(
    source: Seq<u8>,
    codec: u8,
    max_size: usize,
    h: FrameHeader,
    offset: usize,
    length: usize,
)
    requires
        spec_read_header(source, codec, max_size) == Ok::<HeaderRead, ProtocolError>(HeaderRead::Complete(h, offset, length)),
    ensures
        source.len() >= 2,
        spec_opcode(source[0] & 0xF) == Some(h.opcode),
        h.flags.bits == source[0] & 0xF0,
        (source[1] & 0x80 != 0) == (codec & ROLE != 0),
        offset == 2 + extended_length_bytes(source[1]) + (if source[1] & 0x80 != 0 { 4int } else { 0int }),
        offset <= source.len(),
        source[1] & 0x80 != 0 ==> h.mask == Some(be_value(source.subrange(offset - 4, offset as int)) as u32),
        source[1] & 0x80 == 0 ==> h.mask is None,
        extended_length_bytes(source[1]) == 0 ==> length == source[1] & 0x7F,
        extended_length_bytes(source[1]) == 2 ==> length == be_value(source.subrange(2, 4)),
        extended_length_bytes(source[1]) == 8 ==> length == be_value(source.subrange(2, 10)) as u64 as usize,
        length <= max_size,
{
    if source.len() >= 4 {
        lemma_be_bound(source.subrange(2, 4));
        assert(pow256(2) == 0x1_0000) by {
            reveal_with_fuel(pow256, 3);
        }
    }
}

/// A header that reads incomplete is missing bytes of the field that is due
/// next: of the first two bytes, of the extended payload length, or of the
/// mask; the count is what that field still lacks.
pub proof fn incomplete_header_missing_bytes(source: Seq<u8>, codec: u8, max_size: usize, n: usize)
    requires
        spec_read_header(source, codec, max_size) == Ok::<HeaderRead, ProtocolError>(HeaderRead::Incomplete(n)),
    ensures
        n > 0,
        source.len() < 2 ==> n == 2 - source.len(),
        source.len() >= 2 ==> {
            let w = extended_length_bytes(source[1]);
            ||| source.len() < 2 + w && n == 2 + w - source.len()
            ||| source.len() >= 2 + w && source[1] & 0x80 != 0 && n == 6 + w - source.len()
        },
{
}

impl FrameHeader {
    /// Reads the mask, if any, after the payload length.
    fn finish(
        source: &[u8],
        opcode: OpCode,
        flags: HeaderFlags,
        masked: bool,
        offset: usize,
        length: usize,
        max_size: usize,
    ) -> (res: Result<HeaderRead, ProtocolError>)
        requires
            offset <= source@.len(),
            offset <= 10,
        ensures
            res == spec_finish_header(source@, opcode, flags.bits, masked, offset as int, length, max_size),
    {
        let source_length = source.len();
        if length > max_size {
            return Err(ProtocolError::FrameOverflow);
        }
        let mask = if masked {
            if source_length < offset + 4 {
                return Ok(HeaderRead::Incomplete(offset + 4 - source_length));
            }
            let m = read_be(source, offset, 4);
            proof {
                lemma_be_bound(source@.subrange(offset as int, offset + 4));
                assert(pow256(4) == 0x1_0000_0000) by {
                    reveal_with_fuel(pow256, 5);
                }
            }
            Some(m as u32)
        } else {
            None
        };
        let offset = if masked { offset + 4 } else { offset };
        Ok(HeaderRead::Complete(FrameHeader { opcode, flags, mask }, offset, length))
    }

    /// Reads a frame header from the start of `source`, for a codec with the
    /// given flags and a limit on the payload length.
    pub fn read_from(source: &[u8], codec_flags: &CodecFlags, max_size: usize) -> (res: Result<HeaderRead, ProtocolError>)
        ensures
            res == spec_read_header(source@, codec_flags.bits, max_size),
    {
        let source_length = source.len();
        if source_length < 2 {
            return Ok(HeaderRead::Incomplete(2 - source_length));
        }
        let server = codec_flags.is_server();
        let first = source[0];
        let received_flags = HeaderFlags::from_bits_truncate(first);
        let opcode = match OpCode::try_from_u8(first & 0xF) {
            Ok(op) => op,
            Err(e) => {
                return Err(e);
            },
        };
        if opcode.is_control() && !received_flags.is_fin() {
            return Err(ProtocolError::FragmentedControl);
        }
        if (received_flags.bits & !codec_flags.bits & 0x70) != 0 {
            return Err(ProtocolError::UnknownExtension);
        }
        let second = source[1];
        let masked = second & 0x80 != 0;
        if !masked && server {
            return Err(ProtocolError::UnmaskedFrame);
        } else if masked && !server {
            return Err(ProtocolError::MaskedFrame);
        }
        let payload_length = second & 0x7F;
        if payload_length == 126 {
            if source_length < 4 {
                return Ok(HeaderRead::Incomplete(4 - source_length));
            }
            let length = read_be(source, 2, 2);
            proof {
                lemma_be_bound(source@.subrange(2, 4));
                assert(pow256(2) == 0x1_0000) by {
                    reveal_with_fuel(pow256, 3);
                }
            }
            Self::finish(source, opcode, received_flags, masked, 4, length as usize, max_size)
        } else if payload_length == 127 {
            if source_length < 10 {
                return Ok(HeaderRead::Incomplete(10 - source_length));
            }
            let length = read_be(source, 2, 8);
            Self::finish(source, opcode, received_flags, masked, 10, length as usize, max_size)
        } else {
            Self::finish(source, opcode, received_flags, masked, 2, payload_length as usize, max_size)
        }
    }
}

/// The `i`-th byte, counting from the most significant, of a mask.
pub open spec fn mask_byte(mask: u32, i: int) -> u8 {
    if i == 0 {
        (mask >> 24u32) as u8
    } else if i == 1 {
        ((mask >> 16u32) & 0xff) as u8
    } else if i == 2 {
        ((mask >> 8u32) & 0xff) as u8
    } else {
        (mask & 0xff) as u8
    }
}

/// The bytes of a mask, most significant first.
fn mask_bytes(mask: u32) -> (res: [u8; 4])
    ensures
        forall|i: int| 0 <= i < 4 ==> #[trigger] res@[i] == mask_byte(mask, i),
{
    let b0 = (mask >> 24u32) as u8;
    let b1 = ((mask >> 16u32) & 0xff) as u8;
    let b2 = ((mask >> 8u32) & 0xff) as u8;
    let b3 = (mask & 0xff) as u8;
    [b0, b1, b2, b3]
}

/// A payload masked (or unmasked): each byte XORed with the byte of the mask
/// at its position modulo four.
pub open spec fn masked(data: Seq<u8>, mask: u32) -> Seq<u8> {
    Seq::new(data.len(), |i: int| data[i] ^ mask_byte(mask, i % 4))
}

/// Masking is its own inverse: a payload masked twice with the same mask is
/// the payload it was.
pub proof fn masking_twice_restores(data: Seq<u8>, mask: u32)
    ensures
        masked(masked(data, mask), mask) == data,
{
    assert forall|i: int| 0 <= i < data.len() implies #[trigger] masked(masked(data, mask), mask)[i] == data[i] by {
        let b = data[i];
        let m = mask_byte(mask, i % 4);
        assert((b ^ m) ^ m == b) by (bit_vector);
    }
    assert(masked(masked(data, mask), mask) =~= data);
}

/// Masks (or unmasks) a payload: each byte is XORed with the byte of the mask
/// at its position modulo four, the mask read big-endian.
pub fn apply_mask(mask: u32, bytes: &mut [u8])
    ensures
        final(bytes)@ == masked(old(bytes)@, mask),
        forall|i: int| 0 <= i < old(bytes)@.len() ==>
            #[trigger] final(bytes)@[i] == old(bytes)@[i] ^ mask_byte(mask, i % 4),
{
    let m = mask_bytes(mask);
    let n = bytes.len();
    let mut i: usize = 0;
    while i < n
        invariant
            n == bytes@.len(),
            bytes@.len() == old(bytes)@.len(),
            i <= n,
            forall|j: int| 0 <= j < 4 ==> #[trigger] m@[j] == mask_byte(mask, j),
            forall|j: int| 0 <= j < i ==> #[trigger] bytes@[j] == old(bytes)@[j] ^ mask_byte(mask, j % 4),
            forall|j: int| i <= j < n ==> #[trigger] bytes@[j] == old(bytes)@[j],
        decreases n - i,
    {
        let k = i & 0x3;
        assert(k == i % 4) by (bit_vector)
            requires
                k == i & 0x3;
        let b = bytes[i] ^ m[k];
        bytes[i] = b;
        i += 1;
    }
    assert(bytes@ =~= masked(old(bytes)@, mask));
}

} // verus!
