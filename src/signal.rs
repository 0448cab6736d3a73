//! Signaling PDUs of the classic signaling channel: the command table, the
//! byte layout of a PDU, and its encoder and decoder.
//!
//! A PDU is `code, identifier, length (2 bytes), fixed fields, options`, where
//! every multi-byte field is little-endian, the fixed fields are 16-bit words
//! whose number depends on the command, and `length` counts every byte after
//! the 4-byte header.

use vstd::prelude::*;

verus! {

/// Size of the PDU header: code, identifier and the 2-byte data length.
pub const HEADER_LEN: usize = 4;

/// Capacity of the buffer a PDU is built in: the largest PDU the encoder emits.
pub const SIGNAL_MTU: usize = 200;

/// A signaling command, named by its opcode on the wire.
#[derive(Debug, Clone, Copy, PartialEq, Eq, Structural)]
pub enum SignalingCommand {
    CommandRejectRsp,
    ConnectionReq,
    ConnectionRsp,
    ConfigurationReq,
    ConfigurationRsp,
    DisconnectionReq,
    DisconnectionRsp,
    EchoReq,
    EchoRsp,
    InformationReq,
    InformationRsp,
    ConnectionParameterUpdateReq,
    ConnectionParameterUpdateRsp,
    LeCreditBasedConnectionReq,
    LeCreditBasedConnectionRsp,
    FlowControlCreditInd,
    CreditBasedConnectionReq,
    CreditBasedConnectionRsp,
    CreditBasedReconnectionReq,
    CreditBasedReconnectionRsp,
}

/// The opcode of a command on the wire.
pub open spec fn command_code(c: SignalingCommand) -> u8 {
    match c {
        SignalingCommand::CommandRejectRsp => 0x01,
        SignalingCommand::ConnectionReq => 0x02,
        SignalingCommand::ConnectionRsp => 0x03,
        SignalingCommand::ConfigurationReq => 0x04,
        SignalingCommand::ConfigurationRsp => 0x05,
        SignalingCommand::DisconnectionReq => 0x06,
        SignalingCommand::DisconnectionRsp => 0x07,
        SignalingCommand::EchoReq => 0x08,
        SignalingCommand::EchoRsp => 0x09,
        SignalingCommand::InformationReq => 0x0a,
        SignalingCommand::InformationRsp => 0x0b,
        SignalingCommand::ConnectionParameterUpdateReq => 0x12,
        SignalingCommand::ConnectionParameterUpdateRsp => 0x13,
        SignalingCommand::LeCreditBasedConnectionReq => 0x14,
        SignalingCommand::LeCreditBasedConnectionRsp => 0x15,
        SignalingCommand::FlowControlCreditInd => 0x16,
        SignalingCommand::CreditBasedConnectionReq => 0x17,
        SignalingCommand::CreditBasedConnectionRsp => 0x18,
        SignalingCommand::CreditBasedReconnectionReq => 0x19,
        SignalingCommand::CreditBasedReconnectionRsp => 0x1a,
    }
}

/// The command whose opcode is `b`, if any.
pub open spec fn command_of_code(b: u8) -> Option<SignalingCommand> {
    if exists|c: SignalingCommand| command_code(c) == b {
        Some(choose|c: SignalingCommand| command_code(c) == b)
    } else {
        None
    }
}

/// Number of 16-bit fixed fields that a command carries before its options.
pub open spec fn fixed_word_count(c: SignalingCommand) -> nat {
    match c {
        SignalingCommand::CommandRejectRsp => 1,
        SignalingCommand::ConnectionReq => 2,
        SignalingCommand::ConnectionRsp => 2,
        SignalingCommand::ConfigurationReq => 2,
        SignalingCommand::ConfigurationRsp => 3,
        SignalingCommand::DisconnectionReq => 2,
        SignalingCommand::DisconnectionRsp => 2,
        SignalingCommand::ConnectionParameterUpdateReq => 4,
        _ => 0,
    }
}

/// The low byte of `v`.
pub open spec fn low_byte(v: u16) -> u8 {
    (v % 256) as u8
}

/// The high byte of `v`.
pub open spec fn high_byte(v: u16) -> u8 {
    (v / 256) as u8
}

/// The 16-bit value whose little-endian bytes are `lo`, `hi`.
pub open spec fn u16_of(lo: u8, hi: u8) -> u16 {
    (lo + hi * 256) as u16
}

/// The little-endian bytes of a sequence of 16-bit words.
pub open spec fn words_bytes(w: Seq<u16>) -> Seq<u8> {
    Seq::new(
        2 * w.len(),
        |i: int|
            if i % 2 == 0 {
                low_byte(w[i / 2])
            } else {
                high_byte(w[i / 2])
            },
    )
}

/// The PDU with opcode `code`, identifier `id`, fixed fields `words` and
/// option bytes `options`.
pub open spec fn pdu_bytes(code: u8, id: u8, words: Seq<u16>, options: Seq<u8>) -> Seq<u8> {
    let len = (2 * words.len() + options.len()) as u16;
    seq![code, id, low_byte(len), high_byte(len)] + words_bytes(words) + options
}

/// Whether a PDU with `n_words` fixed fields and `n_options` option bytes fits
/// the signaling buffer.
pub open spec fn fits_mtu(n_words: nat, n_options: nat) -> bool {
    HEADER_LEN + 2 * n_words + n_options <= SIGNAL_MTU
}

/// What a decoded PDU holds.
pub struct SignalView {
    pub command: SignalingCommand,
    pub id: u8,
    pub fields: Seq<u16>,
    pub options: Seq<u8>,
}

/// A decoded signaling PDU.
#[derive(Debug)]
pub struct Signal {
    pub command: SignalingCommand,
    pub id: u8,
    /// The command's fixed fields, in order.
    pub fields: Vec<u16>,
    /// The bytes that follow the fixed fields.
    pub options: Vec<u8>,
}

impl View for Signal {
    type V = SignalView;

    open spec fn view(&self) -> SignalView {
        SignalView {
            command: self.command,
            id: self.id,
            fields: self.fields@,
            options: self.options@,
        }
    }
}

/// Why a PDU could not be encoded.
#[derive(Debug, Clone, Copy, PartialEq, Eq, Structural)]
pub enum EncodeError {
    /// The fixed fields and options do not fit the signaling buffer.
    MtuExceeded,
}

/// Why a received PDU could not be decoded.
#[derive(Debug, Clone, Copy, PartialEq, Eq, Structural)]
pub enum DecodeError {
    /// Fewer bytes than the header.
    TooShort,
    /// The data length field does not match the bytes after the header.
    LengthMismatch,
    /// The identifier is 0, which is never assigned.
    ZeroIdentifier,
    /// The opcode names no known command.
    UnknownCommand { code: u8, id: u8 },
    /// Fewer bytes than the command's fixed fields.
    MissingFields,
}

/// The fixed fields of a command in `b`, which starts with a 4-byte header.
pub open spec fn fields_at(b: Seq<u8>, n: nat) -> Seq<u16> {
    Seq::new(n, |i: int| u16_of(b[HEADER_LEN + 2 * i], b[HEADER_LEN + 2 * i + 1]))
}

/// What decoding the bytes `b` yields.
pub open spec fn decode_spec(b: Seq<u8>) -> Result<SignalView, DecodeError> {
    if b.len() < HEADER_LEN {
        Err(DecodeError::TooShort)
    } else if u16_of(b[2], b[3]) != b.len() - HEADER_LEN {
        Err(DecodeError::LengthMismatch)
    } else if b[1] == 0 {
        Err(DecodeError::ZeroIdentifier)
    } else {
        match command_of_code(b[0]) {
            None => Err(DecodeError::UnknownCommand { code: b[0], id: b[1] }),
            Some(c) => {
                let n = fixed_word_count(c);
                if b.len() < HEADER_LEN + 2 * n {
                    Err(DecodeError::MissingFields)
                } else {
                    Ok(
                        SignalView {
                            command: c,
                            id: b[1],
                            fields: fields_at(b, n),
                            options: b.subrange(HEADER_LEN + 2 * n, b.len() as int),
                        },
                    )
                }
            },
        }
    }
}

/// Distinct commands have distinct opcodes, so the opcode names its command.
pub proof fn lemma_command_code_names(c: SignalingCommand)
    ensures
        command_of_code(command_code(c)) == Some(c),
{
    assert forall|d: SignalingCommand| command_code(d) == command_code(c) implies d == c by {
        match d {
            _ => {},
        }
    }
}

/// Writing a 16-bit value as two little-endian bytes and reading it back
/// gives the value again.
pub proof fn lemma_u16_le_round_trip(v: u16)
    ensures
        u16_of(low_byte(v), high_byte(v)) == v,
{
}

/// Decoding an encoded PDU gives back its command, identifier, fixed fields
/// and options, for every command whose fixed fields are given in full and
/// every PDU that fits the signaling buffer.
pub proof fn lemma_decode_encode(
    c: SignalingCommand,
    id: u8,
    words: Seq<u16>,
    options: Seq<u8>,
)
    requires
        id != 0,
        words.len() == fixed_word_count(c),
        fits_mtu(words.len(), options.len()),
    ensures
        decode_spec(pdu_bytes(command_code(c), id, words, options)) == Ok::<SignalView, DecodeError>(
            SignalView { command: c, id, fields: words, options },
        ),
{
    let b = pdu_bytes(command_code(c), id, words, options);
    let n = words.len();
    let len = (2 * n + options.len()) as u16;
    lemma_command_code_names(c);
    lemma_u16_le_round_trip(len);
    assert(b[2] == low_byte(len) && b[3] == high_byte(len));
    assert forall|i: int| 0 <= i < n implies #[trigger] fields_at(b, n)[i] == words[i] by {
        assert(b[HEADER_LEN + 2 * i] == words_bytes(words)[2 * i]);
        assert(b[HEADER_LEN + 2 * i + 1] == words_bytes(words)[2 * i + 1]);
        lemma_u16_le_round_trip(words[i]);
    }
    assert(fields_at(b, n) =~= words);
    assert(b.subrange(HEADER_LEN + 2 * n, b.len() as int) =~= options);
}

/// Appends the little-endian bytes of `v` to `out`.
pub fn push_u16_le(out: &mut Vec<u8>, v: u16)
    ensures
        final(out)@ == old(out)@ + seq![low_byte(v), high_byte(v)],
{
    out.push((v % 256) as u8);
    out.push((v / 256) as u8);
}

/// Reads the 16-bit value stored little-endian in the first two bytes of `a`.
pub fn get_u16_le(a: &[u8]) -> (r: u16)
    requires
        a@.len() >= 2,
    ensures
        r == u16_of(a@[0], a@[1]),
{
    a[0] as u16 + (a[1] as u16) * 256
}

/// Builds the PDU for `cmd` with identifier `id`, fixed fields `words` and
/// trailing `options`; fails, rather than truncating, when it would not fit
/// the signaling buffer.
pub fn encode_signal(cmd: SignalingCommand, id: u8, words: &[u16], options: &[u8]) -> (r: Result<
    Vec<u8>,
    EncodeError,
>)
    ensures
        r is Err <==> !fits_mtu(words@.len(), options@.len()),
        r is Err ==> r == Err::<Vec<u8>, EncodeError>(EncodeError::MtuExceeded),
        r matches Ok(b) ==> b@ == pdu_bytes(command_code(cmd), id, words@, options@),
{
    if words.len() > (SIGNAL_MTU - HEADER_LEN) / 2 || options.len() > SIGNAL_MTU - HEADER_LEN - 2
        * words.len() {
        return Err(EncodeError::MtuExceeded);
    }
    let len: u16 = (2 * words.len() + options.len()) as u16;
    let mut out: Vec<u8> = Vec::new();
    out.push(cmd.code());
    out.push(id);
    push_u16_le(&mut out, len);
    let ghost header = out@;
    let mut i: usize = 0;
    while i < words.len()
        invariant
            i <= words@.len(),
            out@ == header + words_bytes(words@.subrange(0, i as int)),
        decreases words@.len() - i,
    {
        let ghost before = out@;
        push_u16_le(&mut out, words[i]);
        assert(words_bytes(words@.subrange(0, i + 1)) =~= words_bytes(words@.subrange(0, i as int))
            + seq![low_byte(words@[i as int]), high_byte(words@[i as int])]);
        i = i + 1;
    }
    assert(words@.subrange(0, words@.len() as int) =~= words@);
    let ghost with_words = out@;
    let mut j: usize = 0;
    while j < options.len()
        invariant
            j <= options@.len(),
            out@ == with_words + options@.subrange(0, j as int),
        decreases options@.len() - j,
    {
        out.push(options[j]);
        assert(options@.subrange(0, j + 1) =~= options@.subrange(0, j as int) + seq![options@[j as int]]);
        j = j + 1;
    }
    assert(options@.subrange(0, options@.len() as int) =~= options@);
    assert(out@ =~= pdu_bytes(command_code(cmd), id, words@, options@));
    Ok(out)
}

/// Parses a received PDU: checks the header, looks up the opcode, and splits
/// the data into the command's fixed fields and its option bytes.
pub fn decode_signal(bytes: &[u8]) -> (r: Result<Signal, DecodeError>)
    ensures
        match r {
            Ok(s) => decode_spec(bytes@) == Ok::<SignalView, DecodeError>(s@),
            Err(e) => decode_spec(bytes@) == Err::<SignalView, DecodeError>(e),
        },
{
    if bytes.len() < HEADER_LEN {
        return Err(DecodeError::TooShort);
    }
    let len = get_u16_le(&bytes[2..4]) as usize;
    assert(bytes@.subrange(2, 4)[0] == bytes@[2] && bytes@.subrange(2, 4)[1] == bytes@[3]);
    if len != bytes.len() - HEADER_LEN {
        return Err(DecodeError::LengthMismatch);
    }
    let id = bytes[1];
    if id == 0 {
        return Err(DecodeError::ZeroIdentifier);
    }
    let command = match SignalingCommand::from_code(bytes[0]) {
        Some(c) => c,
        None => {
            return Err(DecodeError::UnknownCommand { code: bytes[0], id });
        },
    };
    let n = command.fixed_words();
    if bytes.len() < HEADER_LEN + 2 * n {
        return Err(DecodeError::MissingFields);
    }
    let mut fields: Vec<u16> = Vec::new();
    let mut i: usize = 0;
    while i < n
        invariant
            i <= n,
            n <= 4,
            HEADER_LEN + 2 * n <= bytes@.len(),
            fields@ =~= fields_at(bytes@, i as nat),
        decreases n - i,
    {
        let at = HEADER_LEN + 2 * i;
        fields.push(bytes[at] as u16 + (bytes[at + 1] as u16) * 256);
        i = i + 1;
    }
    let mut options: Vec<u8> = Vec::new();
    let start = HEADER_LEN + 2 * n;
    let mut j: usize = start;
    while j < bytes.len()
        invariant
            start <= j <= bytes@.len(),
            options@ =~= bytes@.subrange(start as int, j as int),
        decreases bytes@.len() - j,
    {
        options.push(bytes[j]);
        j = j + 1;
    }
    Ok(Signal { command, id, fields, options })
}

impl SignalingCommand {
    /// The opcode of this command on the wire.
    pub fn code(self) -> (r: u8)
        ensures
            r == command_code(self),
    {
        match self {
            SignalingCommand::CommandRejectRsp => 0x01,
            SignalingCommand::ConnectionReq => 0x02,
            SignalingCommand::ConnectionRsp => 0x03,
            SignalingCommand::ConfigurationReq => 0x04,
            SignalingCommand::ConfigurationRsp => 0x05,
            SignalingCommand::DisconnectionReq => 0x06,
            SignalingCommand::DisconnectionRsp => 0x07,
            SignalingCommand::EchoReq => 0x08,
            SignalingCommand::EchoRsp => 0x09,
            SignalingCommand::InformationReq => 0x0a,
            SignalingCommand::InformationRsp => 0x0b,
            SignalingCommand::ConnectionParameterUpdateReq => 0x12,
            SignalingCommand::ConnectionParameterUpdateRsp => 0x13,
            SignalingCommand::LeCreditBasedConnectionReq => 0x14,
            SignalingCommand::LeCreditBasedConnectionRsp => 0x15,
            SignalingCommand::FlowControlCreditInd => 0x16,
            SignalingCommand::CreditBasedConnectionReq => 0x17,
            SignalingCommand::CreditBasedConnectionRsp => 0x18,
            SignalingCommand::CreditBasedReconnectionReq => 0x19,
            SignalingCommand::CreditBasedReconnectionRsp => 0x1a,
        }
    }

    /// The command whose opcode is `b`, or `None` for an unknown opcode.
    pub fn from_code(b: u8) -> (r: Option<SignalingCommand>)
        ensures
            r == command_of_code(b),
    {
        let r = match b {
            0x01 => Some(SignalingCommand::CommandRejectRsp),
            0x02 => Some(SignalingCommand::ConnectionReq),
            0x03 => Some(SignalingCommand::ConnectionRsp),
            0x04 => Some(SignalingCommand::ConfigurationReq),
            0x05 => Some(SignalingCommand::ConfigurationRsp),
            0x06 => Some(SignalingCommand::DisconnectionReq),
            0x07 => Some(SignalingCommand::DisconnectionRsp),
            0x08 => Some(SignalingCommand::EchoReq),
            0x09 => Some(SignalingCommand::EchoRsp),
            0x0a => Some(SignalingCommand::InformationReq),
            0x0b => Some(SignalingCommand::InformationRsp),
            0x12 => Some(SignalingCommand::ConnectionParameterUpdateReq),
            0x13 => Some(SignalingCommand::ConnectionParameterUpdateRsp),
            0x14 => Some(SignalingCommand::LeCreditBasedConnectionReq),
            0x15 => Some(SignalingCommand::LeCreditBasedConnectionRsp),
            0x16 => Some(SignalingCommand::FlowControlCreditInd),
            0x17 => Some(SignalingCommand::CreditBasedConnectionReq),
            0x18 => Some(SignalingCommand::CreditBasedConnectionRsp),
            0x19 => Some(SignalingCommand::CreditBasedReconnectionReq),
            0x1a => Some(SignalingCommand::CreditBasedReconnectionRsp),
            _ => None,
        };
        proof {
            match r {
                Some(c) => lemma_command_code_names(c),
                None => {
                    assert forall|c: SignalingCommand| command_code(c) != b by {
                        match c {
                            _ => {},
                        }
                    }
                },
            }
        }
        r
    }

    /// Number of 16-bit fixed fields that this command carries.
    pub fn fixed_words(self) -> (r: usize)
        ensures
            r == fixed_word_count(self),
            r <= 4,
    {
        match self {
            SignalingCommand::CommandRejectRsp => 1,
            SignalingCommand::ConnectionReq => 2,
            SignalingCommand::ConnectionRsp => 2,
            SignalingCommand::ConfigurationReq => 2,
            SignalingCommand::ConfigurationRsp => 3,
            SignalingCommand::DisconnectionReq => 2,
            SignalingCommand::DisconnectionRsp => 2,
            SignalingCommand::ConnectionParameterUpdateReq => 4,
            _ => 0,
        }
    }
}

} // verus!
