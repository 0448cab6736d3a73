//! One L2CAP channel endpoint: its state, the PDUs it emits, and its
//! reactions to PDUs that the peer sends.
//!
//! The transport is reached through four operations. `request` and
//! `response` queue a PDU for transmission; the link layer collects the queue
//! with `take_sent`. `confirm` and `indication` bring the transport's
//! completions and the peer's PDUs in, and drive the state machine.

use vstd::prelude::*;
use vstd::slice::slice_to_vec;
use crate::ids::{AllocatorView, IdAllocator, cid_after, sig_id_after, DYNAMIC_CID_FIRST};
use crate::signal::{
    command_code, decode_signal, decode_spec, encode_signal, fits_mtu, fixed_word_count,
    lemma_decode_encode, pdu_bytes, u16_of, DecodeError, EncodeError, Signal, SignalView,
    SignalingCommand, HEADER_LEN, SIGNAL_MTU,
};

verus! {

/// MTU assumed for the peer until one is negotiated.
pub const L2CAP_DEFAULT_MTU: u16 = 625;

/// Extended features this entity supports: extended features request,
/// fixed channels and unicast connectionless data reception.
pub const EXTENDED_FEATURES: u32 = 0x280;

/// Extended-features bit that announces the fixed-channels information type.
pub const FIXED_CHANNELS_SUPPORTED: u32 = 0x0008;

/// Fixed CID of the classic signaling channel.
pub const SIGNALING_CID: u16 = 0x0001;

/// Fixed CID of the LE signaling channel.
pub const LE_SIGNALING_CID: u16 = 0x0005;

/// Result code of a successful connection or configuration.
pub const RESULT_SUCCESS: u16 = 0x0000;

/// Result code of a connection response that is still pending.
pub const RESULT_PENDING: u16 = 0x0001;

/// Reject reason: the command was not understood.
pub const REJECT_NOT_UNDERSTOOD: u16 = 0x0000;

/// The state of an L2CAP channel.
#[derive(Debug, PartialEq, Eq, Clone, Copy, Structural)]
pub enum State {
    Closed,
    WaitConnect,
    WaitConnectRsp,
    Config,
    WaitDisconnect,
    WillSendConnectReq,
    /// Configured in both directions: ready for data.
    Open,
}

impl State {
    /// The state's name, as shown in logs.
    pub fn name(self) -> &'static str {
        match self {
            State::Closed => "CLOSED",
            State::WaitConnect => "WaitConnect",
            State::WaitConnectRsp => "WaitConnectRsp",
            State::Config => "Config",
            State::WaitDisconnect => "WaitDisconnect",
            State::WillSendConnectReq => "WillSendConnectReq",
            State::Open => "Open",
        }
    }
}

/// Where the configuration exchange stands, while the state is `Config`.
#[derive(Debug, PartialEq, Eq, Clone, Copy, Structural)]
pub enum Substate {
    /// Neither side's configuration request has been exchanged.
    WaitConfig,
    /// The peer's request was answered; ours is still to be sent.
    WaitSendConfig,
    /// Ours was sent; its response and the peer's request are awaited.
    WaitConfigReqRsp,
    /// The peer's request was answered; the response to ours is awaited.
    WaitConfigRsp,
    /// Ours was accepted; the peer's request is awaited.
    WaitConfigReq,
    /// The final response of an extended flow-specification exchange is awaited.
    WaitIndFinalRsp,
}

/// Why a PDU delivered to a channel was refused.
#[derive(Debug, PartialEq, Eq, Clone, Copy, Structural)]
pub enum ChannelError {
    /// The bytes are not a well-formed signaling PDU.
    Malformed(DecodeError),
    /// The channel does not accept this command in its present state.
    UnexpectedSignal(SignalingCommand),
    /// The PDU names a CID that is not this channel's.
    WrongChannel,
    /// A connection response without its result and status; the channel closes.
    MalformedResponse,
}

/// The contents of a channel.
pub struct ChannelView {
    pub state: State,
    pub sub_state: Substate,
    pub addr: Seq<u8>,
    pub local_cid: u16,
    pub remote_cid: u16,
    pub local_mtu: u16,
    pub remote_mtu: u16,
    /// Identifier of the last request this channel sent.
    pub sig_seq_num: u8,
    pub psm: u16,
    pub le_interval_min: u16,
    pub le_interval_max: u16,
    pub le_latency: u16,
    pub le_timeout: u16,
    /// PDUs handed to the transport and not yet collected, oldest first.
    pub sent: Seq<Seq<u8>>,
}

impl ChannelView {
    /// The local CID is unassigned (0) or lies in the dynamic range.
    pub open spec fn wf(self) -> bool {
        self.local_cid == 0 || self.local_cid >= DYNAMIC_CID_FIRST
    }
}

/// A channel just created for `psm`, before anything was sent.
pub open spec fn initial_view(psm: u16) -> ChannelView {
    ChannelView {
        state: State::WillSendConnectReq,
        sub_state: Substate::WaitConfig,
        addr: seq![0u8, 0u8, 0u8, 0u8, 0u8, 0u8],
        local_cid: 0,
        remote_cid: 0,
        local_mtu: 0,
        remote_mtu: L2CAP_DEFAULT_MTU,
        sig_seq_num: 0,
        psm,
        le_interval_min: 0,
        le_interval_max: 0,
        le_latency: 0,
        le_timeout: 0,
        sent: seq![],
    }
}

/// Whether an information request may be sent from `local_cid`: never over the
/// LE signaling channel, and over the classic signaling channel only when the
/// fixed-channels bit of `features` is set.
pub open spec fn information_req_permitted_spec(local_cid: u16, features: u32) -> bool {
    &&& local_cid != LE_SIGNALING_CID
    &&& !(local_cid == SIGNALING_CID && features & FIXED_CHANNELS_SUPPORTED == 0)
}

/// Whether encoding `cmd` from a channel with `local_cid` is refused by policy.
pub open spec fn encode_gated(cmd: SignalingCommand, local_cid: u16) -> bool {
    cmd == SignalingCommand::InformationReq && !information_req_permitted_spec(
        local_cid,
        EXTENDED_FEATURES,
    )
}

/// The fixed fields of `cmd` as a channel in `v` writes them.
pub open spec fn fixed_fields(cmd: SignalingCommand, v: ChannelView) -> Seq<u16> {
    match cmd {
        SignalingCommand::CommandRejectRsp => seq![REJECT_NOT_UNDERSTOOD],
        SignalingCommand::ConnectionReq => seq![v.psm, v.local_cid],
        SignalingCommand::ConnectionRsp => seq![v.remote_cid, v.local_cid],
        SignalingCommand::ConfigurationReq => seq![v.remote_cid, 0u16],
        SignalingCommand::ConfigurationRsp => seq![v.local_cid, 0u16, RESULT_SUCCESS],
        SignalingCommand::DisconnectionReq => seq![v.remote_cid, v.local_cid],
        SignalingCommand::DisconnectionRsp => seq![v.remote_cid, v.local_cid],
        SignalingCommand::ConnectionParameterUpdateReq => seq![
            v.le_interval_min,
            v.le_interval_max,
            v.le_latency,
            v.le_timeout,
        ],
        _ => seq![],
    }
}

/// What encoding one PDU leaves behind: the channel, the allocator, and the
/// PDU (empty where policy drops it).
pub struct Emission {
    pub channel: ChannelView,
    pub ids: AllocatorView,
    pub pdu: Result<Seq<u8>, EncodeError>,
}

/// Encoding `cmd` with trailing `option` bytes from a channel in `v` with an
/// allocator in `ids`. A dropped or refused PDU changes nothing. Otherwise a
/// connection request first takes a fresh local CID, and every PDU takes a
/// fresh identifier.
pub open spec fn emit(v: ChannelView, ids: AllocatorView, cmd: SignalingCommand, option: Seq<u8>) -> Emission {
    if encode_gated(cmd, v.local_cid) {
        Emission { channel: v, ids, pdu: Ok(seq![]) }
    } else if !fits_mtu(fixed_word_count(cmd), option.len()) {
        Emission { channel: v, ids, pdu: Err(EncodeError::MtuExceeded) }
    } else {
        let is_connect = cmd == SignalingCommand::ConnectionReq;
        let cid = if is_connect { ids.next_cid } else { v.local_cid };
        let ids2 = AllocatorView {
            next_sig: sig_id_after(ids.next_sig),
            next_cid: if is_connect { cid_after(ids.next_cid) } else { ids.next_cid },
        };
        let v2 = ChannelView { local_cid: cid, sig_seq_num: ids.next_sig, ..v };
        Emission {
            channel: v2,
            ids: ids2,
            pdu: Ok(pdu_bytes(command_code(cmd), ids.next_sig, fixed_fields(cmd, v2), option)),
        }
    }
}

/// Encoding `cmd` and queueing the PDU for transmission, if one came out.
pub open spec fn transmit(v: ChannelView, ids: AllocatorView, cmd: SignalingCommand, option: Seq<u8>) -> (ChannelView, AllocatorView) {
    let e = emit(v, ids, cmd, option);
    match e.pdu {
        Ok(p) => if p.len() > 0 {
            (ChannelView { sent: e.channel.sent.push(p), ..e.channel }, e.ids)
        } else {
            (e.channel, e.ids)
        },
        Err(_) => (e.channel, e.ids),
    }
}

/// One pass of the dispatcher: a channel that still has to send its
/// connection request sends it; a channel in configuration that still has to
/// send its configuration request sends it; any other channel is left as it is.
pub open spec fn run_spec(v: ChannelView, ids: AllocatorView) -> (ChannelView, AllocatorView) {
    match v.state {
        State::WillSendConnectReq => transmit(
            ChannelView { state: State::WaitConnectRsp, ..v },
            ids,
            SignalingCommand::ConnectionReq,
            seq![],
        ),
        State::Config => if v.sub_state == Substate::WaitConfig {
            transmit(
                ChannelView { sub_state: Substate::WaitConfigReqRsp, ..v },
                ids,
                SignalingCommand::ConfigurationReq,
                seq![],
            )
        } else if v.sub_state == Substate::WaitSendConfig {
            transmit(
                ChannelView { sub_state: Substate::WaitConfigRsp, ..v },
                ids,
                SignalingCommand::ConfigurationReq,
                seq![],
            )
        } else {
            (v, ids)
        },
        _ => (v, ids),
    }
}

/// What a channel's reaction to a PDU leaves behind.
pub struct Reaction {
    pub channel: ChannelView,
    pub ids: AllocatorView,
    pub result: Result<(), ChannelError>,
}

/// A reaction that changes nothing and reports `e`.
pub open spec fn refused(v: ChannelView, ids: AllocatorView, e: ChannelError) -> Reaction {
    Reaction { channel: v, ids, result: Err(e) }
}

/// A reaction that leaves `v` and `ids` and succeeds.
pub open spec fn accepted(v: ChannelView, ids: AllocatorView) -> Reaction {
    Reaction { channel: v, ids, result: Ok(()) }
}

/// The reaction to a connection response whose fields are `s`.
pub open spec fn on_connection_rsp(v: ChannelView, ids: AllocatorView, s: SignalView) -> Reaction {
    if v.state != State::WaitConnectRsp {
        refused(v, ids, ChannelError::UnexpectedSignal(SignalingCommand::ConnectionRsp))
    } else if s.fields[1] != v.local_cid {
        refused(v, ids, ChannelError::WrongChannel)
    } else if s.options.len() < 4 {
        refused(ChannelView { state: State::Closed, ..v }, ids, ChannelError::MalformedResponse)
    } else {
        let result = u16_of(s.options[0], s.options[1]);
        if result == RESULT_SUCCESS {
            let next = run_spec(
                ChannelView {
                    state: State::Config,
                    sub_state: Substate::WaitConfig,
                    remote_cid: s.fields[0],
                    ..v
                },
                ids,
            );
            accepted(next.0, next.1)
        } else if result == RESULT_PENDING {
            accepted(v, ids)
        } else {
            accepted(ChannelView { state: State::Closed, ..v }, ids)
        }
    }
}

/// Where the peer's configuration request takes a channel whose
/// configuration stands at `sub`, if it is expected there.
pub open spec fn after_config_req(sub: Substate) -> Option<(State, Substate)> {
    match sub {
        Substate::WaitConfig => Some((State::Config, Substate::WaitSendConfig)),
        Substate::WaitConfigReqRsp => Some((State::Config, Substate::WaitConfigRsp)),
        Substate::WaitConfigReq => Some((State::Open, Substate::WaitConfigReq)),
        _ => None,
    }
}

/// The reaction to the peer's configuration request: it is answered, and the
/// channel sends its own request if that is still to be sent.
pub open spec fn on_configuration_req(v: ChannelView, ids: AllocatorView, s: SignalView) -> Reaction {
    if v.state != State::Config {
        refused(v, ids, ChannelError::UnexpectedSignal(SignalingCommand::ConfigurationReq))
    } else if s.fields[0] != v.local_cid {
        refused(v, ids, ChannelError::WrongChannel)
    } else {
        match after_config_req(v.sub_state) {
            None => refused(
                v,
                ids,
                ChannelError::UnexpectedSignal(SignalingCommand::ConfigurationReq),
            ),
            Some((st, sub)) => {
                let answered = transmit(v, ids, SignalingCommand::ConfigurationRsp, seq![]);
                let next = run_spec(
                    ChannelView { state: st, sub_state: sub, ..answered.0 },
                    answered.1,
                );
                accepted(next.0, next.1)
            },
        }
    }
}

/// The reaction to the peer's response to this channel's configuration
/// request. A refusal closes the channel.
pub open spec fn on_configuration_rsp(v: ChannelView, ids: AllocatorView, s: SignalView) -> Reaction {
    if v.state != State::Config {
        refused(v, ids, ChannelError::UnexpectedSignal(SignalingCommand::ConfigurationRsp))
    } else if s.fields[0] != v.local_cid {
        refused(v, ids, ChannelError::WrongChannel)
    } else if s.fields[2] != RESULT_SUCCESS {
        accepted(ChannelView { state: State::Closed, ..v }, ids)
    } else if v.sub_state == Substate::WaitConfigReqRsp {
        accepted(ChannelView { sub_state: Substate::WaitConfigReq, ..v }, ids)
    } else if v.sub_state == Substate::WaitConfigRsp {
        accepted(ChannelView { state: State::Open, ..v }, ids)
    } else {
        refused(v, ids, ChannelError::UnexpectedSignal(SignalingCommand::ConfigurationRsp))
    }
}

/// The reaction to the peer's disconnection request: it is answered and the
/// channel closes.
pub open spec fn on_disconnection_req(v: ChannelView, ids: AllocatorView, s: SignalView) -> Reaction {
    if v.state == State::Closed {
        refused(v, ids, ChannelError::UnexpectedSignal(SignalingCommand::DisconnectionReq))
    } else if s.fields[0] != v.local_cid {
        refused(v, ids, ChannelError::WrongChannel)
    } else {
        let answered = transmit(
            ChannelView { state: State::WaitDisconnect, ..v },
            ids,
            SignalingCommand::DisconnectionRsp,
            seq![],
        );
        accepted(ChannelView { state: State::Closed, ..answered.0 }, answered.1)
    }
}

/// The reaction to the peer's answer to this channel's disconnection request.
pub open spec fn on_disconnection_rsp(v: ChannelView, ids: AllocatorView, s: SignalView) -> Reaction {
    if v.state != State::WaitDisconnect {
        refused(v, ids, ChannelError::UnexpectedSignal(SignalingCommand::DisconnectionRsp))
    } else if s.fields[1] != v.local_cid {
        refused(v, ids, ChannelError::WrongChannel)
    } else {
        accepted(ChannelView { state: State::Closed, ..v }, ids)
    }
}

/// The reaction to a decoded PDU; commands this layer does not handle leave
/// the channel as it is.
pub open spec fn react(v: ChannelView, ids: AllocatorView, s: SignalView) -> Reaction {
    match s.command {
        SignalingCommand::ConnectionRsp => on_connection_rsp(v, ids, s),
        SignalingCommand::ConfigurationReq => on_configuration_req(v, ids, s),
        SignalingCommand::ConfigurationRsp => on_configuration_rsp(v, ids, s),
        SignalingCommand::DisconnectionReq => on_disconnection_req(v, ids, s),
        SignalingCommand::DisconnectionRsp => on_disconnection_rsp(v, ids, s),
        _ => accepted(v, ids),
    }
}

/// The reaction to the bytes `data` that the peer sent. A PDU with an unknown
/// opcode is answered with a command reject and reported; any other malformed
/// PDU is reported and changes nothing.
pub open spec fn indication_spec(v: ChannelView, ids: AllocatorView, data: Seq<u8>) -> Reaction {
    match decode_spec(data) {
        Ok(s) => react(v, ids, s),
        Err(e) => match e {
            DecodeError::UnknownCommand { .. } => {
                let answered = transmit(v, ids, SignalingCommand::CommandRejectRsp, seq![]);
                refused(answered.0, answered.1, ChannelError::Malformed(e))
            },
            _ => refused(v, ids, ChannelError::Malformed(e)),
        },
    }
}

/// A local request to close: a channel that is neither closed nor already
/// disconnecting sends a disconnection request and waits for its answer.
pub open spec fn close_spec(v: ChannelView, ids: AllocatorView) -> (ChannelView, AllocatorView) {
    if v.state == State::Closed || v.state == State::WaitDisconnect {
        (v, ids)
    } else {
        transmit(
            ChannelView { state: State::WaitDisconnect, ..v },
            ids,
            SignalingCommand::DisconnectionReq,
            seq![],
        )
    }
}

/// An information request from a channel on the LE signaling CID is dropped:
/// whatever the rest of the channel, the allocator and the options, nothing
/// is encoded and nothing changes.
pub proof fn lemma_information_req_gated(v: ChannelView, ids: AllocatorView, option: Seq<u8>)
    requires
        v.local_cid == LE_SIGNALING_CID,
    ensures
        emit(v, ids, SignalingCommand::InformationReq, option) == (Emission {
            channel: v,
            ids,
            pdu: Ok(Seq::<u8>::empty()),
        }),
        transmit(v, ids, SignalingCommand::InformationReq, option) == (v, ids),
{
}

/// The first run of a new channel moves it to `WaitConnectRsp` and queues
/// exactly one PDU, the connection request for its PSM with the allocator's
/// next identifier and CID; a second run with nothing new changes nothing.
pub proof fn lemma_first_run_connects(psm: u16, ids: AllocatorView)
    requires
        ids.wf(),
    ensures
        ({
            let (v1, ids1) = run_spec(initial_view(psm), ids);
            &&& v1.state == State::WaitConnectRsp
            &&& v1.local_cid == ids.next_cid
            &&& v1.sent == seq![
                pdu_bytes(
                    command_code(SignalingCommand::ConnectionReq),
                    ids.next_sig,
                    seq![psm, ids.next_cid],
                    Seq::<u8>::empty(),
                ),
            ]
            &&& run_spec(v1, ids1) == (v1, ids1)
        }),
{
    let v = initial_view(psm);
    let v0 = ChannelView { state: State::WaitConnectRsp, ..v };
    let e = emit(v0, ids, SignalingCommand::ConnectionReq, seq![]);
    assert(e.pdu matches Ok(p) && p.len() > 0);
    assert(fixed_fields(SignalingCommand::ConnectionReq, e.channel) =~= seq![psm, ids.next_cid]);
    assert(v.sent.push(e.pdu->Ok_0) =~= seq![e.pdu->Ok_0]);
}

/// Every PDU that a channel emits decodes to the command it was built for,
/// the identifier it took, the fixed fields the channel wrote and the
/// options it was given.
pub proof fn lemma_emitted_pdu_decodes(
    v: ChannelView,
    ids: AllocatorView,
    cmd: SignalingCommand,
    option: Seq<u8>,
)
    requires
        v.wf(),
        ids.wf(),
        !encode_gated(cmd, v.local_cid),
        fits_mtu(fixed_word_count(cmd), option.len()),
    ensures
        ({
            let e = emit(v, ids, cmd, option);
            e.pdu matches Ok(p) && decode_spec(p) == Ok::<SignalView, DecodeError>(
                SignalView {
                    command: cmd,
                    id: ids.next_sig,
                    fields: fixed_fields(cmd, e.channel),
                    options: option,
                },
            )
        }),
{
    let e = emit(v, ids, cmd, option);
    lemma_fixed_fields_len(cmd, e.channel);
    lemma_decode_encode(cmd, ids.next_sig, fixed_fields(cmd, e.channel), option);
}

/// A closed channel stays closed: a run or a local close changes nothing, and
/// whatever the peer sends leaves its state `Closed`.
pub proof fn lemma_closed_is_terminal(v: ChannelView, ids: AllocatorView, data: Seq<u8>)
    requires
        v.state == State::Closed,
    ensures
        run_spec(v, ids) == (v, ids),
        close_spec(v, ids) == (v, ids),
        indication_spec(v, ids, data).channel.state == State::Closed,
{
}

/// A command's fixed fields, as a channel writes them, are as many as the
/// command carries.
pub proof fn lemma_fixed_fields_len(cmd: SignalingCommand, v: ChannelView)
    ensures
        fixed_fields(cmd, v).len() == fixed_word_count(cmd),
{
    match cmd {
        SignalingCommand::CommandRejectRsp => {},
        SignalingCommand::ConnectionReq => {},
        SignalingCommand::ConnectionRsp => {},
        SignalingCommand::ConfigurationReq => {},
        SignalingCommand::ConfigurationRsp => {},
        SignalingCommand::DisconnectionReq => {},
        SignalingCommand::DisconnectionRsp => {},
        SignalingCommand::ConnectionParameterUpdateReq => {},
        _ => {},
    }
}

/// Whether an information request may be sent from `local_cid`, given the
/// extended features `features` of this entity.
pub fn information_req_permitted(local_cid: u16, features: u32) -> (r: bool)
    ensures
        r == information_req_permitted_spec(local_cid, features),
{
    if local_cid == LE_SIGNALING_CID {
        return false;
    }
    !(local_cid == SIGNALING_CID && features & FIXED_CHANNELS_SUPPORTED == 0)
}

/// One L2CAP channel endpoint.
#[derive(Debug, Clone)]
pub struct Channel {
    state: State,
    sub_state: Substate,
    addr: [u8; 6],
    local_cid: u16,
    remote_cid: u16,
    local_mtu: u16,
    remote_mtu: u16,
    /// Identifier of the last request this channel sent.
    sig_seq_num: u8,
    /// Protocol/Service Multiplexer
    psm: u16,
    le_interval_min: u16,
    le_interval_max: u16,
    le_latency: u16,
    le_timeout: u16,
    /// PDUs queued for the transport, oldest first.
    outbox: Vec<Vec<u8>>,
}

impl View for Channel {
    type V = ChannelView;

    closed spec fn view(&self) -> ChannelView {
        ChannelView {
            state: self.state,
            sub_state: self.sub_state,
            addr: self.addr@,
            local_cid: self.local_cid,
            remote_cid: self.remote_cid,
            local_mtu: self.local_mtu,
            remote_mtu: self.remote_mtu,
            sig_seq_num: self.sig_seq_num,
            psm: self.psm,
            le_interval_min: self.le_interval_min,
            le_interval_max: self.le_interval_max,
            le_latency: self.le_latency,
            le_timeout: self.le_timeout,
            sent: self.outbox@.map_values(|p: Vec<u8>| p@),
        }
    }
}

impl Channel {
    /// A new outgoing channel to `psm`, about to send its connection request.
    pub fn new(psm: u16) -> (r: Channel)
        ensures
            r@ == initial_view(psm),
            r@.wf(),
    {
        let r = Channel {
            state: State::WillSendConnectReq,
            sub_state: Substate::WaitConfig,
            addr: [0u8; 6],
            local_cid: 0,
            remote_cid: 0,
            local_mtu: 0,
            remote_mtu: L2CAP_DEFAULT_MTU,
            sig_seq_num: 0,
            psm,
            le_interval_min: 0,
            le_interval_max: 0,
            le_latency: 0,
            le_timeout: 0,
            outbox: Vec::new(),
        };
        assert(r.addr@ =~= seq![0u8, 0u8, 0u8, 0u8, 0u8, 0u8]);
        assert(r.outbox@.map_values(|p: Vec<u8>| p@) =~= Seq::<Seq<u8>>::empty());
        r
    }

    /// Hands a locally initiated PDU to the transport.
    pub fn request(&mut self, data: &[u8])
        ensures
            final(self)@ == (ChannelView { sent: old(self)@.sent.push(data@), ..old(self)@ }),
    {
        self.outbox.push(slice_to_vec(data));
        assert(self.outbox@.map_values(|p: Vec<u8>| p@) =~= old(self)@.sent.push(data@));
    }

    /// Hands a locally initiated reply PDU to the transport.
    pub fn response(&mut self, data: &[u8])
        ensures
            final(self)@ == (ChannelView { sent: old(self)@.sent.push(data@), ..old(self)@ }),
    {
        self.outbox.push(slice_to_vec(data));
        assert(self.outbox@.map_values(|p: Vec<u8>| p@) =~= old(self)@.sent.push(data@));
    }

    /// Collects the PDUs queued for transmission, oldest first.
    pub fn take_sent(&mut self) -> (r: Vec<Vec<u8>>)
        ensures
            r@.map_values(|p: Vec<u8>| p@) == old(self)@.sent,
            final(self)@ == (ChannelView { sent: seq![], ..old(self)@ }),
    {
        let mut r: Vec<Vec<u8>> = Vec::new();
        core::mem::swap(&mut self.outbox, &mut r);
        assert(self.outbox@.map_values(|p: Vec<u8>| p@) =~= Seq::<Seq<u8>>::empty());
        r
    }

    /// The transport reports that an operation completed: the channel runs.
    pub fn confirm(&mut self, ids: &mut IdAllocator, data: &[u8])
        requires
            old(self)@.wf(),
            old(ids).wf(),
        ensures
            final(self)@.wf(),
            final(ids).wf(),
            (final(self)@, final(ids)@) == run_spec(old(self)@, old(ids)@),
    {
        self.run(ids);
    }

    /// Runs the state machine once; where no transition applies it does nothing.
    pub fn run(&mut self, ids: &mut IdAllocator)
        requires
            old(self)@.wf(),
            old(ids).wf(),
        ensures
            final(self)@.wf(),
            final(ids).wf(),
            (final(self)@, final(ids)@) == run_spec(old(self)@, old(ids)@),
    {
        self.run_for_classic_channel(ids);
    }

    fn run_for_classic_channel(&mut self, ids: &mut IdAllocator)
        requires
            old(self)@.wf(),
            old(ids).wf(),
        ensures
            final(self)@.wf(),
            final(ids).wf(),
            (final(self)@, final(ids)@) == run_spec(old(self)@, old(ids)@),
    {
        match self.state {
            State::WillSendConnectReq => {
                self.state = State::WaitConnectRsp;
                let _ = self.send_classic_signaling_packet(ids, SignalingCommand::ConnectionReq, &[]);
            },
            State::Config => {
                if self.sub_state == Substate::WaitConfig {
                    self.sub_state = Substate::WaitConfigReqRsp;
                    let _ = self.send_classic_signaling_packet(
                        ids,
                        SignalingCommand::ConfigurationReq,
                        &[],
                    );
                } else if self.sub_state == Substate::WaitSendConfig {
                    self.sub_state = Substate::WaitConfigRsp;
                    let _ = self.send_classic_signaling_packet(
                        ids,
                        SignalingCommand::ConfigurationReq,
                        &[],
                    );
                }
            },
            _ => {},
        }
    }

    /// The peer sent `data`. A well-formed PDU drives the state machine as
    /// `react` says; a PDU with an unknown opcode is answered with a command
    /// reject; every malformed PDU is reported, and the channel stays alive
    /// unless the table says otherwise.
    pub fn indication(&mut self, ids: &mut IdAllocator, data: &[u8]) -> (r: Result<(), ChannelError>)
        requires
            old(self)@.wf(),
            old(ids).wf(),
        ensures
            final(self)@.wf(),
            final(ids).wf(),
            (Reaction { channel: final(self)@, ids: final(ids)@, result: r }) == indication_spec(
                old(self)@,
                old(ids)@,
                data@,
            ),
    {
        match decode_signal(data) {
            Ok(s) => self.react(ids, &s),
            Err(e) => {
                if let DecodeError::UnknownCommand { .. } = e {
                    let _ = self.send_classic_signaling_packet(
                        ids,
                        SignalingCommand::CommandRejectRsp,
                        &[],
                    );
                }
                Err(ChannelError::Malformed(e))
            },
        }
    }

    fn react(&mut self, ids: &mut IdAllocator, s: &Signal) -> (r: Result<(), ChannelError>)
        requires
            old(self)@.wf(),
            old(ids).wf(),
            s.fields@.len() == fixed_word_count(s.command),
        ensures
            final(self)@.wf(),
            final(ids).wf(),
            (Reaction { channel: final(self)@, ids: final(ids)@, result: r }) == react(
                old(self)@,
                old(ids)@,
                s@,
            ),
    {
        match s.command {
            SignalingCommand::ConnectionRsp => self.on_connection_rsp(ids, s),
            SignalingCommand::ConfigurationReq => self.on_configuration_req(ids, s),
            SignalingCommand::ConfigurationRsp => self.on_configuration_rsp(s),
            SignalingCommand::DisconnectionReq => self.on_disconnection_req(ids, s),
            SignalingCommand::DisconnectionRsp => self.on_disconnection_rsp(s),
            _ => Ok(()),
        }
    }

    fn on_connection_rsp(&mut self, ids: &mut IdAllocator, s: &Signal) -> (r: Result<(), ChannelError>)
        requires
            old(self)@.wf(),
            old(ids).wf(),
            s.fields@.len() == 2,
        ensures
            final(self)@.wf(),
            final(ids).wf(),
            (Reaction { channel: final(self)@, ids: final(ids)@, result: r }) == on_connection_rsp(
                old(self)@,
                old(ids)@,
                s@,
            ),
    {
        if self.state != State::WaitConnectRsp {
            return Err(ChannelError::UnexpectedSignal(SignalingCommand::ConnectionRsp));
        }
        if s.fields[1] != self.local_cid {
            return Err(ChannelError::WrongChannel);
        }
        if s.options.len() < 4 {
            self.state = State::Closed;
            return Err(ChannelError::MalformedResponse);
        }
        let result = s.options[0] as u16 + (s.options[1] as u16) * 256;
        if result == RESULT_SUCCESS {
            self.state = State::Config;
            self.sub_state = Substate::WaitConfig;
            self.remote_cid = s.fields[0];
            self.run(ids);
        } else if result != RESULT_PENDING {
            self.state = State::Closed;
        }
        Ok(())
    }

    fn on_configuration_req(&mut self, ids: &mut IdAllocator, s: &Signal) -> (r: Result<
        (),
        ChannelError,
    >)
        requires
            old(self)@.wf(),
            old(ids).wf(),
            s.fields@.len() == 2,
        ensures
            final(self)@.wf(),
            final(ids).wf(),
            (Reaction { channel: final(self)@, ids: final(ids)@, result: r })
                == on_configuration_req(old(self)@, old(ids)@, s@),
    {
        if self.state != State::Config {
            return Err(ChannelError::UnexpectedSignal(SignalingCommand::ConfigurationReq));
        }
        if s.fields[0] != self.local_cid {
            return Err(ChannelError::WrongChannel);
        }
        let (state, sub_state) = match self.sub_state {
            Substate::WaitConfig => (State::Config, Substate::WaitSendConfig),
            Substate::WaitConfigReqRsp => (State::Config, Substate::WaitConfigRsp),
            Substate::WaitConfigReq => (State::Open, Substate::WaitConfigReq),
            _ => {
                return Err(ChannelError::UnexpectedSignal(SignalingCommand::ConfigurationReq));
            },
        };
        let _ = self.send_classic_signaling_packet(ids, SignalingCommand::ConfigurationRsp, &[]);
        self.state = state;
        self.sub_state = sub_state;
        self.run(ids);
        Ok(())
    }

    fn on_configuration_rsp(&mut self, s: &Signal) -> (r: Result<(), ChannelError>)
        requires
            old(self)@.wf(),
            s.fields@.len() == 3,
        ensures
            final(self)@.wf(),
            forall|ids: AllocatorView|
                (Reaction { channel: final(self)@, ids, result: r }) == #[trigger] on_configuration_rsp(
                    old(self)@,
                    ids,
                    s@,
                ),
    {
        if self.state != State::Config {
            return Err(ChannelError::UnexpectedSignal(SignalingCommand::ConfigurationRsp));
        }
        if s.fields[0] != self.local_cid {
            return Err(ChannelError::WrongChannel);
        }
        if s.fields[2] != RESULT_SUCCESS {
            self.state = State::Closed;
        } else if self.sub_state == Substate::WaitConfigReqRsp {
            self.sub_state = Substate::WaitConfigReq;
        } else if self.sub_state == Substate::WaitConfigRsp {
            self.state = State::Open;
        } else {
            return Err(ChannelError::UnexpectedSignal(SignalingCommand::ConfigurationRsp));
        }
        Ok(())
    }

    fn on_disconnection_req(&mut self, ids: &mut IdAllocator, s: &Signal) -> (r: Result<
        (),
        ChannelError,
    >)
        requires
            old(self)@.wf(),
            old(ids).wf(),
            s.fields@.len() == 2,
        ensures
            final(self)@.wf(),
            final(ids).wf(),
            (Reaction { channel: final(self)@, ids: final(ids)@, result: r })
                == on_disconnection_req(old(self)@, old(ids)@, s@),
    {
        if self.state == State::Closed {
            return Err(ChannelError::UnexpectedSignal(SignalingCommand::DisconnectionReq));
        }
        if s.fields[0] != self.local_cid {
            return Err(ChannelError::WrongChannel);
        }
        self.state = State::WaitDisconnect;
        let _ = self.send_classic_signaling_packet(ids, SignalingCommand::DisconnectionRsp, &[]);
        self.state = State::Closed;
        Ok(())
    }

    fn on_disconnection_rsp(&mut self, s: &Signal) -> (r: Result<(), ChannelError>)
        requires
            old(self)@.wf(),
            s.fields@.len() == 2,
        ensures
            final(self)@.wf(),
            forall|ids: AllocatorView|
                (Reaction { channel: final(self)@, ids, result: r }) == #[trigger] on_disconnection_rsp(
                    old(self)@,
                    ids,
                    s@,
                ),
    {
        if self.state != State::WaitDisconnect {
            return Err(ChannelError::UnexpectedSignal(SignalingCommand::DisconnectionRsp));
        }
        if s.fields[1] != self.local_cid {
            return Err(ChannelError::WrongChannel);
        }
        self.state = State::Closed;
        Ok(())
    }

    /// Closes the channel from this side: unless it is closed or already
    /// disconnecting, it sends a disconnection request and waits for the answer.
    pub fn close(&mut self, ids: &mut IdAllocator)
        requires
            old(self)@.wf(),
            old(ids).wf(),
        ensures
            final(self)@.wf(),
            final(ids).wf(),
            (final(self)@, final(ids)@) == close_spec(old(self)@, old(ids)@),
    {
        if self.state == State::Closed || self.state == State::WaitDisconnect {
            return;
        }
        self.state = State::WaitDisconnect;
        let _ = self.send_classic_signaling_packet(ids, SignalingCommand::DisconnectionReq, &[]);
    }

    /// Encodes `cmd` with `data` as its options and queues the PDU for
    /// transmission; a PDU that policy drops is not queued.
    pub fn send_classic_signaling_packet(
        &mut self,
        ids: &mut IdAllocator,
        cmd: SignalingCommand,
        data: &[u8],
    ) -> (r: Result<(), EncodeError>)
        requires
            old(self)@.wf(),
            old(ids).wf(),
        ensures
            final(self)@.wf(),
            final(ids).wf(),
            (final(self)@, final(ids)@) == transmit(old(self)@, old(ids)@, cmd, data@),
            r is Err <==> emit(old(self)@, old(ids)@, cmd, data@).pdu is Err,
    {
        let pdu = self.create_classic_signaling_packet(ids, cmd, data)?;
        if pdu.len() > 0 {
            self.request(pdu.as_slice());
        }
        Ok(())
    }

    /// Builds the PDU for `cmd` with trailing `option` bytes. An information
    /// request that policy forbids comes out empty and changes nothing; a PDU
    /// that does not fit the signaling buffer is refused and changes nothing.
    /// Otherwise a connection request takes a fresh local CID, and the PDU
    /// takes a fresh identifier.
    pub fn create_classic_signaling_packet(
        &mut self,
        ids: &mut IdAllocator,
        cmd: SignalingCommand,
        option: &[u8],
    ) -> (r: Result<Vec<u8>, EncodeError>)
        requires
            old(self)@.wf(),
            old(ids).wf(),
        ensures
            final(self)@.wf(),
            final(ids).wf(),
            final(self)@ == emit(old(self)@, old(ids)@, cmd, option@).channel,
            final(ids)@ == emit(old(self)@, old(ids)@, cmd, option@).ids,
            match emit(old(self)@, old(ids)@, cmd, option@).pdu {
                Ok(p) => r matches Ok(b) && b@ == p,
                Err(e) => r == Err::<Vec<u8>, EncodeError>(e),
            },
    {
        if cmd == SignalingCommand::InformationReq && !information_req_permitted(
            self.local_cid,
            self.get_extended_features(),
        ) {
            return Ok(Vec::new());
        }
        if cmd.fixed_words() > (SIGNAL_MTU - HEADER_LEN) / 2
            || option.len() > SIGNAL_MTU - HEADER_LEN - 2
            * cmd.fixed_words() {
            return Err(EncodeError::MtuExceeded);
        }
        if cmd == SignalingCommand::ConnectionReq {
            self.local_cid = ids.next_local_cid();
        }
        self.sig_seq_num = ids.next_signal_id();
        let words: Vec<u16> = match cmd {
            SignalingCommand::CommandRejectRsp => vec![REJECT_NOT_UNDERSTOOD],
            SignalingCommand::ConnectionReq => vec![self.psm, self.local_cid],
            SignalingCommand::ConnectionRsp => vec![self.remote_cid, self.local_cid],
            SignalingCommand::ConfigurationReq => vec![self.remote_cid, 0u16],
            SignalingCommand::ConfigurationRsp => vec![self.local_cid, 0u16, RESULT_SUCCESS],
            SignalingCommand::DisconnectionReq => vec![self.remote_cid, self.local_cid],
            SignalingCommand::DisconnectionRsp => vec![self.remote_cid, self.local_cid],
            SignalingCommand::ConnectionParameterUpdateReq => vec![
                self.le_interval_min,
                self.le_interval_max,
                self.le_latency,
                self.le_timeout,
            ],
            _ => Vec::new(),
        };
        proof {
            lemma_fixed_fields_len(cmd, self@);
            assert(words@ =~= fixed_fields(cmd, self@));
        }
        encode_signal(cmd, self.sig_seq_num, words.as_slice(), option)
    }

    /// The extended features this entity announces.
    pub fn get_extended_features(&self) -> (r: u32)
        ensures
            r == EXTENDED_FEATURES,
    {
        EXTENDED_FEATURES
    }

    /// The channel's state.
    pub fn state(&self) -> (r: State)
        ensures
            r == self@.state,
    {
        self.state
    }

    /// Where the configuration exchange stands.
    pub fn sub_state(&self) -> (r: Substate)
        ensures
            r == self@.sub_state,
    {
        self.sub_state
    }

    /// The local CID; 0 until the connection request is sent.
    pub fn local_cid(&self) -> (r: u16)
        ensures
            r == self@.local_cid,
    {
        self.local_cid
    }

    /// The CID the peer announced in its connection response; 0 until then.
    pub fn remote_cid(&self) -> (r: u16)
        ensures
            r == self@.remote_cid,
    {
        self.remote_cid
    }

    /// The PSM this channel connects to.
    pub fn psm(&self) -> (r: u16)
        ensures
            r == self@.psm,
    {
        self.psm
    }

    /// The local MTU.
    pub fn local_mtu(&self) -> (r: u16)
        ensures
            r == self@.local_mtu,
    {
        self.local_mtu
    }

    /// The peer's MTU.
    pub fn remote_mtu(&self) -> (r: u16)
        ensures
            r == self@.remote_mtu,
    {
        self.remote_mtu
    }

    /// Identifier of the last request this channel sent.
    pub fn sig_seq_num(&self) -> (r: u8)
        ensures
            r == self@.sig_seq_num,
    {
        self.sig_seq_num
    }

    /// Sets the LE connection parameters that a parameter update request carries.
    pub fn set_le_connection_parameters(
        &mut self,
        interval_min: u16,
        interval_max: u16,
        latency: u16,
        timeout: u16,
    )
        ensures
            final(self)@ == (ChannelView {
                le_interval_min: interval_min,
                le_interval_max: interval_max,
                le_latency: latency,
                le_timeout: timeout,
                ..old(self)@
            }),
    {
        self.le_interval_min = interval_min;
        self.le_interval_max = interval_max;
        self.le_latency = latency;
        self.le_timeout = timeout;
    }
}

} // verus!
