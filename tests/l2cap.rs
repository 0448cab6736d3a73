use bluestar_host::channel::information_req_permitted;
use bluestar_host::{
    decode_signal, encode_signal, get_u16_le, Channel, ChannelError, DecodeError, EncodeError,
    IdAllocator, SignalingCommand, State, Substate,
};

fn connected_channel(ids: &mut IdAllocator) -> Channel {
    let mut channel = Channel::new(1);
    channel.run(ids);
    channel.take_sent();
    channel
}

#[test]
fn test_create_signal_packet() {
    let mut ids = IdAllocator::new();
    let mut channel = Channel::new(0);

    let acl_buffer = channel
        .create_classic_signaling_packet(&mut ids, SignalingCommand::ConnectionReq, &[])
        .unwrap();
    let len = &acl_buffer[2..4];
    let len = get_u16_le(len) as usize + 4;
    assert_eq!(&acl_buffer[0..len], [2, 1, 4, 0, 0, 0, 64, 0]);
}

#[test]
fn signal_ids_cycle_from_one_and_skip_zero() {
    let mut ids = IdAllocator::new();
    for round in 0..3 {
        for expected in 1..=255u32 {
            let id = ids.next_signal_id();
            assert_ne!(id, 0);
            assert_eq!(id as u32, expected, "round {}", round);
        }
    }
}

#[test]
fn local_cids_cycle_over_dynamic_range() {
    let mut ids = IdAllocator::new();
    for _ in 0..2 {
        for expected in 0x0040..=0xffffu32 {
            let cid = ids.next_local_cid();
            assert!(cid >= 0x0040);
            assert_eq!(cid as u32, expected);
        }
    }
    assert_eq!(ids.next_local_cid(), 0x0040);
}

#[test]
fn signal_ids_and_cids_are_independent() {
    let mut ids = IdAllocator::new();
    assert_eq!(ids.next_local_cid(), 0x0040);
    assert_eq!(ids.peek_signal_id(), 1);
    assert_eq!(ids.next_signal_id(), 1);
    assert_eq!(ids.peek_local_cid(), 0x0041);
}

#[test]
fn first_run_sends_one_connection_request() {
    let mut ids = IdAllocator::new();
    let mut channel = Channel::new(0);
    assert_eq!(channel.state(), State::WillSendConnectReq);
    channel.run(&mut ids);
    assert_eq!(channel.state(), State::WaitConnectRsp);
    assert_eq!(channel.local_cid(), 0x0040);
    assert_eq!(channel.sig_seq_num(), 1);
    let sent = channel.take_sent();
    assert_eq!(sent, vec![vec![0x02, 0x01, 0x04, 0x00, 0x00, 0x00, 0x40, 0x00]]);

    channel.run(&mut ids);
    assert_eq!(channel.state(), State::WaitConnectRsp);
    assert!(channel.take_sent().is_empty());
    assert_eq!(ids.peek_signal_id(), 2);
    assert_eq!(ids.peek_local_cid(), 0x0041);
}

#[test]
fn confirm_runs_the_channel() {
    let mut ids = IdAllocator::new();
    let mut channel = Channel::new(0x1001);
    channel.confirm(&mut ids, &[]);
    assert_eq!(channel.state(), State::WaitConnectRsp);
    assert_eq!(channel.take_sent(), vec![vec![0x02, 0x01, 0x04, 0x00, 0x01, 0x10, 0x40, 0x00]]);
}

#[test]
fn channels_sharing_an_allocator_get_distinct_ids() {
    let mut ids = IdAllocator::new();
    let mut channels: Vec<Channel> = (0..5).map(|p| Channel::new(p)).collect();
    let mut seen_ids = std::collections::HashSet::new();
    let mut seen_cids = std::collections::HashSet::new();
    for _ in 0..10 {
        for channel in channels.iter_mut() {
            let pdu = channel
                .create_classic_signaling_packet(&mut ids, SignalingCommand::ConnectionReq, &[])
                .unwrap();
            assert!(seen_ids.insert(pdu[1]));
            assert!(seen_cids.insert(channel.local_cid()));
        }
    }
    assert_eq!(seen_ids.len(), 50);
    assert!(!seen_ids.contains(&0));
}

#[test]
fn information_request_is_gated() {
    assert!(!information_req_permitted(0x0005, 0x280));
    assert!(!information_req_permitted(0x0005, 0xffff_ffff));
    assert!(!information_req_permitted(0x0001, 0x280));
    assert!(information_req_permitted(0x0001, 0x288));
    assert!(information_req_permitted(0x0040, 0x280));
}

#[test]
fn information_request_from_dynamic_cid_is_encoded() {
    let mut ids = IdAllocator::new();
    let mut channel = connected_channel(&mut ids);
    let pdu = channel
        .create_classic_signaling_packet(&mut ids, SignalingCommand::InformationReq, &[0x02, 0x00])
        .unwrap();
    assert_eq!(pdu, vec![0x0a, 0x02, 0x02, 0x00, 0x02, 0x00]);
    assert_eq!(channel.get_extended_features(), 0x280);
}

#[test]
fn oversized_pdu_is_refused() {
    let mut ids = IdAllocator::new();
    let mut channel = Channel::new(3);
    let options = vec![0u8; 193];
    assert_eq!(
        channel.create_classic_signaling_packet(&mut ids, SignalingCommand::ConnectionReq, &options),
        Err(EncodeError::MtuExceeded)
    );
    assert_eq!(channel.local_cid(), 0);
    assert_eq!(ids.peek_signal_id(), 1);
    let fits = vec![0u8; 192];
    let pdu = channel
        .create_classic_signaling_packet(&mut ids, SignalingCommand::ConnectionReq, &fits)
        .unwrap();
    assert_eq!(pdu.len(), 200);
    assert_eq!(get_u16_le(&pdu[2..4]), 196);
    assert_eq!(encode_signal(SignalingCommand::EchoReq, 1, &[], &[0u8; 197]), Err(EncodeError::MtuExceeded));
}

#[test]
fn fixed_fields_of_each_command() {
    let mut ids = IdAllocator::new();
    let mut channel = connected_channel(&mut ids);
    let rsp = [0x03, 0x01, 0x08, 0x00, 0x50, 0x00, 0x40, 0x00, 0x01, 0x00, 0x00, 0x00];
    assert_eq!(channel.indication(&mut ids, &rsp), Ok(()));
    channel.set_le_connection_parameters(6, 12, 0, 0x0c80);

    let mut enc = |cmd: SignalingCommand, opts: &[u8]| {
        channel.create_classic_signaling_packet(&mut ids, cmd, opts).unwrap()
    };
    assert_eq!(enc(SignalingCommand::CommandRejectRsp, &[]), vec![0x01, 2, 2, 0, 0, 0]);
    assert_eq!(enc(SignalingCommand::ConnectionRsp, &[0, 0, 0, 0]), vec![0x03, 3, 8, 0, 0, 0, 0x40, 0, 0, 0, 0, 0]);
    assert_eq!(enc(SignalingCommand::ConfigurationReq, &[1, 2, 0x9b, 0x06]), vec![0x04, 4, 8, 0, 0, 0, 0, 0, 1, 2, 0x9b, 0x06]);
    assert_eq!(enc(SignalingCommand::ConfigurationRsp, &[]), vec![0x05, 5, 6, 0, 0x40, 0, 0, 0, 0, 0]);
    assert_eq!(enc(SignalingCommand::DisconnectionReq, &[]), vec![0x06, 6, 4, 0, 0, 0, 0x40, 0]);
    assert_eq!(enc(SignalingCommand::DisconnectionRsp, &[]), vec![0x07, 7, 4, 0, 0, 0, 0x40, 0]);
    assert_eq!(enc(SignalingCommand::ConnectionParameterUpdateReq, &[]), vec![0x12, 8, 8, 0, 6, 0, 12, 0, 0, 0, 0x80, 0x0c]);
    assert_eq!(enc(SignalingCommand::EchoReq, &[0xaa]), vec![0x08, 9, 1, 0, 0xaa]);
}

#[test]
fn decode_inverts_encode_for_every_command() {
    let commands = [
        (SignalingCommand::CommandRejectRsp, 1usize),
        (SignalingCommand::ConnectionReq, 2),
        (SignalingCommand::ConnectionRsp, 2),
        (SignalingCommand::ConfigurationReq, 2),
        (SignalingCommand::ConfigurationRsp, 3),
        (SignalingCommand::DisconnectionReq, 2),
        (SignalingCommand::DisconnectionRsp, 2),
        (SignalingCommand::EchoReq, 0),
        (SignalingCommand::EchoRsp, 0),
        (SignalingCommand::InformationReq, 0),
        (SignalingCommand::InformationRsp, 0),
        (SignalingCommand::ConnectionParameterUpdateReq, 4),
        (SignalingCommand::ConnectionParameterUpdateRsp, 0),
        (SignalingCommand::LeCreditBasedConnectionReq, 0),
        (SignalingCommand::LeCreditBasedConnectionRsp, 0),
        (SignalingCommand::FlowControlCreditInd, 0),
        (SignalingCommand::CreditBasedConnectionReq, 0),
        (SignalingCommand::CreditBasedConnectionRsp, 0),
        (SignalingCommand::CreditBasedReconnectionReq, 0),
        (SignalingCommand::CreditBasedReconnectionRsp, 0),
    ];
    for (i, (cmd, n)) in commands.iter().enumerate() {
        let words: Vec<u16> = (0..*n).map(|k| 0x1234u16.wrapping_mul(k as u16 + 3)).collect();
        let options: Vec<u8> = (0..i as u8).collect();
        let id = i as u8 + 1;
        let pdu = encode_signal(*cmd, id, &words, &options).unwrap();
        assert_eq!(pdu[0], cmd.code());
        assert_eq!(SignalingCommand::from_code(pdu[0]), Some(*cmd));
        let signal = decode_signal(&pdu).unwrap();
        assert_eq!(signal.command, *cmd);
        assert_eq!(signal.id, id);
        assert_eq!(signal.fields, words);
        assert_eq!(signal.options, options);
    }
}

#[test]
fn decode_reports_each_error() {
    assert_eq!(decode_signal(&[0x02, 0x01, 0x00]).unwrap_err(), DecodeError::TooShort);
    assert_eq!(decode_signal(&[0x02, 0x01, 0x05, 0x00, 0x00]).unwrap_err(), DecodeError::LengthMismatch);
    assert_eq!(decode_signal(&[0x08, 0x00, 0x00, 0x00]).unwrap_err(), DecodeError::ZeroIdentifier);
    assert_eq!(
        decode_signal(&[0x0c, 0x07, 0x00, 0x00]).unwrap_err(),
        DecodeError::UnknownCommand { code: 0x0c, id: 0x07 }
    );
    assert_eq!(decode_signal(&[0x02, 0x01, 0x02, 0x00, 0x01, 0x00]).unwrap_err(), DecodeError::MissingFields);
    assert_eq!(SignalingCommand::from_code(0x00), None);
    assert_eq!(SignalingCommand::from_code(0x1b), None);
    assert_eq!(SignalingCommand::from_code(0x1a), Some(SignalingCommand::CreditBasedReconnectionRsp));
}

#[test]
fn u16_fields_are_little_endian() {
    assert_eq!(get_u16_le(&[0x34, 0x12]), 0x1234);
    assert_eq!(get_u16_le(&[0xff, 0xff, 0x00]), 0xffff);
    let mut out = Vec::new();
    bluestar_host::signal::push_u16_le(&mut out, 0xabcd);
    assert_eq!(out, vec![0xcd, 0xab]);
}

#[test]
fn successful_connection_starts_configuration() {
    let mut ids = IdAllocator::new();
    let mut channel = connected_channel(&mut ids);
    let rsp = [0x03, 0x01, 0x08, 0x00, 0x50, 0x00, 0x40, 0x00, 0x00, 0x00, 0x00, 0x00];
    assert_eq!(channel.indication(&mut ids, &rsp), Ok(()));
    assert_eq!(channel.state(), State::Config);
    assert_eq!(channel.sub_state(), Substate::WaitConfigReqRsp);
    assert_eq!(channel.remote_cid(), 0x0050);
    assert_eq!(channel.take_sent(), vec![vec![0x04, 0x02, 0x04, 0x00, 0x50, 0x00, 0x00, 0x00]]);

    let cfg_rsp = [0x05, 0x02, 0x06, 0x00, 0x40, 0x00, 0x00, 0x00, 0x00, 0x00];
    assert_eq!(channel.indication(&mut ids, &cfg_rsp), Ok(()));
    assert_eq!(channel.sub_state(), Substate::WaitConfigReq);

    let cfg_req = [0x04, 0x07, 0x04, 0x00, 0x40, 0x00, 0x00, 0x00];
    assert_eq!(channel.indication(&mut ids, &cfg_req), Ok(()));
    assert_eq!(channel.state(), State::Open);
    assert_eq!(channel.take_sent(), vec![vec![0x05, 0x03, 0x06, 0x00, 0x40, 0x00, 0x00, 0x00, 0x00, 0x00]]);
}

#[test]
fn peer_configuration_request_first() {
    let mut ids = IdAllocator::new();
    let mut channel = connected_channel(&mut ids);
    channel.indication(&mut ids, &[0x03, 0x01, 0x08, 0x00, 0x50, 0x00, 0x40, 0x00, 0, 0, 0, 0]).unwrap();
    channel.take_sent();
    let cfg_req = [0x04, 0x07, 0x04, 0x00, 0x40, 0x00, 0x00, 0x00];
    assert_eq!(channel.indication(&mut ids, &cfg_req), Ok(()));
    assert_eq!(channel.state(), State::Config);
    assert_eq!(channel.sub_state(), Substate::WaitConfigRsp);
    let cfg_rsp = [0x05, 0x02, 0x06, 0x00, 0x40, 0x00, 0x00, 0x00, 0x00, 0x00];
    assert_eq!(channel.indication(&mut ids, &cfg_rsp), Ok(()));
    assert_eq!(channel.state(), State::Open);
}

#[test]
fn pending_connection_keeps_waiting() {
    let mut ids = IdAllocator::new();
    let mut channel = connected_channel(&mut ids);
    let rsp = [0x03, 0x01, 0x08, 0x00, 0x00, 0x00, 0x40, 0x00, 0x01, 0x00, 0x02, 0x00];
    assert_eq!(channel.indication(&mut ids, &rsp), Ok(()));
    assert_eq!(channel.state(), State::WaitConnectRsp);
    assert!(channel.take_sent().is_empty());
}

#[test]
fn refused_connection_closes() {
    let mut ids = IdAllocator::new();
    let mut channel = connected_channel(&mut ids);
    let rsp = [0x03, 0x01, 0x08, 0x00, 0x00, 0x00, 0x40, 0x00, 0x02, 0x00, 0x00, 0x00];
    assert_eq!(channel.indication(&mut ids, &rsp), Ok(()));
    assert_eq!(channel.state(), State::Closed);
    channel.run(&mut ids);
    channel.close(&mut ids);
    assert!(channel.take_sent().is_empty());
    let ok = [0x03, 0x01, 0x08, 0x00, 0x00, 0x00, 0x40, 0x00, 0x00, 0x00, 0x00, 0x00];
    assert!(channel.indication(&mut ids, &ok).is_err());
    assert_eq!(channel.state(), State::Closed);
}

#[test]
fn malformed_connection_response_closes() {
    let mut ids = IdAllocator::new();
    let mut channel = connected_channel(&mut ids);
    let rsp = [0x03, 0x01, 0x06, 0x00, 0x00, 0x00, 0x40, 0x00, 0x00, 0x00];
    assert_eq!(channel.indication(&mut ids, &rsp), Err(ChannelError::MalformedResponse));
    assert_eq!(channel.state(), State::Closed);
}

#[test]
fn out_of_sequence_and_foreign_pdus_are_reported() {
    let mut ids = IdAllocator::new();
    let mut channel = Channel::new(1);
    let rsp = [0x03, 0x01, 0x08, 0x00, 0x00, 0x00, 0x40, 0x00, 0x00, 0x00, 0x00, 0x00];
    assert_eq!(
        channel.indication(&mut ids, &rsp),
        Err(ChannelError::UnexpectedSignal(SignalingCommand::ConnectionRsp))
    );
    assert_eq!(channel.state(), State::WillSendConnectReq);

    let mut channel = connected_channel(&mut ids);
    let other = [0x03, 0x01, 0x08, 0x00, 0x00, 0x00, 0x41, 0x00, 0x00, 0x00, 0x00, 0x00];
    assert_eq!(channel.indication(&mut ids, &other), Err(ChannelError::WrongChannel));
    assert_eq!(channel.state(), State::WaitConnectRsp);

    assert_eq!(
        channel.indication(&mut ids, &[0x02, 0x01]),
        Err(ChannelError::Malformed(DecodeError::TooShort))
    );
    assert!(channel.take_sent().is_empty());
    assert_eq!(channel.indication(&mut ids, &[0x08, 0x01, 0x00, 0x00]), Ok(()));
}

#[test]
fn unknown_command_is_rejected() {
    let mut ids = IdAllocator::new();
    let mut channel = connected_channel(&mut ids);
    assert_eq!(
        channel.indication(&mut ids, &[0x30, 0x09, 0x00, 0x00]),
        Err(ChannelError::Malformed(DecodeError::UnknownCommand { code: 0x30, id: 0x09 }))
    );
    assert_eq!(channel.take_sent(), vec![vec![0x01, 0x02, 0x02, 0x00, 0x00, 0x00]]);
    assert_eq!(channel.state(), State::WaitConnectRsp);
}

#[test]
fn peer_disconnection_closes() {
    let mut ids = IdAllocator::new();
    let mut channel = connected_channel(&mut ids);
    channel.indication(&mut ids, &[0x03, 0x01, 0x08, 0x00, 0x50, 0x00, 0x40, 0x00, 0, 0, 0, 0]).unwrap();
    channel.take_sent();
    let req = [0x06, 0x0b, 0x04, 0x00, 0x40, 0x00, 0x50, 0x00];
    assert_eq!(channel.indication(&mut ids, &req), Ok(()));
    assert_eq!(channel.state(), State::Closed);
    assert_eq!(channel.take_sent(), vec![vec![0x07, 0x03, 0x04, 0x00, 0x50, 0x00, 0x40, 0x00]]);
    assert_eq!(
        channel.indication(&mut ids, &req),
        Err(ChannelError::UnexpectedSignal(SignalingCommand::DisconnectionReq))
    );
}

#[test]
fn local_close_waits_for_answer() {
    let mut ids = IdAllocator::new();
    let mut channel = connected_channel(&mut ids);
    channel.close(&mut ids);
    assert_eq!(channel.state(), State::WaitDisconnect);
    assert_eq!(channel.take_sent(), vec![vec![0x06, 0x02, 0x04, 0x00, 0x00, 0x00, 0x40, 0x00]]);
    channel.close(&mut ids);
    assert!(channel.take_sent().is_empty());
    let rsp = [0x07, 0x02, 0x04, 0x00, 0x00, 0x00, 0x40, 0x00];
    assert_eq!(channel.indication(&mut ids, &rsp), Ok(()));
    assert_eq!(channel.state(), State::Closed);
}

#[test]
fn request_and_response_queue_pdus() {
    let mut channel = Channel::new(5);
    channel.request(&[1, 2, 3]);
    channel.response(&[4]);
    assert_eq!(channel.take_sent(), vec![vec![1, 2, 3], vec![4]]);
    assert!(channel.take_sent().is_empty());
}

#[test]
fn new_channel_defaults() {
    let channel = Channel::new(0x0019);
    assert_eq!(channel.psm(), 0x0019);
    assert_eq!(channel.remote_mtu(), 625);
    assert_eq!(channel.local_mtu(), 0);
    assert_eq!(channel.local_cid(), 0);
    assert_eq!(channel.remote_cid(), 0);
    assert_eq!(channel.sig_seq_num(), 0);
    assert_eq!(channel.sub_state(), Substate::WaitConfig);
    assert_eq!(State::Closed.name(), "CLOSED");
    assert_eq!(channel.state().name(), "WillSendConnectReq");
}
