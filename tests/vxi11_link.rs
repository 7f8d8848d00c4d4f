use testeq_rs::error::Error;
use testeq_rs::onc::{
    AcceptedReplyBody, AcceptedReplyBodyType, AuthFlavor, AuthStat, MessageBody, OpaqueAuth,
    ProgMismatchBody, RejectedReplyBody, ReplyBody, ReplyFailure, RpcMessage,
    SuccessAcceptedReplyBody,
};
use testeq_rs::onc_client::{encode_record, fragment_len, OncClient};
use testeq_rs::portmap::{port_from_responses, port_request, RpcIpProto};
use testeq_rs::rpc::{
    RpcDeviceErrorCode, RpcDeviceReadReason, RpcOperationFlags, RpcRequestDeviceRead,
    RpcResponseDeviceRead,
};
use testeq_rs::vxi11::{
    check_write_responses, create_link_request, link_from_responses, read_from_responses,
    ReadSession, VxiClientLink,
};
use testeq_rs::xdr::XdrPack;

fn words(ws: &[u32]) -> Vec<u8> {
    ws.iter().flat_map(|w| w.to_be_bytes()).collect()
}

/// Bytes of an accepted, successful reply with the given results.
fn success_reply(xid: u32, results: &[u8]) -> Vec<u8> {
    let mut b = words(&[xid, 1, 0, 0, 0, 0]);
    b.extend_from_slice(results);
    b
}

fn collect(client: &OncClient, records: &[(u32, Vec<u8>)]) -> Vec<RpcMessage> {
    let mut reader = client.response_reader();
    for (header, packet) in records {
        assert!(!reader.is_done());
        reader.on_record(*header, packet.clone()).unwrap();
    }
    assert!(reader.is_done());
    reader.into_responses()
}

#[test]
fn portmap_getport_round_trip() {
    let client = OncClient::new();
    let msg = port_request(&client, 100000, 1, RpcIpProto::Tcp);
    let wire = encode_record(msg).unwrap();
    let body = words(&[0, 0, 2, 100000, 2, 3, 0, 0, 0, 0, 100000, 1, 6, 0]);
    assert_eq!(&wire[..4], &(0x8000_0000u32 | body.len() as u32).to_be_bytes());
    assert_eq!(&wire[4..], &body[..]);

    let reply = success_reply(0, &words(&[703]));
    let resp = collect(&client, &[(0x8000_0000 | reply.len() as u32, reply)]);
    assert_eq!(port_from_responses(&resp).unwrap(), 703);
}

#[test]
fn record_marker_counts_following_bytes() {
    let client = OncClient::new();
    let wire = encode_record(port_request(&client, 1, 2, RpcIpProto::Udp)).unwrap();
    let header = u32::from_be_bytes([wire[0], wire[1], wire[2], wire[3]]);
    assert_ne!(header & 0x8000_0000, 0);
    assert_eq!(fragment_len(header), wire.len() - 4);
}

#[test]
fn create_link_success() {
    let client = OncClient::new();
    let msg = create_link_request(&client);
    let wire = encode_record(msg).unwrap();
    let mut args = words(&[1, 0, 10000, 5]);
    args.extend_from_slice(b"inst0\0\0\0");
    let mut body = words(&[0, 0, 2, 395183, 1, 10, 0, 0, 0, 0]);
    body.extend_from_slice(&args);
    assert_eq!(&wire[4..], &body[..]);

    let reply = success_reply(0, &words(&[0, 7, 1024, 1500]));
    let resp = collect(&client, &[(0x8000_0000 | reply.len() as u32, reply)]);
    let link = link_from_responses(&resp).unwrap();
    assert_eq!(link.link_id, 7);
    assert_eq!(link.max_recv_size, 1500);
}

#[test]
fn create_link_device_error_is_surfaced() {
    let client = OncClient::new();
    let reply = success_reply(0, &words(&[11, 7, 1024, 1500]));
    let resp = collect(&client, &[(0x8000_0000 | reply.len() as u32, reply)]);
    assert!(matches!(
        link_from_responses(&resp),
        Err(Error::DeviceError(RpcDeviceErrorCode::DeviceLockedByAnotherLink))
    ));
}

#[test]
fn create_link_zero_write_size_is_bad_response() {
    let client = OncClient::new();
    let reply = success_reply(0, &words(&[0, 7, 1024, 0]));
    let resp = collect(&client, &[(0x8000_0000 | reply.len() as u32, reply)]);
    assert!(matches!(link_from_responses(&resp), Err(Error::BadResponse(_))));
}

#[test]
fn device_write_chunking() {
    let link = VxiClientLink::new(7, 1500);
    let payload: Vec<u8> = (0..3500u32).map(|i| (i % 251) as u8).collect();
    let reqs = link.write_requests(&payload);
    let sizes: Vec<usize> = reqs.iter().map(|r| r.data.len()).collect();
    assert_eq!(sizes, vec![1500, 1500, 500]);
    let ends: Vec<bool> = reqs.iter().map(|r| r.flags.end).collect();
    assert_eq!(ends, vec![false, false, true]);
    let joined: Vec<u8> = reqs.iter().flat_map(|r| r.data.clone()).collect();
    assert_eq!(joined, payload);
    assert!(reqs.iter().all(|r| r.lid == 7 && r.io_timeout == 10000 && r.lock_timeout == 10000));
}

#[test]
fn device_write_exact_multiple_and_empty() {
    let link = VxiClientLink::new(3, 4);
    let reqs = link.write_requests(&[1, 2, 3, 4, 5, 6, 7, 8]);
    assert_eq!(reqs.len(), 2);
    assert!(!reqs[0].flags.end && reqs[1].flags.end);
    assert!(link.write_requests(&[]).is_empty());
}

#[test]
fn device_write_request_bytes() {
    let link = VxiClientLink::new(7, 1500);
    let reqs = link.write_requests(b"*IDN?\r\n");
    let mut out = Vec::new();
    for r in reqs {
        r.pack_xdr(&mut out);
    }
    let mut expected = words(&[7, 10000, 10000, 8, 7]);
    expected.extend_from_slice(b"*IDN?\r\n\0");
    assert_eq!(out, expected);
}

#[test]
fn device_write_error_is_surfaced() {
    let client = OncClient::new();
    let ok = success_reply(0, &words(&[0, 7]));
    let resp = collect(&client, &[(0x8000_0000 | ok.len() as u32, ok)]);
    assert!(check_write_responses(&resp).is_ok());
    let bad = success_reply(0, &words(&[15, 0]));
    let resp = collect(&client, &[(0x8000_0000 | bad.len() as u32, bad)]);
    assert!(matches!(
        check_write_responses(&resp),
        Err(Error::DeviceError(RpcDeviceErrorCode::IoTimeout))
    ));
}

fn read_reply(xid: u32, reason: u32, data: &[u8]) -> Vec<u8> {
    let mut results = words(&[0, reason, data.len() as u32]);
    results.extend_from_slice(data);
    while results.len() % 4 != 0 {
        results.push(0);
    }
    success_reply(xid, &results)
}

#[test]
fn device_read_to_end() {
    let mut client = OncClient::new();
    let mut session = ReadSession::new();
    let first = read_reply(0, 1, &vec![b'A'; 32768]);
    let second = read_reply(1, 4, &vec![b'B'; 100]);
    for reply in [first, second] {
        let resp = collect(&client, &[(0x8000_0000 | reply.len() as u32, reply)]);
        let read = read_from_responses(&resp).unwrap();
        session.on_reply(read);
        client.finish_request();
    }
    assert!(session.done);
    assert_eq!(session.data.len(), 32868);
    assert!(session.data[..32768].iter().all(|&b| b == b'A'));
    assert!(session.data[32768..].iter().all(|&b| b == b'B'));
}

#[test]
fn read_session_stops_only_at_end() {
    let mut session = ReadSession::new();
    let reason = RpcDeviceReadReason { reqcnt: true, chr: false, end: false };
    session.on_reply(RpcResponseDeviceRead {
        error: RpcDeviceErrorCode::NoError,
        reason,
        data: vec![1, 2],
    });
    assert!(!session.done);
    let reason = RpcDeviceReadReason { reqcnt: false, chr: false, end: true };
    session.on_reply(RpcResponseDeviceRead {
        error: RpcDeviceErrorCode::NoError,
        reason,
        data: vec![3],
    });
    assert!(session.done);
    assert_eq!(session.data, vec![1, 2, 3]);
}

#[test]
fn read_request_bytes() {
    let link = VxiClientLink::new(7, 1500);
    let req: RpcRequestDeviceRead = link.read_request();
    let mut out = Vec::new();
    req.pack_xdr(&mut out);
    assert_eq!(out, words(&[7, 65536, 10000, 10000, 0, 0]));
}

#[test]
fn operation_flag_bits() {
    let f = RpcOperationFlags { wait_lock: true, end: true, termchr_set: true };
    assert_eq!(f.word(), 0x89);
    let mut src = words(&[7]);
    let r = RpcDeviceReadReason::unpack(&mut src).unwrap();
    assert!(r.reqcnt && r.chr && r.end);
}

#[test]
fn device_error_codes_decode() {
    let cases = [
        (0u32, RpcDeviceErrorCode::NoError),
        (1, RpcDeviceErrorCode::SyntaxError),
        (3, RpcDeviceErrorCode::DeviceNotAccessible),
        (4, RpcDeviceErrorCode::InvalidLinkIdentifier),
        (5, RpcDeviceErrorCode::ParameterError),
        (6, RpcDeviceErrorCode::ChannelNotEstablished),
        (8, RpcDeviceErrorCode::OperationNotSupported),
        (9, RpcDeviceErrorCode::OutOfResources),
        (11, RpcDeviceErrorCode::DeviceLockedByAnotherLink),
        (12, RpcDeviceErrorCode::NoLockHeldByThisLink),
        (15, RpcDeviceErrorCode::IoTimeout),
        (17, RpcDeviceErrorCode::IoError),
        (21, RpcDeviceErrorCode::InvalidAddress),
        (23, RpcDeviceErrorCode::Abort),
        (29, RpcDeviceErrorCode::ChannelAlreadyEstablished),
        (2, RpcDeviceErrorCode::Unknown(2)),
    ];
    for (code, expected) in cases {
        let mut src = words(&[code]);
        assert_eq!(RpcDeviceErrorCode::unpack(&mut src).unwrap(), expected);
    }
}

#[test]
fn replies_with_other_xids_are_dropped() {
    let mut client = OncClient::new();
    client.finish_request();
    assert_eq!(client.last_xid, 1);
    let mut reader = client.response_reader();
    let stale = success_reply(0, &words(&[1]));
    reader.on_record(0x8000_0000 | stale.len() as u32, stale).unwrap();
    assert!(!reader.is_done());
    let fresh = success_reply(1, &words(&[2]));
    reader.on_record(fresh.len() as u32, fresh.clone()).unwrap();
    assert!(!reader.is_done());
    reader.on_record(0x8000_0000 | fresh.len() as u32, fresh).unwrap();
    assert!(reader.is_done());
    assert_eq!(reader.into_responses().len(), 2);
}

#[test]
fn undecodable_record_is_bad_response() {
    let client = OncClient::new();
    let mut reader = client.response_reader();
    assert!(matches!(reader.on_record(0x8000_0004, vec![0, 0, 0, 0]), Err(Error::BadResponse(_))));
    assert!(matches!(
        reader.on_record(0x8000_0008, words(&[0, 7])),
        Err(Error::BadResponse(_))
    ));
}

#[test]
fn rejected_and_failed_replies_are_errors() {
    let mut src = words(&[5, 1, 1, 1, 3]);
    let msg = RpcMessage::unpack(&mut src).unwrap();
    assert!(matches!(
        msg.body,
        MessageBody::Reply(ReplyBody::Rejected(RejectedReplyBody::AuthError(
            AuthStat::AuthBadVerf
        )))
    ));
    assert!(matches!(
        msg.get_success_result(),
        Err(Error::RpcReply(ReplyFailure::Rejected(RejectedReplyBody::AuthError(
            AuthStat::AuthBadVerf
        ))))
    ));

    let mut src = words(&[6, 1, 0, 0, 0, 2, 1, 3]);
    let msg = RpcMessage::unpack(&mut src).unwrap();
    assert!(matches!(
        msg.get_success_result(),
        Err(Error::RpcReply(ReplyFailure::ProgMismatch(ProgMismatchBody { low: 1, high: 3 })))
    ));

    let accepted = |status: u32| {
        let mut src = words(&[7, 1, 0, 0, 0, status]);
        RpcMessage::unpack(&mut src).unwrap().get_success_result().map(|r| r.to_vec())
    };
    assert!(matches!(accepted(1), Err(Error::RpcReply(ReplyFailure::ProgUnavail))));
    assert!(matches!(accepted(3), Err(Error::RpcReply(ReplyFailure::ProcUnavail))));
    assert!(matches!(accepted(4), Err(Error::RpcReply(ReplyFailure::GarbageArgs))));
    assert!(matches!(accepted(5), Err(Error::RpcReply(ReplyFailure::SystemErr))));

    let mut src = words(&[8, 1, 1, 0, 2, 4]);
    let msg = RpcMessage::unpack(&mut src).unwrap();
    assert!(matches!(
        msg.get_success_result(),
        Err(Error::RpcReply(ReplyFailure::Rejected(RejectedReplyBody::Mismatch(_))))
    ));

    let client = OncClient::new();
    assert!(matches!(port_from_responses(&Vec::new()), Err(Error::Unspecified(_))));
    let call = port_request(&client, 1, 1, RpcIpProto::Tcp);
    assert!(matches!(call.get_success_result(), Err(Error::RpcReply(ReplyFailure::NotAReply))));

    let rejected = words(&[0, 1, 1, 1, 1]);
    let resp = collect(&client, &[(0x8000_0000 | rejected.len() as u32, rejected)]);
    assert!(matches!(
        port_from_responses(&resp),
        Err(Error::RpcReply(ReplyFailure::Rejected(RejectedReplyBody::AuthError(
            AuthStat::AuthBadCred
        ))))
    ));
}

#[test]
fn reply_pack_and_unpack_agree() {
    let reply = RpcMessage {
        xid: 42,
        body: MessageBody::Reply(ReplyBody::Accepted(AcceptedReplyBody {
            verf: OpaqueAuth { flavor: AuthFlavor::Sys, body: vec![1, 2, 3] },
            body: AcceptedReplyBodyType::Success(SuccessAcceptedReplyBody { results: vec![9, 8] }),
        })),
    };
    let mut buf = Vec::new();
    reply.pack_xdr(&mut buf);
    assert_eq!(buf, {
        let mut b = words(&[42, 1, 0, 1, 3]);
        b.extend_from_slice(&[1, 2, 3, 0]);
        b.extend_from_slice(&words(&[0]));
        b.extend_from_slice(&[9, 8]);
        b
    });
    let msg = RpcMessage::unpack(&mut buf).unwrap();
    assert_eq!(msg.xid, 42);
    assert_eq!(msg.get_success_result().unwrap(), &[9, 8]);
}

#[test]
fn null_auth_is_empty() {
    let a = OpaqueAuth::new_null();
    assert_eq!(a.flavor, AuthFlavor::Null);
    assert!(a.body.is_empty());
    let mut src = words(&[9, 0]);
    assert!(matches!(OpaqueAuth::unpack(&mut src), Err(Error::BadResponse(_))));
}
