//! The protocol state of an ONC/RPC client over a stream: transaction ids,
//! record marking of outbound messages and matching of inbound replies. The
//! stream itself is driven by the caller, which hands every record it reads
//! to a [`ResponseReader`].
use vstd::prelude::*;

use crate::error::Error;
use crate::onc::{
    parse_message, AuthModel, AuthFlavor, CallBody, CallModel, MessageBody, MessageModel,
    OpaqueAuth, RpcMessage, LAST_MESSAGE_MARKER, RPC_VERSION,
};
use crate::xdr::{lemma_u32_round_trip, pack_u32, parse_u32, u32_be, XdrPack};

verus! {

/// Record marker of a single-fragment record: the last-fragment bit and the
/// fragment's length.
pub open spec fn record_marker(len: u32) -> u32 {
    len | LAST_MESSAGE_MARKER
}

/// Length of the fragment that a record marker announces.
pub open spec fn marker_len(header: u32) -> u32 {
    header & 0x7fff_ffffu32
}

/// Whether a record marker announces the last fragment of its record.
pub open spec fn marker_last(header: u32) -> bool {
    header & LAST_MESSAGE_MARKER != 0
}

/// Null credentials.
pub open spec fn null_auth() -> AuthModel {
    (AuthFlavor::Null, Seq::<u8>::empty())
}

/// Model of a call message with null credentials and verifier.
pub open spec fn call_model(xid: u32, prog: u32, vers: u32, proc: u32, args: Seq<u8>) -> (
    u32,
    MessageModel,
) {
    (
        xid,
        MessageModel::Call(
            CallModel {
                rpc_version: RPC_VERSION,
                prog,
                vers,
                proc,
                cred: null_auth(),
                verf: null_auth(),
                args,
            },
        ),
    )
}

/// Frames a message as one record: a marker with the last-fragment bit set
/// and the message's length, then the message. A message of 2^31 bytes or
/// more cannot be framed.
pub fn encode_record<T: XdrPack>(msg: T) -> (r: Result<Vec<u8>, Error>)
    requires
        msg.xdr_fits(),
    ensures
        msg.xdr().len() < 0x8000_0000 ==> (r matches Ok(v) && v@ == u32_be(
            record_marker(msg.xdr().len() as u32),
        ) + msg.xdr()),
        msg.xdr().len() >= 0x8000_0000 ==> (r matches Err(Error::InvalidArgument(_))),
{
    let ghost image = msg.xdr();
    let mut packed: Vec<u8> = Vec::new();
    msg.pack_xdr(&mut packed);
    assert(packed@ =~= image);
    if packed.len() >= 0x8000_0000 {
        return Err(Error::invalid_argument("Message too large for one record"));
    }
    let header = (packed.len() as u32) | LAST_MESSAGE_MARKER;
    let mut packet: Vec<u8> = Vec::new();
    pack_u32(header, &mut packet);
    packet.append(&mut packed);
    Ok(packet)
}

/// The length of the fragment that `header` announces.
pub fn fragment_len(header: u32) -> (r: usize)
    ensures
        r == marker_len(header),
{
    (header & 0x7fff_ffffu32) as usize
}

/// Every framed record starts with a marker whose top bit is set and whose
/// low 31 bits count the bytes that follow it.
pub proof fn lemma_record_marker(len: u32)
    requires
        len < 0x8000_0000,
    ensures
        marker_last(record_marker(len)),
        marker_len(record_marker(len)) == len,
{
    assert((len | 0x8000_0000u32) & 0x8000_0000u32 != 0) by (bit_vector);
    assert((len | 0x8000_0000u32) & 0x7fff_ffffu32 == len) by (bit_vector)
        requires
            len < 0x8000_0000u32,
    ;
}

/// The wire image of a framed message starts with a record marker whose top
/// bit is set and whose low 31 bits count exactly the bytes after it.
pub proof fn lemma_record_frame(image: Seq<u8>)
    requires
        image.len() < 0x8000_0000,
    ensures
        ({
            let wire = u32_be(record_marker(image.len() as u32)) + image;
            match parse_u32(wire) {
                Some((h, rest)) => marker_last(h) && marker_len(h) == rest.len() && rest == image,
                None => false,
            }
        }),
{
    lemma_record_marker(image.len() as u32);
    lemma_u32_round_trip(record_marker(image.len() as u32), image);
}

/// Transaction state of one client connection.
pub struct OncClient {
    /// Transaction id of the request in progress, or of the next one
    pub last_xid: u32,
}

impl OncClient {
    /// A client that has sent nothing yet.
    pub fn new() -> (r: Self)
        ensures
            r.last_xid == 0,
    {
        OncClient { last_xid: 0 }
    }

    /// Builds a call of procedure `proc` of program `prog`, version `vers`,
    /// with null credentials and the encoded arguments of `req`. It carries
    /// the client's current transaction id.
    pub fn gen_call_packet<T: XdrPack>(&self, prog: u32, vers: u32, proc: u32, req: T) -> (r:
        RpcMessage)
        requires
            req.xdr_fits(),
        ensures
            r@ == call_model(self.last_xid, prog, vers, proc, req.xdr()),
            r.xdr_fits(),
    {
        let mut args: Vec<u8> = Vec::new();
        req.pack_xdr(&mut args);
        let cred = OpaqueAuth::new_null();
        let verf = OpaqueAuth::new_null();
        let r = RpcMessage {
            xid: self.last_xid,
            body: MessageBody::Call(
                CallBody { rpc_version: RPC_VERSION, prog, vers, proc, cred, verf, args },
            ),
        };
        assert(r@.1 == call_model(self.last_xid, prog, vers, proc, req.xdr()).1);
        r
    }

    /// Starts collecting the replies to the request in progress.
    pub fn response_reader(&self) -> (r: ResponseReader)
        ensures
            r.expected_xid == self.last_xid,
            r.responses@.len() == 0,
            !r.done,
    {
        ResponseReader { expected_xid: self.last_xid, responses: Vec::new(), done: false }
    }

    /// Ends the request in progress: the next one takes the following
    /// transaction id, wrapping after the largest.
    pub fn finish_request(&mut self)
        ensures
            final(self).last_xid == (if old(self).last_xid == u32::MAX {
                0
            } else {
                old(self).last_xid + 1
            }),
    {
        self.last_xid = if self.last_xid == u32::MAX {
            0
        } else {
            self.last_xid + 1
        };
    }
}

/// Replies collected for one request.
pub struct ResponseReader {
    /// Transaction id that replies must carry
    pub expected_xid: u32,
    /// Matching replies, in the order they came
    pub responses: Vec<RpcMessage>,
    /// Whether a matching reply ended its record
    pub done: bool,
}

impl ResponseReader {
    /// Takes one record read from the stream: its marker and its bytes. A
    /// record that does not decode is a bad response. A reply carrying the
    /// expected transaction id is kept, and ends the collection when its
    /// marker has the last-fragment bit; other replies are dropped.
    pub fn on_record(&mut self, header: u32, packet: Vec<u8>) -> (r: Result<(), Error>)
        ensures
            match parse_message(packet@) {
                None => r matches Err(Error::BadResponse(_)) && *final(self) == *old(self),
                Some((m, _)) => r is Ok && final(self).expected_xid == old(self).expected_xid && if m.0
                    == old(self).expected_xid {
                    &&& final(self).responses@.len() == old(self).responses@.len() + 1
                    &&& final(self).responses@.drop_last() == old(self).responses@
                    &&& final(self).responses@.last()@ == m
                    &&& final(self).done == (old(self).done || marker_last(header))
                } else {
                    final(self).responses@ == old(self).responses@ && final(self).done == old(
                        self,
                    ).done
                },
            },
    {
        let mut packet = packet;
        let msg = match RpcMessage::unpack(&mut packet) {
            Ok(m) => m,
            Err(e) => return Err(e),
        };
        if msg.xid == self.expected_xid {
            self.responses.push(msg);
            if header & LAST_MESSAGE_MARKER != 0 {
                self.done = true;
            }
        }
        Ok(())
    }

    /// Whether the collection is complete.
    pub fn is_done(&self) -> (r: bool)
        ensures
            r == self.done,
    {
        self.done
    }

    /// The replies collected.
    pub fn into_responses(self) -> (r: Vec<RpcMessage>)
        ensures
            r@ == self.responses@,
    {
        self.responses
    }
}

/// The results of the first reply, which must report success. No reply at
/// all is an error; a first reply that is not a success gives its decoded
/// status.
pub fn first_success_result(resp: &Vec<RpcMessage>) -> (r: Result<Vec<u8>, Error>)
    ensures
        resp@.len() == 0 ==> (r matches Err(Error::Unspecified(_))),
        resp@.len() > 0 ==> match crate::onc::reply_result(resp@[0].body@) {
            Ok(res) => r matches Ok(v) && v@ == res,
            Err(f) => r == Err::<Vec<u8>, Error>(Error::RpcReply(f)),
        },
{
    if resp.len() == 0 {
        return Err(Error::unspecified("No responses to request"));
    }
    match resp[0].get_success_result() {
        Ok(s) => {
            let mut v: Vec<u8> = Vec::new();
            v.extend_from_slice(s);
            Ok(v)
        },
        Err(e) => Err(e),
    }
}

} // verus!
