//! VXI-11 device link: the calls that create a link, write to it in chunks
//! and read from it until the device signals END.
use vstd::prelude::*;

use vstd::slice::slice_subrange;
use vstd::utf8::encode_utf8;

use crate::error::Error;
use crate::onc::{reply_result, RpcMessage};
use crate::onc_client::{call_model, first_success_result, OncClient};
use crate::rpc::{
    parse_create_link, parse_read_response, parse_write_response, proc_number, RpcDeviceErrorCode,
    RpcOperationFlags, RpcRequest, RpcRequestCreateDeviceLink, RpcRequestDeviceRead,
    RpcRequestDeviceWrite, RpcResponseCreateDeviceLink, RpcResponseDeviceRead,
    RpcResponseDeviceWrite,
};
use crate::xdr::{bool_xdr, i32_xdr, opaque_xdr, u32_be, XdrPack};

verus! {

/// Program number of the VXI-11 core channel.
pub const VXI_CORE_PROG: u32 = 395183;

/// Version of the VXI-11 core channel.
pub const VXI_CORE_VERS: u32 = 1;

/// Program number of the VXI-11 abort channel.
pub const VXI_ABORT_PROG: u32 = 395184;

/// Version of the VXI-11 abort channel.
pub const VXI_ABORT_VERS: u32 = 1;

/// Program number of the VXI-11 interrupt channel.
pub const VXI_INTERRUPT_PROG: u32 = 395185;

/// Version of the VXI-11 interrupt channel.
pub const VXI_INTERRUPT_VERS: u32 = 1;

/// Client ID sent when creating a link.
pub const CLIENT_ID: i32 = 1;

/// Lock and I/O timeout, in milliseconds.
pub const LOCK_TIMEOUT: u32 = 10000;

/// Most bytes asked for in a single read.
pub const READ_SIZE: u32 = 65536;

/// The channels of a VXI-11 device.
#[derive(Clone, Copy, Debug, PartialEq, Eq, Structural)]
pub enum VxiPortType {
    Core,
    Abort,
    Interrupt,
}

/// Program number of a channel.
pub open spec fn port_prog(p: VxiPortType) -> u32 {
    match p {
        VxiPortType::Core => VXI_CORE_PROG,
        VxiPortType::Abort => VXI_ABORT_PROG,
        VxiPortType::Interrupt => VXI_INTERRUPT_PROG,
    }
}

/// Version of a channel.
pub open spec fn port_vers(p: VxiPortType) -> u32 {
    match p {
        VxiPortType::Core => VXI_CORE_VERS,
        VxiPortType::Abort => VXI_ABORT_VERS,
        VxiPortType::Interrupt => VXI_INTERRUPT_VERS,
    }
}

impl VxiPortType {
    /// Program number of this channel.
    pub fn get_prog(&self) -> (r: u32)
        ensures
            r == port_prog(*self),
    {
        match self {
            VxiPortType::Core => VXI_CORE_PROG,
            VxiPortType::Abort => VXI_ABORT_PROG,
            VxiPortType::Interrupt => VXI_INTERRUPT_PROG,
        }
    }

    /// Version of this channel.
    pub fn get_vers(&self) -> (r: u32)
        ensures
            r == port_vers(*self),
    {
        match self {
            VxiPortType::Core => VXI_CORE_VERS,
            VxiPortType::Abort => VXI_ABORT_VERS,
            VxiPortType::Interrupt => VXI_INTERRUPT_VERS,
        }
    }
}

/// A call of procedure `proc` on channel `ptype`, with the client's current
/// transaction id.
pub fn gen_call_packet<T: XdrPack>(
    onc: &OncClient,
    ptype: VxiPortType,
    proc: RpcRequest,
    req: T,
) -> (r: RpcMessage)
    requires
        req.xdr_fits(),
    ensures
        r@ == call_model(
            onc.last_xid,
            port_prog(ptype),
            port_vers(ptype),
            proc_number(proc),
            req.xdr(),
        ),
        r.xdr_fits(),
{
    onc.gen_call_packet(ptype.get_prog(), ptype.get_vers(), proc.number(), req)
}

/// Encoded arguments of the CreateLink call: client 1, no lock, the
/// default lock timeout and the device "inst0".
pub open spec fn create_link_args() -> Seq<u8> {
    i32_xdr(CLIENT_ID) + bool_xdr(false) + u32_be(LOCK_TIMEOUT) + opaque_xdr(encode_utf8("inst0"@))
}

/// The CreateLink call on the core channel.
pub fn create_link_request(onc: &OncClient) -> (r: RpcMessage)
    ensures
        r@ == call_model(onc.last_xid, VXI_CORE_PROG, VXI_CORE_VERS, 10, create_link_args()),
        r.xdr_fits(),
{
    let device = "inst0".to_owned();
    proof {
        reveal_strlit("inst0");
        vstd::utf8::is_ascii_chars_encode_utf8("inst0"@);
    }
    let req = RpcRequestCreateDeviceLink {
        client_id: CLIENT_ID,
        lock_device: false,
        lock_timeout: LOCK_TIMEOUT,
        device,
    };
    gen_call_packet(onc, VxiPortType::Core, RpcRequest::CreateLink, req)
}

/// An open link to a device: its id and the largest write it accepts.
#[derive(Clone, Copy, Debug, PartialEq, Eq, Structural)]
pub struct VxiClientLink {
    pub link_id: i32,
    pub max_recv_size: u32,
}

/// Whether a device reply reports success.
pub open spec fn is_no_error(e: RpcDeviceErrorCode) -> bool {
    e == RpcDeviceErrorCode::NoError
}

/// Checks a device error code: success, or the code itself as the error.
fn check_device_error(e: RpcDeviceErrorCode) -> (r: Result<(), Error>)
    ensures
        is_no_error(e) ==> r is Ok,
        !is_no_error(e) ==> r == Err::<(), Error>(Error::DeviceError(e)),
{
    match e {
        RpcDeviceErrorCode::NoError => Ok(()),
        _ => Err(Error::DeviceError(e)),
    }
}

/// The link that the replies to a CreateLink call describe. The first reply
/// must be a success holding the CreateLink results; a device error is
/// returned as such, and a link that accepts no bytes is a bad response.
pub fn link_from_responses(resp: &Vec<RpcMessage>) -> (r: Result<VxiClientLink, Error>)
    ensures
        resp@.len() == 0 ==> (r matches Err(Error::Unspecified(_))),
        resp@.len() > 0 ==> match reply_result(resp@[0].body@) {
            Err(f) => r == Err::<VxiClientLink, Error>(Error::RpcReply(f)),
            Ok(res) => match parse_create_link(res) {
                None => r matches Err(Error::BadResponse(_)),
                Some((c, _)) => if !is_no_error(c.error) {
                    r == Err::<VxiClientLink, Error>(Error::DeviceError(c.error))
                } else if c.max_recv_size == 0 {
                    r matches Err(Error::BadResponse(_))
                } else {
                    r == Ok::<VxiClientLink, Error>(
                        VxiClientLink { link_id: c.lid, max_recv_size: c.max_recv_size },
                    )
                },
            },
        },
{
    let mut results = match first_success_result(resp) {
        Ok(v) => v,
        Err(e) => return Err(e),
    };
    let created = match RpcResponseCreateDeviceLink::unpack(&mut results) {
        Ok(c) => c,
        Err(e) => return Err(e),
    };
    match check_device_error(created.error) {
        Ok(()) => {},
        Err(e) => return Err(e),
    }
    if created.max_recv_size == 0 {
        return Err(Error::bad_response("Device accepts no bytes per write"));
    }
    Ok(VxiClientLink::new(created.lid, created.max_recv_size))
}

/// Whether the replies to a DeviceWrite call report success. The first
/// reply must be a success holding DeviceWrite results without error.
pub fn check_write_responses(resp: &Vec<RpcMessage>) -> (r: Result<(), Error>)
    ensures
        resp@.len() == 0 ==> (r matches Err(Error::Unspecified(_))),
        resp@.len() > 0 ==> match reply_result(resp@[0].body@) {
            Err(f) => r == Err::<(), Error>(Error::RpcReply(f)),
            Ok(res) => match parse_write_response(res) {
                None => r matches Err(Error::BadResponse(_)),
                Some((w, _)) => if is_no_error(w.error) {
                    r is Ok
                } else {
                    r == Err::<(), Error>(Error::DeviceError(w.error))
                },
            },
        },
{
    let mut results = match first_success_result(resp) {
        Ok(v) => v,
        Err(e) => return Err(e),
    };
    let written = match RpcResponseDeviceWrite::unpack(&mut results) {
        Ok(w) => w,
        Err(e) => return Err(e),
    };
    check_device_error(written.error)
}

/// The data of the replies to a DeviceRead call. The first reply must be a
/// success holding DeviceRead results without error.
pub fn read_from_responses(resp: &Vec<RpcMessage>) -> (r: Result<RpcResponseDeviceRead, Error>)
    ensures
        resp@.len() == 0 ==> (r matches Err(Error::Unspecified(_))),
        resp@.len() > 0 ==> match reply_result(resp@[0].body@) {
            Err(f) => r == Err::<RpcResponseDeviceRead, Error>(Error::RpcReply(f)),
            Ok(res) => match parse_read_response(res) {
                None => r matches Err(Error::BadResponse(_)),
                Some((v, _)) => if is_no_error(v.0) {
                    r matches Ok(x) && x@ == v
                } else {
                    r == Err::<RpcResponseDeviceRead, Error>(Error::DeviceError(v.0))
                },
            },
        },
{
    let mut results = match first_success_result(resp) {
        Ok(v) => v,
        Err(e) => return Err(e),
    };
    let read = match RpcResponseDeviceRead::unpack(&mut results) {
        Ok(r) => r,
        Err(e) => return Err(e),
    };
    match check_device_error(read.error) {
        Ok(()) => Ok(read),
        Err(e) => Err(e),
    }
}

/// End (exclusive) of chunk `j` when `n` bytes are cut into chunks of `m`.
pub open spec fn chunk_end(n: int, m: int, j: int) -> int {
    if (j + 1) * m < n {
        (j + 1) * m
    } else {
        n
    }
}

/// Chunk `j` of `p` cut into chunks of `m` bytes.
pub open spec fn write_chunk(p: Seq<u8>, m: int, j: int) -> Seq<u8> {
    p.subrange(j * m, chunk_end(p.len() as int, m, j))
}

/// The byte sequences joined in order.
pub open spec fn concat_all(s: Seq<Seq<u8>>) -> Seq<u8>
    decreases s.len(),
{
    if s.len() == 0 {
        Seq::empty()
    } else {
        concat_all(s.drop_last()) + s.last()
    }
}

/// The data of each write request.
pub open spec fn write_datas(reqs: Seq<RpcRequestDeviceWrite>) -> Seq<Seq<u8>> {
    reqs.map_values(|q: RpcRequestDeviceWrite| q.data@)
}

/// The arguments of a DeviceWrite of chunk `j` of `n`.
pub open spec fn is_write_chunk(
    q: RpcRequestDeviceWrite,
    link: VxiClientLink,
    p: Seq<u8>,
    j: int,
    last: bool,
) -> bool {
    &&& q.lid == link.link_id
    &&& q.io_timeout == LOCK_TIMEOUT
    &&& q.lock_timeout == LOCK_TIMEOUT
    &&& q.flags == RpcOperationFlags { wait_lock: false, end: last, termchr_set: false }
    &&& q.data@ == write_chunk(p, link.max_recv_size as int, j)
}

impl VxiClientLink {
    /// Whether the link can carry writes: its maximum write is not zero.
    pub open spec fn wf(&self) -> bool {
        self.max_recv_size > 0
    }

    /// A link with the given id and maximum write size.
    pub fn new(link_id: i32, max_recv_size: u32) -> (r: Self)
        requires
            max_recv_size > 0,
        ensures
            r.link_id == link_id,
            r.max_recv_size == max_recv_size,
            r.wf(),
    {
        VxiClientLink { link_id, max_recv_size }
    }

    /// The DeviceWrite arguments that send `data`: ceil(len / max) chunks of
    /// at most `max_recv_size` bytes, in order, only the last with END set.
    /// Together they hold exactly `data`; empty data needs no write.
    pub fn write_requests(&self, data: &[u8]) -> (r: Vec<RpcRequestDeviceWrite>)
        requires
            self.wf(),
        ensures
            r@.len() * self.max_recv_size >= data@.len(),
            r@.len() > 0 ==> (r@.len() - 1) * self.max_recv_size < data@.len(),
            forall|j: int|
                0 <= j < r@.len() ==> is_write_chunk(
                    #[trigger] r@[j],
                    *self,
                    data@,
                    j,
                    j == r@.len() - 1,
                ),
            forall|j: int| 0 <= j < r@.len() ==> (#[trigger] r@[j]).data@.len() <= self.max_recv_size,
            concat_all(write_datas(r@)) == data@,
    {
        let m = self.max_recv_size as usize;
        let n = data.len();
        let mut reqs: Vec<RpcRequestDeviceWrite> = Vec::new();
        let mut off: usize = 0;
        assert(reqs@.len() * m == 0) by (nonlinear_arith)
            requires
                reqs@.len() == 0,
        ;
        assert(data@.take(0) =~= Seq::<u8>::empty());
        while off < n
            invariant
                m == self.max_recv_size,
                m > 0,
                n == data@.len(),
                off <= n,
                off < n ==> off == reqs@.len() * m,
                off == n ==> reqs@.len() * m >= n,
                reqs@.len() > 0 ==> (reqs@.len() - 1) * m < n,
                forall|j: int|
                    0 <= j < reqs@.len() ==> is_write_chunk(
                        #[trigger] reqs@[j],
                        *self,
                        data@,
                        j,
                        (j + 1) * m >= n,
                    ),
                concat_all(write_datas(reqs@)) == data@.take(off as int),
            decreases n - off,
        {
            let k = reqs.len();
            let end_off: usize = if n - off > m {
                off + m
            } else {
                n
            };
            assert((k + 1) * m == k * m + m) by (nonlinear_arith);
            assert(end_off == chunk_end(n as int, m as int, k as int));
            let mut chunk: Vec<u8> = Vec::new();
            chunk.extend_from_slice(slice_subrange(data, off, end_off));
            let last = end_off == n;
            let q = RpcRequestDeviceWrite {
                lid: self.link_id,
                io_timeout: LOCK_TIMEOUT,
                lock_timeout: LOCK_TIMEOUT,
                flags: RpcOperationFlags { wait_lock: false, end: last, termchr_set: false },
                data: chunk,
            };
            assert(q.data@ =~= write_chunk(data@, m as int, k as int));
            let ghost before = reqs@;
            reqs.push(q);
            assert(write_datas(reqs@).drop_last() =~= write_datas(before));
            assert(data@.take(end_off as int) =~= data@.take(off as int) + q.data@);
            off = end_off;
        }
        assert(data@.take(n as int) =~= data@);
        let ghost len = reqs@.len();
        assert forall|j: int| 0 <= j < len implies is_write_chunk(
            #[trigger] reqs@[j],
            *self,
            data@,
            j,
            j == len - 1,
        ) by {
            assert(is_write_chunk(reqs@[j], *self, data@, j, (j + 1) * m >= n));
            if j < len - 1 {
                assert((j + 1) * m <= (len - 1) * m) by (nonlinear_arith)
                    requires
                        j + 1 <= len - 1,
                        m > 0,
                ;
            }
        }
        assert forall|j: int| 0 <= j < len implies (#[trigger] reqs@[j]).data@.len() <= m by {
            assert(is_write_chunk(reqs@[j], *self, data@, j, j == len - 1));
            assert((j + 1) * m == j * m + m) by (nonlinear_arith);
        }
        reqs
    }

    /// The DeviceRead arguments: up to READ_SIZE bytes, default timeouts, no
    /// flags and no termination character.
    pub fn read_request(&self) -> (r: RpcRequestDeviceRead)
        ensures
            r == (RpcRequestDeviceRead {
                lid: self.link_id,
                request_size: READ_SIZE,
                io_timeout: LOCK_TIMEOUT,
                lock_timeout: LOCK_TIMEOUT,
                flags: RpcOperationFlags { wait_lock: false, end: false, termchr_set: false },
                termchr: 0,
            }),
    {
        RpcRequestDeviceRead {
            lid: self.link_id,
            request_size: READ_SIZE,
            io_timeout: LOCK_TIMEOUT,
            lock_timeout: LOCK_TIMEOUT,
            flags: RpcOperationFlags { wait_lock: false, end: false, termchr_set: false },
            termchr: 0,
        }
    }
}

/// One step of reading a message: the data so far grows by the reply's data,
/// and the message is complete when the reply carries END.
pub open spec fn read_step(state: (Seq<u8>, bool), reply: (Seq<u8>, bool)) -> (Seq<u8>, bool) {
    (state.0 + reply.0, reply.1)
}

/// The state after taking the replies in order, starting from nothing.
pub open spec fn read_fold(replies: Seq<(Seq<u8>, bool)>) -> (Seq<u8>, bool)
    decreases replies.len(),
{
    if replies.len() == 0 {
        (Seq::empty(), false)
    } else {
        read_step(read_fold(replies.drop_last()), replies.last())
    }
}

/// A message being read from a device, reply by reply.
pub struct ReadSession {
    /// Data received so far
    pub data: Vec<u8>,
    /// Whether a reply carried END
    pub done: bool,
}

impl ReadSession {
    /// A session that has received nothing.
    pub fn new() -> (r: Self)
        ensures
            r.data@ == Seq::<u8>::empty(),
            !r.done,
    {
        ReadSession { data: Vec::new(), done: false }
    }

    /// Takes the data of one reply.
    pub fn on_reply(&mut self, reply: RpcResponseDeviceRead)
        ensures
            (final(self).data@, final(self).done) == read_step(
                (old(self).data@, old(self).done),
                (reply.data@, reply.reason.end),
            ),
    {
        let mut d = reply.data;
        self.data.append(&mut d);
        self.done = reply.reason.end;
    }
}

/// For replies r_1..r_k with END set on r_k only, reading stops after r_k
/// and not before, and the message is r_1.data || ... || r_k.data.
pub proof fn lemma_read_to_end(replies: Seq<(Seq<u8>, bool)>)
    requires
        replies.len() > 0,
        replies.last().1,
        forall|i: int| 0 <= i < replies.len() - 1 ==> !(#[trigger] replies[i]).1,
    ensures
        read_fold(replies) == (concat_all(replies.map_values(|r: (Seq<u8>, bool)| r.0)), true),
        forall|j: int| 0 < j < replies.len() ==> !(#[trigger] read_fold(replies.take(j))).1,
{
    lemma_read_fold_data(replies);
    assert forall|j: int| 0 < j < replies.len() implies !(#[trigger] read_fold(
        replies.take(j),
    )).1 by {
        assert(replies.take(j).last() == replies[j - 1]);
    }
}

/// The data after any sequence of replies is the concatenation of theirs.
pub proof fn lemma_read_fold_data(replies: Seq<(Seq<u8>, bool)>)
    ensures
        read_fold(replies).0 == concat_all(replies.map_values(|r: (Seq<u8>, bool)| r.0)),
        replies.len() > 0 ==> read_fold(replies).1 == replies.last().1,
    decreases replies.len(),
{
    if replies.len() > 0 {
        lemma_read_fold_data(replies.drop_last());
        assert(replies.map_values(|r: (Seq<u8>, bool)| r.0).drop_last() =~= replies.drop_last().map_values(
            |r: (Seq<u8>, bool)| r.0,
        ));
    }
}

} // verus!
