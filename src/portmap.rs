//! Portmap client, RFC 1833: asks a portmapper which port serves a program.
use vstd::prelude::*;

use crate::error::Error;
use crate::onc::{reply_result, RpcMessage};
use crate::onc_client::{call_model, first_success_result, OncClient};
use crate::xdr::{pack_u32, parse_u16, u32_be, unpack_u16, XdrPack};

verus! {

/// Program number of the portmapper.
pub const PORTMAP_PROG: u32 = 100000;

/// Version of the portmap protocol spoken here.
pub const PORTMAP_VERS: u32 = 2;

/// Procedure number of GETPORT.
pub const PORTMAP_GETPORT: u32 = 3;

/// Port on which a portmapper listens.
pub const PORTMAP_PORT: u16 = 111;

/// Transport protocols a mapping can name.
#[derive(Clone, Copy, Debug, PartialEq, Eq, Structural)]
pub enum RpcIpProto {
    Tcp,
    Udp,
}

/// IP protocol number of a transport.
pub open spec fn proto_number(p: RpcIpProto) -> u32 {
    match p {
        RpcIpProto::Tcp => 6,
        RpcIpProto::Udp => 17,
    }
}

impl RpcIpProto {
    /// IP protocol number of this transport.
    pub fn number(&self) -> (r: u32)
        ensures
            r == proto_number(*self),
    {
        match self {
            RpcIpProto::Tcp => 6,
            RpcIpProto::Udp => 17,
        }
    }
}

/// A mapping of program and version to a port.
#[derive(Clone, Copy, Debug, PartialEq, Eq, Structural)]
pub struct RpcMapping {
    /// Program number
    pub prog: u32,
    /// Version number
    pub vers: u32,
    /// Protocol number
    pub prot: RpcIpProto,
    /// Port
    pub port: u32,
}

/// XDR image of a mapping: four words.
pub open spec fn mapping_xdr(m: RpcMapping) -> Seq<u8> {
    u32_be(m.prog) + u32_be(m.vers) + u32_be(proto_number(m.prot)) + u32_be(m.port)
}

impl XdrPack for RpcMapping {
    open spec fn xdr(&self) -> Seq<u8> {
        mapping_xdr(*self)
    }

    open spec fn xdr_fits(&self) -> bool {
        true
    }

    fn pack_xdr(self, out: &mut Vec<u8>) {
        pack_u32(self.prog, out);
        pack_u32(self.vers, out);
        pack_u32(self.prot.number(), out);
        pack_u32(self.port, out);
        assert(final(out)@ =~= old(out)@ + mapping_xdr(self));
    }
}

/// The GETPORT call asking which port serves version `vers` of program
/// `prog` over `prot`.
pub fn port_request(client: &OncClient, prog: u32, vers: u32, prot: RpcIpProto) -> (r:
    RpcMessage)
    ensures
        r@ == call_model(
            client.last_xid,
            PORTMAP_PROG,
            PORTMAP_VERS,
            PORTMAP_GETPORT,
            mapping_xdr(RpcMapping { prog, vers, prot, port: 0 }),
        ),
        r.xdr_fits(),
{
    let mapping = RpcMapping { prog, vers, prot, port: 0 };
    client.gen_call_packet(PORTMAP_PROG, PORTMAP_VERS, PORTMAP_GETPORT, mapping)
}

/// The port that the replies to a GETPORT call report. The first reply is
/// taken; it must be a success whose result is a 16-bit value.
pub fn port_from_responses(resp: &Vec<RpcMessage>) -> (r: Result<u16, Error>)
    ensures
        resp@.len() == 0 ==> (r matches Err(Error::Unspecified(_))),
        resp@.len() > 0 ==> match reply_result(resp@[0].body@) {
            Ok(res) => match parse_u16(res) {
                Some((port, _)) => r == Ok::<u16, Error>(port),
                None => r matches Err(Error::BadResponse(_)),
            },
            Err(f) => r == Err::<u16, Error>(Error::RpcReply(f)),
        },
{
    let mut results = match first_success_result(resp) {
        Ok(v) => v,
        Err(e) => return Err(e),
    };
    unpack_u16(&mut results)
}

} // verus!
