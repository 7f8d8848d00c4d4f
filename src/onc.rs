//! Open Network Computing (ONC) RPC messages, as defined by RFC 5531.
use vstd::prelude::*;

use crate::error::Error;
use crate::xdr::{
    opaque_xdr, pack_opaque, pack_u32, parse_opaque, parse_u32, u32_be, unpack_opaque, unpack_u32,
    XdrPack,
};

verus! {

/// The RPC protocol version carried by every call.
pub const RPC_VERSION: u32 = 2;

/// Top bit of a record marker: this fragment is the last of its record.
pub const LAST_MESSAGE_MARKER: u32 = 0x8000_0000;

/// Status of a rejected authentication.
#[derive(Clone, Copy, Debug, PartialEq, Eq, Structural)]
pub enum AuthStat {
    AuthOk,
    AuthBadCred,
    AuthRejectedCred,
    AuthBadVerf,
    AuthRejectedVerf,
    AuthTooWeak,
    AuthInvalidResp,
    AuthFailed,
    AuthKerbGeneric,
    AuthTimeExpire,
    AuthTktFile,
    AuthDecode,
    AuthNetAddr,
    RpcSecGssCredProblem,
    RpcSecGssCtxProblem,
}

/// Wire value of an authentication status.
pub open spec fn auth_stat_code(a: AuthStat) -> u32 {
    match a {
        AuthStat::AuthOk => 0,
        AuthStat::AuthBadCred => 1,
        AuthStat::AuthRejectedCred => 2,
        AuthStat::AuthBadVerf => 3,
        AuthStat::AuthRejectedVerf => 4,
        AuthStat::AuthTooWeak => 5,
        AuthStat::AuthInvalidResp => 6,
        AuthStat::AuthFailed => 7,
        AuthStat::AuthKerbGeneric => 8,
        AuthStat::AuthTimeExpire => 9,
        AuthStat::AuthTktFile => 10,
        AuthStat::AuthDecode => 11,
        AuthStat::AuthNetAddr => 12,
        AuthStat::RpcSecGssCredProblem => 13,
        AuthStat::RpcSecGssCtxProblem => 14,
    }
}

/// Decoding an authentication status from the head of `s`.
pub open spec fn parse_auth_stat(s: Seq<u8>) -> Option<(AuthStat, Seq<u8>)> {
    match parse_u32(s) {
        Some((c, rest)) => if c <= 14 {
            Some((choose|a: AuthStat| auth_stat_code(a) == c, rest))
        } else {
            None
        },
        None => None,
    }
}

impl AuthStat {
    /// Wire value of this status.
    pub fn code(&self) -> (r: u32)
        ensures
            r == auth_stat_code(*self),
    {
        match self {
            AuthStat::AuthOk => 0,
            AuthStat::AuthBadCred => 1,
            AuthStat::AuthRejectedCred => 2,
            AuthStat::AuthBadVerf => 3,
            AuthStat::AuthRejectedVerf => 4,
            AuthStat::AuthTooWeak => 5,
            AuthStat::AuthInvalidResp => 6,
            AuthStat::AuthFailed => 7,
            AuthStat::AuthKerbGeneric => 8,
            AuthStat::AuthTimeExpire => 9,
            AuthStat::AuthTktFile => 10,
            AuthStat::AuthDecode => 11,
            AuthStat::AuthNetAddr => 12,
            AuthStat::RpcSecGssCredProblem => 13,
            AuthStat::RpcSecGssCtxProblem => 14,
        }
    }

    /// Reads an authentication status; an unknown value is a bad response.
    pub fn unpack(src: &mut Vec<u8>) -> (r: Result<Self, Error>)
        ensures
            match parse_auth_stat(old(src)@) {
                Some((a, rest)) => r == Ok::<AuthStat, Error>(a) && final(src)@ == rest,
                None => r matches Err(Error::BadResponse(_)),
            },
    {
        let code = match unpack_u32(src) {
            Ok(c) => c,
            Err(e) => return Err(e),
        };
        let a = match code {
            0 => AuthStat::AuthOk,
            1 => AuthStat::AuthBadCred,
            2 => AuthStat::AuthRejectedCred,
            3 => AuthStat::AuthBadVerf,
            4 => AuthStat::AuthRejectedVerf,
            5 => AuthStat::AuthTooWeak,
            6 => AuthStat::AuthInvalidResp,
            7 => AuthStat::AuthFailed,
            8 => AuthStat::AuthKerbGeneric,
            9 => AuthStat::AuthTimeExpire,
            10 => AuthStat::AuthTktFile,
            11 => AuthStat::AuthDecode,
            12 => AuthStat::AuthNetAddr,
            13 => AuthStat::RpcSecGssCredProblem,
            14 => AuthStat::RpcSecGssCtxProblem,
            _ => return Err(Error::bad_response("Unknown message type")),
        };
        assert(auth_stat_code(a) == code);
        Ok(a)
    }
}

/// Authentication flavors.
#[derive(Clone, Copy, Debug, PartialEq, Eq, Structural)]
pub enum AuthFlavor {
    Null,
    Sys,
    Short,
    Dh,
    RpcSecGss,
}

/// Wire value of an authentication flavor.
pub open spec fn flavor_code(f: AuthFlavor) -> u32 {
    match f {
        AuthFlavor::Null => 0,
        AuthFlavor::Sys => 1,
        AuthFlavor::Short => 2,
        AuthFlavor::Dh => 3,
        AuthFlavor::RpcSecGss => 4,
    }
}

/// The flavor with wire value `c`, if any.
pub open spec fn flavor_of_code(c: u32) -> Option<AuthFlavor> {
    if c == 0 {
        Some(AuthFlavor::Null)
    } else if c == 1 {
        Some(AuthFlavor::Sys)
    } else if c == 2 {
        Some(AuthFlavor::Short)
    } else if c == 3 {
        Some(AuthFlavor::Dh)
    } else if c == 4 {
        Some(AuthFlavor::RpcSecGss)
    } else {
        None
    }
}

/// Credentials or verifier: a flavor and its opaque body.
#[derive(Debug)]
pub struct OpaqueAuth {
    pub flavor: AuthFlavor,
    pub body: Vec<u8>,
}

/// Model of an authentication record: its flavor and body bytes.
pub type AuthModel = (AuthFlavor, Seq<u8>);

/// XDR image of an authentication record.
pub open spec fn auth_xdr(a: AuthModel) -> Seq<u8> {
    u32_be(flavor_code(a.0)) + opaque_xdr(a.1)
}

/// Decoding an authentication record from the head of `s`.
pub open spec fn parse_auth(s: Seq<u8>) -> Option<(AuthModel, Seq<u8>)> {
    match parse_u32(s) {
        Some((c, r1)) => match flavor_of_code(c) {
            Some(f) => match parse_opaque(r1) {
                Some((b, r2)) => Some(((f, b), r2)),
                None => None,
            },
            None => None,
        },
        None => None,
    }
}

impl View for OpaqueAuth {
    type V = AuthModel;

    open spec fn view(&self) -> AuthModel {
        (self.flavor, self.body@)
    }
}

impl OpaqueAuth {
    /// Reads an authentication record; an unknown flavor is a bad response.
    pub fn unpack(src: &mut Vec<u8>) -> (r: Result<Self, Error>)
        ensures
            match parse_auth(old(src)@) {
                Some((a, rest)) => r matches Ok(v) && v@ == a && final(src)@ == rest,
                None => r matches Err(Error::BadResponse(_)),
            },
    {
        let code = match unpack_u32(src) {
            Ok(c) => c,
            Err(e) => return Err(e),
        };
        let flavor = match code {
            0 => AuthFlavor::Null,
            1 => AuthFlavor::Sys,
            2 => AuthFlavor::Short,
            3 => AuthFlavor::Dh,
            4 => AuthFlavor::RpcSecGss,
            _ => return Err(Error::bad_response("Unknown auth flavor")),
        };
        let body = match unpack_opaque(src) {
            Ok(b) => b,
            Err(e) => return Err(e),
        };
        Ok(OpaqueAuth { flavor, body })
    }

    /// The empty credential of the null flavor.
    pub fn new_null() -> (r: Self)
        ensures
            r@ == (AuthFlavor::Null, Seq::<u8>::empty()),
    {
        OpaqueAuth { flavor: AuthFlavor::Null, body: Vec::new() }
    }

    fn flavor_code(&self) -> (r: u32)
        ensures
            r == flavor_code(self.flavor),
    {
        match self.flavor {
            AuthFlavor::Null => 0,
            AuthFlavor::Sys => 1,
            AuthFlavor::Short => 2,
            AuthFlavor::Dh => 3,
            AuthFlavor::RpcSecGss => 4,
        }
    }
}

impl XdrPack for OpaqueAuth {
    open spec fn xdr(&self) -> Seq<u8> {
        auth_xdr(self@)
    }

    open spec fn xdr_fits(&self) -> bool {
        self.body@.len() <= u32::MAX
    }

    fn pack_xdr(self, out: &mut Vec<u8>) {
        pack_u32(self.flavor_code(), out);
        pack_opaque(self.body.as_slice(), out);
        assert(final(out)@ =~= old(out)@ + auth_xdr(self@));
    }
}

/// Bounds of the versions a server supports.
#[derive(Clone, Copy, Debug, PartialEq, Eq, Structural)]
pub struct ProgMismatchBody {
    pub low: u32,
    pub high: u32,
}

/// Decoding a version range from the head of `s`.
pub open spec fn parse_mismatch(s: Seq<u8>) -> Option<(ProgMismatchBody, Seq<u8>)> {
    match parse_u32(s) {
        Some((low, r1)) => match parse_u32(r1) {
            Some((high, r2)) => Some((ProgMismatchBody { low, high }, r2)),
            None => None,
        },
        None => None,
    }
}

impl ProgMismatchBody {
    /// Reads the lowest and highest supported versions.
    pub fn unpack(src: &mut Vec<u8>) -> (r: Result<Self, Error>)
        ensures
            match parse_mismatch(old(src)@) {
                Some((m, rest)) => r == Ok::<ProgMismatchBody, Error>(m) && final(src)@ == rest,
                None => r matches Err(Error::BadResponse(_)),
            },
    {
        let low = match unpack_u32(src) {
            Ok(v) => v,
            Err(e) => return Err(e),
        };
        let high = match unpack_u32(src) {
            Ok(v) => v,
            Err(e) => return Err(e),
        };
        Ok(ProgMismatchBody { low, high })
    }
}

/// Successful results of a call: the remainder of the reply.
#[derive(Debug)]
pub struct SuccessAcceptedReplyBody {
    pub results: Vec<u8>,
}

impl SuccessAcceptedReplyBody {
    /// Takes every remaining byte as the procedure's results.
    pub fn unpack(src: &mut Vec<u8>) -> (r: Result<Self, Error>)
        ensures
            r matches Ok(v) && v.results@ == old(src)@,
            final(src)@.len() == 0,
    {
        let mut results = Vec::new();
        std::mem::swap(src, &mut results);
        Ok(SuccessAcceptedReplyBody { results })
    }
}

/// Outcome of a call the server accepted.
#[derive(Debug)]
pub enum AcceptedReplyBodyType {
    Success(SuccessAcceptedReplyBody),
    ProgUnavail(),
    ProgMismatch(ProgMismatchBody),
    ProcUnavail(),
    GarbageArgs(),
    SystemErr(),
}

/// Model of an accepted outcome.
pub enum AcceptedModel {
    Success(Seq<u8>),
    ProgUnavail,
    ProgMismatch(ProgMismatchBody),
    ProcUnavail,
    GarbageArgs,
    SystemErr,
}

impl View for AcceptedReplyBodyType {
    type V = AcceptedModel;

    open spec fn view(&self) -> AcceptedModel {
        match self {
            AcceptedReplyBodyType::Success(s) => AcceptedModel::Success(s.results@),
            AcceptedReplyBodyType::ProgUnavail() => AcceptedModel::ProgUnavail,
            AcceptedReplyBodyType::ProgMismatch(m) => AcceptedModel::ProgMismatch(*m),
            AcceptedReplyBodyType::ProcUnavail() => AcceptedModel::ProcUnavail,
            AcceptedReplyBodyType::GarbageArgs() => AcceptedModel::GarbageArgs,
            AcceptedReplyBodyType::SystemErr() => AcceptedModel::SystemErr,
        }
    }
}

/// XDR image of an accepted outcome.
pub open spec fn accepted_type_xdr(m: AcceptedModel) -> Seq<u8> {
    match m {
        AcceptedModel::Success(res) => u32_be(0) + res,
        AcceptedModel::ProgUnavail => u32_be(1),
        AcceptedModel::ProgMismatch(p) => u32_be(2) + u32_be(p.low) + u32_be(p.high),
        AcceptedModel::ProcUnavail => u32_be(3),
        AcceptedModel::GarbageArgs => u32_be(4),
        AcceptedModel::SystemErr => u32_be(5),
    }
}

/// Decoding an accepted outcome from the head of `s`; a success takes the
/// whole remainder as its results.
pub open spec fn parse_accepted_type(s: Seq<u8>) -> Option<(AcceptedModel, Seq<u8>)> {
    match parse_u32(s) {
        Some((c, rest)) => if c == 0 {
            Some((AcceptedModel::Success(rest), Seq::empty()))
        } else if c == 1 {
            Some((AcceptedModel::ProgUnavail, rest))
        } else if c == 2 {
            match parse_mismatch(rest) {
                Some((m, r2)) => Some((AcceptedModel::ProgMismatch(m), r2)),
                None => None,
            }
        } else if c == 3 {
            Some((AcceptedModel::ProcUnavail, rest))
        } else if c == 4 {
            Some((AcceptedModel::GarbageArgs, rest))
        } else if c == 5 {
            Some((AcceptedModel::SystemErr, rest))
        } else {
            None
        },
        None => None,
    }
}

impl AcceptedReplyBodyType {
    /// Reads an accepted outcome; an unknown kind is a bad response.
    pub fn unpack(src: &mut Vec<u8>) -> (r: Result<Self, Error>)
        ensures
            match parse_accepted_type(old(src)@) {
                Some((m, rest)) => r matches Ok(v) && v@ == m && final(src)@ == rest,
                None => r matches Err(Error::BadResponse(_)),
            },
    {
        let code = match unpack_u32(src) {
            Ok(c) => c,
            Err(e) => return Err(e),
        };
        if code == 0 {
            match SuccessAcceptedReplyBody::unpack(src) {
                Ok(s) => {
                    assert(final(src)@ =~= Seq::<u8>::empty());
                    Ok(AcceptedReplyBodyType::Success(s))
                },
                Err(e) => Err(e),
            }
        } else if code == 1 {
            Ok(AcceptedReplyBodyType::ProgUnavail())
        } else if code == 2 {
            match ProgMismatchBody::unpack(src) {
                Ok(m) => Ok(AcceptedReplyBodyType::ProgMismatch(m)),
                Err(e) => Err(e),
            }
        } else if code == 3 {
            Ok(AcceptedReplyBodyType::ProcUnavail())
        } else if code == 4 {
            Ok(AcceptedReplyBodyType::GarbageArgs())
        } else if code == 5 {
            Ok(AcceptedReplyBodyType::SystemErr())
        } else {
            Err(Error::bad_response("Unknown accepted reply type"))
        }
    }

    fn pack_xdr(self, out: &mut Vec<u8>)
        ensures
            final(out)@ == old(out)@ + accepted_type_xdr(self@),
    {
        match self {
            AcceptedReplyBodyType::Success(s) => {
                pack_u32(0, out);
                out.extend_from_slice(s.results.as_slice());
            },
            AcceptedReplyBodyType::ProgUnavail() => pack_u32(1, out),
            AcceptedReplyBodyType::ProgMismatch(m) => {
                pack_u32(2, out);
                pack_u32(m.low, out);
                pack_u32(m.high, out);
            },
            AcceptedReplyBodyType::ProcUnavail() => pack_u32(3, out),
            AcceptedReplyBodyType::GarbageArgs() => pack_u32(4, out),
            AcceptedReplyBodyType::SystemErr() => pack_u32(5, out),
        }
        assert(final(out)@ =~= old(out)@ + accepted_type_xdr(self@));
    }
}

/// A reply to an accepted call: the server's verifier and the outcome.
#[derive(Debug)]
pub struct AcceptedReplyBody {
    pub verf: OpaqueAuth,
    pub body: AcceptedReplyBodyType,
}

impl View for AcceptedReplyBody {
    type V = (AuthModel, AcceptedModel);

    open spec fn view(&self) -> (AuthModel, AcceptedModel) {
        (self.verf@, self.body@)
    }
}

/// Decoding an accepted reply from the head of `s`.
pub open spec fn parse_accepted(s: Seq<u8>) -> Option<((AuthModel, AcceptedModel), Seq<u8>)> {
    match parse_auth(s) {
        Some((verf, r1)) => match parse_accepted_type(r1) {
            Some((body, r2)) => Some(((verf, body), r2)),
            None => None,
        },
        None => None,
    }
}

impl AcceptedReplyBody {
    /// Reads the verifier and the outcome of an accepted call.
    pub fn unpack(src: &mut Vec<u8>) -> (r: Result<Self, Error>)
        ensures
            match parse_accepted(old(src)@) {
                Some((m, rest)) => r matches Ok(v) && v@ == m && final(src)@ == rest,
                None => r matches Err(Error::BadResponse(_)),
            },
    {
        let verf = match OpaqueAuth::unpack(src) {
            Ok(v) => v,
            Err(e) => return Err(e),
        };
        let body = match AcceptedReplyBodyType::unpack(src) {
            Ok(b) => b,
            Err(e) => return Err(e),
        };
        Ok(AcceptedReplyBody { verf, body })
    }
}

/// Why a call was rejected.
#[derive(Clone, Copy, Debug, PartialEq, Eq, Structural)]
pub enum RejectedReplyBody {
    Mismatch(ProgMismatchBody),
    AuthError(AuthStat),
}

/// Decoding a rejection from the head of `s`.
pub open spec fn parse_rejected(s: Seq<u8>) -> Option<(RejectedReplyBody, Seq<u8>)> {
    match parse_u32(s) {
        Some((c, rest)) => if c == 0 {
            match parse_mismatch(rest) {
                Some((m, r2)) => Some((RejectedReplyBody::Mismatch(m), r2)),
                None => None,
            }
        } else if c == 1 {
            match parse_auth_stat(rest) {
                Some((a, r2)) => Some((RejectedReplyBody::AuthError(a), r2)),
                None => None,
            }
        } else {
            None
        },
        None => None,
    }
}

/// XDR image of a rejection.
pub open spec fn rejected_xdr(r: RejectedReplyBody) -> Seq<u8> {
    match r {
        RejectedReplyBody::Mismatch(m) => u32_be(0) + u32_be(m.low) + u32_be(m.high),
        RejectedReplyBody::AuthError(a) => u32_be(1) + u32_be(auth_stat_code(a)),
    }
}

impl RejectedReplyBody {
    /// Reads a rejection; an unknown kind is a bad response.
    pub fn unpack(src: &mut Vec<u8>) -> (r: Result<Self, Error>)
        ensures
            match parse_rejected(old(src)@) {
                Some((m, rest)) => r == Ok::<RejectedReplyBody, Error>(m) && final(src)@ == rest,
                None => r matches Err(Error::BadResponse(_)),
            },
    {
        let code = match unpack_u32(src) {
            Ok(c) => c,
            Err(e) => return Err(e),
        };
        if code == 0 {
            match ProgMismatchBody::unpack(src) {
                Ok(m) => Ok(RejectedReplyBody::Mismatch(m)),
                Err(e) => Err(e),
            }
        } else if code == 1 {
            match AuthStat::unpack(src) {
                Ok(a) => Ok(RejectedReplyBody::AuthError(a)),
                Err(e) => Err(e),
            }
        } else {
            Err(Error::bad_response("Unknown rejected reply type"))
        }
    }

    fn pack_xdr(self, out: &mut Vec<u8>)
        ensures
            final(out)@ == old(out)@ + rejected_xdr(self),
    {
        match self {
            RejectedReplyBody::Mismatch(m) => {
                pack_u32(0, out);
                pack_u32(m.low, out);
                pack_u32(m.high, out);
            },
            RejectedReplyBody::AuthError(a) => {
                pack_u32(1, out);
                pack_u32(a.code(), out);
            },
        }
        assert(final(out)@ =~= old(out)@ + rejected_xdr(self));
    }
}

/// A reply: accepted (with an outcome) or rejected.
#[derive(Debug)]
pub enum ReplyBody {
    Accepted(AcceptedReplyBody),
    Rejected(RejectedReplyBody),
}

/// Model of a reply.
pub enum ReplyModel {
    Accepted(AuthModel, AcceptedModel),
    Rejected(RejectedReplyBody),
}

impl View for ReplyBody {
    type V = ReplyModel;

    open spec fn view(&self) -> ReplyModel {
        match self {
            ReplyBody::Accepted(a) => ReplyModel::Accepted(a.verf@, a.body@),
            ReplyBody::Rejected(r) => ReplyModel::Rejected(*r),
        }
    }
}

/// XDR image of a reply.
pub open spec fn reply_xdr(r: ReplyModel) -> Seq<u8> {
    match r {
        ReplyModel::Accepted(verf, body) => u32_be(0) + auth_xdr(verf) + accepted_type_xdr(body),
        ReplyModel::Rejected(rej) => u32_be(1) + rejected_xdr(rej),
    }
}

/// Decoding a reply from the head of `s`.
pub open spec fn parse_reply(s: Seq<u8>) -> Option<(ReplyModel, Seq<u8>)> {
    match parse_u32(s) {
        Some((c, rest)) => if c == 0 {
            match parse_accepted(rest) {
                Some((a, r2)) => Some((ReplyModel::Accepted(a.0, a.1), r2)),
                None => None,
            }
        } else if c == 1 {
            match parse_rejected(rest) {
                Some((rej, r2)) => Some((ReplyModel::Rejected(rej), r2)),
                None => None,
            }
        } else {
            None
        },
        None => None,
    }
}

impl ReplyBody {
    /// Reads a reply; an unknown kind is a bad response.
    pub fn unpack(src: &mut Vec<u8>) -> (r: Result<Self, Error>)
        ensures
            match parse_reply(old(src)@) {
                Some((m, rest)) => r matches Ok(v) && v@ == m && final(src)@ == rest,
                None => r matches Err(Error::BadResponse(_)),
            },
    {
        let code = match unpack_u32(src) {
            Ok(c) => c,
            Err(e) => return Err(e),
        };
        if code == 0 {
            match AcceptedReplyBody::unpack(src) {
                Ok(a) => Ok(ReplyBody::Accepted(a)),
                Err(e) => Err(e),
            }
        } else if code == 1 {
            match RejectedReplyBody::unpack(src) {
                Ok(rej) => Ok(ReplyBody::Rejected(rej)),
                Err(e) => Err(e),
            }
        } else {
            Err(Error::bad_response("Unknown message type"))
        }
    }
}

impl XdrPack for ReplyBody {
    open spec fn xdr(&self) -> Seq<u8> {
        reply_xdr(self@)
    }

    open spec fn xdr_fits(&self) -> bool {
        match self {
            ReplyBody::Accepted(a) => a.verf.xdr_fits(),
            ReplyBody::Rejected(_) => true,
        }
    }

    fn pack_xdr(self, out: &mut Vec<u8>) {
        match self {
            ReplyBody::Accepted(a) => {
                pack_u32(0, out);
                a.verf.pack_xdr(out);
                a.body.pack_xdr(out);
            },
            ReplyBody::Rejected(r) => {
                pack_u32(1, out);
                r.pack_xdr(out);
            },
        }
        assert(final(out)@ =~= old(out)@ + reply_xdr(self@));
    }
}

/// The body of a call.
#[derive(Debug)]
pub struct CallBody {
    pub rpc_version: u32,
    pub prog: u32,
    pub vers: u32,
    pub proc: u32,
    pub cred: OpaqueAuth,
    pub verf: OpaqueAuth,
    /// The procedure's arguments, already encoded
    pub args: Vec<u8>,
}

/// Model of a call body.
pub struct CallModel {
    pub rpc_version: u32,
    pub prog: u32,
    pub vers: u32,
    pub proc: u32,
    pub cred: AuthModel,
    pub verf: AuthModel,
    pub args: Seq<u8>,
}

impl View for CallBody {
    type V = CallModel;

    open spec fn view(&self) -> CallModel {
        CallModel {
            rpc_version: self.rpc_version,
            prog: self.prog,
            vers: self.vers,
            proc: self.proc,
            cred: self.cred@,
            verf: self.verf@,
            args: self.args@,
        }
    }
}

/// XDR image of a call body: the header words, both authentication
/// records, then the encoded arguments as they are.
pub open spec fn call_xdr(c: CallModel) -> Seq<u8> {
    u32_be(c.rpc_version) + u32_be(c.prog) + u32_be(c.vers) + u32_be(c.proc) + auth_xdr(c.cred)
        + auth_xdr(c.verf) + c.args
}

/// Decoding a call body from the head of `s`; the arguments are read as
/// opaque data.
pub open spec fn parse_call(s: Seq<u8>) -> Option<(CallModel, Seq<u8>)> {
    match parse_u32(s) {
        Some((rpc_version, r1)) => match parse_u32(r1) {
            Some((prog, r2)) => match parse_u32(r2) {
                Some((vers, r3)) => match parse_u32(r3) {
                    Some((proc, r4)) => match parse_auth(r4) {
                        Some((cred, r5)) => match parse_auth(r5) {
                            Some((verf, r6)) => match parse_opaque(r6) {
                                Some((args, r7)) => Some(
                                    (
                                        CallModel {
                                            rpc_version,
                                            prog,
                                            vers,
                                            proc,
                                            cred,
                                            verf,
                                            args,
                                        },
                                        r7,
                                    ),
                                ),
                                None => None,
                            },
                            None => None,
                        },
                        None => None,
                    },
                    None => None,
                },
                None => None,
            },
            None => None,
        },
        None => None,
    }
}

impl CallBody {
    /// Reads a call body.
    pub fn unpack(src: &mut Vec<u8>) -> (r: Result<Self, Error>)
        ensures
            match parse_call(old(src)@) {
                Some((m, rest)) => r matches Ok(v) && v@ == m && final(src)@ == rest,
                None => r matches Err(Error::BadResponse(_)),
            },
    {
        let rpc_version = match unpack_u32(src) {
            Ok(v) => v,
            Err(e) => return Err(e),
        };
        let prog = match unpack_u32(src) {
            Ok(v) => v,
            Err(e) => return Err(e),
        };
        let vers = match unpack_u32(src) {
            Ok(v) => v,
            Err(e) => return Err(e),
        };
        let proc = match unpack_u32(src) {
            Ok(v) => v,
            Err(e) => return Err(e),
        };
        let cred = match OpaqueAuth::unpack(src) {
            Ok(v) => v,
            Err(e) => return Err(e),
        };
        let verf = match OpaqueAuth::unpack(src) {
            Ok(v) => v,
            Err(e) => return Err(e),
        };
        let args = match unpack_opaque(src) {
            Ok(v) => v,
            Err(e) => return Err(e),
        };
        Ok(CallBody { rpc_version, prog, vers, proc, cred, verf, args })
    }
}

impl XdrPack for CallBody {
    open spec fn xdr(&self) -> Seq<u8> {
        call_xdr(self@)
    }

    open spec fn xdr_fits(&self) -> bool {
        self.cred.xdr_fits() && self.verf.xdr_fits()
    }

    fn pack_xdr(self, out: &mut Vec<u8>) {
        pack_u32(self.rpc_version, out);
        pack_u32(self.prog, out);
        pack_u32(self.vers, out);
        pack_u32(self.proc, out);
        let ghost cred = self.cred@;
        let ghost verf = self.verf@;
        self.cred.pack_xdr(out);
        self.verf.pack_xdr(out);
        out.extend_from_slice(self.args.as_slice());
        assert(final(out)@ =~= old(out)@ + call_xdr(self@));
    }
}

/// The body of a message: a call or a reply.
#[derive(Debug)]
pub enum MessageBody {
    Call(CallBody),
    Reply(ReplyBody),
}

/// Model of a message body.
pub enum MessageModel {
    Call(CallModel),
    Reply(ReplyModel),
}

impl View for MessageBody {
    type V = MessageModel;

    open spec fn view(&self) -> MessageModel {
        match self {
            MessageBody::Call(c) => MessageModel::Call(c@),
            MessageBody::Reply(r) => MessageModel::Reply(r@),
        }
    }
}

/// XDR image of a message body: its kind, then the call or reply.
pub open spec fn message_body_xdr(m: MessageModel) -> Seq<u8> {
    match m {
        MessageModel::Call(c) => u32_be(0) + call_xdr(c),
        MessageModel::Reply(r) => u32_be(1) + reply_xdr(r),
    }
}

/// Decoding a message body from the head of `s`.
pub open spec fn parse_message_body(s: Seq<u8>) -> Option<(MessageModel, Seq<u8>)> {
    match parse_u32(s) {
        Some((c, rest)) => if c == 0 {
            match parse_call(rest) {
                Some((call, r2)) => Some((MessageModel::Call(call), r2)),
                None => None,
            }
        } else if c == 1 {
            match parse_reply(rest) {
                Some((reply, r2)) => Some((MessageModel::Reply(reply), r2)),
                None => None,
            }
        } else {
            None
        },
        None => None,
    }
}

impl MessageBody {
    /// Reads a message body; an unknown kind is a bad response.
    pub fn unpack(src: &mut Vec<u8>) -> (r: Result<Self, Error>)
        ensures
            match parse_message_body(old(src)@) {
                Some((m, rest)) => r matches Ok(v) && v@ == m && final(src)@ == rest,
                None => r matches Err(Error::BadResponse(_)),
            },
    {
        let code = match unpack_u32(src) {
            Ok(c) => c,
            Err(e) => return Err(e),
        };
        if code == 0 {
            match CallBody::unpack(src) {
                Ok(c) => Ok(MessageBody::Call(c)),
                Err(e) => Err(e),
            }
        } else if code == 1 {
            match ReplyBody::unpack(src) {
                Ok(r) => Ok(MessageBody::Reply(r)),
                Err(e) => Err(e),
            }
        } else {
            Err(Error::bad_response("Unknown message type"))
        }
    }
}

impl XdrPack for MessageBody {
    open spec fn xdr(&self) -> Seq<u8> {
        message_body_xdr(self@)
    }

    open spec fn xdr_fits(&self) -> bool {
        match self {
            MessageBody::Call(c) => c.xdr_fits(),
            MessageBody::Reply(r) => r.xdr_fits(),
        }
    }

    fn pack_xdr(self, out: &mut Vec<u8>) {
        match self {
            MessageBody::Call(c) => {
                pack_u32(0, out);
                c.pack_xdr(out);
            },
            MessageBody::Reply(r) => {
                pack_u32(1, out);
                r.pack_xdr(out);
            },
        }
        assert(final(out)@ =~= old(out)@ + message_body_xdr(self@));
    }
}

/// An RPC message: transaction id and body.
#[derive(Debug)]
pub struct RpcMessage {
    pub xid: u32,
    pub body: MessageBody,
}

impl View for RpcMessage {
    type V = (u32, MessageModel);

    open spec fn view(&self) -> (u32, MessageModel) {
        (self.xid, self.body@)
    }
}

/// XDR image of a message.
pub open spec fn message_xdr(m: (u32, MessageModel)) -> Seq<u8> {
    u32_be(m.0) + message_body_xdr(m.1)
}

/// Decoding a message from the head of `s`.
pub open spec fn parse_message(s: Seq<u8>) -> Option<((u32, MessageModel), Seq<u8>)> {
    match parse_u32(s) {
        Some((xid, rest)) => match parse_message_body(rest) {
            Some((body, r2)) => Some(((xid, body), r2)),
            None => None,
        },
        None => None,
    }
}

/// Why a message does not carry the results of a successful call: the
/// decoded status of the reply.
#[derive(Clone, Copy, Debug, PartialEq, Eq, Structural)]
pub enum ReplyFailure {
    /// The message is a call, not a reply
    NotAReply,
    /// The server rejected the call
    Rejected(RejectedReplyBody),
    /// PROG_UNAVAIL
    ProgUnavail,
    /// PROG_MISMATCH, with the versions the server supports
    ProgMismatch(ProgMismatchBody),
    /// PROC_UNAVAIL
    ProcUnavail,
    /// GARBAGE_ARGS
    GarbageArgs,
    /// SYSTEM_ERR
    SystemErr,
}

/// The results carried by a message when it is a reply that accepted the
/// call and reports success; otherwise the decoded status.
pub open spec fn reply_result(m: MessageModel) -> Result<Seq<u8>, ReplyFailure> {
    match m {
        MessageModel::Call(_) => Err(ReplyFailure::NotAReply),
        MessageModel::Reply(ReplyModel::Rejected(rej)) => Err(ReplyFailure::Rejected(rej)),
        MessageModel::Reply(ReplyModel::Accepted(_, a)) => match a {
            AcceptedModel::Success(res) => Ok(res),
            AcceptedModel::ProgUnavail => Err(ReplyFailure::ProgUnavail),
            AcceptedModel::ProgMismatch(p) => Err(ReplyFailure::ProgMismatch(p)),
            AcceptedModel::ProcUnavail => Err(ReplyFailure::ProcUnavail),
            AcceptedModel::GarbageArgs => Err(ReplyFailure::GarbageArgs),
            AcceptedModel::SystemErr => Err(ReplyFailure::SystemErr),
        },
    }
}

impl RpcMessage {
    /// Reads a message.
    pub fn unpack(src: &mut Vec<u8>) -> (r: Result<Self, Error>)
        ensures
            match parse_message(old(src)@) {
                Some((m, rest)) => r matches Ok(v) && v@ == m && final(src)@ == rest,
                None => r matches Err(Error::BadResponse(_)),
            },
    {
        let xid = match unpack_u32(src) {
            Ok(v) => v,
            Err(e) => return Err(e),
        };
        let body = match MessageBody::unpack(src) {
            Ok(b) => b,
            Err(e) => return Err(e),
        };
        Ok(RpcMessage { xid, body })
    }

    /// The results of a successful reply. A call, a rejection or an accepted
    /// reply with any other outcome is an error that names the decoded
    /// status.
    pub fn get_success_result(&self) -> (r: Result<&[u8], Error>)
        ensures
            match reply_result(self.body@) {
                Ok(res) => r matches Ok(s) && s@ == res,
                Err(f) => r == Err::<&[u8], Error>(Error::RpcReply(f)),
            },
    {
        match &self.body {
            MessageBody::Reply(ReplyBody::Accepted(a)) => match &a.body {
                AcceptedReplyBodyType::Success(s) => Ok(s.results.as_slice()),
                AcceptedReplyBodyType::ProgUnavail() => Err(
                    Error::RpcReply(ReplyFailure::ProgUnavail),
                ),
                AcceptedReplyBodyType::ProgMismatch(m) => Err(
                    Error::RpcReply(ReplyFailure::ProgMismatch(*m)),
                ),
                AcceptedReplyBodyType::ProcUnavail() => Err(
                    Error::RpcReply(ReplyFailure::ProcUnavail),
                ),
                AcceptedReplyBodyType::GarbageArgs() => Err(
                    Error::RpcReply(ReplyFailure::GarbageArgs),
                ),
                AcceptedReplyBodyType::SystemErr() => Err(Error::RpcReply(ReplyFailure::SystemErr)),
            },
            MessageBody::Reply(ReplyBody::Rejected(rej)) => Err(
                Error::RpcReply(ReplyFailure::Rejected(*rej)),
            ),
            MessageBody::Call(_) => Err(Error::RpcReply(ReplyFailure::NotAReply)),
        }
    }
}

impl XdrPack for RpcMessage {
    open spec fn xdr(&self) -> Seq<u8> {
        message_xdr(self@)
    }

    open spec fn xdr_fits(&self) -> bool {
        self.body.xdr_fits()
    }

    fn pack_xdr(self, out: &mut Vec<u8>) {
        pack_u32(self.xid, out);
        self.body.pack_xdr(out);
        assert(final(out)@ =~= old(out)@ + message_xdr(self@));
    }
}

} // verus!
