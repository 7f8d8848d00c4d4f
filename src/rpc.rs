//! Arguments and results of the VXI-11 core procedures.
use vstd::prelude::*;

use vstd::utf8::encode_utf8;

use crate::error::Error;
use crate::xdr::{
    bool_xdr, i32_xdr, opaque_xdr, pack_opaque, pack_u32, parse_i32, parse_opaque, parse_u16,
    parse_u32, u32_be, unpack_i32, unpack_opaque, unpack_u16, unpack_u32, XdrPack,
};

verus! {

/// Procedures of the VXI-11 core channel.
#[derive(Clone, Copy, Debug, PartialEq, Eq, Structural)]
pub enum RpcRequest {
    DeviceAbort,
    CreateLink,
    DeviceWrite,
    DeviceRead,
    DeviceReadStb,
    DeviceTrigger,
    DeviceClear,
    DeviceError,
    DeviceLocal,
    DeviceLock,
    DeviceUnlock,
    DeviceEnableSrq,
    DeviceDoCmd,
    DestroyLink,
    CreateIntrChan,
    DestroyIntrChan,
    DeviceIntrSrq,
}

/// Procedure number of a VXI-11 procedure.
pub open spec fn proc_number(p: RpcRequest) -> u32 {
    match p {
        RpcRequest::DeviceAbort => 1,
        RpcRequest::CreateLink => 10,
        RpcRequest::DeviceWrite => 11,
        RpcRequest::DeviceRead => 12,
        RpcRequest::DeviceReadStb => 13,
        RpcRequest::DeviceTrigger => 14,
        RpcRequest::DeviceClear => 15,
        RpcRequest::DeviceError => 16,
        RpcRequest::DeviceLocal => 17,
        RpcRequest::DeviceLock => 18,
        RpcRequest::DeviceUnlock => 19,
        RpcRequest::DeviceEnableSrq => 20,
        RpcRequest::DeviceDoCmd => 22,
        RpcRequest::DestroyLink => 23,
        RpcRequest::CreateIntrChan => 25,
        RpcRequest::DestroyIntrChan => 26,
        RpcRequest::DeviceIntrSrq => 30,
    }
}

impl RpcRequest {
    /// Procedure number of this procedure.
    pub fn number(&self) -> (r: u32)
        ensures
            r == proc_number(*self),
    {
        match self {
            RpcRequest::DeviceAbort => 1,
            RpcRequest::CreateLink => 10,
            RpcRequest::DeviceWrite => 11,
            RpcRequest::DeviceRead => 12,
            RpcRequest::DeviceReadStb => 13,
            RpcRequest::DeviceTrigger => 14,
            RpcRequest::DeviceClear => 15,
            RpcRequest::DeviceError => 16,
            RpcRequest::DeviceLocal => 17,
            RpcRequest::DeviceLock => 18,
            RpcRequest::DeviceUnlock => 19,
            RpcRequest::DeviceEnableSrq => 20,
            RpcRequest::DeviceDoCmd => 22,
            RpcRequest::DestroyLink => 23,
            RpcRequest::CreateIntrChan => 25,
            RpcRequest::DestroyIntrChan => 26,
            RpcRequest::DeviceIntrSrq => 30,
        }
    }
}

/// Error codes reported by a VXI-11 device. Unknown values are kept.
#[derive(Clone, Copy, Debug, PartialEq, Eq, Structural)]
pub enum RpcDeviceErrorCode {
    NoError,
    SyntaxError,
    DeviceNotAccessible,
    InvalidLinkIdentifier,
    ParameterError,
    ChannelNotEstablished,
    OperationNotSupported,
    OutOfResources,
    DeviceLockedByAnotherLink,
    NoLockHeldByThisLink,
    IoTimeout,
    IoError,
    InvalidAddress,
    Abort,
    ChannelAlreadyEstablished,
    Unknown(u32),
}

/// The error code with wire value `c`.
pub open spec fn device_error_of(c: u32) -> RpcDeviceErrorCode {
    if c == 0 {
        RpcDeviceErrorCode::NoError
    } else if c == 1 {
        RpcDeviceErrorCode::SyntaxError
    } else if c == 3 {
        RpcDeviceErrorCode::DeviceNotAccessible
    } else if c == 4 {
        RpcDeviceErrorCode::InvalidLinkIdentifier
    } else if c == 5 {
        RpcDeviceErrorCode::ParameterError
    } else if c == 6 {
        RpcDeviceErrorCode::ChannelNotEstablished
    } else if c == 8 {
        RpcDeviceErrorCode::OperationNotSupported
    } else if c == 9 {
        RpcDeviceErrorCode::OutOfResources
    } else if c == 11 {
        RpcDeviceErrorCode::DeviceLockedByAnotherLink
    } else if c == 12 {
        RpcDeviceErrorCode::NoLockHeldByThisLink
    } else if c == 15 {
        RpcDeviceErrorCode::IoTimeout
    } else if c == 17 {
        RpcDeviceErrorCode::IoError
    } else if c == 21 {
        RpcDeviceErrorCode::InvalidAddress
    } else if c == 23 {
        RpcDeviceErrorCode::Abort
    } else if c == 29 {
        RpcDeviceErrorCode::ChannelAlreadyEstablished
    } else {
        RpcDeviceErrorCode::Unknown(c)
    }
}

/// Decoding an error code from the head of `s`.
pub open spec fn parse_device_error(s: Seq<u8>) -> Option<(RpcDeviceErrorCode, Seq<u8>)> {
    match parse_u32(s) {
        Some((c, rest)) => Some((device_error_of(c), rest)),
        None => None,
    }
}

impl RpcDeviceErrorCode {
    /// Reads an error code; every value decodes.
    pub fn unpack(src: &mut Vec<u8>) -> (r: Result<Self, Error>)
        ensures
            match parse_device_error(old(src)@) {
                Some((c, rest)) => r == Ok::<RpcDeviceErrorCode, Error>(c) && final(src)@ == rest,
                None => r matches Err(Error::BadResponse(_)) && final(src)@ == old(src)@,
            },
    {
        let c = match unpack_u32(src) {
            Ok(c) => c,
            Err(e) => return Err(e),
        };
        Ok(
            match c {
                0 => RpcDeviceErrorCode::NoError,
                1 => RpcDeviceErrorCode::SyntaxError,
                3 => RpcDeviceErrorCode::DeviceNotAccessible,
                4 => RpcDeviceErrorCode::InvalidLinkIdentifier,
                5 => RpcDeviceErrorCode::ParameterError,
                6 => RpcDeviceErrorCode::ChannelNotEstablished,
                8 => RpcDeviceErrorCode::OperationNotSupported,
                9 => RpcDeviceErrorCode::OutOfResources,
                11 => RpcDeviceErrorCode::DeviceLockedByAnotherLink,
                12 => RpcDeviceErrorCode::NoLockHeldByThisLink,
                15 => RpcDeviceErrorCode::IoTimeout,
                17 => RpcDeviceErrorCode::IoError,
                21 => RpcDeviceErrorCode::InvalidAddress,
                23 => RpcDeviceErrorCode::Abort,
                29 => RpcDeviceErrorCode::ChannelAlreadyEstablished,
                i => RpcDeviceErrorCode::Unknown(i),
            },
        )
    }
}

/// Flags of a read or write operation.
#[derive(Clone, Copy, Debug, PartialEq, Eq, Structural)]
pub struct RpcOperationFlags {
    /// Wait for lock even if lock timeout elapses
    pub wait_lock: bool,
    /// On write, send last byte with END indicator
    pub end: bool,
    /// On read, use termchr as termination character
    pub termchr_set: bool,
}

/// The flags word: bit 0 wait_lock, bit 3 end, bit 7 termchr_set.
pub open spec fn flags_word(f: RpcOperationFlags) -> u32 {
    ((if f.wait_lock { 1u32 } else { 0u32 }) + (if f.end { 8u32 } else { 0u32 }) + (
    if f.termchr_set {
        128u32
    } else {
        0u32
    })) as u32
}

impl RpcOperationFlags {
    /// The flags packed into a word.
    pub fn word(&self) -> (r: u32)
        ensures
            r == flags_word(*self),
    {
        let mut flags: u32 = 0;
        if self.wait_lock {
            flags = flags + 1;
        }
        if self.end {
            flags = flags + 8;
        }
        if self.termchr_set {
            flags = flags + 128;
        }
        flags
    }
}

impl XdrPack for RpcOperationFlags {
    open spec fn xdr(&self) -> Seq<u8> {
        u32_be(flags_word(*self))
    }

    open spec fn xdr_fits(&self) -> bool {
        true
    }

    fn pack_xdr(self, out: &mut Vec<u8>) {
        pack_u32(self.word(), out);
    }
}

/// Arguments of CreateLink.
#[derive(Debug)]
pub struct RpcRequestCreateDeviceLink {
    /// ID representing client
    pub client_id: i32,
    /// Whether to lock the device
    pub lock_device: bool,
    /// How long to wait for a lock to be released
    pub lock_timeout: u32,
    /// Name of device
    pub device: String,
}

impl XdrPack for RpcRequestCreateDeviceLink {
    open spec fn xdr(&self) -> Seq<u8> {
        i32_xdr(self.client_id) + bool_xdr(self.lock_device) + u32_be(self.lock_timeout)
            + opaque_xdr(encode_utf8(self.device@))
    }

    open spec fn xdr_fits(&self) -> bool {
        encode_utf8(self.device@).len() <= u32::MAX
    }

    fn pack_xdr(self, out: &mut Vec<u8>) {
        self.client_id.pack_xdr(out);
        self.lock_device.pack_xdr(out);
        self.lock_timeout.pack_xdr(out);
        self.device.pack_xdr(out);
        assert(final(out)@ =~= old(out)@ + self.xdr());
    }
}

/// Results of CreateLink.
#[derive(Debug)]
pub struct RpcResponseCreateDeviceLink {
    /// Error code
    pub error: RpcDeviceErrorCode,
    /// New link ID
    pub lid: i32,
    /// Abort RPC port
    pub abort_port: u16,
    /// Max data size device will accept on write
    pub max_recv_size: u32,
}

/// Decoding CreateLink results from the head of `s`: error, link id,
/// abort port (a 16-bit value), maximum write size.
pub open spec fn parse_create_link(s: Seq<u8>) -> Option<(RpcResponseCreateDeviceLink, Seq<u8>)> {
    match parse_device_error(s) {
        Some((error, r1)) => match parse_i32(r1) {
            Some((lid, r2)) => match parse_u16(r2) {
                Some((abort_port, r3)) => match parse_u32(r3) {
                    Some((max_recv_size, r4)) => Some(
                        (RpcResponseCreateDeviceLink { error, lid, abort_port, max_recv_size }, r4),
                    ),
                    None => None,
                },
                None => None,
            },
            None => None,
        },
        None => None,
    }
}

impl RpcResponseCreateDeviceLink {
    /// Reads the results of CreateLink.
    pub fn unpack(src: &mut Vec<u8>) -> (r: Result<Self, Error>)
        ensures
            match parse_create_link(old(src)@) {
                Some((v, rest)) => r matches Ok(x) && x == v && final(src)@ == rest,
                None => r matches Err(Error::BadResponse(_)),
            },
    {
        let error = match RpcDeviceErrorCode::unpack(src) {
            Ok(v) => v,
            Err(e) => return Err(e),
        };
        let lid = match unpack_i32(src) {
            Ok(v) => v,
            Err(e) => return Err(e),
        };
        let abort_port = match unpack_u16(src) {
            Ok(v) => v,
            Err(e) => return Err(e),
        };
        let max_recv_size = match unpack_u32(src) {
            Ok(v) => v,
            Err(e) => return Err(e),
        };
        Ok(RpcResponseCreateDeviceLink { error, lid, abort_port, max_recv_size })
    }
}

/// Arguments of DeviceWrite.
#[derive(Debug)]
pub struct RpcRequestDeviceWrite {
    /// Link ID
    pub lid: i32,
    /// Time to wait for I/O
    pub io_timeout: u32,
    /// Time to wait for lock
    pub lock_timeout: u32,
    /// Flags
    pub flags: RpcOperationFlags,
    /// Data to write
    pub data: Vec<u8>,
}

impl XdrPack for RpcRequestDeviceWrite {
    open spec fn xdr(&self) -> Seq<u8> {
        i32_xdr(self.lid) + u32_be(self.io_timeout) + u32_be(self.lock_timeout) + u32_be(
            flags_word(self.flags),
        ) + opaque_xdr(self.data@)
    }

    open spec fn xdr_fits(&self) -> bool {
        self.data@.len() <= u32::MAX
    }

    fn pack_xdr(self, out: &mut Vec<u8>) {
        self.lid.pack_xdr(out);
        pack_u32(self.io_timeout, out);
        pack_u32(self.lock_timeout, out);
        self.flags.pack_xdr(out);
        pack_opaque(self.data.as_slice(), out);
        assert(final(out)@ =~= old(out)@ + self.xdr());
    }
}

/// Results of DeviceWrite.
#[derive(Debug)]
pub struct RpcResponseDeviceWrite {
    /// Error code
    pub error: RpcDeviceErrorCode,
    /// Number of bytes written
    pub size: u32,
}

/// Decoding DeviceWrite results from the head of `s`.
pub open spec fn parse_write_response(s: Seq<u8>) -> Option<(RpcResponseDeviceWrite, Seq<u8>)> {
    match parse_device_error(s) {
        Some((error, r1)) => match parse_u32(r1) {
            Some((size, r2)) => Some((RpcResponseDeviceWrite { error, size }, r2)),
            None => None,
        },
        None => None,
    }
}

impl RpcResponseDeviceWrite {
    /// Reads the results of DeviceWrite.
    pub fn unpack(src: &mut Vec<u8>) -> (r: Result<Self, Error>)
        ensures
            match parse_write_response(old(src)@) {
                Some((v, rest)) => r matches Ok(x) && x == v && final(src)@ == rest,
                None => r matches Err(Error::BadResponse(_)),
            },
    {
        let error = match RpcDeviceErrorCode::unpack(src) {
            Ok(v) => v,
            Err(e) => return Err(e),
        };
        let size = match unpack_u32(src) {
            Ok(v) => v,
            Err(e) => return Err(e),
        };
        Ok(RpcResponseDeviceWrite { error, size })
    }
}

/// Arguments of DeviceRead.
#[derive(Debug)]
pub struct RpcRequestDeviceRead {
    /// Link ID
    pub lid: i32,
    /// Bytes requested
    pub request_size: u32,
    /// Time to wait for I/O
    pub io_timeout: u32,
    /// Time to wait for lock
    pub lock_timeout: u32,
    /// Flags
    pub flags: RpcOperationFlags,
    /// Optional termination character
    pub termchr: u8,
}

impl XdrPack for RpcRequestDeviceRead {
    open spec fn xdr(&self) -> Seq<u8> {
        i32_xdr(self.lid) + u32_be(self.request_size) + u32_be(self.io_timeout) + u32_be(
            self.lock_timeout,
        ) + u32_be(flags_word(self.flags)) + u32_be(self.termchr as u32)
    }

    open spec fn xdr_fits(&self) -> bool {
        true
    }

    fn pack_xdr(self, out: &mut Vec<u8>) {
        self.lid.pack_xdr(out);
        pack_u32(self.request_size, out);
        pack_u32(self.io_timeout, out);
        pack_u32(self.lock_timeout, out);
        self.flags.pack_xdr(out);
        pack_u32(self.termchr as u32, out);
        assert(final(out)@ =~= old(out)@ + self.xdr());
    }
}

/// Why a read finished: bit 0 request count reached, bit 1 termination
/// character seen, bit 2 END indicator read.
#[derive(Clone, Copy, Debug, PartialEq, Eq, Structural)]
pub struct RpcDeviceReadReason {
    /// request_size bytes have been transferred
    pub reqcnt: bool,
    /// Match on termchr
    pub chr: bool,
    /// END indicator has been read
    pub end: bool,
}

/// The reason bits of a word.
pub open spec fn reason_of(w: u32) -> RpcDeviceReadReason {
    RpcDeviceReadReason { reqcnt: w & 1u32 != 0, chr: w & 2u32 != 0, end: w & 4u32 != 0 }
}

impl RpcDeviceReadReason {
    /// Reads a reason word.
    pub fn unpack(src: &mut Vec<u8>) -> (r: Result<Self, Error>)
        ensures
            match parse_u32(old(src)@) {
                Some((w, rest)) => r == Ok::<RpcDeviceReadReason, Error>(reason_of(w))
                    && final(src)@ == rest,
                None => r matches Err(Error::BadResponse(_)),
            },
    {
        let flags = match unpack_u32(src) {
            Ok(v) => v,
            Err(e) => return Err(e),
        };
        Ok(
            RpcDeviceReadReason {
                reqcnt: flags & 1u32 != 0,
                chr: flags & 2u32 != 0,
                end: flags & 4u32 != 0,
            },
        )
    }
}

/// Results of DeviceRead.
#[derive(Debug)]
pub struct RpcResponseDeviceRead {
    /// Error code
    pub error: RpcDeviceErrorCode,
    /// Why the read finished
    pub reason: RpcDeviceReadReason,
    /// Data read
    pub data: Vec<u8>,
}

/// Decoding DeviceRead results from the head of `s`: error, reason word and
/// opaque data.
pub open spec fn parse_read_response(s: Seq<u8>) -> Option<
    ((RpcDeviceErrorCode, RpcDeviceReadReason, Seq<u8>), Seq<u8>),
> {
    match parse_device_error(s) {
        Some((error, r1)) => match parse_u32(r1) {
            Some((w, r2)) => match parse_opaque(r2) {
                Some((data, r3)) => Some(((error, reason_of(w), data), r3)),
                None => None,
            },
            None => None,
        },
        None => None,
    }
}

impl View for RpcResponseDeviceRead {
    type V = (RpcDeviceErrorCode, RpcDeviceReadReason, Seq<u8>);

    open spec fn view(&self) -> (RpcDeviceErrorCode, RpcDeviceReadReason, Seq<u8>) {
        (self.error, self.reason, self.data@)
    }
}

impl RpcResponseDeviceRead {
    /// Reads the results of DeviceRead.
    pub fn unpack(src: &mut Vec<u8>) -> (r: Result<Self, Error>)
        ensures
            match parse_read_response(old(src)@) {
                Some((v, rest)) => r matches Ok(x) && x@ == v && final(src)@ == rest,
                None => r matches Err(Error::BadResponse(_)),
            },
    {
        let error = match RpcDeviceErrorCode::unpack(src) {
            Ok(v) => v,
            Err(e) => return Err(e),
        };
        let reason = match RpcDeviceReadReason::unpack(src) {
            Ok(v) => v,
            Err(e) => return Err(e),
        };
        let data = match unpack_opaque(src) {
            Ok(v) => v,
            Err(e) => return Err(e),
        };
        Ok(RpcResponseDeviceRead { error, reason, data })
    }
}

} // verus!
