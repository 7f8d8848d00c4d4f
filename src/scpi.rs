//! SCPI framing on stream transports, and the URIs that name a transport.
use vstd::prelude::*;

use crate::error::Error;
use crate::text::{
    contains, dec_u32, has_infix, parse_u32, push_str, split_chars, split_on, split_once,
    split_once_at, str_eq, strip_prefix, texts,
};

verus! {

/// Baud rate of a serial port when the URI names none.
pub const DEFAULT_BAUD: u32 = 9600;

/// A command as sent on the wire: its bytes, then CR LF.
pub open spec fn command_bytes(data: Seq<u8>) -> Seq<u8> {
    data + seq![13u8, 10u8]
}

/// Frames a command: its bytes followed by CR LF.
pub fn scpi_command(data: &[u8]) -> (r: Vec<u8>)
    ensures
        r@ == command_bytes(data@),
{
    let mut out: Vec<u8> = Vec::new();
    out.extend_from_slice(data);
    out.push(13u8);
    out.push(10u8);
    out
}

/// A transport named by a URI.
#[derive(Debug)]
pub enum ScpiTarget {
    /// VXI-11: the portmapper's address as `host:port`
    Vxi11(String),
    /// Raw TCP: the instrument's address as `host:port`
    Tcp(String),
    /// Serial port: its path and baud rate
    Serial { path: String, baud: u32 },
}

/// The baud rate that the `key=value` arguments of a serial URI leave,
/// starting from `baud`: each must be `baud=` with a decimal number. Any
/// other argument is invalid.
pub open spec fn apply_args(args: Seq<Seq<char>>, baud: u32) -> Option<u32>
    decreases args.len(),
{
    if args.len() == 0 {
        Some(baud)
    } else {
        match split_once(args[0], '=') {
            Some((key, value)) => if key == "baud"@ {
                match dec_u32(value) {
                    Some(b) => apply_args(args.drop_first(), b),
                    None => None,
                }
            } else {
                None
            },
            None => None,
        }
    }
}

/// Path and baud rate of the part of a serial URI after `serial:`. The
/// arguments follow the first '?' and are separated by '&'; the baud rate
/// must be positive.
pub open spec fn serial_settings(rest: Seq<char>) -> Option<(Seq<char>, u32)> {
    let (path, args) = match split_once(rest, '?') {
        Some((p, a)) => (p, split_chars(a, '&')),
        None => (rest, Seq::<Seq<char>>::empty()),
    };
    match apply_args(args, DEFAULT_BAUD) {
        Some(b) => if b > 0 {
            Some((path, b))
        } else {
            None
        },
        None => None,
    }
}

/// The address of a VXI-11 URI: the portmapper's port is added when the
/// URI names none.
pub open spec fn vxi11_addr(rest: Seq<char>) -> Seq<char> {
    if has_infix(rest, seq![':']) {
        rest
    } else {
        rest + ":111"@
    }
}

/// Applies the `key=value` arguments of a serial URI in order.
fn parse_serial_args(args: &str) -> (r: Result<u32, Error>)
    ensures
        match apply_args(split_chars(args@, '&'), DEFAULT_BAUD) {
            Some(b) => r == Ok::<u32, Error>(b),
            None => r matches Err(Error::InvalidArgument(_)),
        },
{
    let parts = split_on(args, '&');
    let ghost all = texts(parts@);
    let mut baud: u32 = DEFAULT_BAUD;
    let mut i: usize = 0;
    assert(all.skip(0) =~= all);
    while i < parts.len()
        invariant
            all == texts(parts@),
            all == split_chars(args@, '&'),
            i <= parts@.len(),
            apply_args(all.skip(i as int), baud) == apply_args(all, DEFAULT_BAUD),
        decreases parts@.len() - i,
    {
        let ghost here = all.skip(i as int);
        assert(here[0] == parts@[i as int]@);
        assert(here.drop_first() =~= all.skip(i + 1));
        let (key, value) = match split_once_at(parts[i].as_str(), '=') {
            Some(kv) => kv,
            None => return Err(Error::invalid_argument("Improperly formatted URI argument")),
        };
        proof {
            reveal_strlit("baud");
        }
        if !str_eq(key.as_str(), "baud") {
            return Err(Error::invalid_argument("Unsupported argument in URI"));
        }
        baud = match parse_u32(value.as_str()) {
            Some(b) => b,
            None => return Err(Error::invalid_argument("Invalid value for baud rate")),
        };
        i += 1;
    }
    assert(all.skip(i as int) =~= Seq::<Seq<char>>::empty());
    Ok(baud)
}

/// The transport that a URI names: `vxi11://host[:port]` (the portmapper's
/// port 111 by default), `tcp://host:port`, or
/// `serial:path[?baud=N]`. An unknown scheme, an unknown or malformed
/// argument, or a baud rate that is not a positive number is an invalid
/// argument.
pub fn parse_uri(uri: &str) -> (r: Result<ScpiTarget, Error>)
    ensures
        "vxi11://"@.is_prefix_of(uri@) ==> (r matches Ok(ScpiTarget::Vxi11(a)) && a@ == vxi11_addr(
            uri@.skip("vxi11://"@.len() as int),
        )),
        !"vxi11://"@.is_prefix_of(uri@) && "tcp://"@.is_prefix_of(uri@) ==> (r matches Ok(
            ScpiTarget::Tcp(a),
        ) && a@ == uri@.skip("tcp://"@.len() as int)),
        !"vxi11://"@.is_prefix_of(uri@) && !"tcp://"@.is_prefix_of(uri@) && "serial:"@.is_prefix_of(
            uri@,
        ) ==> match serial_settings(uri@.skip("serial:"@.len() as int)) {
            Some((path, baud)) => r matches Ok(ScpiTarget::Serial { path: p, baud: b }) && p@ == path
                && b == baud,
            None => r matches Err(Error::InvalidArgument(_)),
        },
        !"vxi11://"@.is_prefix_of(uri@) && !"tcp://"@.is_prefix_of(uri@) && !"serial:"@.is_prefix_of(
            uri@,
        ) ==> (r matches Err(Error::InvalidArgument(_))),
{
    if let Some(rest) = strip_prefix(uri, "vxi11://") {
        proof {
            reveal_strlit(":");
            assert(":"@ =~= seq![':']);
        }
        if contains(rest.as_str(), ":") {
            return Ok(ScpiTarget::Vxi11(rest));
        }
        let mut addr = rest;
        push_str(&mut addr, ":111");
        return Ok(ScpiTarget::Vxi11(addr));
    }
    if let Some(rest) = strip_prefix(uri, "tcp://") {
        return Ok(ScpiTarget::Tcp(rest));
    }
    if let Some(rest) = strip_prefix(uri, "serial:") {
        let (path, baud) = match split_once_at(rest.as_str(), '?') {
            Some((p, args)) => match parse_serial_args(args.as_str()) {
                Ok(b) => (p, b),
                Err(e) => return Err(e),
            },
            None => {
                assert(apply_args(Seq::<Seq<char>>::empty(), DEFAULT_BAUD) == Some(DEFAULT_BAUD));
                (rest, DEFAULT_BAUD)
            },
        };
        if baud == 0 {
            return Err(Error::invalid_argument("Baud rate must be positive"));
        }
        return Ok(ScpiTarget::Serial { path, baud });
    }
    Err(Error::invalid_argument("Unknown scheme in URI"))
}

} // verus!
