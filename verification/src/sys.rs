//! The two pure computations that the transport takes from `nix`: the
//! platform's numbering of error codes and the text form of a network address.

use crate::peer::InetPeer;
use nix::errno::Errno;
use nix::sys::socket::{InetAddr, IpAddr};
use vstd::prelude::*;

verus! {

/// Whether `code` is the platform's error code for "transport endpoint is not
/// connected", as `nix::errno::Errno` numbers it.
pub uninterp spec fn not_connected_code(code: i32) -> bool;

/// The text that `nix::sys::socket::InetAddr::to_str` gives for a network
/// endpoint.
pub uninterp spec fn inet_text(peer: InetPeer) -> Seq<char>;

/// The character of one decimal digit.
pub open spec fn digit(d: nat) -> char {
    if d == 0 {
        '0'
    } else if d == 1 {
        '1'
    } else if d == 2 {
        '2'
    } else if d == 3 {
        '3'
    } else if d == 4 {
        '4'
    } else if d == 5 {
        '5'
    } else if d == 6 {
        '6'
    } else if d == 7 {
        '7'
    } else if d == 8 {
        '8'
    } else {
        '9'
    }
}

/// A number in decimal, without sign or leading zeros.
pub open spec fn decimal(n: nat) -> Seq<char>
    decreases n,
{
    if n < 10 {
        seq![digit(n)]
    } else {
        decimal(n / 10).push(digit(n % 10))
    }
}

/// The text of an IPv4 endpoint: the four octets in decimal with dots between
/// them, a colon, and the port in decimal.
pub open spec fn v4_text(a: u8, b: u8, c: u8, d: u8, port: u16) -> Seq<char> {
    decimal(a as nat) + seq!['.'] + decimal(b as nat) + seq!['.'] + decimal(c as nat) + seq!['.']
        + decimal(d as nat) + seq![':'] + decimal(port as nat)
}

/// Calls `nix::errno::Errno::from_i32` and tells whether the code it is given
/// stands for `ENOTCONN`. Nothing is claimed beyond naming that answer.
#[verifier::external_body]
pub(crate) fn errno_is_not_connected(code: i32) -> (b: bool)
    ensures
        b == not_connected_code(code),
{
    matches!(Errno::from_i32(code), Errno::ENOTCONN)
}

/// Builds a `nix::sys::socket::InetAddr` from the address and port and calls
/// its `to_str`. Three things are claimed of the text. It is the named one.
/// It is not empty, since both of its forms (`ip:port` and `[ip]:port`) hold a
/// colon. For an IPv4 endpoint it is written out: `nix` prints the four
/// octets and the port as integers, with dots and a colon between them. The
/// text of an IPv6 address is left to the name.
#[verifier::external_body]
pub(crate) fn format_inet(peer: &InetPeer) -> (s: String)
    ensures
        s@ == inet_text(*peer),
        s@.len() > 0,
        *peer matches InetPeer::V4 { a, b, c, d, port } ==> s@ == v4_text(a, b, c, d, port),
{
    let addr = match *peer {
        InetPeer::V4 { a, b, c, d, port } => InetAddr::new(IpAddr::new_v4(a, b, c, d), port),
        InetPeer::V6 { segments: s, port } => InetAddr::new(
            IpAddr::new_v6(s[0], s[1], s[2], s[3], s[4], s[5], s[6], s[7]),
            port,
        ),
    };
    addr.to_str()
}

} // verus!
