//! Network endpoints as plain values.
//!
//! A node is addressed by an IP address and a port. The engine never opens a
//! socket itself; it only stores endpoints, compares them, and renders them
//! to text when deriving a node identifier, so the endpoint is modelled as
//! plain integers rather than as an operating-system socket address.

use vstd::prelude::*;
use crate::text::{spec_dec_digits, spec_hex_digits, push_dec_u64, push_hex_u64};

verus! {

/// An IP address, version 4 or 6, as plain integers.
#[derive(Clone, Copy, PartialEq, Eq, Structural, Debug)]
pub enum IpAddress {
    /// The four dotted-decimal octets, most significant first.
    V4(u8, u8, u8, u8),
    /// The eight 16-bit groups, most significant first.
    V6(u16, u16, u16, u16, u16, u16, u16, u16),
}

/// A network endpoint: an IP address and a port.
#[derive(Clone, Copy, PartialEq, Eq, Structural, Debug)]
pub struct NetworkAddress {
    pub ip: IpAddress,
    pub port: u16,
}

/// The canonical textual form of an IP address: dotted decimal octets for
/// version 4; eight lowercase hexadecimal groups separated by colons,
/// without zero compression, for version 6.
pub open spec fn spec_ip_text(ip: IpAddress) -> Seq<char> {
    match ip {
        IpAddress::V4(a, b, c, d) => spec_dec_digits(a as nat) + seq!['.'] + spec_dec_digits(
            b as nat,
        ) + seq!['.'] + spec_dec_digits(c as nat) + seq!['.'] + spec_dec_digits(d as nat),
        IpAddress::V6(g0, g1, g2, g3, g4, g5, g6, g7) => spec_hex_digits(g0 as nat) + seq![':']
            + spec_hex_digits(g1 as nat) + seq![':'] + spec_hex_digits(g2 as nat) + seq![':']
            + spec_hex_digits(g3 as nat) + seq![':'] + spec_hex_digits(g4 as nat) + seq![':']
            + spec_hex_digits(g5 as nat) + seq![':'] + spec_hex_digits(g6 as nat) + seq![':']
            + spec_hex_digits(g7 as nat),
    }
}

/// The canonical textual form of an endpoint: the address, then a colon,
/// then the decimal port; a version 6 address is bracketed.
pub open spec fn spec_address_text(addr: NetworkAddress) -> Seq<char> {
    match addr.ip {
        IpAddress::V4(..) => spec_ip_text(addr.ip) + seq![':'] + spec_dec_digits(addr.port as nat),
        IpAddress::V6(..) => seq!['['] + spec_ip_text(addr.ip) + seq![']'] + seq![':']
            + spec_dec_digits(addr.port as nat),
    }
}

/// Append one colon.
fn push_colon(s: &mut String)
    ensures
        final(s)@ == old(s)@.push(':'),
{
    s.append(":");
    proof {
        reveal_strlit(":");
        assert(s@ =~= old(s)@.push(':'));
    }
}

impl NetworkAddress {
    /// An IPv4 endpoint from its four octets and port.
    pub fn v4(a: u8, b: u8, c: u8, d: u8, port: u16) -> (r: Self)
        ensures
            r == (NetworkAddress { ip: IpAddress::V4(a, b, c, d), port }),
    {
        NetworkAddress { ip: IpAddress::V4(a, b, c, d), port }
    }

    /// The canonical textual form of the endpoint.
    pub fn to_text(&self) -> (r: String)
        ensures
            r@ == spec_address_text(*self),
    {
        let mut s = String::new();
        match self.ip {
            IpAddress::V4(a, b, c, d) => {
                push_dec_u64(&mut s, a as u64);
                s.append(".");
                push_dec_u64(&mut s, b as u64);
                s.append(".");
                push_dec_u64(&mut s, c as u64);
                s.append(".");
                push_dec_u64(&mut s, d as u64);
                push_colon(&mut s);
                push_dec_u64(&mut s, self.port as u64);
                proof {
                    reveal_strlit(".");
                    assert(s@ =~= spec_address_text(*self));
                }
            },
            IpAddress::V6(g0, g1, g2, g3, g4, g5, g6, g7) => {
                s.append("[");
                push_hex_u64(&mut s, g0 as u64);
                push_colon(&mut s);
                push_hex_u64(&mut s, g1 as u64);
                push_colon(&mut s);
                push_hex_u64(&mut s, g2 as u64);
                push_colon(&mut s);
                push_hex_u64(&mut s, g3 as u64);
                push_colon(&mut s);
                push_hex_u64(&mut s, g4 as u64);
                push_colon(&mut s);
                push_hex_u64(&mut s, g5 as u64);
                push_colon(&mut s);
                push_hex_u64(&mut s, g6 as u64);
                push_colon(&mut s);
                push_hex_u64(&mut s, g7 as u64);
                s.append("]");
                push_colon(&mut s);
                push_dec_u64(&mut s, self.port as u64);
                proof {
                    reveal_strlit("[");
                    reveal_strlit("]");
                    assert(s@ =~= spec_address_text(*self));
                }
            },
        }
        s
    }
}

} // verus!
