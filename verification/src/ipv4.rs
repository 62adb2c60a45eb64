//! The gateway's IPv4 address.
//!
//! The redirect middleware compares a request's declared host against
//! the textual form of this address, so the dotted-decimal formatting
//! is part of the verified logic.

use vstd::prelude::*;
use crate::text::{append_u8_decimal, push_char, spec_u8_decimal};

verus! {

/// An IPv4 address, as four octets.
#[derive(Debug, Clone, Copy, PartialEq, Eq, Structural)]
pub struct Ipv4 {
    pub a: u8,
    pub b: u8,
    pub c: u8,
    pub d: u8,
}

/// The dotted-decimal text of an address, e.g. "192.168.42.1".
pub open spec fn spec_ipv4_text(ip: Ipv4) -> Seq<char> {
    spec_u8_decimal(ip.a) + seq!['.'] + spec_u8_decimal(ip.b) + seq!['.'] + spec_u8_decimal(ip.c)
        + seq!['.'] + spec_u8_decimal(ip.d)
}

impl Ipv4 {
    /// Builds an address from its four octets, highest first.
    pub fn new(a: u8, b: u8, c: u8, d: u8) -> (ip: Ipv4)
        ensures
            ip == (Ipv4 { a, b, c, d }),
    {
        Ipv4 { a, b, c, d }
    }

    /// Returns the dotted-decimal text of the address.
    pub fn to_text(&self) -> (s: String)
        ensures
            s@ == spec_ipv4_text(*self),
    {
        let mut s = String::new();
        append_u8_decimal(&mut s, self.a);
        push_char(&mut s, '.');
        append_u8_decimal(&mut s, self.b);
        push_char(&mut s, '.');
        append_u8_decimal(&mut s, self.c);
        push_char(&mut s, '.');
        append_u8_decimal(&mut s, self.d);
        proof {
            assert(s@ =~= spec_ipv4_text(*self));
        }
        s
    }
}

} // verus!
