//! Internet addresses as the numbers they are made of.
//!
//! Reading an address from text is not done here: whoever has the text
//! parses it and hands over the parts.

use vstd::prelude::*;

verus! {

/// An IPv4 address by its four octets, or an IPv6 address by its eight
/// segments.
#[derive(Clone, Copy, Debug, PartialEq, Eq, Structural)]
pub enum IpAddress {
    V4(u8, u8, u8, u8),
    V6(u16, u16, u16, u16, u16, u16, u16, u16),
}

/// An address to listen on.
#[derive(Clone, Copy, Debug, PartialEq, Eq, Structural)]
pub struct BindAddress {
    pub ip: IpAddress,
    pub port: u16,
}

impl IpAddress {
    /// The IPv4 address `0.0.0.0`, which stands for every interface.
    pub open spec fn unspecified() -> IpAddress {
        IpAddress::V4(0, 0, 0, 0)
    }

    /// Whether the address belongs to one of the ranges set aside for use
    /// within a host, a link or a site, for examples in documents, or for
    /// groups of receivers.
    ///
    /// For IPv4 these are the private ranges `10.0.0.0/8`, `172.16.0.0/12`
    /// and `192.168.0.0/16`, loopback `127.0.0.0/8`, link-local
    /// `169.254.0.0/16`, the broadcast address, the documentation ranges
    /// `192.0.2.0/24`, `198.51.100.0/24` and `203.0.113.0/24`, the
    /// unspecified address and multicast `224.0.0.0/4`. For IPv6 they are
    /// loopback `::1`, multicast `ff00::/8`, the unspecified address `::`,
    /// unique local `fc00::/7` and link-local unicast `fe80::/10`.
    pub open spec fn reserved(self) -> bool {
        match self {
            IpAddress::V4(a, b, c, d) => {
                ||| a == 10
                ||| a == 172 && 16 <= b <= 31
                ||| a == 192 && b == 168
                ||| a == 127
                ||| a == 169 && b == 254
                ||| a == 255 && b == 255 && c == 255 && d == 255
                ||| a == 192 && b == 0 && c == 2
                ||| a == 198 && b == 51 && c == 100
                ||| a == 203 && b == 0 && c == 113
                ||| a == 0 && b == 0 && c == 0 && d == 0
                ||| 224 <= a <= 239
            },
            IpAddress::V6(a, b, c, d, e, f, g, h) => {
                ||| a == 0 && b == 0 && c == 0 && d == 0 && e == 0 && f == 0 && g == 0 && h == 1
                ||| 0xff00 <= a
                ||| a == 0 && b == 0 && c == 0 && d == 0 && e == 0 && f == 0 && g == 0 && h == 0
                ||| 0xfc00 <= a <= 0xfdff
                ||| 0xfe80 <= a <= 0xfebf
            },
        }
    }
}

/// Whether an address can be that of a host on the public internet: it is
/// in none of the reserved ranges.
pub fn is_public_ip(ip: &IpAddress) -> (r: bool)
    ensures
        r == !ip.reserved(),
{
    match *ip {
        IpAddress::V4(a, b, c, d) => {
            !(a == 10 || (a == 172 && 16 <= b && b <= 31) || (a == 192 && b == 168) || a == 127
                || (a == 169 && b == 254) || (a == 255 && b == 255 && c == 255 && d == 255) || (a
                == 192 && b == 0 && c == 2) || (a == 198 && b == 51 && c == 100) || (a == 203 && b
                == 0 && c == 113) || (a == 0 && b == 0 && c == 0 && d == 0) || (224 <= a && a
                <= 239))
        },
        IpAddress::V6(a, b, c, d, e, f, g, h) => {
            let rest_is_zero = a == 0 && b == 0 && c == 0 && d == 0 && e == 0 && f == 0 && g == 0;
            !((rest_is_zero && h == 1) || 0xff00 <= a || (rest_is_zero && h == 0) || (0xfc00 <= a
                && a <= 0xfdff) || (0xfe80 <= a && a <= 0xfebf))
        },
    }
}

} // verus!
