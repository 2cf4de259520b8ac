//! IP addresses as plain numbers, with the standard library's parsing and
//! display behind named results.

use vstd::prelude::*;

verus! {

/// An IP address: IPv4 as its 32-bit number, IPv6 as its 128-bit number.
#[derive(Debug, Clone, Copy, PartialEq, Eq, Structural)]
pub enum IpAddress {
    V4(u32),
    V6(u128),
}

/// The address that `str::parse::<core::net::IpAddr>` reads from `text`.
pub uninterp spec fn ip_parse(text: Seq<char>) -> Option<IpAddress>;

/// The address that `str::parse::<core::net::Ipv6Addr>` reads from `text`.
pub uninterp spec fn ipv6_parse(text: Seq<char>) -> Option<u128>;

/// The text that `core::net::IpAddr`'s `Display` writes for an address.
pub uninterp spec fn ip_display(a: IpAddress) -> Seq<char>;

/// Parses an IP address with `str::parse::<core::net::IpAddr>`; the
/// contract names the result and claims no more.
#[verifier::external_body]
pub(crate) fn parse_ip(text: &str) -> (r: Option<IpAddress>)
    ensures
        r == ip_parse(text@),
{
    match text.parse::<core::net::IpAddr>() {
        Ok(core::net::IpAddr::V4(a)) => Some(IpAddress::V4(u32::from(a))),
        Ok(core::net::IpAddr::V6(a)) => Some(IpAddress::V6(u128::from(a))),
        Err(_) => None,
    }
}

/// Parses an IPv6 address with `str::parse::<core::net::Ipv6Addr>`; the
/// contract names the result and claims no more.
#[verifier::external_body]
pub(crate) fn parse_ipv6(text: &str) -> (r: Option<u128>)
    ensures
        r == ipv6_parse(text@),
{
    match text.parse::<core::net::Ipv6Addr>() {
        Ok(a) => Some(u128::from(a)),
        Err(_) => None,
    }
}

/// Writes an address with `core::net::IpAddr`'s `Display`; the contract
/// names the text and claims no more.
#[verifier::external_body]
pub(crate) fn ip_text(a: &IpAddress) -> (s: String)
    ensures
        s@ == ip_display(*a),
{
    let ip = match a {
        IpAddress::V4(b) => core::net::IpAddr::V4(core::net::Ipv4Addr::from(*b)),
        IpAddress::V6(b) => core::net::IpAddr::V6(core::net::Ipv6Addr::from(*b)),
    };
    ip.to_string()
}

/// Whether an IPv6 address is unicast link-local (`fe80::/10`), as
/// `Ipv6Addr::is_unicast_link_local` documents it.
pub open spec fn is_link_local(bits: u128) -> bool {
    (bits >> 118u128) == 0x3fa
}

/// Tests an IPv6 address for the `fe80::/10` prefix.
pub fn is_unicast_link_local(bits: u128) -> (b: bool)
    ensures
        b == is_link_local(bits),
{
    (bits >> 118u128) == 0x3fa
}

} // verus!
