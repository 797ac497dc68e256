//! What is left to others: the reading of the values that a request carries,
//! the writing of IPv6 addresses, and the naming of addresses for reverse
//! lookup.
//!
//! Numbers are read by the standard library; addresses and domain names are
//! read, written and named by `hickory_proto`, which this library shares with
//! the caller that talks to the server. The contracts of the functions in
//! this file are not proved: each says what it takes for granted of the
//! function that it calls.

use crate::notation::{ipv4_reverse_text, ipv4_text, ipv6_reverse_text, u16_value};
use vstd::prelude::*;

verus! {

/// The eight segments that the text of an IPv6 address denotes, `None` where
/// the text is no such address.
pub uninterp spec fn ipv6_parse(s: Seq<char>) -> Option<Seq<u16>>;

/// The text that an IPv6 address of these eight segments is written as.
pub uninterp spec fn ipv6_text(segments: Seq<u16>) -> Seq<char>;

/// True of a text that can be read as a domain name.
pub uninterp spec fn domain_name_valid(s: Seq<char>) -> bool;

/// Reads a 16-bit unsigned number with `str::parse::<u16>`.
///
/// Taken for granted: the text is accepted exactly when it is one optional
/// `+` followed by decimal digits only, at least one, that denote a number
/// up to 65535; that number is returned.
#[verifier::external_body]
pub(crate) fn parse_u16(s: &str) -> (parsed: Option<u16>)
    ensures
        parsed == u16_value(s@),
{
    s.parse::<u16>().ok()
}

/// Reads an IPv4 address with `hickory_proto::rr::rdata::A::from_str`, which
/// hands the text to `Ipv4Addr::from_str`.
///
/// Taken for granted: the texts that are accepted are the dot-decimal
/// notations of four octets, without leading zeros, and the octets that are
/// returned are those that the text is the notation of.
#[verifier::external_body]
pub(crate) fn parse_ipv4(s: &str) -> (parsed: Option<[u8; 4]>)
    ensures
        match parsed {
            Some(octets) => ipv4_text(octets@) == s@,
            None => forall|octets: Seq<u8>|
                octets.len() == 4 ==> #[trigger] ipv4_text(octets) != s@,
        },
{
    match s.parse::<hickory_proto::rr::rdata::A>() {
        Ok(address) => Some(address.octets()),
        Err(_) => None,
    }
}

/// Reads an IPv6 address with `hickory_proto::rr::rdata::AAAA::from_str`,
/// which hands the text to `Ipv6Addr::from_str`.
///
/// Taken for granted: the result depends on the text alone.
#[verifier::external_body]
pub(crate) fn parse_ipv6(s: &str) -> (parsed: Option<[u16; 8]>)
    ensures
        match parsed {
            Some(segments) => ipv6_parse(s@) == Some(segments@),
            None => ipv6_parse(s@) is None,
        },
{
    match s.parse::<hickory_proto::rr::rdata::AAAA>() {
        Ok(address) => Some(address.segments()),
        Err(_) => None,
    }
}

/// Writes an IPv6 address as `hickory_proto::rr::rdata::AAAA` displays it,
/// which is as `Ipv6Addr` displays it.
///
/// Taken for granted: the text depends on the segments alone.
#[verifier::external_body]
pub(crate) fn format_ipv6(segments: &[u16; 8]) -> (text: String)
    ensures
        text@ == ipv6_text(segments@),
{
    let s = segments;
    hickory_proto::rr::rdata::AAAA::new(s[0], s[1], s[2], s[3], s[4], s[5], s[6], s[7]).to_string()
}

/// Tells whether `hickory_proto::rr::Name::from_str` accepts the text.
///
/// Taken for granted: the answer depends on the text alone.
#[verifier::external_body]
pub(crate) fn is_domain_name(s: &str) -> (valid: bool)
    ensures
        valid == domain_name_valid(s@),
{
    s.parse::<hickory_proto::rr::Name>().is_ok()
}

/// The name that `hickory_proto::rr::Name::from` makes of an IPv4 address, as
/// the name's `to_string` writes it.
///
/// Taken for granted: the name is fully qualified and has six labels, the
/// four octets in decimal, last octet first, then `in-addr` and `arpa`; and
/// it is written with a dot after each label.
#[verifier::external_body]
pub(crate) fn reverse_name_v4(octets: &[u8; 4]) -> (name: String)
    ensures
        name@ == ipv4_reverse_text(octets@),
{
    let address = hickory_proto::rr::rdata::A::new(octets[0], octets[1], octets[2], octets[3]);
    hickory_proto::rr::Name::from(address.0).to_string()
}

/// The name that `hickory_proto::rr::Name::from` makes of an IPv6 address, as
/// the name's `to_string` writes it.
///
/// Taken for granted: the name is fully qualified and has 34 labels, the 32
/// groups of four bits as lower-case hexadecimal digits, last group first,
/// then `ip6` and `arpa`; and it is written with a dot after each label.
#[verifier::external_body]
pub(crate) fn reverse_name_v6(segments: &[u16; 8]) -> (name: String)
    ensures
        name@ == ipv6_reverse_text(segments@),
{
    let s = segments;
    let address = hickory_proto::rr::rdata::AAAA::new(
        s[0], s[1], s[2], s[3], s[4], s[5], s[6], s[7],
    );
    hickory_proto::rr::Name::from(address.0).to_string()
}

} // verus!
