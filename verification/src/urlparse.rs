//! The parsed shape of a URL, and the one call into the `url` crate
//! that produces it.
//!
//! Parsing itself is the WHATWG algorithm and stays in the `url`
//! crate; this module only names its outcome. Everything the
//! validation rules read — the normalized serialization, the scheme,
//! and the host — is carried as plain values.

use vstd::prelude::*;

use url::Host;

verus! {

/// The host of a parsed URL, at the specification level.
///
/// A domain is the dot-separated name as the parser normalized it
/// (lower-cased, punycoded); addresses are their numeric pieces, an
/// IPv6 address as its eight 16-bit segments.
pub enum HostModel {
    Domain(Seq<char>),
    Ipv4(u8, u8, u8, u8),
    Ipv6(u16, u16, u16, u16, u16, u16, u16, u16),
}

/// A parsed URL at the specification level: its normalized
/// serialization, its scheme, and its host, if it has one.
pub struct UrlModel {
    pub serialization: Seq<char>,
    pub scheme: Seq<char>,
    pub host: Option<HostModel>,
}

/// What the WHATWG URL parser makes of a string: `None` when the
/// string does not parse as an absolute URL, otherwise the parts of
/// the parsed URL. The algorithm is the `url` crate's; this name
/// stands for its result.
pub uninterp spec fn url_model_of(raw: Seq<char>) -> Option<UrlModel>;

/// The host of a parsed URL, as executable data.
pub enum HostPart {
    /// A DNS name, normalized by the parser.
    Domain(String),
    /// An IPv4 address, as its four octets.
    Ipv4(u8, u8, u8, u8),
    /// An IPv6 address, as its eight segments.
    Ipv6(u16, u16, u16, u16, u16, u16, u16, u16),
}

impl View for HostPart {
    type V = HostModel;

    open spec fn view(&self) -> HostModel {
        match self {
            HostPart::Domain(d) => HostModel::Domain(d@),
            HostPart::Ipv4(a, b, c, d) => HostModel::Ipv4(*a, *b, *c, *d),
            HostPart::Ipv6(s0, s1, s2, s3, s4, s5, s6, s7) => HostModel::Ipv6(
                *s0,
                *s1,
                *s2,
                *s3,
                *s4,
                *s5,
                *s6,
                *s7,
            ),
        }
    }
}

/// A parsed URL, as executable data.
pub struct ParsedUrl {
    /// The parser's normalized serialization of the whole URL.
    pub serialization: String,
    /// The scheme, lower-cased by the parser.
    pub scheme: String,
    /// The host, absent for URLs that cannot have one.
    pub host: Option<HostPart>,
}

impl View for ParsedUrl {
    type V = UrlModel;

    open spec fn view(&self) -> UrlModel {
        UrlModel {
            serialization: self.serialization@,
            scheme: self.scheme@,
            host: match &self.host {
                Some(h) => Some(h@),
                None => None,
            },
        }
    }
}

impl Clone for HostPart {
    /// An equal host, part for part.
    fn clone(&self) -> (c: Self)
        ensures
            c@ == self@,
    {
        match self {
            HostPart::Domain(d) => HostPart::Domain(d.clone()),
            HostPart::Ipv4(a, b, c, d) => HostPart::Ipv4(*a, *b, *c, *d),
            HostPart::Ipv6(s0, s1, s2, s3, s4, s5, s6, s7) => HostPart::Ipv6(
                *s0,
                *s1,
                *s2,
                *s3,
                *s4,
                *s5,
                *s6,
                *s7,
            ),
        }
    }
}

impl Clone for ParsedUrl {
    /// An equal parsed URL, part for part.
    fn clone(&self) -> (c: Self)
        ensures
            c@ == self@,
    {
        ParsedUrl {
            serialization: self.serialization.clone(),
            scheme: self.scheme.clone(),
            host: match &self.host {
                Some(h) => Some(h.clone()),
                None => None,
            },
        }
    }
}

/// Relies on `url::Url::parse` for parsing, and on the accessors
/// `Url::as_str`, `Url::scheme` and `Url::host` to read the parsed
/// URL's serialization, scheme and host; `url_model_of` names the
/// combined result.
#[verifier::external_body]
pub fn parse_url(raw: &str) -> (r: Option<ParsedUrl>)
    ensures
        match r {
            Some(p) => url_model_of(raw@) == Some(p@),
            None => url_model_of(raw@) is None,
        },
{
    match url::Url::parse(raw) {
        Ok(u) => Some(ParsedUrl {
            serialization: u.to_string(),
            scheme: u.scheme().to_string(),
            host: u.host().map(|h| match h {
                Host::Domain(d) => HostPart::Domain(d.to_string()),
                Host::Ipv4(a) => { let o = a.octets(); HostPart::Ipv4(o[0], o[1], o[2], o[3]) },
                Host::Ipv6(a) => { let s = a.segments(); HostPart::Ipv6(s[0], s[1], s[2], s[3], s[4], s[5], s[6], s[7]) },
            }),
        }),
        Err(_) => None,
    }
}

} // verus!
