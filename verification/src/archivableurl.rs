//! Which URLs may be archived: the validation rules, their exact
//! verdict, and the laws the verdict obeys.

use vstd::prelude::*;

use crate::errors::Error;
use crate::strutil::{contains_substring, is_substring_of, str_eq_str};
use crate::urlparse::{parse_url, url_model_of, HostModel, HostPart, ParsedUrl, UrlModel};

verus! {

/// A URL that passed validation: safe and eligible for submission.
pub struct ArchivableUrl {
    /// The parsed URL, kept with the parts the rules inspected.
    pub url: ParsedUrl,
}

/// The built-in exclusion list: domains that refuse archive requests.
pub open spec fn excluded_domains_spec() -> Seq<Seq<char>> {
    seq!["archive.org"@, "jstor.org"@, "diw.de"@, "youtube.com"@, "plato.stanford.edu"@]
}

/// The built-in exclusion list, as owned strings.
pub fn excluded_domains() -> (r: Vec<String>)
    ensures
        r.deep_view() == excluded_domains_spec(),
{
    let mut v: Vec<String> = Vec::new();
    v.push(String::from_str("archive.org"));
    v.push(String::from_str("jstor.org"));
    v.push(String::from_str("diw.de"));
    v.push(String::from_str("youtube.com"));
    v.push(String::from_str("plato.stanford.edu"));
    proof {
        assert(v.deep_view() =~~= excluded_domains_spec());
    }
    v
}

/// Only the web's two plain schemes are archivable.
pub open spec fn scheme_ok(scheme: Seq<char>) -> bool {
    scheme == "http"@ || scheme == "https"@
}

/// IPv4 addresses that must not be archived: loopback (127.0.0.0/8),
/// the private ranges (10/8, 172.16/12, 192.168/16), multicast
/// (224.0.0.0/4), and the unspecified address.
pub open spec fn ipv4_blocked(a: u8, b: u8, c: u8, d: u8) -> bool {
    ||| a == 127
    ||| a == 10
    ||| (a == 172 && 16 <= b <= 31)
    ||| (a == 192 && b == 168)
    ||| 224 <= a <= 239
    ||| (a == 0 && b == 0 && c == 0 && d == 0)
}

/// IPv6 addresses that must not be archived: loopback (`::1`), the
/// unspecified address (`::`), multicast (`ff00::/8`), and the
/// private unique-local range (`fc00::/7`).
pub open spec fn ipv6_blocked(
    s0: u16,
    s1: u16,
    s2: u16,
    s3: u16,
    s4: u16,
    s5: u16,
    s6: u16,
    s7: u16,
) -> bool {
    ||| (s0 == 0 && s1 == 0 && s2 == 0 && s3 == 0 && s4 == 0 && s5 == 0 && s6 == 0 && (s7 == 0 || s7
        == 1))
    ||| s0 >= 0xff00
    ||| (0xfc00 <= s0 && s0 <= 0xfdff)
}

/// The host is an address in one of the blocked classes.
pub open spec fn host_is_blocked_ip(h: HostModel) -> bool {
    match h {
        HostModel::Domain(_) => false,
        HostModel::Ipv4(a, b, c, d) => ipv4_blocked(a, b, c, d),
        HostModel::Ipv6(s0, s1, s2, s3, s4, s5, s6, s7) => ipv6_blocked(
            s0,
            s1,
            s2,
            s3,
            s4,
            s5,
            s6,
            s7,
        ),
    }
}

/// The domain contains some exclusion-list entry as a substring.
pub open spec fn domain_matches(domain: Seq<char>, excluded: Seq<Seq<char>>) -> bool {
    exists|k: int| 0 <= k < excluded.len() && is_substring_of(#[trigger] excluded[k], domain)
}

/// What validation decides about one parsed URL.
pub enum Verdict {
    /// Safe to archive.
    Valid,
    /// Rejected outright: no host, a local or otherwise unsafe host,
    /// or a scheme that is not plain web traffic.
    Invalid,
    /// Well-formed, but the host refuses archiving; a softer rejection.
    Excluded,
}

/// The validation rules, in the order they are applied: a URL must
/// have a host; a domain containing "localhost" is invalid; an
/// address in a blocked class is invalid; the scheme must be http or
/// https; only a URL valid so far can then be excluded for matching
/// the exclusion list — exclusion is the softer class, reserved for
/// otherwise archivable URLs.
pub open spec fn validation_verdict(u: UrlModel, excluded: Seq<Seq<char>>) -> Verdict {
    match u.host {
        None => Verdict::Invalid,
        Some(HostModel::Domain(d)) => if is_substring_of("localhost"@, d) {
            Verdict::Invalid
        } else if !scheme_ok(u.scheme) {
            Verdict::Invalid
        } else if domain_matches(d, excluded) {
            Verdict::Excluded
        } else {
            Verdict::Valid
        },
        Some(h) => if host_is_blocked_ip(h) {
            Verdict::Invalid
        } else if !scheme_ok(u.scheme) {
            Verdict::Invalid
        } else {
            Verdict::Valid
        },
    }
}

/// How a validation result relates to the verdict on the parsed URL:
/// the valid URL itself, or the matching error carrying the
/// normalized serialization.
pub open spec fn validated_outcome(
    u: UrlModel,
    excluded: Seq<Seq<char>>,
    r: Result<ArchivableUrl, Error>,
) -> bool {
    match validation_verdict(u, excluded) {
        Verdict::Valid => r matches Ok(a) && a.url@ == u,
        Verdict::Invalid => r matches Err(Error::InvalidUrl(s)) && s@ == u.serialization,
        Verdict::Excluded => r matches Err(Error::ExcludedUrl(s)) && s@ == u.serialization,
    }
}

/// How a result of [`ArchivableUrl::parse`] relates to the raw input:
/// an unparsable input is invalid and echoed back verbatim; a parsed
/// one is judged by [`validation_verdict`].
pub open spec fn parse_outcome(
    raw: Seq<char>,
    excluded: Seq<Seq<char>>,
    r: Result<ArchivableUrl, Error>,
) -> bool {
    match url_model_of(raw) {
        None => r matches Err(Error::InvalidUrl(s)) && s@ == raw,
        Some(u) => validated_outcome(u, excluded, r),
    }
}

impl View for ArchivableUrl {
    type V = UrlModel;

    open spec fn view(&self) -> UrlModel {
        self.url@
    }
}

impl Clone for ArchivableUrl {
    /// An equal validated URL.
    fn clone(&self) -> (c: Self)
        ensures
            c@ == self@,
    {
        ArchivableUrl { url: self.url.clone() }
    }
}

impl ArchivableUrl {
    /// The URL passed every rule, against the given exclusion list.
    pub open spec fn is_valid_for(self, excluded: Seq<Seq<char>>) -> bool {
        validation_verdict(self.url@, excluded) is Valid
    }

    /// The URL passed every rule against the built-in exclusion list.
    pub open spec fn wf(self) -> bool {
        self.is_valid_for(excluded_domains_spec())
    }

    /// Judges an already parsed URL against the rules; the exact
    /// outcome is fixed by [`validated_outcome`].
    pub fn validate(parts: ParsedUrl, excluded: &Vec<String>) -> (r: Result<ArchivableUrl, Error>)
        ensures
            validated_outcome(parts@, excluded.deep_view(), r),
    {
        match &parts.host {
            None => {
                return Err(Error::InvalidUrl(parts.serialization.clone()));
            },
            Some(HostPart::Domain(domain)) => {
                if contains_substring(domain.as_str(), "localhost") {
                    return Err(Error::InvalidUrl(parts.serialization.clone()));
                }
                if !(str_eq_str(parts.scheme.as_str(), "http") || str_eq_str(
                    parts.scheme.as_str(),
                    "https",
                )) {
                    return Err(Error::InvalidUrl(parts.serialization.clone()));
                }
                let mut k: usize = 0;
                #[verifier::loop_isolation(false)]
                while k < excluded.len()
                    invariant
                        excluded.deep_view().len() == excluded@.len(),
                        k <= excluded@.len(),
                        forall|j: int|
                            0 <= j < k ==> !is_substring_of(
                                #[trigger] excluded.deep_view()[j],
                                domain@,
                            ),
                    decreases excluded@.len() - k,
                {
                    proof {
                        assert(excluded.deep_view()[k as int] == excluded@[k as int]@);
                    }
                    if contains_substring(domain.as_str(), excluded[k].as_str()) {
                        proof {
                            assert(is_substring_of(excluded.deep_view()[k as int], domain@));
                            assert(domain_matches(domain@, excluded.deep_view()));
                        }
                        return Err(Error::ExcludedUrl(parts.serialization.clone()));
                    }
                    k = k + 1;
                }
                assert(!domain_matches(domain@, excluded.deep_view()));
            },
            Some(HostPart::Ipv4(a, b, c, d)) => {
                let blocked = *a == 127 || *a == 10 || (*a == 172 && 16 <= *b && *b <= 31) || (*a
                    == 192 && *b == 168) || (224 <= *a && *a <= 239) || (*a == 0 && *b == 0 && *c
                    == 0 && *d == 0);
                if blocked {
                    return Err(Error::InvalidUrl(parts.serialization.clone()));
                }
            },
            Some(HostPart::Ipv6(s0, s1, s2, s3, s4, s5, s6, s7)) => {
                let blocked = (*s0 == 0 && *s1 == 0 && *s2 == 0 && *s3 == 0 && *s4 == 0 && *s5 == 0
                    && *s6 == 0 && (*s7 == 0 || *s7 == 1)) || *s0 >= 0xff00 || (0xfc00 <= *s0 && *s0
                    <= 0xfdff);
                if blocked {
                    return Err(Error::InvalidUrl(parts.serialization.clone()));
                }
            },
        }
        if !(str_eq_str(parts.scheme.as_str(), "http") || str_eq_str(
            parts.scheme.as_str(),
            "https",
        )) {
            return Err(Error::InvalidUrl(parts.serialization.clone()));
        }
        Ok(ArchivableUrl { url: parts })
    }

    /// Parses and validates a raw string against the given exclusion
    /// list.
    pub fn parse_with_exclusions(url: &str, excluded: &Vec<String>) -> (r: Result<
        ArchivableUrl,
        Error,
    >)
        ensures
            parse_outcome(url@, excluded.deep_view(), r),
    {
        match parse_url(url) {
            None => Err(Error::InvalidUrl(String::from_str(url))),
            Some(parts) => Self::validate(parts, excluded),
        }
    }

    /// Parses and validates a raw string for archiving, with the
    /// built-in exclusion list.
    pub fn parse(url: &str) -> (r: Result<ArchivableUrl, Error>)
        ensures
            parse_outcome(url@, excluded_domains_spec(), r),
    {
        let excluded = excluded_domains();
        Self::parse_with_exclusions(url, &excluded)
    }

    /// The validated URL, in the parser's normalized serialization.
    pub fn as_str(&self) -> (r: &str)
        ensures
            r@ == self.url@.serialization,
    {
        self.url.serialization.as_str()
    }
}

/// Law: a parsed URL whose scheme is neither `http` nor `https` is
/// always rejected as invalid, whatever its host and whatever the
/// exclusion list, with the URL's serialization as the payload.
pub proof fn lemma_scheme_rejected(
    u: UrlModel,
    excluded: Seq<Seq<char>>,
    r: Result<ArchivableUrl, Error>,
)
    requires
        !scheme_ok(u.scheme),
        validated_outcome(u, excluded, r),
    ensures
        r matches Err(Error::InvalidUrl(s)) && s@ == u.serialization,
{
}

/// Law: a parsed URL whose host is an address of a blocked class —
/// loopback, private, multicast or unspecified, IPv4 or IPv6 — is
/// always rejected as invalid, whatever the scheme or exclusion list.
pub proof fn lemma_blocked_ip_rejected(
    u: UrlModel,
    excluded: Seq<Seq<char>>,
    r: Result<ArchivableUrl, Error>,
)
    requires
        u.host matches Some(h) && host_is_blocked_ip(h),
        validated_outcome(u, excluded, r),
    ensures
        r matches Err(Error::InvalidUrl(s)) && s@ == u.serialization,
{
}

/// Law: a parsed URL whose domain contains "localhost" anywhere —
/// aliases like "localhost.localdomain" included — is always rejected
/// as invalid, whatever the scheme or exclusion list.
pub proof fn lemma_localhost_rejected(
    u: UrlModel,
    excluded: Seq<Seq<char>>,
    r: Result<ArchivableUrl, Error>,
)
    requires
        u.host matches Some(HostModel::Domain(d)) && is_substring_of("localhost"@, d),
        validated_outcome(u, excluded, r),
    ensures
        r matches Err(Error::InvalidUrl(s)) && s@ == u.serialization,
{
}

/// Law: a parsed URL whose domain contains an exclusion-list entry is
/// rejected as excluded — a class distinct from the invalid-URL error
/// and reserved for URLs that pass every hard rule — provided the
/// domain does not also contain "localhost" and the scheme is a web
/// scheme; either of those makes the URL invalid instead.
pub proof fn lemma_denylisted_excluded(
    u: UrlModel,
    excluded: Seq<Seq<char>>,
    r: Result<ArchivableUrl, Error>,
)
    requires
        u.host matches Some(HostModel::Domain(d)) && domain_matches(d, excluded)
            && !is_substring_of("localhost"@, d),
        scheme_ok(u.scheme),
        validated_outcome(u, excluded, r),
    ensures
        r matches Err(Error::ExcludedUrl(s)) && s@ == u.serialization,
        !(r matches Err(Error::InvalidUrl(_))),
{
}

} // verus!
