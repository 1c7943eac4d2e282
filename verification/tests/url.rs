use waybackmachine_client::{ArchivableUrl, Error};

#[test]
fn valid_http_url() {
    let url = "http://example.com/";
    let result = ArchivableUrl::parse(url);
    assert!(result.is_ok());
    let archivable_url = result.unwrap();
    assert_eq!(archivable_url.as_str(), url);
}

#[test]
fn valid_https_url() {
    let url = "https://example.com/";
    let result = ArchivableUrl::parse(url);
    assert!(result.is_ok());
    let archivable_url = result.unwrap();
    assert_eq!(archivable_url.as_str(), url);
}

#[test]
fn invalid_url() {
    let url = "invalid-url";
    let result = ArchivableUrl::parse(url);
    assert!(result.is_err());
    assert_eq!(result.err(), Some(Error::InvalidUrl(url.to_string())));
}

#[test]
fn invalid_scheme() {
    let url = "ftp://example.com/";
    let result = ArchivableUrl::parse(url);
    assert!(result.is_err());
    assert_eq!(result.err(), Some(Error::InvalidUrl(url.to_string())));
}

#[test]
fn localhost_url() {
    let url = "http://localhost/";
    let result = ArchivableUrl::parse(url);
    assert!(result.is_err());
    assert_eq!(result.err(), Some(Error::InvalidUrl(url.to_string())));
}

#[test]
fn private_ip_url() {
    let url = "http://192.168.1.1/";
    let result = ArchivableUrl::parse(url);
    assert!(result.is_err());
    assert_eq!(result.err(), Some(Error::InvalidUrl(url.to_string())));
}

#[test]
fn reserved_ip_url() {
    let url = "http://0.0.0.0/";
    let result = ArchivableUrl::parse(url);
    assert!(result.is_err());
    assert_eq!(result.err(), Some(Error::InvalidUrl(url.to_string())));
}

#[test]
fn special_localhost_alias_url() {
    let url = "http://localhost.localdomain/";
    let result = ArchivableUrl::parse(url);
    assert!(result.is_err());
    assert_eq!(result.err(), Some(Error::InvalidUrl(url.to_string())));
}

#[test]
fn wayback_url() {
    let url = "https://archive.org/some-book";
    let result = ArchivableUrl::parse(url);
    assert!(result.is_err());
    assert_eq!(result.err(), Some(Error::ExcludedUrl(url.to_string())));
}

#[test]
fn jstor_url() {
    let url = "https://jstor.org/some-book";
    let result = ArchivableUrl::parse(url);
    assert!(result.is_err());
    assert_eq!(result.err(), Some(Error::ExcludedUrl(url.to_string())));
}

#[test]
fn excluded_domains() {
    for domain in waybackmachine_client::archivableurl::excluded_domains() {
        let url = format!("https://{}/some-path", domain);
        let result = ArchivableUrl::parse(&url);
        assert!(result.is_err());
        assert_eq!(result.err(), Some(Error::ExcludedUrl(url)));
    }
}

#[test]
fn archivableurl_valid_http_url() {
    let url = "http://example.com/";
    let result = ArchivableUrl::parse(url);
    assert!(result.is_ok());
    let archivable_url = result.unwrap();
    assert_eq!(archivable_url.as_str(), url);
}

#[test]
fn archivableurl_valid_https_url() {
    let url = "https://example.com/";
    let result = ArchivableUrl::parse(url);
    assert!(result.is_ok());
    let archivable_url = result.unwrap();
    assert_eq!(archivable_url.as_str(), url);
}

#[test]
fn archivableurl_invalid_url() {
    let url = "invalid-url";
    let result = ArchivableUrl::parse(url);
    assert!(result.is_err());
    assert_eq!(result.err(), Some(Error::InvalidUrl(url.to_string())));
}

#[test]
fn archivableurl_invalid_scheme() {
    let url = "ftp://example.com/";
    let result = ArchivableUrl::parse(url);
    assert!(result.is_err());
    assert_eq!(result.err(), Some(Error::InvalidUrl(url.to_string())));
}

#[test]
fn archivableurl_localhost_url() {
    let url = "http://localhost/";
    let result = ArchivableUrl::parse(url);
    assert!(result.is_err());
    assert_eq!(result.err(), Some(Error::InvalidUrl(url.to_string())));
}

#[test]
fn archivableurl_private_ip_url() {
    let url = "http://192.168.1.1/";
    let result = ArchivableUrl::parse(url);
    assert!(result.is_err());
    assert_eq!(result.err(), Some(Error::InvalidUrl(url.to_string())));
}

#[test]
fn archivableurl_reserved_ip_url() {
    let url = "http://0.0.0.0/";
    let result = ArchivableUrl::parse(url);
    assert!(result.is_err());
    assert_eq!(result.err(), Some(Error::InvalidUrl(url.to_string())));
}

#[test]
fn archivableurl_special_localhost_alias_url() {
    let url = "http://localhost.localdomain/";
    let result = ArchivableUrl::parse(url);
    assert!(result.is_err());
    assert_eq!(result.err(), Some(Error::InvalidUrl(url.to_string())));
}

#[test]
fn loopback_ipv6_url() {
    let result = ArchivableUrl::parse("http://[::1]/");
    assert_eq!(
        result.err(),
        Some(Error::InvalidUrl("http://[::1]/".to_string()))
    );
}

#[test]
fn unspecified_ipv6_url() {
    let result = ArchivableUrl::parse("http://[::]/");
    assert_eq!(
        result.err(),
        Some(Error::InvalidUrl("http://[::]/".to_string()))
    );
}

#[test]
fn multicast_ipv6_url() {
    let result = ArchivableUrl::parse("http://[ff02::1]/");
    assert_eq!(
        result.err(),
        Some(Error::InvalidUrl("http://[ff02::1]/".to_string()))
    );
}

#[test]
fn unique_local_ipv6_url() {
    let result = ArchivableUrl::parse("http://[fd12:3456:789a::1]/");
    assert_eq!(
        result.err(),
        Some(Error::InvalidUrl("http://[fd12:3456:789a::1]/".to_string()))
    );
}

#[test]
fn public_ipv6_url() {
    let result = ArchivableUrl::parse("http://[2001:db8::1]/");
    assert!(result.is_ok());
}

#[test]
fn private_ten_range_url() {
    let result = ArchivableUrl::parse("http://10.1.2.3/");
    assert_eq!(
        result.err(),
        Some(Error::InvalidUrl("http://10.1.2.3/".to_string()))
    );
}

#[test]
fn private_one_seven_two_range_url() {
    let result = ArchivableUrl::parse("http://172.16.0.1/");
    assert_eq!(
        result.err(),
        Some(Error::InvalidUrl("http://172.16.0.1/".to_string()))
    );
}

#[test]
fn multicast_ipv4_url() {
    let result = ArchivableUrl::parse("http://224.0.0.1/");
    assert_eq!(
        result.err(),
        Some(Error::InvalidUrl("http://224.0.0.1/".to_string()))
    );
}

#[test]
fn public_ipv4_url() {
    let result = ArchivableUrl::parse("http://93.184.216.34/");
    assert!(result.is_ok());
}

#[test]
fn localhost_substring_url() {
    // Unanchored containment: even an unrelated domain that merely
    // contains the word is rejected.
    let result = ArchivableUrl::parse("http://notlocalhost.com/");
    assert_eq!(
        result.err(),
        Some(Error::InvalidUrl("http://notlocalhost.com/".to_string()))
    );
}

#[test]
fn excluded_substring_url() {
    // Denylist matching is containment too, anywhere in the domain.
    let result = ArchivableUrl::parse("https://www.youtube.com/watch");
    assert_eq!(
        result.err(),
        Some(Error::ExcludedUrl("https://www.youtube.com/watch".to_string()))
    );
}

#[test]
fn excluded_with_bad_scheme_url() {
    // The scheme rule is applied before the denylist: a non-web
    // scheme is invalid outright, even on a denylisted host, since
    // exclusion is reserved for otherwise archivable URLs.
    let result = ArchivableUrl::parse("ftp://jstor.org/some-book");
    assert_eq!(
        result.err(),
        Some(Error::InvalidUrl("ftp://jstor.org/some-book".to_string()))
    );
}

#[test]
fn localhost_takes_precedence_over_denylist() {
    // A domain that is both denylisted and contains "localhost" is
    // invalid, not merely excluded: the harder class wins.
    let result = ArchivableUrl::parse("https://localhost.jstor.org/");
    assert_eq!(
        result.err(),
        Some(Error::InvalidUrl("https://localhost.jstor.org/".to_string()))
    );
}

#[test]
fn no_host_url() {
    let result = ArchivableUrl::parse("data:text/plain,hello");
    assert_eq!(
        result.err(),
        Some(Error::InvalidUrl("data:text/plain,hello".to_string()))
    );
}

#[test]
fn error_message_text() {
    let err = Error::InvalidUrl("invalid-url".to_string());
    assert_eq!(err.message(), "Invalid URL: invalid-url");
    let err = Error::CannotArchive("520".to_string(), "https://example.com/".to_string());
    assert_eq!(err.message(), "Failed (520): https://example.com/");
}
