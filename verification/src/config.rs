//! Client configuration: endpoints, retry ceiling, user agent, and
//! the freshness cutoff, which is fixed once at construction from the
//! wall clock and never recomputed.

use vstd::prelude::*;

use chrono::{Datelike, Timelike};

use crate::errors::Error;
use crate::timestamp::Timestamp;
use crate::urlparse::{parse_url, url_model_of};

verus! {

/// How many retries a request gets by default.
pub const DEFAULT_MAX_REQUEST_RETRIES: u32 = 5;

/// Snapshots older than this many days are re-archived by default.
pub const DEFAULT_ARCHIVE_THRESHOLD_DAYS: i64 = 30;

/// The widest day offset the cutoff computation accepts; far more
/// than any sensible freshness window, yet small enough that the
/// calendar arithmetic beneath [`now_minus_days`] cannot leave the
/// range of representable dates.
pub const MAX_THRESHOLD_DAYS: i64 = 100_000;

/// A configuration at the specification level.
pub struct ConfigModel {
    pub archive_endpoint: Seq<char>,
    pub check_endpoint: Seq<char>,
    pub max_request_retries: u32,
    pub archive_threshold_timestamp: Timestamp,
    pub user_agent: Seq<char>,
}

/// Configuration for the archiving client: where to submit, where to
/// query, how hard to retry, and how fresh a snapshot must be.
///
/// Immutable once constructed; the cutoff below which snapshots count
/// as stale is computed here, once, as now minus the threshold.
pub struct ClientConfig {
    /// URL prefix the submission GET is built from.
    pub archive_endpoint: String,
    /// URL prefix the existence query GET is built from.
    pub check_endpoint: String,
    /// How many times a transient failure is retried per request.
    pub max_request_retries: u32,
    /// Snapshots at or before this instant are considered stale.
    pub archive_threshold_timestamp: Timestamp,
    /// The user-agent string requests are sent with.
    pub user_agent: String,
}

impl View for ClientConfig {
    type V = ConfigModel;

    open spec fn view(&self) -> ConfigModel {
        ConfigModel {
            archive_endpoint: self.archive_endpoint@,
            check_endpoint: self.check_endpoint@,
            max_request_retries: self.max_request_retries,
            archive_threshold_timestamp: self.archive_threshold_timestamp,
            user_agent: self.user_agent@,
        }
    }
}

/// Relies on chrono's `Utc::now`, `TimeDelta::try_days`, the
/// `DateTime` subtraction and the `Datelike`/`Timelike` accessors:
/// the current UTC time shifted back by the given days, read field by
/// field. The accessors document month 1–12, day 1–31, hour 0–23,
/// minute and second 0–59; the result depends on the wall clock, so
/// nothing ties it to the arguments. The day bound keeps the shifted
/// date representable, so the calls cannot panic — except that
/// `Utc::now` itself refuses a system clock set before the epoch, an
/// environmental condition no argument can exclude.
#[verifier::external_body]
fn now_minus_days(days: i64) -> (t: Timestamp)
    requires
        -100_000 <= days <= 100_000,
    ensures
        t.fields_in_range(),
{
    let shifted = chrono::Utc::now() - chrono::TimeDelta::try_days(days).unwrap();
    let d = shifted.naive_utc();
    Timestamp {
        year: d.year(),
        month: d.month() as u8,
        day: d.day() as u8,
        hour: d.hour() as u8,
        minute: d.minute() as u8,
        second: d.second() as u8,
    }
}

/// The archive service's submission endpoint.
pub fn wayback_machine_archive_endpoint() -> (r: String)
    ensures
        r@ == "https://web.archive.org/save/"@,
{
    String::from_str("https://web.archive.org/save/")
}

/// The archive service's timestamp-index endpoint.
pub fn wayback_machine_check_endpoint() -> (r: String)
    ensures
        r@ == "https://web.archive.org/cdx/search/cdx?fl=timestamp&limit=-1&output=json&url="@,
{
    String::from_str("https://web.archive.org/cdx/search/cdx?fl=timestamp&limit=-1&output=json&url=")
}

impl ClientConfig {
    /// Constructs a configuration with the given endpoints, retry
    /// ceiling, freshness threshold in days, and user agent.
    ///
    /// Both endpoints must parse as absolute URLs — the precondition
    /// leaves every other string out — and are stored in the parser's
    /// normalized serialization, so the request URLs built on them
    /// are well-formed prefixes. The cutoff is the wall clock's now
    /// minus the threshold, so only its field ranges can be promised.
    /// [`ClientConfig::try_new`] makes the same configuration after
    /// checking the endpoints at run time.
    pub fn new(
        archive_endpoint: String,
        check_endpoint: String,
        max_request_retries: u32,
        archive_threshold_days: i64,
        user_agent: String,
    ) -> (c: ClientConfig)
        requires
            -MAX_THRESHOLD_DAYS <= archive_threshold_days <= MAX_THRESHOLD_DAYS,
            url_model_of(archive_endpoint@) is Some,
            url_model_of(check_endpoint@) is Some,
        ensures
            url_model_of(archive_endpoint@) matches Some(u) && c@.archive_endpoint
                == u.serialization,
            url_model_of(check_endpoint@) matches Some(u) && c@.check_endpoint == u.serialization,
            c@.max_request_retries == max_request_retries,
            c@.user_agent == user_agent@,
            c@.archive_threshold_timestamp.fields_in_range(),
    {
        let archive_endpoint = match parse_url(archive_endpoint.as_str()) {
            Some(p) => p.serialization,
            None => unreached(),
        };
        let check_endpoint = match parse_url(check_endpoint.as_str()) {
            Some(p) => p.serialization,
            None => unreached(),
        };
        ClientConfig {
            archive_endpoint,
            check_endpoint,
            max_request_retries,
            archive_threshold_timestamp: now_minus_days(archive_threshold_days),
            user_agent,
        }
    }

    /// Constructs a configuration as [`ClientConfig::new`] does, but
    /// checks the endpoints itself: an endpoint that does not parse
    /// as an absolute URL is refused as invalid, the offending string
    /// echoed back, the submission endpoint judged first.
    pub fn try_new(
        archive_endpoint: String,
        check_endpoint: String,
        max_request_retries: u32,
        archive_threshold_days: i64,
        user_agent: String,
    ) -> (r: Result<ClientConfig, Error>)
        requires
            -MAX_THRESHOLD_DAYS <= archive_threshold_days <= MAX_THRESHOLD_DAYS,
        ensures
            match r {
                Ok(c) => {
                    &&& url_model_of(archive_endpoint@) matches Some(u) && c@.archive_endpoint
                        == u.serialization
                    &&& url_model_of(check_endpoint@) matches Some(u) && c@.check_endpoint
                        == u.serialization
                    &&& c@.max_request_retries == max_request_retries
                    &&& c@.user_agent == user_agent@
                    &&& c@.archive_threshold_timestamp.fields_in_range()
                },
                Err(e) => {
                    &&& e matches Error::InvalidUrl(s) && (if url_model_of(archive_endpoint@)
                        is None {
                        s@ == archive_endpoint@
                    } else {
                        s@ == check_endpoint@
                    })
                    &&& url_model_of(archive_endpoint@) is None || url_model_of(check_endpoint@)
                        is None
                },
            },
    {
        if parse_url(archive_endpoint.as_str()).is_none() {
            return Err(Error::InvalidUrl(archive_endpoint));
        }
        if parse_url(check_endpoint.as_str()).is_none() {
            return Err(Error::InvalidUrl(check_endpoint));
        }
        Ok(
            ClientConfig::new(
                archive_endpoint,
                check_endpoint,
                max_request_retries,
                archive_threshold_days,
                user_agent,
            ),
        )
    }

    /// The stock configuration: the public archive service's
    /// endpoints, the default retry ceiling and freshness threshold,
    /// and a descriptive user agent. The built-in endpoints are
    /// already in normalized form and are stored as they stand.
    pub fn with_defaults() -> (c: ClientConfig)
        ensures
            c@.archive_endpoint == "https://web.archive.org/save/"@,
            c@.check_endpoint
                == "https://web.archive.org/cdx/search/cdx?fl=timestamp&limit=-1&output=json&url="@,
            c@.max_request_retries == DEFAULT_MAX_REQUEST_RETRIES,
            c@.user_agent
                == "Mozilla/5.0 (X11; Fedora; Linux x86_64; rv:40.0) Gecko/20100101 Firefox/40.0"@,
            c@.archive_threshold_timestamp.fields_in_range(),
    {
        ClientConfig {
            archive_endpoint: wayback_machine_archive_endpoint(),
            check_endpoint: wayback_machine_check_endpoint(),
            max_request_retries: DEFAULT_MAX_REQUEST_RETRIES,
            archive_threshold_timestamp: now_minus_days(DEFAULT_ARCHIVE_THRESHOLD_DAYS),
            user_agent: String::from_str(
                "Mozilla/5.0 (X11; Fedora; Linux x86_64; rv:40.0) Gecko/20100101 Firefox/40.0",
            ),
        }
    }
}

impl Default for ClientConfig {
    /// The stock configuration, as [`ClientConfig::with_defaults`].
    fn default() -> (c: ClientConfig)
        ensures
            c@.archive_endpoint == "https://web.archive.org/save/"@,
            c@.check_endpoint
                == "https://web.archive.org/cdx/search/cdx?fl=timestamp&limit=-1&output=json&url="@,
            c@.max_request_retries == DEFAULT_MAX_REQUEST_RETRIES,
            c@.user_agent
                == "Mozilla/5.0 (X11; Fedora; Linux x86_64; rv:40.0) Gecko/20100101 Firefox/40.0"@,
            c@.archive_threshold_timestamp.fields_in_range(),
    {
        ClientConfig::with_defaults()
    }
}

impl Clone for ClientConfig {
    /// An equal configuration, field for field.
    fn clone(&self) -> (c: Self)
        ensures
            c@ == self@,
    {
        ClientConfig {
            archive_endpoint: self.archive_endpoint.clone(),
            check_endpoint: self.check_endpoint.clone(),
            max_request_retries: self.max_request_retries,
            archive_threshold_timestamp: self.archive_threshold_timestamp,
            user_agent: self.user_agent.clone(),
        }
    }
}

} // verus!
