//! Reading the timestamp-index answer: is there a snapshot newer
//! than the freshness cutoff?
//!
//! The canonical answer shape is a JSON array of rows: a header row,
//! and a second row holding one capture timestamp if and only if a
//! snapshot exists. Decoding the JSON bytes is serde's work, behind a
//! trusted wrapper; everything after the rows is verified here.

use vstd::prelude::*;

use crate::errors::Error;
use crate::timestamp::{parse_timestamp, timestamp_of, Timestamp};

verus! {

/// What the JSON decoder makes of a response body: `None` when the
/// bytes are not a JSON array of arrays of strings, otherwise the
/// decoded rows. The decoding is serde's; this name stands for its
/// result.
pub uninterp spec fn json_rows_of(body: Seq<u8>) -> Option<Seq<Seq<Seq<char>>>>;

/// Relies on `serde_json::from_slice::<Vec<Vec<String>>>`: it decodes
/// exactly the bodies that are a JSON array of arrays of strings;
/// `json_rows_of` names the decoded rows.
#[verifier::external_body]
fn parse_rows(body: &Vec<u8>) -> (r: Option<Vec<Vec<String>>>)
    ensures
        match r {
            Some(rows) => json_rows_of(body@) == Some(rows.deep_view()),
            None => json_rows_of(body@) is None,
        },
{
    serde_json::from_slice::<Vec<Vec<String>>>(body.as_slice()).ok()
}

/// What an existence answer means.
pub enum CheckVerdict {
    /// A snapshot strictly newer than the cutoff exists: do not re-archive.
    Fresh,
    /// No snapshot, or only one at or before the cutoff: archiving may proceed.
    NoRecent,
    /// The answer could not be read: undecodable body or malformed timestamp.
    Unreadable,
}

/// The freshness rule over decoded rows: exactly two rows whose
/// second holds exactly one field name a snapshot; its timestamp must
/// read as a calendar instant, and only one strictly after the cutoff
/// is fresh. Any other shape means no recent archive — never pick
/// among several rows.
pub open spec fn rows_verdict(rows: Seq<Seq<Seq<char>>>, cutoff: Timestamp) -> CheckVerdict {
    if rows.len() == 2 && rows[1].len() == 1 {
        match timestamp_of(rows[1][0]) {
            Some(ts) => if ts.after_spec(cutoff) {
                CheckVerdict::Fresh
            } else {
                CheckVerdict::NoRecent
            },
            None => CheckVerdict::Unreadable,
        }
    } else {
        CheckVerdict::NoRecent
    }
}

/// The freshness rule over the raw body bytes.
pub open spec fn body_verdict(body: Seq<u8>, cutoff: Timestamp) -> CheckVerdict {
    match json_rows_of(body) {
        Some(rows) => rows_verdict(rows, cutoff),
        None => CheckVerdict::Unreadable,
    }
}

/// The body names a snapshot newer than the cutoff.
pub open spec fn body_is_fresh(body: Seq<u8>, cutoff: Timestamp) -> bool {
    body_verdict(body, cutoff) is Fresh
}

/// Judges decoded rows against the cutoff. Success means a recent
/// snapshot exists and blocks re-archiving; failure carries why
/// archiving may (or cannot) proceed.
pub fn evaluate_rows(rows: &Vec<Vec<String>>, cutoff: &Timestamp, url: &str) -> (r: Result<
    (),
    Error,
>)
    ensures
        match rows_verdict(rows.deep_view(), *cutoff) {
            CheckVerdict::Fresh => r is Ok,
            CheckVerdict::NoRecent => r matches Err(Error::NoRecentArchive(s)) && s@ == url@,
            CheckVerdict::Unreadable => r matches Err(Error::CannotCheckArchive(s)) && s@
                == rows.deep_view()[1][0],
        },
{
    proof {
        assert(rows.deep_view().len() == rows@.len());
    }
    if rows.len() == 2 {
        let second = &rows[1];
        proof {
            assert(rows.deep_view()[1] == rows@[1].deep_view());
            assert(second.deep_view().len() == second@.len());
        }
        if second.len() == 1 {
            let field = &second[0];
            proof {
                assert(second.deep_view()[0] == second@[0]@);
            }
            match parse_timestamp(field.as_str()) {
                Some(ts) => {
                    if ts.after(cutoff) {
                        Ok(())
                    } else {
                        Err(Error::NoRecentArchive(String::from_str(url)))
                    }
                },
                None => Err(Error::CannotCheckArchive(field.clone())),
            }
        } else {
            Err(Error::NoRecentArchive(String::from_str(url)))
        }
    } else {
        Err(Error::NoRecentArchive(String::from_str(url)))
    }
}

/// Whether a raw existence-answer body names a snapshot newer than
/// the cutoff; anything unreadable counts as not fresh.
pub fn body_indicates_fresh(body: &Vec<u8>, cutoff: &Timestamp) -> (r: bool)
    ensures
        r == body_is_fresh(body@, *cutoff),
{
    match parse_rows(body) {
        Some(rows) => evaluate_rows(&rows, cutoff, "").is_ok(),
        None => false,
    }
}

/// Judges a raw existence-answer body against the cutoff: decodes the
/// rows, then applies [`rows_verdict`]. An undecodable body reports
/// the URL it was asked about.
pub fn evaluate_check_body(body: &Vec<u8>, cutoff: &Timestamp, url: &str) -> (r: Result<(), Error>)
    ensures
        match body_verdict(body@, *cutoff) {
            CheckVerdict::Fresh => r is Ok,
            CheckVerdict::NoRecent => r matches Err(Error::NoRecentArchive(s)) && s@ == url@,
            CheckVerdict::Unreadable => r matches Err(Error::CannotCheckArchive(s)) && (match json_rows_of(
                body@,
            ) {
                None => s@ == url@,
                Some(rows) => s@ == rows[1][0],
            }),
        },
{
    match parse_rows(body) {
        Some(rows) => evaluate_rows(&rows, cutoff, url),
        None => Err(Error::CannotCheckArchive(String::from_str(url))),
    }
}

} // verus!
