use vstd::prelude::*;

use crate::text::{begins_with, ends_with, ends_with_str, pieces, same_text, split_at_char, starts_with_str};

verus! {

/// Whether `c` is one of the ASCII digits `0` to `9`.
pub open spec fn is_ascii_digit(c: char) -> bool {
    '0' <= c && c <= '9'
}

/// The fourteen digits that a cached bulk file name carries before its
/// `.jsonl.gz` ending, after a hyphen: `oracle-cards-20250101093005.jsonl.gz`
/// carries `20250101093005`.
pub open spec fn stamp_digits(name: Seq<char>) -> Option<Seq<char>> {
    let n = name.len();
    if n >= 24 && ends_with(name, ".jsonl.gz"@) && name[n - 24] == '-' && (forall|i: int|
        n - 23 <= i < n - 9 ==> is_ascii_digit(#[trigger] name[i])) {
        Some(name.subrange(n - 23, n - 9))
    } else {
        None
    }
}

/// The timestamp digits of a cached bulk file name, if it has them.
pub fn timestamp_digits(name: &str) -> (r: Option<Vec<char>>)
    ensures
        match r {
            Some(d) => stamp_digits(name@) == Some(d@),
            None => stamp_digits(name@) is None,
        },
{
    let cs = crate::text::chars_of(name);
    let n = cs.len();
    proof {
        reveal_strlit(".jsonl.gz");
    }
    if n < 24 || !ends_with_str(name, ".jsonl.gz") || cs[n - 24] != '-' {
        return None;
    }
    let mut digits: Vec<char> = Vec::new();
    let mut i: usize = n - 23;
    while i < n - 9
        invariant
            cs@ == name@,
            n == cs.len(),
            n >= 24,
            n - 23 <= i <= n - 9,
            digits@ == name@.subrange(n - 23, i as int),
            forall|k: int| n - 23 <= k < i ==> is_ascii_digit(#[trigger] name@[k]),
        decreases n - 9 - i,
    {
        let c = cs[i];
        if !('0' <= c && c <= '9') {
            return None;
        }
        digits.push(c);
        proof {
            assert(name@.subrange(n - 23, i + 1) == name@.subrange(n - 23, i as int).push(c));
        }
        i = i + 1;
    }
    Some(digits)
}

/// The number of seconds since the Unix epoch that
/// `chrono::NaiveDateTime::parse_from_str` reads from `digits` in the format
/// `%Y%m%d%H%M%S`, taken as UTC, or none when it rejects them.
pub uninterp spec fn compact_utc_seconds(digits: Seq<char>) -> Option<i64>;

/// Reads a `%Y%m%d%H%M%S` timestamp with `chrono::NaiveDateTime::parse_from_str`
/// and gives its Unix time in whole seconds (`and_utc().timestamp()`). What
/// chrono accepts and the time it computes are not stated beyond the name
/// `compact_utc_seconds`.
#[verifier::external_body]
fn parse_compact_timestamp(digits: &str) -> (r: Option<i64>)
    ensures
        r == compact_utc_seconds(digits@),
{
    match chrono::NaiveDateTime::parse_from_str(digits, "%Y%m%d%H%M%S") {
        Ok(t) => Some(t.and_utc().timestamp()),
        Err(_) => None,
    }
}

/// The time stamp of a cached bulk file name, in Unix seconds.
pub open spec fn spec_updated_at(name: Seq<char>) -> Option<i64> {
    match stamp_digits(name) {
        Some(d) => compact_utc_seconds(d),
        None => None,
    }
}

/// When the bulk file with this name was published, read from the name:
/// the fourteen digits before `.jsonl.gz` as `%Y%m%d%H%M%S` in UTC.
pub fn extract_updated_at(file_name: &str) -> (r: Option<i64>)
    ensures
        r == spec_updated_at(file_name@),
{
    let digits = timestamp_digits(file_name)?;
    let s = crate::text::string_of(&digits);
    parse_compact_timestamp(s.as_str())
}

} // verus!

verus! {

/// The text after the last `/` of `uri` (all of it when it has none).
pub open spec fn last_segment(uri: Seq<char>) -> Seq<char> {
    pieces(uri, '/').last()
}

/// The name that a downloaded bulk file is stored under: the last path
/// segment of its download link.
pub fn download_file_name(uri: &str) -> (name: String)
    ensures
        name@ == last_segment(uri@),
{
    let mut parts = split_at_char(uri, '/');
    let ghost v = crate::text::views(parts@);
    assert(v.len() == parts@.len() && v.len() > 0);
    let last = parts.pop().unwrap();
    proof {
        assert(v[v.len() - 1] == last@);
    }
    last
}

/// What to do about the cached Oracle bulk file.
#[derive(Debug, Clone, PartialEq, Eq)]
pub enum CachePlan {
    /// Download the file afresh and store it under this name.
    Download { file_name: String },
    /// Use the cached file at this path.
    Reuse { path: String },
}

/// One second in nanoseconds.
pub const NANOS_PER_SECOND: u32 = 1_000_000_000;

/// A day in seconds.
pub const SECONDS_PER_DAY: i64 = 86400;

/// Whether the file stamped `stamp` is more than a day old at the instant
/// `now_secs` seconds and `now_nanos` nanoseconds after the epoch.
pub open spec fn older_than_a_day(stamp: i64, now_secs: i64, now_nanos: u32) -> bool {
    now_secs - stamp > 86400 || (now_secs - stamp == 86400 && now_nanos > 0)
}

/// Chooses between the cached bulk files (path and time stamp of each) and
/// a fresh download: the newest cached file is used unless it is more than
/// a day old; with no cached file, or a stale newest one, the file is
/// downloaded under the last segment of `download_uri`.
pub fn plan_cache(files: &Vec<(String, i64)>, now_secs: i64, now_nanos: u32, download_uri: &str) -> (plan: CachePlan)
    requires
        now_nanos < 1_000_000_000,
    ensures
        match plan {
            CachePlan::Download { file_name } => file_name@ == last_segment(download_uri@) && (files@.len() == 0
                || forall|i: int| 0 <= i < files@.len() ==> older_than_a_day(#[trigger] files@[i].1, now_secs, now_nanos)),
            CachePlan::Reuse { path } => exists|i: int|
                0 <= i < files@.len() && (#[trigger] files@[i]).0@ == path@ && !older_than_a_day(files@[i].1, now_secs, now_nanos)
                    && forall|j: int| 0 <= j < files@.len() ==> #[trigger] files@[j].1 <= files@[i].1,
        },
{
    if files.len() == 0 {
        return CachePlan::Download { file_name: download_file_name(download_uri) };
    }
    let mut best: usize = 0;
    let mut i: usize = 1;
    while i < files.len()
        invariant
            0 < files.len(),
            best < i <= files.len(),
            forall|j: int| 0 <= j < i ==> #[trigger] files@[j].1 <= files@[best as int].1,
        decreases files.len() - i,
    {
        if files[i].1 >= files[best].1 {
            best = i;
        }
        i = i + 1;
    }
    let stamp = files[best].1;
    let stale = (now_secs as i128) - (stamp as i128) > 86400 || ((now_secs as i128) - (stamp as i128) == 86400
        && now_nanos > 0);
    if stale {
        proof {
            assert forall|i: int| 0 <= i < files@.len() implies older_than_a_day(#[trigger] files@[i].1, now_secs, now_nanos) by {
                assert(files@[i].1 <= stamp);
            }
        }
        CachePlan::Download { file_name: download_file_name(download_uri) }
    } else {
        CachePlan::Reuse { path: files[best].0.clone() }
    }
}

/// Whether a directory entry named `name` at `path` is a stale Oracle bulk
/// file, to be removed once `kept` is chosen: an `oracle-cards-*.jsonl.gz`
/// file other than the kept one.
pub fn is_stale_oracle_file(name: &str, path: &str, kept: &str) -> (r: bool)
    ensures
        r == (path@ != kept@ && begins_with(name@, "oracle-cards-"@) && ends_with(name@, ".jsonl.gz"@)),
{
    !same_text(path, kept) && starts_with_str(name, "oracle-cards-") && ends_with_str(name, ".jsonl.gz")
}

} // verus!
