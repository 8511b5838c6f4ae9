use vstd::prelude::*;

verus! {

/// Earliest instant whose stamp is supported: 0001-01-01 00:00:00 UTC.
pub const EARLIEST_STAMP_SECS: i64 = -62135596800;

/// Latest instant whose stamp is supported: 9999-12-31 23:59:59 UTC.
pub const LATEST_STAMP_SECS: i64 = 253402300799;

/// The text `YYYY-MM-DD|HH:MM:SS` (UTC) of the instant `secs` seconds after
/// the Unix epoch.
pub uninterp spec fn stamp_text(secs: int) -> Seq<char>;

/// Whether `secs` lies in the supported range of instants.
pub open spec fn stamp_supported(secs: int) -> bool {
    EARLIEST_STAMP_SECS <= secs <= LATEST_STAMP_SECS
}

/// The recording file for directory `dir` and stamp `stamp`.
pub open spec fn path_text(dir: Seq<char>, stamp: Seq<char>) -> Seq<char> {
    dir + stamp + ".mp4"@
}

/// Relies on chrono's `DateTime::<Utc>::from_timestamp`, which gives `None`
/// only for instants outside its range (far wider than years 1 to 9999),
/// and `DateTime::format` with `%Y-%m-%d|%H:%M:%S`, whose text depends on the
/// instant alone.
#[verifier::external_body]
fn format_stamp(secs: i64) -> (r: Option<String>)
    ensures
        r matches Some(t) ==> t@ == stamp_text(secs as int),
        stamp_supported(secs as int) ==> r is Some,
{
    match chrono::DateTime::from_timestamp(secs, 0) {
        Some(t) => Some(t.format("%Y-%m-%d|%H:%M:%S").to_string()),
        None => None,
    }
}

/// The recording file `<dir><stamp>.mp4` for a stamp already formatted.
pub fn path_from_stamp(dir: &str, stamp: &str) -> (r: String)
    ensures
        r@ == path_text(dir@, stamp@),
{
    let mut p = String::from_str(dir);
    p.append(stamp);
    p.append(".mp4");
    p
}

/// The recording file for directory `dir` and the instant `secs` seconds
/// after the Unix epoch; `None` only when the instant cannot be stamped.
pub fn recording_path(dir: &str, secs: i64) -> (r: Option<String>)
    ensures
        r matches Some(p) ==> p@ == path_text(dir@, stamp_text(secs as int)),
        r is None ==> !stamp_supported(secs as int),
{
    match format_stamp(secs) {
        Some(stamp) => Some(path_from_stamp(dir, stamp.as_str())),
        None => None,
    }
}

} // verus!
