//! Every call into code that Verus does not read goes through this module.
//! Each item names the function it relies on and what is assumed of it.

use vstd::prelude::*;

verus! {

/// The text held by an optional string.
pub open spec fn opt_text(o: Option<String>) -> Option<Seq<char>> {
    match o {
        Some(s) => Some(s@),
        None => None,
    }
}

/// What capture group 1 of the first match of `pattern` in `text` holds, under
/// the `regex` crate's syntax and leftmost-first semantics; `None` when the
/// pattern does not compile, nothing matches, or the group takes no part.
pub uninterp spec fn regex_capture(pattern: Seq<char>, text: Seq<char>) -> Option<Seq<char>>;

/// Relies on `regex::Regex::new`, `Regex::captures` and `Captures::get`: a
/// compiled pattern matches as a function of the pattern and the text alone.
#[verifier::external_body]
pub(crate) fn first_capture(pattern: &str, text: &str) -> (r: Option<String>)
    ensures
        opt_text(r) == regex_capture(pattern@, text@),
{
    let re = regex::Regex::new(pattern).ok()?;
    let caps = re.captures(text)?;
    caps.get(1).map(|m| m.as_str().to_string())
}

/// The final component of a path, as `std::path::Path::file_name` gives it.
pub uninterp spec fn path_file_name(path: Seq<char>) -> Option<Seq<char>>;

/// Relies on `std::path::Path::file_name`: the last normal component of the
/// path, `None` when the path ends in `..` or is a root or empty.
#[verifier::external_body]
pub(crate) fn file_name_of(path: &str) -> (r: Option<String>)
    ensures
        opt_text(r) == path_file_name(path@),
{
    std::path::Path::new(path).file_name().map(|n| n.to_string_lossy().into_owned())
}

/// The string value of member `key` of the JSON object that `text` parses to.
pub uninterp spec fn json_string_member(text: Seq<char>, key: Seq<char>) -> Option<Seq<char>>;

/// Relies on `serde_json::from_str` into a `serde_json::Value`, `Value::get`
/// and `Value::as_str`: `None` when the text is not JSON, is not an object,
/// lacks the member, or the member is not a string.
#[verifier::external_body]
pub(crate) fn json_member_str(text: &str, key: &str) -> (r: Option<String>)
    ensures
        opt_text(r) == json_string_member(text@, key@),
{
    let v: serde_json::Value = serde_json::from_str(text).ok()?;
    v.get(key)?.as_str().map(|m| m.to_string())
}

/// A calendar instant in UTC, field by field.
#[derive(Clone, Copy, Debug)]
pub struct UtcTime {
    pub year: i32,
    pub month: u32,
    pub day: u32,
    pub hour: u32,
    pub minute: u32,
    pub second: u32,
}

/// The month, day, hour, minute and second lie in their calendar ranges.
pub open spec fn fields_in_range(t: UtcTime) -> bool {
    &&& 1 <= t.month <= 12
    &&& 1 <= t.day <= 31
    &&& t.hour <= 23
    &&& t.minute <= 59
    &&& t.second <= 59
}

/// Relies on `std::time::SystemTime::now` and `SystemTime::duration_since`
/// with `UNIX_EPOCH`: `Ok` with the time since the epoch when the clock is at
/// or after it, `Err` with the time before it otherwise, each as a
/// `Duration`'s whole seconds and its nanoseconds, which stay below one
/// billion. The reading is whatever the clock says.
#[verifier::external_body]
pub(crate) fn clock_since_epoch() -> (r: Result<(u64, u32), (u64, u32)>)
    ensures
        r matches Ok(d) ==> d.1 < 1_000_000_000,
        r matches Err(d) ==> d.1 < 1_000_000_000,
{
    match std::time::SystemTime::now().duration_since(std::time::UNIX_EPOCH) {
        Ok(d) => Ok((d.as_secs(), d.subsec_nanos())),
        Err(e) => Err((e.duration().as_secs(), e.duration().subsec_nanos())),
    }
}

/// The calendar fields of an instant given as seconds and nanoseconds since
/// the epoch, as chrono computes them; `None` outside chrono's range.
pub uninterp spec fn utc_of(secs: i64, nanos: u32) -> Option<UtcTime>;

/// Relies on `chrono::DateTime::<Utc>::from_timestamp`, which returns `None`
/// for seconds outside chrono's range (it does not panic), and on the
/// `Datelike` / `Timelike` accessors, whose ranges chrono documents (month 1
/// to 12, day 1 to 31, hour 0 to 23, minute and second 0 to 59).
#[verifier::external_body]
pub(crate) fn utc_fields(secs: i64, nanos: u32) -> (r: Option<UtcTime>)
    ensures
        r == utc_of(secs, nanos),
        r matches Some(t) ==> fields_in_range(t),
{
    let dt = chrono::DateTime::<chrono::Utc>::from_timestamp(secs, nanos)?;
    Some(UtcTime {
        year: chrono::Datelike::year(&dt),
        month: chrono::Datelike::month(&dt),
        day: chrono::Datelike::day(&dt),
        hour: chrono::Timelike::hour(&dt),
        minute: chrono::Timelike::minute(&dt),
        second: chrono::Timelike::second(&dt),
    })
}

/// How two version strings compare under `semver::Version`'s `Ord` (derived:
/// major, minor, patch, pre-release, then build metadata); `None` unless both
/// parse as `semver::Version`.
pub uninterp spec fn semver_cmp(a: Seq<char>, b: Seq<char>) -> Option<core::cmp::Ordering>;

/// Relies on `semver::Version::parse` and the derived `Ord` of
/// `semver::Version`: the comparison depends on the two strings alone.
#[verifier::external_body]
pub(crate) fn compare_semver(a: &str, b: &str) -> (r: Option<core::cmp::Ordering>)
    ensures
        r == semver_cmp(a@, b@),
        r is Some <==> (is_semver(a@) && is_semver(b@)),
{
    match (semver::Version::parse(a), semver::Version::parse(b)) {
        (Ok(x), Ok(y)) => Some(x.cmp(&y)),
        _ => None,
    }
}

/// The input starts with a `~` that stands alone or before a `/`.
pub open spec fn tilde_led(s: Seq<char>) -> bool {
    s.len() > 0 && s[0] == '~' && (s.len() == 1 || s[1] == '/')
}

/// What tilde expansion may turn `input` into: an input led by `~` ends up as
/// some home directory followed by the rest of the input (or unchanged, when
/// no home directory is known); any other input stays as it is.
pub open spec fn tilde_expansion(input: Seq<char>, out: Seq<char>) -> bool {
    if tilde_led(input) {
        &&& out.len() + 1 >= input.len()
        &&& out.subrange(out.len() - (input.len() - 1), out.len() as int) == input.subrange(
            1,
            input.len() as int,
        )
    } else {
        out == input
    }
}

/// Expands a leading `~` to the home directory.
///
/// Relies on `shellexpand::tilde`, whose source replaces the `~` of `~` or
/// `~/...` by the home directory when one is known and returns any other
/// input unchanged. The home directory comes from the environment.
#[verifier::external_body]
pub fn expand_tilde(s: &str) -> (r: String)
    ensures
        tilde_expansion(s@, r@),
{
    shellexpand::tilde(s).into_owned()
}

/// The parent of a path, as `std::path::Path::parent` gives it.
pub uninterp spec fn path_parent(path: Seq<char>) -> Option<Seq<char>>;

/// Relies on `std::path::Path::parent`: the path without its final
/// component, `None` for a root or an empty path.
#[verifier::external_body]
pub(crate) fn parent_of(path: &str) -> (r: Option<String>)
    ensures
        opt_text(r) == path_parent(path@),
{
    std::path::Path::new(path).parent().map(|p| p.to_string_lossy().into_owned())
}

/// Relies on `directories::ProjectDirs::from` and `ProjectDirs::config_dir`:
/// the per-user configuration directory of the application, `None` when no
/// home directory is known. It depends on the environment, so nothing is
/// assumed of its value.
#[verifier::external_body]
pub(crate) fn project_config_dir() -> (r: Option<String>) {
    directories::ProjectDirs::from("dev", "Windman", "windman").map(
        |p| p.config_dir().to_string_lossy().into_owned(),
    )
}

/// The string parses as a SemVer version.
pub uninterp spec fn is_semver(s: Seq<char>) -> bool;

/// Relies on `semver::Version::parse`, which depends on the string alone.
#[verifier::external_body]
pub(crate) fn parses_as_semver(s: &str) -> (r: bool)
    ensures
        r == is_semver(s@),
{
    semver::Version::parse(s).is_ok()
}

/// A character with Unicode's `White_Space` property, which `char::is_whitespace`
/// tests.
pub open spec fn is_white_space(c: char) -> bool {
    ('\t' <= c && c <= '\r') || c == ' ' || c == '\u{85}' || c == '\u{a0}' || c == '\u{1680}'
        || ('\u{2000}' <= c && c <= '\u{200a}') || c == '\u{2028}' || c == '\u{2029}' || c
        == '\u{202f}' || c == '\u{205f}' || c == '\u{3000}'
}

/// The text without its leading white space.
pub open spec fn trim_start(s: Seq<char>) -> Seq<char>
    decreases s.len(),
{
    if s.len() > 0 && is_white_space(s[0]) {
        trim_start(s.drop_first())
    } else {
        s
    }
}

/// The text without its trailing white space.
pub open spec fn trim_end(s: Seq<char>) -> Seq<char>
    decreases s.len(),
{
    if s.len() > 0 && is_white_space(s.last()) {
        trim_end(s.drop_last())
    } else {
        s
    }
}

/// The text without leading and trailing white space.
pub open spec fn trimmed(s: Seq<char>) -> Seq<char> {
    trim_end(trim_start(s))
}

/// Relies on `str::trim`, documented to remove leading and trailing
/// characters with the `White_Space` property.
#[verifier::external_body]
pub(crate) fn trim_text(s: &str) -> (r: String)
    ensures
        r@ == trimmed(s@),
{
    s.trim().to_string()
}

} // verus!
