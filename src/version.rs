//! Naming a build: the version identifier of a freshly extracted archive, the
//! version recorded in an installed tree's product descriptor, and the
//! timestamp used when neither gives one.

use vstd::prelude::*;
use crate::paths::{join_path, joined};
use crate::text::{all_digits, is_digit, lemma_padded_digits, padded, push_padded};
use crate::trusted::{
    first_capture, file_name_of, json_member_str, json_string_member, opt_text,
    path_file_name, regex_capture, clock_since_epoch, utc_fields, utc_of, fields_in_range, UtcTime,
};

verus! {

/// A dotted three-part numeric token, as group 1.
pub const TRIPLE_PATTERN: &'static str = r"(\d+\.\d+\.\d+)";

/// The value of a `windsurfVersion` member, read leniently from text that may
/// not parse as JSON.
pub const PRODUCT_FIELD_PATTERN: &'static str = r#""windsurfVersion\s*"\s*:\s*"(.*?)""#;

/// A `windsurfVersion` or `version` member whose value is a three-part token.
pub const LENIENT_VERSION_PATTERN: &'static str = r#""(?:windsurfVersion|version)"\s*:\s*"(\d+\.\d+\.\d+)""#;

/// The first three-part numeric token in a text.
pub open spec fn triple_in(s: Seq<char>) -> Option<Seq<char>> {
    regex_capture(TRIPLE_PATTERN@, s)
}

/// The first three-part numeric token in a string (e.g. a download URL).
pub fn semver_from_string(s: &str) -> (r: Option<String>)
    ensures
        opt_text(r) == triple_in(s@),
{
    first_capture(TRIPLE_PATTERN, s)
}

/// The version token in an archive's file name.
pub open spec fn archive_version(path: Seq<char>) -> Option<Seq<char>> {
    match path_file_name(path) {
        Some(name) => triple_in(name),
        None => None,
    }
}

/// The first three-part numeric token of the archive's file name, if any.
pub fn extract_version_from_filename(path: &str) -> (r: Option<String>)
    ensures
        opt_text(r) == archive_version(path@),
{
    match file_name_of(path) {
        Some(name) => first_capture(TRIPLE_PATTERN, name.as_str()),
        None => None,
    }
}

/// The product-specific member of the descriptor.
pub const PRODUCT_KEY: &'static str = "windsurfVersion";

/// The generic member of the descriptor.
pub const GENERIC_KEY: &'static str = "version";

/// The lenient `windsurfVersion` value of a descriptor's text.
pub fn parse_windsurf_version_from_product(s: &str) -> (r: Option<String>)
    ensures
        opt_text(r) == regex_capture(PRODUCT_FIELD_PATTERN@, s@),
{
    first_capture(PRODUCT_FIELD_PATTERN, s)
}

/// What a product descriptor says the version is: its JSON `windsurfVersion`
/// member, else its JSON `version` member, else a textual match of either
/// member holding a three-part token (for descriptors that are not valid JSON).
pub open spec fn descriptor_version_of(data: Seq<char>) -> Option<Seq<char>> {
    match json_string_member(data, PRODUCT_KEY@) {
        Some(v) => Some(v),
        None => match json_string_member(data, GENERIC_KEY@) {
            Some(v) => Some(v),
            None => regex_capture(LENIENT_VERSION_PATTERN@, data),
        },
    }
}

/// The version recorded in a product descriptor's text, `None` when it holds
/// no version field (a normal outcome, not an error).
pub fn version_from_descriptor(data: &str) -> (r: Option<String>)
    ensures
        opt_text(r) == descriptor_version_of(data@),
{
    match json_member_str(data, PRODUCT_KEY) {
        Some(v) => Some(v),
        None => match json_member_str(data, GENERIC_KEY) {
            Some(v) => Some(v),
            None => first_capture(LENIENT_VERSION_PATTERN, data),
        },
    }
}

/// The version a descriptor gives a new build: the first three-part token of
/// its version field, read as `descriptor_version_of` reads it or, failing
/// that, by the lenient `windsurfVersion` match.
pub open spec fn descriptor_triple(data: Seq<char>) -> Option<Seq<char>> {
    let field = match descriptor_version_of(data) {
        Some(v) => Some(v),
        None => regex_capture(PRODUCT_FIELD_PATTERN@, data),
    };
    match field {
        Some(f) => triple_in(f),
        None => None,
    }
}

/// `descriptor_triple` of a descriptor that may be absent.
pub open spec fn descriptor_token(descriptor: Option<Seq<char>>) -> Option<Seq<char>> {
    match descriptor {
        Some(d) => descriptor_triple(d),
        None => None,
    }
}

/// The three-part token of a descriptor's version field.
pub fn version_token_from_descriptor(data: &str) -> (r: Option<String>)
    ensures
        opt_text(r) == descriptor_triple(data@),
{
    let field = match version_from_descriptor(data) {
        Some(v) => Some(v),
        None => parse_windsurf_version_from_product(data),
    };
    match field {
        Some(f) => semver_from_string(f.as_str()),
        None => None,
    }
}

/// The year as four digits can hold it.
pub open spec fn stamp_year(y: i32) -> nat {
    if y < 0 {
        0
    } else if y > 9999 {
        9999
    } else {
        y as nat
    }
}

/// `YYYYMMDDHHMMSS` for an instant.
pub open spec fn stamp_text(t: UtcTime) -> Seq<char> {
    padded(stamp_year(t.year), 4) + padded(t.month as nat, 2) + padded(t.day as nat, 2)
        + padded(t.hour as nat, 2) + padded(t.minute as nat, 2) + padded(t.second as nat, 2)
}

/// A fixed-width, all-digit timestamp identifier.
pub open spec fn is_stamp(s: Seq<char>) -> bool {
    s.len() == 14 && all_digits(s)
}

pub proof fn lemma_stamp_text(t: UtcTime)
    ensures
        is_stamp(stamp_text(t)),
{
    lemma_padded_digits(stamp_year(t.year), 4);
    lemma_padded_digits(t.month as nat, 2);
    lemma_padded_digits(t.day as nat, 2);
    lemma_padded_digits(t.hour as nat, 2);
    lemma_padded_digits(t.minute as nat, 2);
    lemma_padded_digits(t.second as nat, 2);
    let s = stamp_text(t);
    assert forall|i: int| 0 <= i < s.len() implies crate::text::is_digit(#[trigger] s[i]) by {
        let a = padded(stamp_year(t.year), 4);
        let b = padded(t.month as nat, 2);
        let c = padded(t.day as nat, 2);
        let d = padded(t.hour as nat, 2);
        let e = padded(t.minute as nat, 2);
        let f = padded(t.second as nat, 2);
        if i < 4 {
            assert(s[i] == a[i]);
        } else if i < 6 {
            assert(s[i] == b[i - 4]);
        } else if i < 8 {
            assert(s[i] == c[i - 6]);
        } else if i < 10 {
            assert(s[i] == d[i - 8]);
        } else if i < 12 {
            assert(s[i] == e[i - 10]);
        } else {
            assert(s[i] == f[i - 12]);
        }
    }
}

/// Formats an instant as `YYYYMMDDHHMMSS`; a year outside 0..=9999 is held
/// to the nearest end of that range so that the width stays fixed.
pub fn format_timestamp(t: &UtcTime) -> (r: String)
    ensures
        r@ == stamp_text(*t),
        is_stamp(r@),
{
    let year: u32 = if t.year < 0 {
        0
    } else if t.year > 9999 {
        9999
    } else {
        t.year as u32
    };
    let mut s = String::new();
    push_padded(&mut s, year, 4);
    push_padded(&mut s, t.month, 2);
    push_padded(&mut s, t.day, 2);
    push_padded(&mut s, t.hour, 2);
    push_padded(&mut s, t.minute, 2);
    push_padded(&mut s, t.second, 2);
    proof {
        lemma_stamp_text(*t);
    }
    assert(s@ =~= stamp_text(*t));
    s
}

/// The earliest instant a 14-digit stamp can show.
pub open spec fn first_instant() -> UtcTime {
    UtcTime { year: 0, month: 1, day: 1, hour: 0, minute: 0, second: 0 }
}

/// The latest instant a 14-digit stamp can show.
pub open spec fn last_instant() -> UtcTime {
    UtcTime { year: 9999, month: 12, day: 31, hour: 23, minute: 59, second: 59 }
}

/// The earliest instant a 14-digit stamp can show: `00000101000000`.
pub fn earliest_instant() -> (t: UtcTime)
    ensures
        fields_in_range(t),
        t == first_instant(),
{
    UtcTime { year: 0, month: 1, day: 1, hour: 0, minute: 0, second: 0 }
}

/// The latest instant a 14-digit stamp can show: `99991231235959`.
pub fn latest_instant() -> (t: UtcTime)
    ensures
        fields_in_range(t),
        t == last_instant(),
{
    UtcTime { year: 9999, month: 12, day: 31, hour: 23, minute: 59, second: 59 }
}

/// Signed seconds and nanoseconds since the epoch, from a clock reading
/// taken on either side of it (`Ok` after, `Err` before).
pub open spec fn signed_seconds(since: Result<(u64, u32), (u64, u32)>) -> (int, int) {
    match since {
        Ok(d) => (d.0 as int, d.1 as int),
        Err(d) => if d.1 == 0 {
            (-(d.0 as int), 0)
        } else {
            (-(d.0 as int) - 1, 1_000_000_000 - d.1)
        },
    }
}

/// The instant a clock reading shows: chrono's fields for its signed seconds,
/// held to the earliest or latest instant a stamp can show when the reading
/// lies before or after what chrono (or an `i64`) can hold.
pub open spec fn reading_instant(since: Result<(u64, u32), (u64, u32)>) -> UtcTime {
    let (s, n) = signed_seconds(since);
    if i64::MIN <= s <= i64::MAX {
        match utc_of(s as i64, n as u32) {
            Some(t) => t,
            None => if s < 0 {
                first_instant()
            } else {
                last_instant()
            },
        }
    } else if since is Err {
        first_instant()
    } else {
        last_instant()
    }
}

/// The reading as signed seconds and nanoseconds, `None` when the seconds
/// do not fit an `i64`.
pub fn epoch_seconds(since: Result<(u64, u32), (u64, u32)>) -> (r: Option<(i64, u32)>)
    requires
        since matches Ok(d) ==> d.1 < 1_000_000_000,
        since matches Err(d) ==> d.1 < 1_000_000_000,
    ensures
        r is Some <==> i64::MIN <= signed_seconds(since).0 <= i64::MAX,
        r matches Some(p) ==> p.0 == signed_seconds(since).0 && p.1 == signed_seconds(since).1,
{
    match since {
        Ok((s, n)) => {
            if s <= i64::MAX as u64 {
                Some((s as i64, n))
            } else {
                None
            }
        },
        Err((s, n)) => {
            if n == 0 {
                if s <= i64::MAX as u64 + 1 {
                    Some(((0 - (s as i128)) as i64, 0))
                } else {
                    None
                }
            } else if s <= i64::MAX as u64 {
                Some(((0 - (s as i128) - 1) as i64, 1_000_000_000 - n))
            } else {
                None
            }
        },
    }
}

/// The 14-digit identifier of the instant a clock reading shows.
pub fn timestamp_from_reading(since: Result<(u64, u32), (u64, u32)>) -> (r: String)
    requires
        since matches Ok(d) ==> d.1 < 1_000_000_000,
        since matches Err(d) ==> d.1 < 1_000_000_000,
    ensures
        r@ == stamp_text(reading_instant(since)),
        is_stamp(r@),
{
    let before_epoch = since.is_err();
    let t = match epoch_seconds(since) {
        Some((s, n)) => match utc_fields(s, n) {
            Some(t) => t,
            None => if s < 0 {
                earliest_instant()
            } else {
                latest_instant()
            },
        },
        None => if before_epoch {
            earliest_instant()
        } else {
            latest_instant()
        },
    };
    assert(t == reading_instant(since));
    format_timestamp(&t)
}

/// The current UTC time as a 14-digit identifier: the stamp of the clock's
/// reading. A clock outside the range that chrono or four year digits can
/// show gives the nearest end of that range.
pub fn timestamp_version() -> (r: String)
    ensures
        is_stamp(r@),
        exists|since: Result<(u64, u32), (u64, u32)>| r@ == stamp_text(#[trigger] reading_instant(since)),
{
    let since = clock_since_epoch();
    let r = timestamp_from_reading(since);
    assert(r@ == stamp_text(reading_instant(since)));
    r
}

/// The name a build gets: the archive file name's three-part token, else the
/// descriptor's, else the timestamp of `now`.
pub open spec fn resolved_version(
    archive: Seq<char>,
    descriptor: Option<Seq<char>>,
    now: UtcTime,
) -> Seq<char> {
    match archive_version(archive) {
        Some(v) => v,
        None => match descriptor_token(descriptor) {
            Some(v) => v,
            None => stamp_text(now),
        },
    }
}

/// Names a build from its archive path, the text of its product descriptor
/// (if one was found in the extracted tree) and the instant `now`.
pub fn resolve_version_at(archive_path: &str, descriptor: &Option<String>, now: &UtcTime) -> (r:
    String)
    ensures
        r@ == resolved_version(archive_path@, opt_text(*descriptor), *now),
{
    match extract_version_from_filename(archive_path) {
        Some(v) => v,
        None => {
            let from_descriptor = match descriptor {
                Some(d) => version_token_from_descriptor(d.as_str()),
                None => None,
            };
            match from_descriptor {
                Some(v) => v,
                None => format_timestamp(now),
            }
        },
    }
}

/// Names a build: the archive file name's three-part token wins whatever the
/// descriptor says; without one, the descriptor's token; without either, the
/// current UTC time as 14 digits. It never fails.
pub fn resolve_version(archive_path: &str, descriptor: &Option<String>) -> (r: String)
    ensures
        archive_version(archive_path@) is Some ==> r@ == archive_version(archive_path@)->0,
        archive_version(archive_path@) is None && descriptor_token(opt_text(*descriptor)) is Some
            ==> r@ == descriptor_token(opt_text(*descriptor))->0,
        archive_version(archive_path@) is None && descriptor_token(opt_text(*descriptor)) is None
            ==> is_stamp(r@) && exists|since: Result<(u64, u32), (u64, u32)>|
            r@ == stamp_text(#[trigger] reading_instant(since)),
{
    match extract_version_from_filename(archive_path) {
        Some(v) => v,
        None => {
            let from_descriptor = match descriptor {
                Some(d) => version_token_from_descriptor(d.as_str()),
                None => None,
            };
            match from_descriptor {
                Some(v) => v,
                None => timestamp_version(),
            }
        },
    }
}

/// The descriptor's usual places inside a version directory, tried in order
/// before a shallow walk of the tree.
pub const DESCRIPTOR_PLACES: [&'static str; 4] = [
    "resources/app/product.json",
    "Windsurf/resources/app/product.json",
    "app/resources/product.json",
    "resources/product.json",
];

/// The descriptor's usual paths under a version directory, in the order
/// they are tried.
pub fn descriptor_candidates(root: &str) -> (r: Vec<String>)
    ensures
        r@.len() == DESCRIPTOR_PLACES@.len(),
        forall|k: int| 0 <= k < r@.len() ==> (#[trigger] r@[k])@ == joined(root@, DESCRIPTOR_PLACES@[k]@),
{
    let mut r: Vec<String> = Vec::new();
    let mut k: usize = 0;
    while k < 4
        invariant
            0 <= k <= 4,
            DESCRIPTOR_PLACES@.len() == 4,
            r@.len() == k,
            forall|j: int| 0 <= j < k ==> (#[trigger] r@[j])@ == joined(root@, DESCRIPTOR_PLACES@[j]@),
        decreases 4 - k,
    {
        r.push(join_path(root, DESCRIPTOR_PLACES[k]));
        k = k + 1;
    }
    r
}

/// Chunks of a folder name are separated by anything but ASCII letters,
/// digits and dots.
pub open spec fn is_chunk_sep(c: char) -> bool {
    !(('0' <= c && c <= '9') || ('a' <= c && c <= 'z') || ('A' <= c && c <= 'Z') || c == '.')
}

/// A chunk made of digits and dots, with at least one dot.
pub open spec fn versionish(c: Seq<char>) -> bool {
    &&& forall|k: int| 0 <= k < c.len() ==> is_digit(#[trigger] c[k]) || c[k] == '.'
    &&& c.contains('.')
}

/// The first versionish chunk of `s` from position `i` on, where the
/// current chunk started at `start`.
pub open spec fn scan_chunks(s: Seq<char>, start: int, i: int) -> Option<Seq<char>>
    decreases s.len() - i,
{
    if i >= s.len() {
        if versionish(s.subrange(start, s.len() as int)) {
            Some(s.subrange(start, s.len() as int))
        } else {
            None
        }
    } else if is_chunk_sep(s[i]) {
        if versionish(s.subrange(start, i)) {
            Some(s.subrange(start, i))
        } else {
            scan_chunks(s, i + 1, i + 1)
        }
    } else {
        scan_chunks(s, start, i + 1)
    }
}

/// The first chunk of a folder's name that looks like a version.
pub open spec fn folder_version(path: Seq<char>) -> Option<Seq<char>> {
    match path_file_name(path) {
        Some(name) => scan_chunks(name, 0, 0),
        None => None,
    }
}

fn is_versionish(s: &str, start: usize, end: usize) -> (r: bool)
    requires
        start <= end <= s@.len(),
    ensures
        r == versionish(s@.subrange(start as int, end as int)),
{
    let ghost c = s@.subrange(start as int, end as int);
    let mut dot = false;
    let mut k: usize = start;
    while k < end
        invariant
            start <= k <= end,
            end <= s@.len(),
            c == s@.subrange(start as int, end as int),
            forall|j: int| 0 <= j < k - start ==> is_digit(#[trigger] c[j]) || c[j] == '.',
            dot == exists|j: int| 0 <= j < k - start && c[j] == '.',
        decreases end - k,
    {
        let ch = s.get_char(k);
        assert(c[k - start] == ch);
        if !(('0' <= ch && ch <= '9') || ch == '.') {
            assert(!versionish(c));
            return false;
        }
        if ch == '.' {
            dot = true;
        }
        k = k + 1;
    }
    proof {
        if dot {
            let j = choose|j: int| 0 <= j < end - start && c[j] == '.';
            assert(c.contains('.'));
        } else {
            assert(!c.contains('.'));
        }
    }
    dot
}

/// The first chunk of the folder's name made of digits and dots with at
/// least one dot (`Windsurf-1.12.9-linux-x64` gives `1.12.9`).
pub fn guess_version_from_folder(path: &str) -> (r: Option<String>)
    ensures
        opt_text(r) == folder_version(path@),
{
    let name = match file_name_of(path) {
        Some(n) => n,
        None => {
            return None;
        },
    };
    let s = name.as_str();
    let n = s.unicode_len();
    let mut start: usize = 0;
    let mut i: usize = 0;
    while i < n
        invariant
            n == s@.len(),
            s@ == name@,
            0 <= start <= i <= n,
            folder_version(path@) == scan_chunks(s@, start as int, i as int),
        decreases n - i,
    {
        let ch = s.get_char(i);
        let sep = !(('0' <= ch && ch <= '9') || ('a' <= ch && ch <= 'z') || ('A' <= ch && ch <= 'Z')
            || ch == '.');
        if sep {
            if is_versionish(s, start, i) {
                return Some(String::from_str(s.substring_char(start, i)));
            }
            start = i + 1;
        }
        i = i + 1;
    }
    if is_versionish(s, start, n) {
        Some(String::from_str(s.substring_char(start, n)))
    } else {
        None
    }
}

} // verus!
