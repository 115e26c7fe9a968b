//! What the remote metadata says of the latest release, once fetched.

use vstd::prelude::*;
use crate::trusted::{first_capture, opt_text, regex_capture, trim_text, trimmed};
use crate::version::{semver_from_string, triple_in};

verus! {

/// The latest release: its version and the archive's URL.
#[derive(Clone, Debug)]
pub struct LatestInfo {
    pub version: String,
    pub url: String,
}

/// What the release API answered, when both fields hold more than white space.
pub fn latest_from_api(version: String, url: String) -> (r: Option<LatestInfo>)
    ensures
        r is Some <==> (trimmed(version@).len() > 0 && trimmed(url@).len() > 0),
        r matches Some(i) ==> i.version@ == version@ && i.url@ == url@,
{
    let v = trim_text(version.as_str());
    let u = trim_text(url.as_str());
    if v.unicode_len() == 0 || u.unicode_len() == 0 {
        None
    } else {
        Some(LatestInfo { version, url })
    }
}

/// A release heading of the releases page, as group 1.
pub const RELEASE_HEADING_PATTERN: &'static str = r"(?is)<h2[^>]*>\s*([0-9]+\.[0-9]+\.[0-9]+)\s*</h2>";

/// The version in the first release heading of the releases page.
pub fn latest_version_from_releases_html(html: &str) -> (r: Option<String>)
    ensures
        opt_text(r) == regex_capture(RELEASE_HEADING_PATTERN@, html@),
{
    first_capture(RELEASE_HEADING_PATTERN, html)
}

/// The release as the manager uses it: a version without a three-part token
/// is replaced by the URL's token, when the URL has one.
pub open spec fn normalized_version(version: Seq<char>, url: Seq<char>) -> Seq<char> {
    if triple_in(version) is None && triple_in(url) is Some {
        triple_in(url)->0
    } else {
        version
    }
}

/// Takes the version from the URL when the reported one is not a version.
pub fn normalize_latest(info: LatestInfo) -> (r: LatestInfo)
    ensures
        r.url@ == info.url@,
        r.version@ == normalized_version(info.version@, info.url@),
{
    let LatestInfo { version, url } = info;
    if semver_from_string(version.as_str()).is_none() {
        match semver_from_string(url.as_str()) {
            Some(v) => {
                return LatestInfo { version: v, url };
            },
            None => {},
        }
    }
    LatestInfo { version, url }
}

/// The text after the last `/` (all of it when there is none).
pub open spec fn after_last_slash(s: Seq<char>) -> Seq<char>
    decreases s.len(),
{
    if s.len() == 0 {
        s
    } else if s.last() == '/' {
        Seq::empty()
    } else {
        after_last_slash(s.drop_last()).push(s.last())
    }
}

/// The file name under which a download is stored: the URL's last segment.
pub fn download_file_name(url: &str) -> (r: String)
    ensures
        r@ == after_last_slash(url@),
{
    let n = url.unicode_len();
    let mut start: usize = 0;
    let mut i: usize = 0;
    while i < n
        invariant
            n == url@.len(),
            0 <= start <= i <= n,
            after_last_slash(url@.subrange(0, i as int)) == url@.subrange(start as int, i as int),
        decreases n - i,
    {
        let ghost pre = url@.subrange(0, i as int);
        assert(url@.subrange(0, i as int + 1).drop_last() =~= pre);
        if url.get_char(i) == '/' {
            start = i + 1;
            assert(url@.subrange(start as int, i as int + 1) =~= Seq::<char>::empty());
        } else {
            assert(url@.subrange(start as int, i as int + 1) =~= url@.subrange(start as int, i as int).push(url@[i as int]));
        }
        i = i + 1;
    }
    assert(url@.subrange(0, n as int) =~= url@);
    String::from_str(url.substring_char(start, n))
}

} // verus!
