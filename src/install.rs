//! Names used while installing and activating, and the preservation set of
//! the prune pass that follows an install.

use vstd::prelude::*;
use crate::listing::{current_name, is_staging, target_name, STAGING_PREFIX};
use crate::prune::preserved;
use crate::text::{decimal, push_decimal};
use crate::trusted::opt_text;

verus! {

pub const TEMP_LINK_PREFIX: &'static str = ".tmp-";

/// The staging directory's name for an install attempt: the timestamp and
/// the process id tell concurrent attempts apart. It is a staging name, so
/// the directory never counts as an installed version.
pub fn staging_name(stamp: &str, pid: u32) -> (r: String)
    ensures
        r@ == STAGING_PREFIX@ + stamp@ + "-"@ + decimal(pid as nat),
        is_staging(r@),
{
    let mut s = String::from_str(STAGING_PREFIX);
    s.append(stamp);
    s.append("-");
    push_decimal(&mut s, pid as usize);
    assert(s@.subrange(0, STAGING_PREFIX@.len() as int) =~= STAGING_PREFIX@);
    s
}

/// The temporary link created beside `current` before it is renamed over it.
pub fn temp_link_name(pid: u32) -> (r: String)
    ensures
        r@ == TEMP_LINK_PREFIX@ + decimal(pid as nat),
{
    let mut s = String::from_str(TEMP_LINK_PREFIX);
    push_decimal(&mut s, pid as usize);
    s
}

/// The names a prune after an install must keep: the version `current` now
/// points at, and the one it pointed at before the install. Each argument is
/// the link's target, if the link existed.
pub fn preserve_after_install(new_target: &Option<String>, previous_target: &Option<String>) -> (r:
    Vec<String>)
    ensures
        forall|x: Seq<char>|
            preserved(r@, x) <==> (target_name(opt_text(*new_target)) == Some(x) || target_name(
                opt_text(*previous_target),
            ) == Some(x)),
{
    let mut r: Vec<String> = Vec::new();
    match current_name(new_target) {
        Some(n) => r.push(n),
        None => {},
    }
    match current_name(previous_target) {
        Some(n) => r.push(n),
        None => {},
    }
    proof {
        assert forall|x: Seq<char>|
            preserved(r@, x) implies (target_name(opt_text(*new_target)) == Some(x) || target_name(
                opt_text(*previous_target),
            ) == Some(x)) by {
            let k = choose|k: int| 0 <= k < r@.len() && (#[trigger] r@[k])@ == x;
        }
        assert forall|x: Seq<char>|
            (target_name(opt_text(*new_target)) == Some(x) || target_name(opt_text(*previous_target))
                == Some(x)) implies preserved(r@, x) by {
            if target_name(opt_text(*new_target)) == Some(x) {
                assert(r@[0]@ == x);
            } else {
                assert(r@[r@.len() - 1]@ == x);
            }
        }
    }
    r
}

} // verus!
