//! Argument lists for the two external invocations: the revision lookup and
//! the checkout.

use crate::normalize::normalize_ago;
use crate::normalize::spec_normalize;
use vstd::prelude::*;

verus! {

/// The argument list that asks the version-control tool for the single most
/// recent revision whose timestamp precedes now minus the given duration.
/// The duration is normalized first and embedded as `"<normalized> ago"`,
/// whether or not normalization changed it.
pub fn rev_list_args(ago: &str) -> (r: Vec<String>)
    ensures
        r@.len() == 5,
        r@[0]@ == "rev-list"@,
        r@[1]@ == "-n"@,
        r@[2]@ == "1"@,
        r@[3]@ == "--before="@ + spec_normalize(ago@) + " ago"@,
        r@[4]@ == "HEAD"@,
{
    let normalized = normalize_ago(ago);
    let mut before = String::from_str("--before=");
    before.append(normalized.as_str());
    before.append(" ago");
    let mut args: Vec<String> = Vec::new();
    args.push(String::from_str("rev-list"));
    args.push(String::from_str("-n"));
    args.push(String::from_str("1"));
    args.push(before);
    args.push(String::from_str("HEAD"));
    args
}

/// The argument list that switches the working tree to the given revision.
pub fn checkout_args(commit: &str) -> (r: Vec<String>)
    ensures
        r@.len() == 2,
        r@[0]@ == "checkout"@,
        r@[1]@ == commit@,
{
    let mut args: Vec<String> = Vec::new();
    args.push(String::from_str("checkout"));
    args.push(String::from_str(commit));
    args
}

} // verus!
