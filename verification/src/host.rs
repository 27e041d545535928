//! What the host name of a Cloud Run service tells about it.
//!
//! Cloud Run hosts look like `<service>-<hash>-<region>.a.run.app` or like
//! `<service>-<project number>.<region>.run.app`.

use crate::text;
use crate::text::{all_ascii_digits, split_on};
use vstd::prelude::*;

verus! {

/// The first label that stands directly before a label equal to `mark`.
pub open spec fn label_before(labels: Seq<Seq<char>>, mark: Seq<char>) -> Option<Seq<char>>
    decreases labels.len(),
{
    if labels.len() < 2 {
        None
    } else if labels[1] == mark {
        Some(labels[0])
    } else {
        label_before(labels.drop_first(), mark)
    }
}

/// The label that names the region: the one before `run`, or, where no
/// label is `run` after another, the third from the end.
pub open spec fn region_label(labels: Seq<Seq<char>>) -> Option<Seq<char>> {
    match label_before(labels, "run"@) {
        Some(label) => Some(label),
        None => if labels.len() >= 3 {
            Some(labels[labels.len() - 3])
        } else {
            None
        },
    }
}

/// The region that a label names: the short forms `uc`, `ue` and `uw1` are
/// written out, any other label is the name itself.
pub open spec fn region_name(label: Seq<char>) -> Seq<char> {
    if label == "uc"@ {
        "us-central1"@
    } else if label == "ue"@ {
        "us-east1"@
    } else if label == "uw1"@ {
        "us-west1"@
    } else {
        label
    }
}

/// The region that a host name tells, if it tells one.
pub open spec fn region_in(host: Seq<char>) -> Option<Seq<char>> {
    match region_label(split_on(host, '.')) {
        Some(label) => if label.len() > 0 {
            Some(region_name(label))
        } else {
            None
        },
        None => None,
    }
}

/// The project number that a host name tells, if it tells one: what
/// follows the last `-` of the first label, or the whole label where it has
/// no `-`, provided that no character of it is anything but a digit.
pub open spec fn project_in(host: Seq<char>) -> Option<Seq<char>> {
    let numeric = split_on(split_on(host, '.')[0], '-').last();
    if all_ascii_digits(numeric) {
        Some(numeric)
    } else {
        None
    }
}

/// The region that a Cloud Run host name tells.
pub fn extract_region_from_host(host: &str) -> (r: Option<String>)
    ensures
        r.deep_view() == region_in(host@),
{
    let labels = text::split(host, '.');
    let n: usize = labels.len();
    let ghost all = labels.deep_view();
    let mut found: Option<usize> = None;
    let mut i: usize = 0;
    assert(all.skip(0) =~= all);
    while i + 1 < n
        invariant_except_break
            found is None,
            label_before(all, "run"@) == label_before(all.skip(i as int), "run"@),
        invariant
            i < n,
            n == labels@.len(),
            all == labels.deep_view(),
        ensures
            i < n,
            match found {
                Some(at) => at < n && label_before(all, "run"@) == Some(all[at as int]),
                None => label_before(all, "run"@) is None,
            },
        decreases n - i,
    {
        let ghost rest = all.skip(i as int);
        assert(rest.drop_first() =~= all.skip(i + 1));
        if text::same(labels[i + 1].as_str(), "run") {
            found = Some(i);
            break ;
        }
        i += 1;
    }
    let at: usize = match found {
        Some(at) => at,
        None => {
            if n >= 3 {
                n - 3
            } else {
                return None;
            }
        },
    };
    let region = labels[at].as_str();
    if region.is_empty() {
        return None;
    }
    let mapped = if text::same(region, "uc") {
        "us-central1"
    } else if text::same(region, "ue") {
        "us-east1"
    } else if text::same(region, "uw1") {
        "us-west1"
    } else {
        region
    };
    Some(mapped.to_owned())
}

/// The project number that a Cloud Run host name tells.
pub fn extract_project_from_host(host: &str) -> (r: Option<String>)
    ensures
        r.deep_view() == project_in(host@),
{
    let labels = text::split(host, '.');
    let pieces = text::split(labels[0].as_str(), '-');
    let numeric = pieces[pieces.len() - 1].as_str();
    if !text::is_all_ascii_digits(numeric) {
        return None;
    }
    Some(numeric.to_owned())
}

} // verus!
