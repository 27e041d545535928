//! Google Cloud Trace contexts, as the `x-cloud-trace-context` header
//! carries them: `TRACE_ID/SPAN_ID;o=FLAG`.

use crate::fields;
use crate::fields::{optional_flag_at, optional_text_at};
use crate::json;
use crate::json::{json_of, Json};
use crate::text;
use crate::text::{split_on, trimmed};
use vstd::prelude::*;

verus! {

/// A trace context.
#[derive(Clone, Debug)]
pub struct TraceContext {
    pub trace_id: Option<String>,
    pub span_id: Option<String>,
    pub sampled: Option<bool>,
    pub project_id: Option<String>,
    pub raw: Option<String>,
}

/// The content of a [`TraceContext`].
pub struct TraceView {
    pub trace_id: Option<Seq<char>>,
    pub span_id: Option<Seq<char>>,
    pub sampled: Option<bool>,
    pub project_id: Option<Seq<char>>,
    pub raw: Option<Seq<char>>,
}

impl View for TraceContext {
    type V = TraceView;

    open spec fn view(&self) -> TraceView {
        TraceView {
            trace_id: self.trace_id.deep_view(),
            span_id: self.span_id.deep_view(),
            sampled: self.sampled,
            project_id: self.project_id.deep_view(),
            raw: self.raw.deep_view(),
        }
    }
}

/// `text`, unless it is empty.
pub open spec fn non_empty(text: Seq<char>) -> Option<Seq<char>> {
    if text.len() > 0 {
        Some(text)
    } else {
        None
    }
}

/// What a sampling flag says: `1` for sampled, `0` for not, and nothing for
/// anything else. Whitespace around the flag does not count.
pub open spec fn flag_of(flag: Seq<char>) -> Option<bool> {
    if trimmed(flag) == "1"@ {
        Some(true)
    } else if trimmed(flag) == "0"@ {
        Some(false)
    } else {
        None
    }
}

/// What the options of a context say of sampling: the last option of the
/// form `o=FLAG` decides; without one, nothing is said.
pub open spec fn sampled_in(options: Seq<Seq<char>>) -> Option<bool>
    decreases options.len(),
{
    if options.len() == 0 {
        None
    } else if "o="@.is_prefix_of(options.last()) {
        flag_of(options.last().skip("o="@.len() as int))
    } else {
        sampled_in(options.drop_last())
    }
}

/// The trace context that a header value carries. The trace identifier is
/// what stands before the first `/`; what follows, up to the next `/`, is
/// the span identifier and then options, separated by `;`. An empty
/// identifier counts as none.
pub open spec fn trace_in(header: Seq<char>, project_id: Option<Seq<char>>) -> TraceView {
    let parts = split_on(header, '/');
    let sections = split_on(parts[1], ';');
    TraceView {
        trace_id: non_empty(parts[0]),
        span_id: if parts.len() >= 2 {
            non_empty(sections[0])
        } else {
            None
        },
        sampled: if parts.len() >= 2 {
            sampled_in(sections.drop_first())
        } else {
            None
        },
        project_id,
        raw: Some(header),
    }
}

/// The trace context that a JSON document stands for, if it stands for
/// one: an object whose members, where it has them, are strings, and a
/// boolean for `sampled`.
pub open spec fn trace_of(doc: Json) -> Option<TraceView> {
    match doc {
        Json::Object(members) => {
            let trace_id = optional_text_at(members, "trace_id"@);
            let span_id = optional_text_at(members, "span_id"@);
            let sampled = optional_flag_at(members, "sampled"@);
            let project_id = optional_text_at(members, "project_id"@);
            let raw = optional_text_at(members, "raw"@);
            if trace_id is Some && span_id is Some && sampled is Some && project_id is Some
                && raw is Some {
                Some(
                    TraceView {
                        trace_id: trace_id->0,
                        span_id: span_id->0,
                        sampled: sampled->0,
                        project_id: project_id->0,
                        raw: raw->0,
                    },
                )
            } else {
                None
            }
        },
        _ => None,
    }
}

/// A copy of `text`, unless it is empty.
pub fn keep_non_empty(text: &str) -> (r: Option<String>)
    ensures
        r.deep_view() == non_empty(text@),
{
    if text.is_empty() {
        None
    } else {
        Some(text.to_owned())
    }
}

/// Reads a sampling flag.
fn read_flag(flag: &str) -> (r: Option<bool>)
    ensures
        r == flag_of(flag@),
{
    let value = text::trim(flag);
    if text::same(value, "1") {
        Some(true)
    } else if text::same(value, "0") {
        Some(false)
    } else {
        None
    }
}

impl Default for TraceContext {
    /// A context of which nothing is known.
    fn default() -> (r: Self)
        ensures
            r@ == (TraceView {
                trace_id: None,
                span_id: None,
                sampled: None,
                project_id: None,
                raw: None,
            }),
    {
        TraceContext { trace_id: None, span_id: None, sampled: None, project_id: None, raw: None }
    }
}

impl TraceContext {
    /// Reads a trace context from a JSON value.
    pub fn from_json(doc: &serde_json::Value) -> (r: Option<Self>)
        ensures
            match r {
                Some(trace) => trace_of(json_of(*doc)) == Some(trace@),
                None => trace_of(json_of(*doc)) is None,
            },
    {
        if !json::is_object(doc) {
            return None;
        }
        let trace_id = match fields::optional_text(doc, "trace_id") {
            Some(value) => value,
            None => {
                return None;
            },
        };
        let span_id = match fields::optional_text(doc, "span_id") {
            Some(value) => value,
            None => {
                return None;
            },
        };
        let sampled = match fields::optional_flag(doc, "sampled") {
            Some(value) => value,
            None => {
                return None;
            },
        };
        let project_id = match fields::optional_text(doc, "project_id") {
            Some(value) => value,
            None => {
                return None;
            },
        };
        let raw = match fields::optional_text(doc, "raw") {
            Some(value) => value,
            None => {
                return None;
            },
        };
        Some(TraceContext { trace_id, span_id, sampled, project_id, raw })
    }

    /// Reads the context that an `x-cloud-trace-context` header carries.
    pub fn from_cloud_trace_header(header: &str, project_id: Option<&str>) -> (r: Self)
        ensures
            r@ == trace_in(header@, project_id.deep_view()),
    {
        let mut span_id: Option<String> = None;
        let mut sampled: Option<bool> = None;
        let parts = text::split(header, '/');
        let trace_id = keep_non_empty(parts[0].as_str());
        if parts.len() >= 2 {
            let sections = text::split(parts[1].as_str(), ';');
            span_id = keep_non_empty(sections[0].as_str());
            let ghost options = sections.deep_view().drop_first();
            let n: usize = sections.len();
            let mut i: usize = 1;
            while i < n
                invariant
                    1 <= i <= n,
                    n == sections@.len(),
                    options == sections.deep_view().drop_first(),
                    sampled == sampled_in(options.take(i - 1)),
                decreases n - i,
            {
                proof {
                    let upto = options.take(i as int);
                    assert(upto.drop_last() =~= options.take(i - 1));
                }
                if let Some(flag) = text::strip_prefix(sections[i].as_str(), "o=") {
                    sampled = read_flag(flag);
                }
                i += 1;
            }
            assert(options.take(n - 1) =~= options);
        }
        let project_id = match project_id {
            Some(id) => Some(id.to_owned()),
            None => None,
        };
        TraceContext { trace_id, span_id, sampled, project_id, raw: Some(header.to_owned()) }
    }
}

} // verus!
