//! The head of an inbound request, as plain values: method, target and
//! headers.

use crate::address::IpAddress;
use crate::text;
use vstd::prelude::*;

verus! {

/// The headers of a request, in the order they came. Names are in lower
/// case. A value that is not visible ASCII text is recorded as `None`.
pub type HeadersView = Seq<(Seq<char>, Option<Seq<char>>)>;

/// The target of a request.
#[derive(Clone, Debug)]
pub struct RequestUri {
    /// The target as it was written.
    pub text: String,
    /// Its path.
    pub path: String,
    /// Its path and query, where it has them.
    pub path_and_query: Option<String>,
    /// Its scheme, where it has one.
    pub scheme: Option<String>,
}

/// The content of a [`RequestUri`].
pub struct UriView {
    pub text: Seq<char>,
    pub path: Seq<char>,
    pub path_and_query: Option<Seq<char>>,
    pub scheme: Option<Seq<char>>,
}

impl View for RequestUri {
    type V = UriView;

    open spec fn view(&self) -> UriView {
        UriView {
            text: self.text@,
            path: self.path@,
            path_and_query: self.path_and_query.deep_view(),
            scheme: self.scheme.deep_view(),
        }
    }
}

/// The head of a request.
#[derive(Clone, Debug)]
pub struct RequestHead {
    pub method: String,
    pub uri: RequestUri,
    pub headers: Vec<(String, Option<String>)>,
    /// For each entry of `x-forwarded-for`, in order, the address that it
    /// writes; `None` for an entry that writes none. The entries are those
    /// that [`forwarded_entries`] finds.
    pub forwarded_addresses: Vec<Option<IpAddress>>,
}

/// The content of a [`RequestHead`].
pub struct HeadView {
    pub method: Seq<char>,
    pub uri: UriView,
    pub headers: HeadersView,
    pub forwarded_addresses: Seq<Option<IpAddress>>,
}

impl View for RequestHead {
    type V = HeadView;

    open spec fn view(&self) -> HeadView {
        HeadView {
            method: self.method@,
            uri: self.uri@,
            headers: self.headers.deep_view(),
            forwarded_addresses: self.forwarded_addresses@,
        }
    }
}

/// The value of the first header named `name`, if there is such a header.
pub open spec fn header(headers: HeadersView, name: Seq<char>) -> Option<Option<Seq<char>>>
    decreases headers.len(),
{
    if headers.len() == 0 {
        None
    } else if headers.first().0 == name {
        Some(headers.first().1)
    } else {
        header(headers.drop_first(), name)
    }
}

/// The text of the first header named `name`, if there is such a header
/// and its value is text.
pub open spec fn header_text(headers: HeadersView, name: Seq<char>) -> Option<Seq<char>> {
    match header(headers, name) {
        Some(value) => value,
        None => None,
    }
}

/// The pieces of a comma-separated list that are left once each is trimmed
/// and the empty ones are dropped.
pub open spec fn list_entries(pieces: Seq<Seq<char>>) -> Seq<Seq<char>>
    decreases pieces.len(),
{
    if pieces.len() == 0 {
        Seq::empty()
    } else {
        let entry = text::trimmed(pieces.last());
        if entry.len() > 0 {
            list_entries(pieces.drop_last()).push(entry)
        } else {
            list_entries(pieces.drop_last())
        }
    }
}

/// The entries of an `x-forwarded-for` value: the addresses that the
/// request passed, nearest last.
pub open spec fn forwarded_entries_of(value: Seq<char>) -> Seq<Seq<char>> {
    list_entries(text::split_on(value, ','))
}

/// Copies an optional text.
pub fn copy_text(text: &Option<String>) -> (r: Option<String>)
    ensures
        r == *text,
{
    match text {
        Some(t) => Some(t.clone()),
        None => None,
    }
}

/// The entries of an `x-forwarded-for` value.
pub fn forwarded_entries(value: &str) -> (r: Vec<String>)
    ensures
        r.deep_view() == forwarded_entries_of(value@),
{
    let pieces = text::split(value, ',');
    let n: usize = pieces.len();
    let mut out: Vec<String> = Vec::new();
    let mut i: usize = 0;
    while i < n
        invariant
            i <= n,
            n == pieces@.len(),
            out.deep_view() == list_entries(pieces.deep_view().take(i as int)),
        decreases n - i,
    {
        let entry = text::trim(pieces[i].as_str());
        proof {
            let upto = pieces.deep_view().take(i + 1);
            assert(upto.drop_last() =~= pieces.deep_view().take(i as int));
        }
        if !entry.is_empty() {
            out.push(entry.to_owned());
        }
        i += 1;
    }
    assert(pieces.deep_view().take(n as int) =~= pieces.deep_view());
    out
}

impl RequestHead {
    /// The value of the first header named `name`, if there is such a
    /// header.
    pub fn header(&self, name: &str) -> (r: Option<Option<String>>)
        ensures
            r.deep_view() == header(self@.headers, name@),
    {
        let n: usize = self.headers.len();
        let mut i: usize = 0;
        assert(self@.headers.skip(0) =~= self@.headers);
        while i < n
            invariant
                i <= n,
                n == self.headers@.len(),
                header(self@.headers, name@) == header(self@.headers.skip(i as int), name@),
            decreases n - i,
        {
            let ghost rest = self@.headers.skip(i as int);
            assert(rest.drop_first() =~= self@.headers.skip(i + 1));
            if text::same(self.headers[i].0.as_str(), name) {
                return Some(copy_text(&self.headers[i].1));
            }
            i += 1;
        }
        None
    }

    /// The text of the first header named `name`, if there is such a header
    /// and its value is text.
    pub fn header_text(&self, name: &str) -> (r: Option<String>)
        ensures
            r.deep_view() == header_text(self@.headers, name@),
    {
        match self.header(name) {
            Some(value) => value,
            None => None,
        }
    }
}

} // verus!
