//! A snapshot of the process environment.
//!
//! Configuration is computed from plain values, so that what it decides can
//! be stated and proved; reading the real environment is left to the caller.

use crate::text;
use vstd::prelude::*;

verus! {

/// The value of the first entry named `name`, if there is one.
pub open spec fn lookup(entries: Seq<(Seq<char>, Seq<char>)>, name: Seq<char>) -> Option<
    Seq<char>,
>
    decreases entries.len(),
{
    if entries.len() == 0 {
        None
    } else if entries.first().0 == name {
        Some(entries.first().1)
    } else {
        lookup(entries.drop_first(), name)
    }
}

/// Environment variables as name and value pairs.
#[derive(Clone, Debug)]
pub struct Environment {
    pub vars: Vec<(String, String)>,
}

impl View for Environment {
    type V = Seq<(Seq<char>, Seq<char>)>;

    open spec fn view(&self) -> Self::V {
        self.vars.deep_view()
    }
}

impl Environment {
    /// An environment in which no variable is set.
    pub fn empty() -> (r: Self)
        ensures
            r@ == Seq::<(Seq<char>, Seq<char>)>::empty(),
    {
        let r = Environment { vars: Vec::new() };
        r
    }

    /// The environment made of the given pairs.
    pub fn new(vars: Vec<(String, String)>) -> (r: Self)
        ensures
            r@ == vars.deep_view(),
    {
        Environment { vars }
    }

    /// Sets `name` to `value`, ahead of any earlier entry of that name.
    pub fn with(self, name: &str, value: &str) -> (r: Self)
        ensures
            r@ == seq![(name@, value@)] + self@,
            lookup(r@, name@) == Some(value@),
            forall|other: Seq<char>| other != name@ ==> lookup(r@, other) == lookup(self@, other),
    {
        let mut vars: Vec<(String, String)> = Vec::new();
        vars.push((name.to_owned(), value.to_owned()));
        let mut rest = self.vars;
        let ghost before = rest.deep_view();
        vars.append(&mut rest);
        let r = Environment { vars };
        assert(r@.drop_first() =~= before);
        r
    }

    /// The value of the variable `name`, if it is set.
    pub fn var(&self, name: &str) -> (r: Option<String>)
        ensures
            r.deep_view() == lookup(self@, name@),
    {
        let n: usize = self.vars.len();
        let mut i: usize = 0;
        assert(self@.skip(0) =~= self@);
        while i < n
            invariant
                i <= n,
                n == self.vars@.len(),
                lookup(self@, name@) == lookup(self@.skip(i as int), name@),
            decreases n - i,
        {
            let ghost rest = self@.skip(i as int);
            assert(rest.drop_first() =~= self@.skip(i + 1));
            if text::same(self.vars[i].0.as_str(), name) {
                return Some(self.vars[i].1.clone());
            }
            i += 1;
        }
        None
    }

    /// Whether the variable `name` is set.
    pub fn is_set(&self, name: &str) -> (r: bool)
        ensures
            r == lookup(self@, name@).is_some(),
    {
        self.var(name).is_some()
    }
}

} // verus!
