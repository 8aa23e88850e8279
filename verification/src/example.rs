//! A builder written by hand for one small record, in the shape the engine writes them.

use vstd::prelude::*;
use vstd::string::*;
use crate::decimal::decimal;
use crate::value::indexed_name;

verus! {

/// A record of two text fields.
#[derive(Debug)]
pub struct TemplateExample {
    pub first_name: String,
    pub last_name: String,
}

/// The builder of [`TemplateExample`]: for each field the generator put in place of the
/// default, if any.
pub struct ExampleBuilder<F> {
    pub first_name: Option<F>,
    pub last_name: Option<F>,
}

/// Whether `out` is a text that a slot may give for the field `name` at the index `i`:
/// the name followed by the index when the slot holds no generator, a result of the
/// generator otherwise.
pub open spec fn yields<F: Fn(usize) -> String>(slot: Option<F>, name: Seq<char>, i: usize, out: String) -> bool {
    match slot {
        None => out@ == name + decimal(i as nat),
        Some(f) => call_ensures(f, (i,), out),
    }
}

/// Whether a slot's generator, if it holds one, may be called at the index `i`.
pub open spec fn ready<F: Fn(usize) -> String>(slot: Option<F>, i: usize) -> bool {
    slot matches Some(f) ==> call_requires(f, (i,))
}

fn generate<F: Fn(usize) -> String>(slot: &Option<F>, name: &str, i: usize) -> (out: String)
    requires
        ready(*slot, i),
    ensures
        yields(*slot, name@, i, out),
{
    match slot {
        None => indexed_name(name, i),
        Some(f) => f(i),
    }
}

impl TemplateExample {
    /// The builder of this record, with both defaults in place.
    pub fn tlayuda<F: Fn(usize) -> String>() -> (r: ExampleBuilder<F>)
        ensures
            r.first_name is None,
            r.last_name is None,
    {
        ExampleBuilder::new()
    }
}

impl<F: Fn(usize) -> String> ExampleBuilder<F> {
    /// A builder with both defaults in place.
    pub fn new() -> (r: ExampleBuilder<F>)
        ensures
            r.first_name is None,
            r.last_name is None,
    {
        ExampleBuilder { first_name: None, last_name: None }
    }

    /// Puts `f` in place of the generator of the first name; the last name's stays.
    pub fn set_first_name(self, f: F) -> (r: Self)
        ensures
            r.first_name == Some(f),
            r.last_name == self.last_name,
    {
        let mut b = self;
        b.first_name = Some(f);
        b
    }

    /// Puts `f` in place of the generator of the last name; the first name's stays.
    pub fn _set_last_name(self, f: F) -> (r: Self)
        ensures
            r.last_name == Some(f),
            r.first_name == self.first_name,
    {
        let mut b = self;
        b.last_name = Some(f);
        b
    }

    /// Builds the record: the first name is generated at index zero, the last name at
    /// index one. The builder stays as it was.
    pub fn build(&mut self) -> (r: TemplateExample)
        requires
            ready(old(self).first_name, 0),
            ready(old(self).last_name, 1),
        ensures
            yields(old(self).first_name, "first_name"@, 0, r.first_name),
            yields(old(self).last_name, "last_name"@, 1, r.last_name),
            *final(self) == *old(self),
    {
        let first_name = generate(&self.first_name, "first_name", 0);
        let last_name = generate(&self.last_name, "last_name", 1);
        TemplateExample { first_name, last_name }
    }
}

} // verus!
