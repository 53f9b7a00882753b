//! Small declaration types that exercise the library: record types whose
//! getters hand their first field back, as the code generator derives them.
use vstd::prelude::*;

verus! {

/// A record with an attribute text and a plain counter.
#[derive(Debug, PartialEq, Eq)]
pub struct Foo {
    pub attr: String,
    pub self_ref: u32,
}

impl Foo {
    /// The attribute text, copied.
    pub fn get_attr(&self) -> (r: String)
        ensures
            r@ == self.attr@,
    {
        self.attr.clone()
    }
}

impl Clone for Foo {
    /// The copy carries the same attribute text and counter.
    fn clone(&self) -> (r: Foo)
        ensures
            r.attr@ == self.attr@,
            r.self_ref == self.self_ref,
    {
        Foo { attr: self.attr.clone(), self_ref: self.self_ref }
    }
}

/// A record that owns a list of [`Foo`] values.
#[derive(Debug, PartialEq, Eq)]
pub struct Boo {
    pub attr: String,
    pub self_ref: u32,
    pub gen: Vec<Foo>,
}

impl Boo {
    /// The attribute text, copied.
    pub fn get_attr(&self) -> (r: String)
        ensures
            r@ == self.attr@,
    {
        self.attr.clone()
    }
}

/// A record that borrows its [`Foo`] values.
#[derive(Debug, PartialEq, Eq)]
pub struct BooLifetime<'a> {
    pub attr: String,
    pub self_ref: u32,
    pub gen: Vec<&'a Foo>,
}

impl<'a> BooLifetime<'a> {
    /// The attribute text, copied.
    pub fn get_attr(&self) -> (r: String)
        ensures
            r@ == self.attr@,
    {
        self.attr.clone()
    }
}

/// A record whose list comes first, so the generated getter hands the list
/// back.
#[derive(Debug, PartialEq, Eq)]
pub struct BooComplex {
    pub gen: Vec<Foo>,
    pub attr: String,
    pub self_ref: u32,
}

impl BooComplex {
    /// The list of records, copied element by element.
    pub fn get_gen(&self) -> (r: Vec<Foo>)
        ensures
            r@.len() == self.gen@.len(),
            forall|i: int|
                0 <= i < r@.len() ==> (#[trigger] r@[i]).attr@ == self.gen@[i].attr@ && r@[i].self_ref
                    == self.gen@[i].self_ref,
    {
        clone_foos(&self.gen)
    }
}

/// A record like [`BooComplex`], kept separate because the code generator
/// also sees the doc comments above it.
#[derive(Debug, PartialEq, Eq)]
pub struct BooComplexCommit {
    pub gen: Vec<Foo>,
    pub attr: String,
    pub self_ref: u32,
}

impl BooComplexCommit {
    /// The list of records, copied element by element.
    pub fn get_gen(&self) -> (r: Vec<Foo>)
        ensures
            r@.len() == self.gen@.len(),
            forall|i: int|
                0 <= i < r@.len() ==> (#[trigger] r@[i]).attr@ == self.gen@[i].attr@ && r@[i].self_ref
                    == self.gen@[i].self_ref,
    {
        clone_foos(&self.gen)
    }
}

/// Copy a list of [`Foo`] values element by element.
fn clone_foos(v: &Vec<Foo>) -> (r: Vec<Foo>)
    ensures
        r@.len() == v@.len(),
        forall|i: int|
            0 <= i < r@.len() ==> (#[trigger] r@[i]).attr@ == v@[i].attr@ && r@[i].self_ref
                == v@[i].self_ref,
{
    let mut out: Vec<Foo> = Vec::new();
    let n = v.len();
    let mut i: usize = 0;
    while i < n
        invariant
            n == v@.len(),
            i <= n,
            out@.len() == i,
            forall|j: int|
                0 <= j < i ==> (#[trigger] out@[j]).attr@ == v@[j].attr@ && out@[j].self_ref
                    == v@[j].self_ref,
        decreases n - i,
    {
        let f = v[i].clone();
        out.push(f);
        i = i + 1;
    }
    out
}

} // verus!
