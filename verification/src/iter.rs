//! Row producers for set-returning exposed functions.
//!
//! The host pulls a set of rows (or a table of tuples) from an exposed
//! function one element at a time; these producers hold the remaining
//! elements in order.

use vstd::prelude::*;

verus! {

/// The rows of a set-returning function, handed out front to back.
#[derive(Debug)]
pub struct SetOfIterator<T> {
    items: Vec<T>,
}

impl<T> View for SetOfIterator<T> {
    type V = Seq<T>;

    closed spec fn view(&self) -> Seq<T> {
        self.items@
    }
}

impl<T> SetOfIterator<T> {
    pub fn new(items: Vec<T>) -> (r: SetOfIterator<T>)
        ensures
            r@ == items@,
    {
        SetOfIterator { items }
    }

    /// The next remaining row, front to back.
    pub fn next(&mut self) -> (r: Option<T>)
        ensures
            old(self)@.len() == 0 ==> r is None && final(self)@ == old(self)@,
            old(self)@.len() > 0 ==> r == Some(old(self)@[0]) && final(self)@ == old(
                self,
            )@.drop_first(),
    {
        if self.items.len() > 0 {
            let x = self.items.remove(0);
            proof {
                assert(self.items@ =~= old(self)@.drop_first());
            }
            Some(x)
        } else {
            None
        }
    }
}

/// The tuples of a table-returning function, handed out front to back.
#[derive(Debug)]
pub struct TableIterator<T> {
    items: Vec<T>,
}

impl<T> View for TableIterator<T> {
    type V = Seq<T>;

    closed spec fn view(&self) -> Seq<T> {
        self.items@
    }
}

impl<T> TableIterator<T> {
    pub fn new(items: Vec<T>) -> (r: TableIterator<T>)
        ensures
            r@ == items@,
    {
        TableIterator { items }
    }

    /// A table of exactly one tuple.
    pub fn once(value: T) -> (r: TableIterator<T>)
        ensures
            r@ =~= seq![value],
    {
        let mut items: Vec<T> = Vec::new();
        items.push(value);
        TableIterator { items }
    }

    /// The next remaining tuple, front to back.
    pub fn next(&mut self) -> (r: Option<T>)
        ensures
            old(self)@.len() == 0 ==> r is None && final(self)@ == old(self)@,
            old(self)@.len() > 0 ==> r == Some(old(self)@[0]) && final(self)@ == old(
                self,
            )@.drop_first(),
    {
        if self.items.len() > 0 {
            let x = self.items.remove(0);
            proof {
                assert(self.items@ =~= old(self)@.drop_first());
            }
            Some(x)
        } else {
            None
        }
    }
}

} // verus!
