//! Scope-exit actions and shared mutable cells.
//!
//! `Defer` runs a closure when it goes out of scope; `Deferable` gives a
//! reference-counted cell the small read/write interface that deferred
//! blocks use.

use core::cell::{Ref, RefCell, RefMut};
use std::rc::Rc;

use vstd::prelude::*;

verus! {

#[verifier::external_type_specification]
#[verifier::external_body]
#[verifier::reject_recursive_types(T)]
pub struct ExRefCell<T: ?Sized>(RefCell<T>);

#[verifier::external_type_specification]
#[verifier::external_body]
#[verifier::reject_recursive_types(T)]
pub struct ExRef<'b, T: ?Sized>(Ref<'b, T>);

#[verifier::external_type_specification]
#[verifier::external_body]
#[verifier::reject_recursive_types(T)]
pub struct ExRefMut<'b, T: ?Sized + 'b>(RefMut<'b, T>);

/// Runs its closure when dropped, and at most once.
pub struct Defer<F: FnOnce()> {
    f: Option<F>,
}

impl<F: FnOnce()> Defer<F> {
    /// Whether the deferred action is still to run.
    pub closed spec fn pending(&self) -> bool {
        self.f is Some
    }

    /// Defers `f` to the end of the guard's scope.  The closure must be
    /// callable, since the drop below will call it.
    pub fn new(f: F) -> (d: Defer<F>)
        requires
            call_requires(f, ()),
        ensures
            d.pending(),
    {
        Defer { f: Some(f) }
    }
}

impl<F: FnOnce()> Drop for Defer<F> {
    /// Relies on the closure given to `new`: taking it out of the
    /// option means it runs at most once.
    #[verifier::external_body]
    fn drop(&mut self)
        opens_invariants none
        no_unwind
    {
        if let Some(f) = self.f.take() {
            f();
        }
    }
}

/// A shared cell a deferred block can read and write.  The cell's
/// borrow state is not modelled, so each operation is fallible: it
/// returns `None` while a conflicting borrow of the same cell is live,
/// instead of failing.
pub trait Deferable<T> {
    fn get<'a>(&'a self) -> Option<Ref<'a, T>>;

    fn get_mut<'a>(&'a self) -> Option<RefMut<'a, T>>;

    fn set(&self, value: T) -> Option<()>;
}

/// Relies on `RefCell::try_borrow`: a shared borrow of the cell's
/// value, or `None` while a mutable borrow of the same cell is live.
#[verifier::external_body]
fn rc_cell_try_borrow<'a, T>(cell: &'a Rc<RefCell<T>>) -> Option<Ref<'a, T>> {
    cell.try_borrow().ok()
}

/// Relies on `RefCell::try_borrow_mut`: a mutable borrow of the cell's
/// value, or `None` while another borrow of the same cell is live.
#[verifier::external_body]
fn rc_cell_try_borrow_mut<'a, T>(cell: &'a Rc<RefCell<T>>) -> Option<RefMut<'a, T>> {
    cell.try_borrow_mut().ok()
}

/// Relies on `RefCell::try_borrow_mut` to replace the cell's value:
/// `Some(())` when the value was stored, `None` while another borrow of
/// the same cell is live, the value then dropped.
#[verifier::external_body]
fn rc_cell_try_set<T>(cell: &Rc<RefCell<T>>, value: T) -> Option<()> {
    match cell.try_borrow_mut() {
        Ok(mut slot) => {
            *slot = value;
            Some(())
        },
        Err(_) => None,
    }
}

impl<T> Deferable<T> for Rc<RefCell<T>> {
    fn get<'a>(&'a self) -> Option<Ref<'a, T>> {
        rc_cell_try_borrow(self)
    }

    fn get_mut<'a>(&'a self) -> Option<RefMut<'a, T>> {
        rc_cell_try_borrow_mut(self)
    }

    fn set(&self, value: T) -> Option<()> {
        rc_cell_try_set(self, value)
    }
}

} // verus!
