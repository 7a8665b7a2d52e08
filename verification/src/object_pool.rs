//! A small free-list pool: released objects are kept and handed back to
//! later acquirers in last-in, first-out order.

use vstd::prelude::*;

verus! {

/// A pool of reusable objects.
pub struct ObjectPool<T> {
    objects: Vec<T>,
}

impl<T> ObjectPool<T> {
    /// The objects currently held by the pool, oldest first.
    pub closed spec fn view(&self) -> Seq<T> {
        self.objects@
    }

    /// An empty pool.
    pub fn new() -> (r: ObjectPool<T>)
        ensures
            r@ =~= Seq::<T>::empty(),
    {
        ObjectPool { objects: Vec::new() }
    }

    /// Takes the most recently released object out of the pool, or nothing
    /// when the pool is empty.
    pub fn acquire(&mut self) -> (r: Option<T>)
        ensures
            old(self)@.len() == 0 ==> r is None && final(self)@ == old(self)@,
            old(self)@.len() > 0 ==> r == Some(old(self)@.last()) && final(self)@ == old(
                self,
            )@.drop_last(),
    {
        self.objects.pop()
    }

    /// Returns an object to the pool.
    pub fn release(&mut self, object: T)
        ensures
            final(self)@ == old(self)@.push(object),
    {
        self.objects.push(object);
    }
}

} // verus!
