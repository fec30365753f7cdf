//! The collection of food items, in the order they were placed.
use vstd::prelude::*;
use crate::apple::Apple;

verus! {

/// Every food item placed so far, eaten or not, oldest first.
#[derive(Debug)]
pub struct Apples {
    pub apples: Vec<Apple>,
}

impl Apples {
    /// An empty collection.
    pub fn new() -> (r: Apples)
        ensures
            r.apples@ == Seq::<Apple>::empty(),
    {
        Apples { apples: Vec::new() }
    }

    /// Places a new active item at `(x, y)` after all others.
    pub fn spawn_at(&mut self, x: i32, y: i32)
        ensures
            final(self).apples@ == old(self).apples@.push(Apple::fresh(x, y)),
    {
        self.apples.push(Apple::new(x, y));
    }

    /// The positions of the items that are still active, oldest first.
    pub fn active_positions(&self) -> (r: Vec<(i32, i32)>)
        ensures
            r@ == active_positions_of(self.apples@),
    {
        let mut r: Vec<(i32, i32)> = Vec::new();
        let mut i: usize = 0;
        while i < self.apples.len()
            invariant
                i <= self.apples@.len(),
                r@ == active_positions_of(self.apples@.take(i as int)),
            decreases self.apples@.len() - i,
        {
            let a = self.apples[i];
            assert(self.apples@.take(i as int + 1).drop_last() == self.apples@.take(i as int));
            if a.active {
                r.push((a.x, a.y));
            }
            i = i + 1;
        }
        assert(self.apples@.take(i as int) == self.apples@);
        r
    }
}

/// The positions of the active items of `s`, in order.
pub open spec fn active_positions_of(s: Seq<Apple>) -> Seq<(i32, i32)>
    decreases s.len(),
{
    if s.len() == 0 {
        Seq::empty()
    } else {
        let rest = active_positions_of(s.drop_last());
        let a = s.last();
        if a.active {
            rest.push((a.x, a.y))
        } else {
            rest
        }
    }
}

} // verus!
