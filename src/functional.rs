//! Working with closures and counters: a memoizing wrapper around a
//! computation, a bounded counter, and calling a function twice.
use vstd::prelude::*;

verus! {

/// Runs `calculation` at most once and keeps its result.
pub struct Cacher<T: Fn(u32) -> u32> {
    calculation: T,
    value: Option<u32>,
}

impl<T: Fn(u32) -> u32> Cacher<T> {
    pub closed spec fn calculation_spec(&self) -> T {
        self.calculation
    }

    /// The result kept from the first call, if any.
    pub closed spec fn cached(&self) -> Option<u32> {
        self.value
    }

    pub fn new(calculation: T) -> (c: Cacher<T>)
        ensures
            c.calculation_spec() == calculation,
            c.cached() is None,
    {
        Cacher { calculation, value: None }
    }

    /// The first call computes the result for `arg` and keeps it; every
    /// later call returns the kept result, whatever its argument.
    pub fn value(&mut self, arg: u32) -> (r: u32)
        requires
            old(self).cached() is None ==> old(self).calculation_spec().requires((arg,)),
        ensures
            final(self).calculation_spec() == old(self).calculation_spec(),
            final(self).cached() == Some(r),
            old(self).cached() matches Some(v) ==> r == v,
            old(self).cached() is None ==> old(self).calculation_spec().ensures((arg,), r),
    {
        match self.value {
            Some(v) => v,
            None => {
                let v = (self.calculation)(arg);
                self.value = Some(v);
                v
            },
        }
    }
}

/// Counts `1, 2, ...` up to but excluding `max`.
pub struct Counter {
    count: u32,
    max: u32,
}

impl Counter {
    pub closed spec fn count_spec(&self) -> u32 {
        self.count
    }

    pub closed spec fn max_spec(&self) -> u32 {
        self.max
    }

    pub fn new(max: u32) -> (c: Counter)
        ensures
            c.count_spec() == 0,
            c.max_spec() == max,
    {
        Counter { count: 0, max }
    }

    /// The next count while it stays below `max`; `None` from then on.
    pub fn next(&mut self) -> (r: Option<u32>)
        ensures
            final(self).max_spec() == old(self).max_spec(),
            old(self).count_spec() + 1 < old(self).max_spec() ==> r == Some(
                (old(self).count_spec() + 1) as u32,
            ) && final(self).count_spec() == old(self).count_spec() + 1,
            old(self).count_spec() + 1 >= old(self).max_spec() ==> r is None
                && final(self).count_spec() >= final(self).max_spec(),
    {
        if self.count < self.max {
            self.count = self.count + 1;
            if self.count < self.max {
                return Some(self.count);
            }
        }
        None
    }
}

/// `f(arg) + f(arg)`.
pub fn do_twice<F: Fn(i32) -> i32>(f: F, arg: i32) -> (r: i32)
    requires
        f.requires((arg,)),
        forall|a: i32, b: i32|
            f.ensures((arg,), a) && f.ensures((arg,), b) ==> i32::MIN <= a + b <= i32::MAX,
    ensures
        exists|a: i32, b: i32| f.ensures((arg,), a) && f.ensures((arg,), b) && r == a + b,
{
    let a = f(arg);
    let b = f(arg);
    a + b
}

/// `x + 1`.
pub fn add_one(x: i32) -> (r: i32)
    requires
        x < i32::MAX,
    ensures
        r == x + 1,
{
    x + 1
}

} // verus!
