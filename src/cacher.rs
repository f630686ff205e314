//! Memoisation of a calculation on bytes.
use std::collections::HashMap;
use vstd::prelude::*;

verus! {

broadcast use vstd::std_specs::hash::group_hash_axioms;

/// Remembers the results of `calculation`, so that it runs at most once per
/// argument.
pub struct Cacher<T> where T: Fn(u8) -> u8 {
    calculation: T,
    value: HashMap<u8, u8>,
}

impl<T> Cacher<T> where T: Fn(u8) -> u8 {
    /// The results remembered so far.
    pub closed spec fn cache(&self) -> Map<u8, u8> {
        self.value@
    }

    pub closed spec fn calculation(&self) -> T {
        self.calculation
    }

    /// Every remembered result is one that the calculation may give.
    pub open spec fn wf(&self) -> bool {
        forall|k: u8| #[trigger] self.cache().contains_key(k) ==> self.calculation().ensures((k,), self.cache()[k])
    }

    /// A cacher of `calculation` that remembers nothing yet.
    pub fn new(calculation: T) -> (r: Self)
        ensures
            r.wf(),
            r.calculation() == calculation,
            r.cache() == Map::<u8, u8>::empty(),
    {
        Cacher { calculation, value: HashMap::new() }
    }

    /// The calculation's result on `arg`: the remembered one if there is
    /// one; otherwise the calculation runs and its result is remembered.
    pub fn value(&mut self, arg: u8) -> (r: u8)
        requires
            old(self).wf(),
            old(self).calculation().requires((arg,)),
        ensures
            final(self).wf(),
            final(self).calculation() == old(self).calculation(),
            old(self).calculation().ensures((arg,), r),
            old(self).cache().contains_key(arg) ==> r == old(self).cache()[arg] && final(self).cache()
                == old(self).cache(),
            !old(self).cache().contains_key(arg) ==> final(self).cache() == old(self).cache().insert(arg, r),
    {
        match self.value.get(&arg) {
            Some(v) => {
                assert(self.cache().contains_key(arg));
                *v
            },
            None => {
                let v = (self.calculation)(arg);
                let ghost pre = self.cache();
                self.value.insert(arg, v);
                assert forall|k: u8| #[trigger] self.cache().contains_key(k) implies self.calculation().ensures(
                    (k,),
                    self.cache()[k],
                ) by {
                    if k != arg {
                        assert(pre.contains_key(k));
                    }
                }
                v
            },
        }
    }
}

} // verus!
