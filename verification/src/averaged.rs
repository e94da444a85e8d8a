//! A list of numbers that always knows its sum, so that its average is one
//! division away.
use vstd::prelude::*;

verus! {

/// The sum of the numbers in `list`.
pub open spec fn sum(list: Seq<i32>) -> int
    decreases list.len(),
{
    if list.len() == 0 {
        0
    } else {
        sum(list.drop_last()) + list.last()
    }
}

/// Whether the numbers of `list` can be added up one after the other in 32
/// bits: the sum of every prefix fits.
pub open spec fn sums_fit(list: Seq<i32>) -> bool {
    forall|k: int| 0 <= k <= list.len() ==> i32::MIN <= #[trigger] sum(list.take(k)) <= i32::MAX
}

/// A list of numbers together with its sum. Its users can add a number at the
/// end and take the last one away, and nothing else, so that the sum is
/// never out of date.
pub struct AveragedCollection {
    list: Vec<i32>,
    total: i32,
}

impl View for AveragedCollection {
    type V = Seq<i32>;

    closed spec fn view(&self) -> Seq<i32> {
        self.list@
    }
}

impl AveragedCollection {
    /// The stored sum is the sum of the list, and every prefix of the list
    /// has a sum that fits in 32 bits.
    pub closed spec fn wf(&self) -> bool {
        &&& self.total == sum(self.list@)
        &&& sums_fit(self.list@)
    }

    /// A well-formed collection has sums that fit.
    pub proof fn lemma_wf_sums_fit(&self)
        requires
            self.wf(),
        ensures
            sums_fit(self@),
            i32::MIN <= sum(self@) <= i32::MAX,
    {
        assert(self@.take(self@.len() as int) =~= self@);
    }

    /// An empty collection.
    pub fn new() -> (c: AveragedCollection)
        ensures
            c.wf(),
            c@ == Seq::<i32>::empty(),
    {
        let c = AveragedCollection { list: Vec::new(), total: 0 };
        proof {
            assert forall|k: int| 0 <= k <= c.list@.len() implies i32::MIN <= #[trigger] sum(
                c.list@.take(k),
            ) <= i32::MAX by {
                assert(c.list@.take(k) =~= Seq::<i32>::empty());
            }
        }
        c
    }

    /// Adds `value` at the end. The new sum must fit in 32 bits.
    pub fn add(&mut self, value: i32)
        requires
            old(self).wf(),
            i32::MIN <= sum(old(self)@) + value <= i32::MAX,
        ensures
            final(self).wf(),
            final(self)@ == old(self)@.push(value),
    {
        self.list.push(value);
        self.total = self.total + value;
        proof {
            let before = old(self).list@;
            let after = self.list@;
            assert(after.drop_last() =~= before);
            assert forall|k: int| 0 <= k <= after.len() implies i32::MIN <= #[trigger] sum(
                after.take(k),
            ) <= i32::MAX by {
                if k == after.len() {
                    assert(after.take(k) =~= after);
                } else {
                    assert(after.take(k) =~= before.take(k));
                }
            }
        }
    }

    /// Whether `add` can take `value`: whether the new sum fits in 32 bits.
    pub fn can_add(&self, value: i32) -> (b: bool)
        requires
            self.wf(),
        ensures
            b == (i32::MIN <= sum(self@) + value <= i32::MAX),
    {
        self.total.checked_add(value).is_some()
    }

    /// Takes the last number away and returns it, if there is one.
    pub fn remove(&mut self) -> (r: Option<i32>)
        requires
            old(self).wf(),
        ensures
            final(self).wf(),
            match r {
                Some(value) => old(self)@.len() > 0 && value == old(self)@.last() && final(self)@
                    == old(self)@.drop_last(),
                None => old(self)@.len() == 0 && final(self)@ == old(self)@,
            },
    {
        let result = self.list.pop();
        match result {
            Some(value) => {
                proof {
                    let before = old(self).list@;
                    let after = self.list@;
                    assert(after =~= before.drop_last());
                    assert(before.take(before.len() - 1) =~= after);
                    assert(i32::MIN <= sum(before.take(before.len() - 1)) <= i32::MAX);
                    assert forall|k: int| 0 <= k <= after.len() implies i32::MIN
                        <= #[trigger] sum(after.take(k)) <= i32::MAX by {
                        assert(after.take(k) =~= before.take(k));
                    }
                }
                self.total = self.total - value;
                Some(value)
            },
            None => None,
        }
    }

    /// The sum of the numbers.
    pub fn total(&self) -> (t: i32)
        requires
            self.wf(),
        ensures
            t == sum(self@),
    {
        self.total
    }

    /// How many numbers there are.
    pub fn len(&self) -> (n: usize)
        ensures
            n == self@.len(),
    {
        self.list.len()
    }
}

} // verus!
