//! A list built from boxes and a box of one's own.
use vstd::prelude::*;

verus! {

/// A list of numbers: a first number and the rest, or nothing.
#[derive(Debug)]
pub enum List {
    Cons(i32, Box<List>),
    Nil,
}

impl List {
    /// The numbers of the list, first to last.
    pub open spec fn elements(self) -> Seq<i32>
        decreases self,
    {
        match self {
            List::Cons(head, rest) => seq![head] + rest.elements(),
            List::Nil => Seq::empty(),
        }
    }

    /// The rest of the list after its first number, if it has one.
    pub fn tail(&self) -> (rest: Option<&List>)
        ensures
            match rest {
                Some(list) => self is Cons && *list == *self->Cons_1,
                None => self is Nil,
            },
    {
        match self {
            List::Cons(_, item) => Some(&**item),
            List::Nil => None,
        }
    }
}

/// The tail of a list holds all its numbers but the first.
pub proof fn lemma_tail_elements(list: List)
    requires
        list is Cons,
    ensures
        list->Cons_1.elements() == list.elements().drop_first(),
        list.elements().len() > 0,
        list.elements()[0] == list->Cons_0,
{
    assert(list->Cons_1.elements() =~= list.elements().drop_first());
}

/// A box that owns one value.
pub struct MyBox<T>(pub T);

impl<T> MyBox<T> {
    /// Puts `x` in a box.
    pub fn new(x: T) -> (b: MyBox<T>)
        ensures
            b.0 == x,
    {
        MyBox(x)
    }

}

impl<T> std::ops::Deref for MyBox<T> {
    type Target = T;

    /// The value in the box.
    fn deref(&self) -> (x: &T)
        ensures
            *x == self.0,
    {
        &self.0
    }
}

} // verus!
