use std::cell::RefCell;
use std::rc::{Rc, Weak};
use thread_pool::smart_pointers::List as BoxedList;

enum List2 {
    Cons2(i32, Rc<List2>),
    Nil2,
}

#[test]
fn rc_count() {
    let a = Rc::new(List2::Cons2(5, Rc::new(List2::Cons2(10, Rc::new(List2::Nil2)))));
    println!("count after creating a = {}", Rc::strong_count(&a));
    let _b = List2::Cons2(3, Rc::clone(&a));
    println!("count after creating b = {}", Rc::strong_count(&a));
    {
        let _c = List2::Cons2(4, Rc::clone(&a));
        println!("count after creating c = {}", Rc::strong_count(&a));
    }
    println!("count after c goes out of scope = {}", Rc::strong_count(&a));
}

#[derive(Debug)]
enum SharedList {
    Cons(Rc<RefCell<i32>>, Rc<SharedList>),
    Nil,
}

#[test]
fn cons_list_refcell_rc() {
    let value = Rc::new(RefCell::new(5));

    let a = Rc::new(SharedList::Cons(Rc::clone(&value), Rc::new(SharedList::Nil)));

    let b = SharedList::Cons(Rc::new(RefCell::new(3)), Rc::clone(&a));
    let c = SharedList::Cons(Rc::new(RefCell::new(4)), Rc::clone(&a));

    *value.borrow_mut() += 10;

    println!("a after = {:?}", a);
    println!("b after = {:?}", b);
    println!("c after = {:?}", c);
}

#[derive(Debug)]
enum CyclicList {
    Cons(i32, RefCell<Rc<CyclicList>>),
    Nil,
}

impl CyclicList {
    fn tail(&self) -> Option<&RefCell<Rc<CyclicList>>> {
        match self {
            CyclicList::Cons(_, item) => Some(item),
            CyclicList::Nil => None,
        }
    }
}

#[test]
fn stack_overflow_cycle() {
    let a = Rc::new(CyclicList::Cons(5, RefCell::new(Rc::new(CyclicList::Nil))));

    println!("a initial rc vount = {}", Rc::strong_count(&a));
    println!("a next item = {:?}", a.tail());

    let b = Rc::new(CyclicList::Cons(10, RefCell::new(Rc::clone(&a))));

    println!("a rc count after b creation = {}", Rc::strong_count(&a));
    println!("b initial rc count = {}", Rc::strong_count(&b));
    println!("b next item = {:?}", b.tail());

    if let Some(link) = a.tail() {
        *link.borrow_mut() = Rc::clone(&b);
    }

    println!("b rc count after changing a = {}", Rc::strong_count(&b));
    println!("a rc count after changing a = {}", Rc::strong_count(&a));
}

#[derive(Debug)]
struct Node {
    value: i32,
    parent: RefCell<Weak<Node>>,
    children: RefCell<Vec<Rc<Node>>>,
}

#[test]
fn weak_parent_does_not_keep_the_branch_alive() {
    let leaf = Rc::new(Node {
        value: 3,
        parent: RefCell::new(Weak::new()),
        children: RefCell::new(vec![]),
    });
    assert_eq!((Rc::strong_count(&leaf), Rc::weak_count(&leaf)), (1, 0));

    {
        let branch = Rc::new(Node {
            value: 5,
            parent: RefCell::new(Weak::new()),
            children: RefCell::new(vec![Rc::clone(&leaf)]),
        });

        *leaf.parent.borrow_mut() = Rc::downgrade(&branch);

        assert_eq!((Rc::strong_count(&branch), Rc::weak_count(&branch)), (1, 1));
        assert_eq!((Rc::strong_count(&leaf), Rc::weak_count(&leaf)), (2, 0));
        assert_eq!(branch.value, 5);
        assert_eq!(branch.children.borrow().len(), 1);
    }

    assert!(leaf.parent.borrow().upgrade().is_none());
    assert_eq!((Rc::strong_count(&leaf), Rc::weak_count(&leaf)), (1, 0));
    assert_eq!(leaf.value, 3);
}

#[test]
fn boxed_list_has_its_tail() {
    let list = BoxedList::Cons(1, Box::new(BoxedList::Cons(2, Box::new(BoxedList::Cons(3, Box::new(BoxedList::Nil))))));
    let rest = list.tail();
    assert!(matches!(rest, Some(BoxedList::Cons(2, _))));
}
