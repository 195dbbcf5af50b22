use std::cell::RefCell;
use std::rc::Rc;

use const_sql::const_string::ConstString;
use const_sql::const_vec::ConstVec;

#[test]
fn test_const_string() {
    let mut string = ConstString::default();
    string.push_str("testing a functio");
    string.push_ascii(b'n');
    let text = string.leak();
    assert_eq!(text, "testing a function");
}

#[test]
fn pushed_fragments_concatenate_in_call_order() {
    let mut buf = ConstString::default();
    buf.push_str("ab");
    buf.push_ascii(b'c');
    buf.push_str("");
    buf.push_str("def");
    assert_eq!(buf.as_bytes(), b"abcdef");
    assert_eq!(buf.leak(), "abcdef");
}

#[test]
fn reserve_changes_only_capacity() {
    let mut buf = ConstString::default();
    buf.push_str("hello");
    buf.reserve(100);
    buf.reserve(100);
    buf.reserve(3);
    buf.reserve(0);
    assert_eq!(buf.as_bytes(), b"hello");
    assert_eq!(buf.leak(), "hello");
}

#[test]
fn freeze_returns_exactly_the_content() {
    let mut buf = ConstString::default();
    buf.push_str("freeze me, exceeding the default capacity");
    let text = buf.leak();
    assert_eq!(text.len(), 41);
    assert_eq!(text, "freeze me, exceeding the default capacity");
}

#[test]
fn typed_array_freeze_returns_elements_in_push_order() {
    let mut array: ConstVec<u32> = ConstVec::new();
    array.push(1);
    array.push(2);
    array.push(3);
    assert_eq!(array.len(), 3);
    let out = array.leak();
    assert_eq!(out, vec![1, 2, 3]);
}

#[test]
fn typed_array_reserve_keeps_elements() {
    let mut array: ConstVec<&'static str> = ConstVec::default();
    array.push("one");
    array.reserve(50);
    array.push("two");
    assert_eq!(array.leak(), vec!["one", "two"]);
}

struct DropProbe {
    id: usize,
    log: Rc<RefCell<Vec<usize>>>,
}

impl Drop for DropProbe {
    fn drop(&mut self) {
        self.log.borrow_mut().push(self.id);
    }
}

#[test]
fn non_frozen_drop_runs_each_destructor_once_in_push_order() {
    let log: Rc<RefCell<Vec<usize>>> = Rc::new(RefCell::new(Vec::new()));
    {
        let mut array: ConstVec<DropProbe> = ConstVec::new();
        let mut id: usize = 0;
        while id < 4 {
            array.push(DropProbe { id, log: log.clone() });
            id += 1;
        }
        assert_eq!(log.borrow().len(), 0);
    }
    assert_eq!(*log.borrow(), vec![0, 1, 2, 3]);
}

#[test]
fn frozen_array_defers_destruction_to_the_returned_view() {
    let log: Rc<RefCell<Vec<usize>>> = Rc::new(RefCell::new(Vec::new()));
    let mut array: ConstVec<DropProbe> = ConstVec::new();
    array.push(DropProbe { id: 0, log: log.clone() });
    array.push(DropProbe { id: 1, log: log.clone() });
    let out = array.leak();
    assert_eq!(log.borrow().len(), 0);
    drop(out);
    assert_eq!(*log.borrow(), vec![0, 1]);
}

#[test]
fn zero_sized_elements_are_counted_without_storage() {
    let mut array: ConstVec<()> = ConstVec::new();
    let mut i: usize = 0;
    while i < 100 {
        array.push(());
        i += 1;
    }
    assert_eq!(array.len(), 100);
    assert_eq!(array.leak().len(), 100);
}
