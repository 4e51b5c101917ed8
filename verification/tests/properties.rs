use pure_cell::{PureCell, Slot};
use std::cell::Cell;
use std::rc::Rc;

/// Counts how often its value is destroyed.
struct DropRecorder {
    drops: Rc<Cell<u32>>,
}

impl Drop for DropRecorder {
    fn drop(&mut self) {
        self.drops.set(self.drops.get() + 1);
    }
}

#[test]
fn round_trip_identity_keeps_value() {
    let mut cell = PureCell::new(41u32);
    cell.with((), |s: u32, _input: ()| (s, ()));
    assert_eq!(*cell.get(), 41);
}

#[test]
fn state_threading_adds_input() {
    let mut cell = PureCell::new(10u32);
    cell.with(7u32, |s: u32, i: u32| (s + i, ()));
    assert_eq!(*cell.get(), 17);
}

#[test]
fn output_distinct_from_state() {
    let mut cell = PureCell::new(15u32);
    let out: u32 = cell.with((), |s: u32, _input: ()| (s + 2, s));
    assert_eq!(out, 15);
    assert_eq!(*cell.get(), 17);
}

#[test]
fn no_input_shape_matches_with_unit_input() {
    let mut a = PureCell::new(9u32);
    let mut b = PureCell::new(9u32);
    a.update(|s: u32, _input: ()| (s + 5, ()));
    b.with((), |s: u32, _input: ()| (s + 5, ()));
    assert_eq!(*a.get(), *b.get());
    assert_eq!(*a.get(), 14);
}

#[test]
fn dropping_cell_destroys_value_exactly_once() {
    let drops: Rc<Cell<u32>> = Rc::new(Cell::new(0));
    {
        let _cell = PureCell::new(DropRecorder { drops: Rc::clone(&drops) });
    }
    assert_eq!(drops.get(), 1);
}

#[test]
fn update_does_not_destroy_value() {
    let drops: Rc<Cell<u32>> = Rc::new(Cell::new(0));
    {
        let mut cell = PureCell::new(DropRecorder { drops: Rc::clone(&drops) });
        cell.with((), |s: DropRecorder, _input: ()| (s, ()));
        assert_eq!(drops.get(), 0);
    }
    assert_eq!(drops.get(), 1);
}

#[test]
fn sequential_updates_compose() {
    let mut two = PureCell::new(100u32);
    two.with(3u32, |s: u32, i: u32| (s + i, ()));
    two.with(4u32, |s: u32, i: u32| (s + i, ()));
    let mut one = PureCell::new(100u32);
    one.with(7u32, |s: u32, i: u32| (s + i, ()));
    assert_eq!(*two.get(), *one.get());
    assert_eq!(*two.get(), 107);
}

#[test]
fn scenario_increment_then_add() {
    let mut cell = PureCell::new(15u32);
    cell.update(|s: u32, _input: ()| (s + 1, ()));
    assert_eq!(*cell.get(), 16);
    let out: u32 = cell.with(2u32, |s: u32, i: u32| (s + i, s + i));
    assert_eq!(out, 18);
    assert_eq!(*cell.get(), 18);
}

#[test]
fn exclusive_access_mutates_directly() {
    let mut cell = PureCell::new(5u32);
    *cell.get() = 8;
    assert_eq!(*cell.get(), 8);
}

#[test]
fn update_works_for_owned_state() {
    let mut cell = PureCell::new(String::from("abc"));
    let len: usize = cell.with(String::from("de"), |mut s: String, i: String| {
        s.push_str(&i);
        let n: usize = s.len();
        (s, n)
    });
    assert_eq!(len, 5);
    assert_eq!(cell.get().as_str(), "abcde");
}

#[test]
fn slot_take_and_reinstate() {
    let mut slot: Slot<u32> = Slot::Occupied(3);
    let v: u32 = slot.take();
    assert_eq!(v, 3);
    assert!(matches!(slot, Slot::Vacant));
    slot.reinstate(9);
    assert!(matches!(slot, Slot::Occupied(9)));
}
