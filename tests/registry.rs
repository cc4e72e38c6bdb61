use std::cell::RefCell;
use std::rc::Rc;

use gpui_linux::{CallbackSlot, WindowRegistry};

#[test]
fn events_reach_only_registered_windows() {
    let mut registry: WindowRegistry<&str> = WindowRegistry::new();
    assert!(registry.is_empty());
    assert_eq!(registry.insert(10, "first"), None);
    assert_eq!(registry.insert(20, "second"), None);
    assert_eq!(registry.get(10), Some(&"first"));
    assert_eq!(registry.get(20), Some(&"second"));
    assert_eq!(registry.get(30), None);
    assert_eq!(registry.len(), 2);
    assert_eq!(registry.remove(10), Some("first"));
    assert_eq!(registry.get(10), None);
    assert!(!registry.contains(10));
    assert_eq!(registry.remove(10), None);
}

#[test]
fn reinsert_hands_back_previous_state() {
    let mut registry: WindowRegistry<u32> = WindowRegistry::new();
    assert_eq!(registry.insert(5, 1), None);
    assert_eq!(registry.insert(5, 2), Some(1));
    assert_eq!(registry.get(5), Some(&2));
    assert_eq!(registry.len(), 1);
}

#[test]
fn closing_last_window_quits_once() {
    let mut registry: WindowRegistry<u32> = WindowRegistry::new();
    registry.insert(1, 100);
    registry.insert(2, 200);
    let first = registry.close(1).expect("registered");
    assert_eq!(first.window, 100);
    assert!(!first.was_last);
    let second = registry.close(2).expect("registered");
    assert_eq!(second.window, 200);
    assert!(second.was_last);
    assert!(registry.close(2).is_none());
    assert!(registry.close(7).is_none());
    assert!(registry.is_empty());
}

#[test]
fn second_registration_replaces_first() {
    let calls = Rc::new(RefCell::new(Vec::new()));
    let mut slot: CallbackSlot<Box<dyn FnMut()>> = CallbackSlot::new();
    assert!(!slot.is_set());
    let c1 = calls.clone();
    slot.register(Box::new(move || c1.borrow_mut().push("first")));
    let c2 = calls.clone();
    slot.register(Box::new(move || c2.borrow_mut().push("second")));
    let mut cb = slot.take().expect("registered");
    cb();
    slot.restore(cb);
    assert_eq!(*calls.borrow(), vec!["second"]);
    assert!(slot.is_set());
}

type FrameSlot = Rc<RefCell<CallbackSlot<Box<dyn FnMut()>>>>;

fn tick(slot: &FrameSlot) -> bool {
    let taken = slot.borrow_mut().take();
    match taken {
        Some(mut cb) => {
            cb();
            slot.borrow_mut().restore(cb);
            true
        }
        None => false,
    }
}

#[test]
fn frame_callback_can_register_its_successor() {
    let slot: FrameSlot = Rc::new(RefCell::new(CallbackSlot::new()));
    let calls = Rc::new(RefCell::new(Vec::new()));
    let inner_slot = slot.clone();
    let c1 = calls.clone();
    slot.borrow_mut().register(Box::new(move || {
        c1.borrow_mut().push("first");
        let c2 = c1.clone();
        inner_slot
            .borrow_mut()
            .register(Box::new(move || c2.borrow_mut().push("successor")));
    }));
    assert!(tick(&slot));
    assert_eq!(*calls.borrow(), vec!["first"]);
    assert!(tick(&slot));
    assert_eq!(*calls.borrow(), vec!["first", "successor"]);
    assert!(tick(&slot));
    assert_eq!(*calls.borrow(), vec!["first", "successor", "successor"]);
}

#[test]
fn empty_slot_ticks_nothing() {
    let slot: FrameSlot = Rc::new(RefCell::new(CallbackSlot::new()));
    assert!(!tick(&slot));
}
