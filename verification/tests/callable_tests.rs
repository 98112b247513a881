use std::cell::RefCell;
use std::rc::Rc;

use callables::dispatch::selected_variant;
use callables::dispatch::DispatchVariant;
use callables::runtime::must_deep_copy;
use callables::runtime::Runtime;
use callables::tables::CaptureCountTable;
use callables::tables::CountCallback;
use callables::tables::DispatchCallback;
use callables::tables::FunctionTable;

/// A dispatch callback that records which slot ran, into a log shared by
/// all four slots of a table.
#[derive(Clone)]
struct RecordingSlot {
    slot: u8,
    log: Rc<RefCell<Vec<u8>>>,
}

impl DispatchCallback for RecordingSlot {
    fn call(&self, _capture: u64, _args: u64, _result: u64) {
        self.log.borrow_mut().push(self.slot);
    }
}

/// A count hook that records every (capture, delta) pair it is given.
#[derive(Clone)]
struct RecordingHook {
    log: Rc<RefCell<Vec<(u64, i32)>>>,
}

impl CountCallback for RecordingHook {
    fn on_delta(&self, capture: u64, delta: i32) {
        self.log.borrow_mut().push((capture, delta));
    }
}

fn recording_table(log: &Rc<RefCell<Vec<u8>>>) -> FunctionTable<RecordingSlot> {
    FunctionTable {
        base: RecordingSlot { slot: 0, log: log.clone() },
        adjoint: RecordingSlot { slot: 1, log: log.clone() },
        controlled: RecordingSlot { slot: 2, log: log.clone() },
        controlled_adjoint: RecordingSlot { slot: 3, log: log.clone() },
    }
}

#[test]
fn dispatch_variant_selection() {
    assert_eq!(selected_variant(false, 0), DispatchVariant::Base);
    assert_eq!(selected_variant(true, 0), DispatchVariant::Adjoint);
    assert_eq!(selected_variant(false, 1), DispatchVariant::Controlled);
    assert_eq!(selected_variant(true, 1), DispatchVariant::ControlledAdjoint);
    assert_eq!(selected_variant(false, 17), DispatchVariant::Controlled);
    assert_eq!(selected_variant(true, 17), DispatchVariant::ControlledAdjoint);
    assert_eq!(DispatchVariant::Base.slot_index(), 0);
    assert_eq!(DispatchVariant::Adjoint.slot_index(), 1);
    assert_eq!(DispatchVariant::Controlled.slot_index(), 2);
    assert_eq!(DispatchVariant::ControlledAdjoint.slot_index(), 3);
}

#[test]
fn copy_policy_threshold() {
    assert!(must_deep_copy(true, 0));
    assert!(must_deep_copy(true, 3));
    assert!(must_deep_copy(false, 1));
    assert!(!must_deep_copy(false, 0));
}

#[test]
fn create_initial_state() {
    let log: Rc<RefCell<Vec<u8>>> = Rc::new(RefCell::new(Vec::new()));
    let mut rt: Runtime<RecordingSlot, RecordingHook> = Runtime::new();
    let t = rt.register_function_table(recording_table(&log));
    let h = rt.create(t, None, 42);
    assert!(rt.is_live(h));
    assert_eq!(rt.strong_count(h), 1);
    assert_eq!(rt.alias_count(h), 0);
    assert!(!rt.is_adjoint(h));
    assert_eq!(rt.controlled_depth(h), 0);
}

#[test]
fn adjoint_parity() {
    let log: Rc<RefCell<Vec<u8>>> = Rc::new(RefCell::new(Vec::new()));
    let mut rt: Runtime<RecordingSlot, RecordingHook> = Runtime::new();
    let t = rt.register_function_table(recording_table(&log));
    let h = rt.create(t, None, 0);
    for n in 1u32..=5 {
        rt.make_adjoint(h);
        assert_eq!(rt.is_adjoint(h), n % 2 == 1);
    }
}

#[test]
fn controlled_depth_accumulates() {
    let log: Rc<RefCell<Vec<u8>>> = Rc::new(RefCell::new(Vec::new()));
    let mut rt: Runtime<RecordingSlot, RecordingHook> = Runtime::new();
    let t = rt.register_function_table(recording_table(&log));
    let h = rt.create(t, None, 0);
    for n in 1u32..=4 {
        rt.make_controlled(h);
        assert_eq!(rt.controlled_depth(h), n);
    }
}

#[test]
fn scenario_dispatch_sequence() {
    let log: Rc<RefCell<Vec<u8>>> = Rc::new(RefCell::new(Vec::new()));
    let mut rt: Runtime<RecordingSlot, RecordingHook> = Runtime::new();
    let t = rt.register_function_table(recording_table(&log));
    let h = rt.create(t, None, 9);

    let v = rt.invoke(h, 0, 0);
    assert_eq!(v, DispatchVariant::Base);

    rt.make_adjoint(h);
    let v = rt.invoke(h, 0, 0);
    assert_eq!(v, DispatchVariant::Adjoint);

    rt.make_controlled(h);
    let v = rt.invoke(h, 0, 0);
    assert_eq!(v, DispatchVariant::ControlledAdjoint);

    rt.make_adjoint(h);
    let v = rt.invoke(h, 0, 0);
    assert_eq!(v, DispatchVariant::Controlled);

    assert_eq!(*log.borrow(), vec![0u8, 1, 3, 2]);
}

#[test]
fn shared_copy_bumps_strong_count() {
    let log: Rc<RefCell<Vec<u8>>> = Rc::new(RefCell::new(Vec::new()));
    let mut rt: Runtime<RecordingSlot, RecordingHook> = Runtime::new();
    let t = rt.register_function_table(recording_table(&log));
    let h = rt.create(t, None, 0);
    let c = rt.copy(h, false);
    assert_eq!(c, h);
    assert_eq!(rt.strong_count(h), 2);
}

#[test]
fn forced_copy_is_independent() {
    let log: Rc<RefCell<Vec<u8>>> = Rc::new(RefCell::new(Vec::new()));
    let mut rt: Runtime<RecordingSlot, RecordingHook> = Runtime::new();
    let t = rt.register_function_table(recording_table(&log));
    let h = rt.create(t, None, 0);
    rt.make_controlled(h);
    let c = rt.copy(h, true);
    assert_ne!(c, h);
    assert_eq!(rt.strong_count(h), 1);
    assert_eq!(rt.strong_count(c), 1);
    assert_eq!(rt.controlled_depth(c), 1);
    rt.make_adjoint(c);
    rt.make_controlled(c);
    assert!(!rt.is_adjoint(h));
    assert_eq!(rt.controlled_depth(h), 1);
    assert!(rt.is_adjoint(c));
    assert_eq!(rt.controlled_depth(c), 2);
}

#[test]
fn alias_forces_deep_copy() {
    let log: Rc<RefCell<Vec<u8>>> = Rc::new(RefCell::new(Vec::new()));
    let mut rt: Runtime<RecordingSlot, RecordingHook> = Runtime::new();
    let t = rt.register_function_table(recording_table(&log));
    let h = rt.create(t, None, 0);
    rt.update_alias_count(h, 1);
    let c = rt.copy(h, false);
    assert_ne!(c, h);
    assert_eq!(rt.strong_count(h), 1);
    assert_eq!(rt.strong_count(c), 1);
    assert_eq!(rt.alias_count(c), 0);
}

#[test]
fn reference_delta_forwarded_once() {
    let slots: Rc<RefCell<Vec<u8>>> = Rc::new(RefCell::new(Vec::new()));
    let deltas: Rc<RefCell<Vec<(u64, i32)>>> = Rc::new(RefCell::new(Vec::new()));
    let mut rt: Runtime<RecordingSlot, RecordingHook> = Runtime::new();
    let t = rt.register_function_table(recording_table(&slots));
    let k = rt.register_capture_table(CaptureCountTable {
        on_reference_delta: Some(RecordingHook { log: deltas.clone() }),
        on_alias_delta: None,
    });
    let h = rt.create(t, Some(k), 77);
    rt.update_reference_count(h, 1);
    assert_eq!(rt.strong_count(h), 2);
    assert_eq!(*deltas.borrow(), vec![(77u64, 1i32)]);
    rt.update_alias_count(h, 1);
    assert_eq!(rt.alias_count(h), 1);
    // the alias slot is empty: nothing more was forwarded
    assert_eq!(deltas.borrow().len(), 1);
}

#[test]
fn scenario_only_alias_hook() {
    let slots: Rc<RefCell<Vec<u8>>> = Rc::new(RefCell::new(Vec::new()));
    let deltas: Rc<RefCell<Vec<(u64, i32)>>> = Rc::new(RefCell::new(Vec::new()));
    let mut rt: Runtime<RecordingSlot, RecordingHook> = Runtime::new();
    let t = rt.register_function_table(recording_table(&slots));
    let k = rt.register_capture_table(CaptureCountTable {
        on_reference_delta: None,
        on_alias_delta: Some(RecordingHook { log: deltas.clone() }),
    });
    let h = rt.create(t, Some(k), 5);
    rt.update_reference_count(h, 1);
    assert!(deltas.borrow().is_empty());
    rt.update_alias_count(h, 1);
    assert_eq!(*deltas.borrow(), vec![(5u64, 1i32)]);
}

#[test]
fn no_capture_table_no_forwarding() {
    let slots: Rc<RefCell<Vec<u8>>> = Rc::new(RefCell::new(Vec::new()));
    let mut rt: Runtime<RecordingSlot, RecordingHook> = Runtime::new();
    let t = rt.register_function_table(recording_table(&slots));
    let h = rt.create(t, None, 5);
    rt.update_reference_count(h, 3);
    rt.update_alias_count(h, 2);
    rt.capture_update_reference_count(h, -1);
    rt.capture_update_alias_count(h, -1);
    assert_eq!(rt.strong_count(h), 4);
    assert_eq!(rt.alias_count(h), 2);
}

#[test]
fn scenario_teardown_forwards() {
    let slots: Rc<RefCell<Vec<u8>>> = Rc::new(RefCell::new(Vec::new()));
    let deltas: Rc<RefCell<Vec<(u64, i32)>>> = Rc::new(RefCell::new(Vec::new()));
    let mut rt: Runtime<RecordingSlot, RecordingHook> = Runtime::new();
    let t = rt.register_function_table(recording_table(&slots));
    let k = rt.register_capture_table(CaptureCountTable {
        on_reference_delta: Some(RecordingHook { log: deltas.clone() }),
        on_alias_delta: None,
    });
    let h = rt.create(t, Some(k), 11);
    assert_eq!(rt.strong_count(h), 1);
    rt.update_reference_count(h, -1);
    assert!(!rt.is_live(h));
    assert_eq!(*deltas.borrow(), vec![(11u64, -1i32)]);
}

#[test]
fn capture_updates_bypass_counts() {
    let slots: Rc<RefCell<Vec<u8>>> = Rc::new(RefCell::new(Vec::new()));
    let deltas: Rc<RefCell<Vec<(u64, i32)>>> = Rc::new(RefCell::new(Vec::new()));
    let mut rt: Runtime<RecordingSlot, RecordingHook> = Runtime::new();
    let t = rt.register_function_table(recording_table(&slots));
    let k = rt.register_capture_table(CaptureCountTable {
        on_reference_delta: Some(RecordingHook { log: deltas.clone() }),
        on_alias_delta: Some(RecordingHook { log: deltas.clone() }),
    });
    let h = rt.create(t, Some(k), 3);
    rt.capture_update_reference_count(h, 5);
    rt.capture_update_alias_count(h, -2);
    assert_eq!(rt.strong_count(h), 1);
    assert_eq!(rt.alias_count(h), 0);
    assert_eq!(*deltas.borrow(), vec![(3u64, 5i32), (3u64, -2i32)]);
}

#[test]
fn copies_share_capture_and_hooks() {
    let slots: Rc<RefCell<Vec<u8>>> = Rc::new(RefCell::new(Vec::new()));
    let deltas: Rc<RefCell<Vec<(u64, i32)>>> = Rc::new(RefCell::new(Vec::new()));
    let mut rt: Runtime<RecordingSlot, RecordingHook> = Runtime::new();
    let t = rt.register_function_table(recording_table(&slots));
    let k = rt.register_capture_table(CaptureCountTable {
        on_reference_delta: Some(RecordingHook { log: deltas.clone() }),
        on_alias_delta: None,
    });
    let h = rt.create(t, Some(k), 21);
    let c = rt.copy(h, true);
    assert_ne!(c, h);
    // the copy routes to the same hook with the same capture token
    rt.update_reference_count(c, 1);
    assert_eq!(*deltas.borrow(), vec![(21u64, 1i32)]);
    // and dispatches through the same function table
    let v = rt.invoke(c, 0, 0);
    assert_eq!(v, DispatchVariant::Base);
    assert_eq!(*slots.borrow(), vec![0u8]);
}
