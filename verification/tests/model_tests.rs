use galena::layout::PointerWidth;
use galena::model::{BoxedValue, Model, ModelStore, WordWrite, REFCOUNT_PINNED};

#[test]
fn refcount_sits_one_word_before_the_data() {
    let boxed = BoxedValue { address: 0x1000 };
    assert_eq!(boxed.refcount_address(PointerWidth::Bits32), 0x0ffc);
    assert_eq!(boxed.refcount_address(PointerWidth::Bits64), 0x0ff8);
}

#[test]
fn null_is_not_boxed() {
    assert!(!BoxedValue { address: 0 }.is_boxed(PointerWidth::Bits32));
    assert!(!BoxedValue { address: 4 }.is_boxed(PointerWidth::Bits64));
    assert!(BoxedValue { address: 4 }.is_boxed(PointerWidth::Bits32));
    assert!(BoxedValue { address: 8 }.is_boxed(PointerWidth::Bits64));
}

fn model(address: usize) -> Model {
    Model::init(BoxedValue { address }, PointerWidth::Bits64, REFCOUNT_PINNED).unwrap()
}

#[test]
fn pinning_writes_the_pinned_count() {
    let boxed = BoxedValue { address: 0x2000 };
    assert_eq!(REFCOUNT_PINNED, 0);
    assert_eq!(boxed.pin_write(PointerWidth::Bits32), WordWrite { address: 0x1ffc, value: 0 });
    assert_eq!(boxed.pin_write(PointerWidth::Bits64), WordWrite { address: 0x1ff8, value: 0 });
}

#[test]
fn a_pinned_value_becomes_a_model() {
    let boxed = BoxedValue { address: 0x2000 };
    let taken = Model::init(boxed, PointerWidth::Bits32, 0).unwrap();
    assert_eq!(taken.inner(), boxed);
    assert_eq!(Model::init(boxed, PointerWidth::Bits64, 0).unwrap().inner(), boxed);
}

#[test]
fn a_value_that_is_not_pinned_is_refused() {
    let boxed = BoxedValue { address: 0x2000 };
    assert_eq!(Model::init(boxed, PointerWidth::Bits32, 1), None);
    assert_eq!(Model::init(boxed, PointerWidth::Bits64, 7), None);
    assert_eq!(Model::init(boxed, PointerWidth::Bits64, usize::MAX), None);
}

#[test]
fn a_null_value_is_refused() {
    assert_eq!(Model::init(BoxedValue { address: 0 }, PointerWidth::Bits32, 0), None);
    assert_eq!(Model::init(BoxedValue { address: 4 }, PointerWidth::Bits64, 0), None);
    assert!(Model::init(BoxedValue { address: 4 }, PointerWidth::Bits32, 0).is_some());
}

#[test]
fn snapshot_returns_the_initial_model() {
    let initial = model(0x10);
    let store = ModelStore::new(initial);
    assert_eq!(store.snapshot(), initial);
    assert_eq!(store.generation, 0);
}

#[test]
fn last_write_wins() {
    let mut store = ModelStore::new(model(0x10));
    let x = model(0x20);
    let y = model(0x30);
    store.replace(x);
    assert_eq!(store.snapshot(), x);
    assert_eq!(store.snapshot(), x);
    store.replace(y);
    assert_eq!(store.snapshot(), y);
    assert_eq!(store.generation, 2);
}

#[test]
fn generation_saturates() {
    let m = model(0x10);
    let mut store = ModelStore { current: m, generation: u64::MAX };
    store.replace(model(0x20));
    assert_eq!(store.generation, u64::MAX);
    assert_eq!(store.snapshot().inner().address, 0x20);
}
