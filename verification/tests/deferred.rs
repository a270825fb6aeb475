use flize::deferred::{fits_inline, Deferred, DATA_ALIGN, DATA_SIZE};
use std::cell::Cell;
use std::rc::Rc;

#[test]
fn buffer_geometry() {
    assert_eq!(DATA_SIZE, 12);
    assert_eq!(DATA_ALIGN, 1);
}

#[test]
fn placement_rule_edges() {
    // zero-sized captures are trivially inline
    assert!(fits_inline(0, 1));
    // exactly buffer-sized captures are still inline
    assert!(fits_inline(12, 1));
    // one byte over takes the heap path
    assert!(!fits_inline(13, 1));
    // a fitting size with a stricter alignment takes the heap path
    assert!(!fits_inline(4, 4));
    assert!(!fits_inline(16, 1));
}

#[test]
fn call_runs_the_small_capture_exactly_once() {
    let seen: Rc<Cell<u64>> = Rc::new(Cell::new(0));
    let inner = Rc::clone(&seen);
    let counter: u64 = 41;
    let d = Deferred::new(move || {
        inner.set(inner.get() + counter);
    });
    assert_eq!(seen.get(), 0);
    d.call();
    assert_eq!(seen.get(), 41);
}

#[test]
fn call_runs_the_large_capture_exactly_once() {
    let seen: Rc<Cell<u64>> = Rc::new(Cell::new(0));
    let inner = Rc::clone(&seen);
    // sixteen bytes of captured state: larger than the inline buffer
    let bulk: [u8; 16] = [1; 16];
    let d = Deferred::new(move || {
        let mut sum: u64 = 0;
        for b in bulk {
            sum += u64::from(b);
        }
        inner.set(sum);
    });
    d.call();
    assert_eq!(seen.get(), 16);
}

#[test]
fn repeated_construct_invoke_cycles() {
    let seen: Rc<Cell<u64>> = Rc::new(Cell::new(0));
    for _round in 0u32..256u32 {
        let inner = Rc::clone(&seen);
        Deferred::new(move || {
            inner.set(inner.get() + 1);
        })
        .call();
    }
    assert_eq!(seen.get(), 256);
    // every per-cycle clone of the handle was released: no leak
    assert_eq!(Rc::strong_count(&seen), 1);
}

#[test]
fn dropping_without_calling_releases_the_capture_without_running_it() {
    let seen: Rc<Cell<u64>> = Rc::new(Cell::new(0));
    let inner = Rc::clone(&seen);
    let d = Deferred::new(move || {
        inner.set(77);
    });
    assert_eq!(Rc::strong_count(&seen), 2);
    drop(d);
    // the effect never ran, yet the captured clone was released
    assert_eq!(seen.get(), 0);
    assert_eq!(Rc::strong_count(&seen), 1);
}
