use mca::arrays::{FixedLengthMismatch, FixedSeqBuilder, FixedSizeArray};
use std::cell::Cell;
use std::rc::Rc;

#[test]
fn decode_of_exact_count_round_trips() {
    let arr = FixedSizeArray::<u32, 4>::decode_exact(vec![10, 20, 30, 40]).unwrap();
    assert_eq!(arr.len(), 4);
    assert_eq!(arr.as_slice(), &[10, 20, 30, 40]);

    // Encoding emits the elements in index order; decoding them again yields
    // an equal sequence.
    let emitted = arr.into_vec();
    let again = FixedSizeArray::<u32, 4>::decode_exact(emitted).unwrap();
    assert_eq!(again.as_slice(), &[10, 20, 30, 40]);
}

#[test]
fn decode_of_short_source_reports_both_counts() {
    let err = FixedSizeArray::<u32, 4>::decode_exact(vec![1, 2]).unwrap_err();
    assert_eq!(err, FixedLengthMismatch { expected: 4, actual: 2 });
}

#[test]
fn decode_of_long_source_reports_both_counts() {
    let err = FixedSizeArray::<u32, 2>::decode_exact(vec![1, 2, 3, 4, 5]).unwrap_err();
    assert_eq!(err, FixedLengthMismatch { expected: 2, actual: 5 });
}

#[test]
fn decode_of_empty_sequence_succeeds_at_zero() {
    let arr = FixedSizeArray::<u8, 0>::decode_exact(Vec::new()).unwrap();
    assert_eq!(arr.len(), 0);
    assert_eq!(arr.as_slice(), &[] as &[u8]);
}

#[test]
fn builder_fills_slots_in_order() {
    let mut builder = FixedSeqBuilder::<&str, 3>::new();
    assert_eq!(builder.filled(), 0);
    assert!(!builder.is_full());
    builder.push("a").unwrap();
    builder.push("b").unwrap();
    builder.push("c").unwrap();
    assert!(builder.is_full());
    let arr = builder.finish().unwrap();
    assert_eq!(arr.as_slice(), &["a", "b", "c"]);
}

#[test]
fn builder_rejects_an_extra_element() {
    let mut builder = FixedSeqBuilder::<u8, 1>::new();
    builder.push(1).unwrap();
    let err = builder.push(2).unwrap_err();
    assert_eq!(err, FixedLengthMismatch { expected: 1, actual: 1 });
    // The builder itself is untouched and can still be finished.
    let arr = builder.finish().unwrap();
    assert_eq!(arr.as_slice(), &[1]);
}

#[test]
fn builder_rejects_an_early_finish() {
    let mut builder = FixedSeqBuilder::<u8, 4>::new();
    builder.push(1).unwrap();
    builder.push(2).unwrap();
    let err = builder.finish().unwrap_err();
    assert_eq!(err, FixedLengthMismatch { expected: 4, actual: 2 });
}

/// An element that counts how often it is built and dropped: the balance
/// rises by one per constructed value and falls by one per release.
struct Tally(Rc<Cell<i64>>);

impl Tally {
    fn build(balance: &Rc<Cell<i64>>) -> Tally {
        balance.set(balance.get() + 1);
        Tally(Rc::clone(balance))
    }
}

impl Drop for Tally {
    fn drop(&mut self) {
        self.0.set(self.0.get() - 1);
    }
}

#[test]
fn failed_decode_releases_each_filled_slot_exactly_once() {
    let balance = Rc::new(Cell::new(0i64));
    {
        let mut builder = FixedSeqBuilder::<Tally, 4>::new();
        // The source yields two elements, then fails: two of four slots were
        // filled when the decode is abandoned.
        builder.push(Tally::build(&balance)).unwrap();
        builder.push(Tally::build(&balance)).unwrap();
        assert_eq!(balance.get(), 2);
    }
    // Exactly the two filled slots were released, exactly once each; the two
    // never-filled slots never existed as values.
    assert_eq!(balance.get(), 0);
}

#[test]
fn overlong_decode_releases_every_element_exactly_once() {
    let balance = Rc::new(Cell::new(0i64));
    {
        let mut builder = FixedSeqBuilder::<Tally, 2>::new();
        builder.push(Tally::build(&balance)).unwrap();
        builder.push(Tally::build(&balance)).unwrap();
        // A third element is offered to a full builder: it is dropped once,
        // and the builder keeps its two slots.
        builder.push(Tally::build(&balance)).unwrap_err();
        assert_eq!(balance.get(), 2);
        let arr = builder.finish().unwrap();
        assert_eq!(arr.len(), 2);
    }
    assert_eq!(balance.get(), 0);
}

#[test]
fn from_vec_holds_the_given_elements() {
    let arr: FixedSizeArray<i16, 3> = FixedSizeArray::from_vec(vec![-1, 0, 1]);
    assert_eq!(*arr.get(0), -1);
    assert_eq!(*arr.get(1), 0);
    assert_eq!(*arr.get(2), 1);
}
