use zip::producer::{drain, Producer};
use zip::sources::{Span, Tally};
use zip::{Zip2, Zip3, Zip4, Zip5};

fn probe(len: usize) -> Tally<Span> {
    Tally::new(Span::new(0, len))
}

/// What is expected of the pull counts after one pull on a zipper whose producer
/// at `empty` is the first that has ended.
fn expected_pulls(arity: usize, empty: usize) -> Vec<usize> {
    (0..arity).map(|i| if i <= empty { 1 } else { 0 }).collect()
}

#[test]
fn zip2_pulls_nothing_behind_the_first_ended() {
    for empty in 0..2 {
        let len = |i: usize| if i == empty { 0 } else { 3 };
        let mut z = Zip2(probe(len(0)), probe(len(1)));
        assert_eq!(z.next(), None);
        assert_eq!(vec![z.0.pulls, z.1.pulls], expected_pulls(2, empty));
    }
}

#[test]
fn zip3_pulls_nothing_behind_the_first_ended() {
    for empty in 0..3 {
        let len = |i: usize| if i == empty { 0 } else { 3 };
        let mut z = Zip3(probe(len(0)), probe(len(1)), probe(len(2)));
        assert_eq!(z.next(), None);
        assert_eq!(vec![z.0.pulls, z.1.pulls, z.2.pulls], expected_pulls(3, empty));
    }
}

#[test]
fn zip4_pulls_nothing_behind_the_first_ended() {
    for empty in 0..4 {
        let len = |i: usize| if i == empty { 0 } else { 3 };
        let mut z = Zip4(probe(len(0)), probe(len(1)), probe(len(2)), probe(len(3)));
        assert_eq!(z.next(), None);
        assert_eq!(vec![z.0.pulls, z.1.pulls, z.2.pulls, z.3.pulls], expected_pulls(4, empty));
    }
}

#[test]
fn zip5_with_one_empty_producer_yields_nothing() {
    for empty in 0..5 {
        let len = |i: usize| if i == empty { 0 } else { 3 };
        let mut z = Zip5(probe(len(0)), probe(len(1)), probe(len(2)), probe(len(3)), probe(len(4)));
        let got = drain(&mut z);
        assert_eq!(got.len(), 0);
        assert_eq!(
            vec![z.0.pulls, z.1.pulls, z.2.pulls, z.3.pulls, z.4.pulls],
            expected_pulls(5, empty)
        );
        // the producers behind the empty one have lost nothing
        let behind = [z.0.inner.from, z.1.inner.from, z.2.inner.from, z.3.inner.from, z.4.inner.from];
        for i in (empty + 1)..5 {
            assert_eq!(behind[i], 0);
        }
        for i in 0..empty {
            assert_eq!(behind[i], 1);
        }
    }
}

#[test]
fn first_of_two_ended_producers_stops_the_pull() {
    let mut z = Zip5(probe(2), probe(0), probe(2), probe(0), probe(2));
    assert_eq!(z.next(), None);
    assert_eq!(
        vec![z.0.pulls, z.1.pulls, z.2.pulls, z.3.pulls, z.4.pulls],
        vec![1, 1, 0, 0, 0]
    );
}

#[test]
fn every_producer_is_pulled_once_per_tuple() {
    let mut z = Zip4(probe(2), probe(5), probe(3), probe(4));
    assert_eq!(z.next(), Some((0, 0, 0, 0)));
    assert_eq!(z.next(), Some((1, 1, 1, 1)));
    assert_eq!(vec![z.0.pulls, z.1.pulls, z.2.pulls, z.3.pulls], vec![2, 2, 2, 2]);
    assert_eq!(z.next(), None);
    assert_eq!(vec![z.0.pulls, z.1.pulls, z.2.pulls, z.3.pulls], vec![3, 2, 2, 2]);
}

#[test]
fn size_hint_pulls_nothing() {
    let z = Zip3(probe(2), probe(5), probe(3));
    assert_eq!(z.size_hint(), (2, None));
    assert_eq!(vec![z.0.pulls, z.1.pulls, z.2.pulls], vec![0, 0, 0]);
}
