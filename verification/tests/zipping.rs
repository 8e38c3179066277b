use zip::producer::{drain, Producer};
use zip::sources::{Items, Repeat, Span};
use zip::{Zip2, Zip3, Zip4, Zip5};

#[test]
fn pairs_of_unequal_lengths_stop_at_the_shorter() {
    let xs = [1, 2, 3];
    let ys = [10, 20];
    let mut z = Zip2(Items::new(&xs), Items::new(&ys));
    let got: Vec<(i32, i32)> = drain(&mut z).into_iter().map(|(a, b)| (*a, *b)).collect();
    assert_eq!(got, vec![(1, 10), (2, 20)]);
    assert_eq!(got.len(), 2);
}

#[test]
fn pairs_are_yielded_one_per_pull() {
    let xs = [1, 2, 3];
    let ys = [10, 20];
    let mut z = Zip2(Items::new(&xs), Items::new(&ys));
    assert_eq!(z.next(), Some((&1, &10)));
    assert_eq!(z.next(), Some((&2, &20)));
    assert_eq!(z.next(), None);
}

#[test]
fn element_pulled_before_the_ended_producer_is_lost() {
    let xs = [1, 2, 3];
    let ys = [10, 20];
    let mut z = Zip2(Items::new(&xs), Items::new(&ys));
    let got = drain(&mut z);
    assert_eq!(got.len(), 2);
    // the third pull took 3 from the first producer before the second was found ended
    assert_eq!(z.0.pos, 3);
    assert_eq!(z.1.pos, 2);
    assert_eq!(z.0.next(), None);
}

#[test]
fn triples_of_equal_lengths() {
    let chars = ['a', 'b', 'c'];
    let nums = [0, 1, 2];
    let mut z = Zip3(Items::new(&chars), Span::new(0, 3), Items::new(&nums));
    let got: Vec<(char, usize, i32)> =
        drain(&mut z).into_iter().map(|(c, i, j)| (*c, i, *j)).collect();
    assert_eq!(got, vec![('a', 0, 0), ('b', 1, 1), ('c', 2, 2)]);
    assert_eq!(got.len(), 3);
}

#[test]
fn triples_with_a_longer_run_in_the_middle() {
    let chars = ['a', 'b', 'c'];
    let v = vec![0usize, 1, 2];
    let mut z = Zip3(Items::new(&chars), Span::new(0, 5), Items::new(&v));
    let mut count = 0;
    while let Some((_, i, j)) = z.next() {
        assert!(i < 3);
        assert_eq!(i, *j);
        count += 1;
    }
    assert_eq!(count, 3);
}

#[test]
fn four_tuples_keep_the_order_of_the_positions() {
    let a = [1u8, 2];
    let b = ["x", "y", "z"];
    let mut z = Zip4(Items::new(&a), Items::new(&b), Span::new(7, 100), Repeat(true));
    assert_eq!(z.next(), Some((&1u8, &"x", 7usize, true)));
    assert_eq!(z.next(), Some((&2u8, &"y", 8usize, true)));
    assert_eq!(z.next(), None);
}

#[test]
fn five_tuples_keep_the_order_of_the_positions() {
    let a = [1u8, 2, 3];
    let b = ['p', 'q', 'r'];
    let c = [-1i64, -2];
    let mut z = Zip5(
        Items::new(&a),
        Items::new(&b),
        Items::new(&c),
        Span::new(40, 50),
        Repeat(0.5f32),
    );
    assert_eq!(z.next(), Some((&1u8, &'p', &-1i64, 40usize, 0.5f32)));
    assert_eq!(z.next(), Some((&2u8, &'q', &-2i64, 41usize, 0.5f32)));
    assert_eq!(z.next(), None);
}

#[test]
fn drain_count_is_the_least_length() {
    for n0 in 0..5usize {
        for n1 in 0..5usize {
            let mut z2 = Zip2(Span::new(0, n0), Span::new(10, 10 + n1));
            assert_eq!(drain(&mut z2).len(), n0.min(n1));
            for n2 in 0..5usize {
                let mut z3 = Zip3(Span::new(0, n0), Span::new(0, n1), Span::new(0, n2));
                assert_eq!(drain(&mut z3).len(), n0.min(n1).min(n2));
                let mut z4 =
                    Zip4(Span::new(0, n0), Span::new(0, n1), Span::new(0, n2), Span::new(0, 3));
                assert_eq!(drain(&mut z4).len(), n0.min(n1).min(n2).min(3));
                let mut z5 = Zip5(
                    Span::new(0, n0),
                    Span::new(0, n1),
                    Span::new(0, 4),
                    Span::new(0, n2),
                    Repeat('x'),
                );
                assert_eq!(drain(&mut z5).len(), n0.min(n1).min(n2).min(4));
            }
        }
    }
}

#[test]
fn endless_producer_zipped_with_one_that_ends() {
    let mut z = Zip2(Repeat(7u8), Span::new(10, 13));
    assert_eq!(z.size_hint(), (3, None));
    assert_eq!(drain(&mut z), vec![(7, 10), (7, 11), (7, 12)]);
}

#[test]
fn nested_pairs_hold_the_elements_of_a_flat_triple() {
    let p1 = [1, 2, 3];
    let p2 = ['a', 'b', 'c', 'd'];
    let mut nested = Zip2(Zip2(Items::new(&p1), Items::new(&p2)), Span::new(5, 9));
    let mut flat = Zip3(Items::new(&p1), Items::new(&p2), Span::new(5, 9));
    let nested_got: Vec<((&i32, &char), usize)> = drain(&mut nested);
    let flat_got: Vec<(&i32, &char, usize)> = drain(&mut flat);
    assert_eq!(nested_got.len(), 3);
    assert_eq!(flat_got.len(), 3);
    // the shapes differ: a pair inside a pair on one side, a flat triple on the other
    assert_eq!(nested_got[0], ((&1, &'a'), 5));
    assert_eq!(flat_got[0], (&1, &'a', 5));
    for i in 0..3 {
        let ((a, b), c) = nested_got[i];
        assert_eq!((a, b, c), flat_got[i]);
    }
}

#[test]
fn nested_zipper_reports_the_least_lower_bound() {
    let p1 = [1, 2, 3];
    let z = Zip2(Zip3(Items::new(&p1), Span::new(0, 9), Repeat(())), Span::new(0, 2));
    assert_eq!(z.size_hint(), (2, None));
}
