use snake::position::Position;
use snake::tail::Tail;

fn at(x: i32, y: i32) -> Position {
    Position::new(x, y)
}

#[test]
fn new_tail_is_empty() {
    let tail = Tail::new(3);
    assert_eq!(tail.len(), 3);
    assert_eq!(tail.iter(), vec![]);
    assert!(!tail.contains(at(0, 0)));
}

#[test]
fn push_appends_until_full() {
    let mut tail = Tail::new(3);
    tail.push(at(1, 1));
    assert_eq!(tail.iter(), vec![at(1, 1)]);
    tail.push(at(2, 1));
    assert_eq!(tail.iter(), vec![at(1, 1), at(2, 1)]);
    tail.push(at(3, 1));
    assert_eq!(tail.iter(), vec![at(1, 1), at(2, 1), at(3, 1)]);
}

#[test]
fn push_beyond_length_evicts_the_oldest() {
    let mut tail = Tail::new(3);
    for x in 1..=5 {
        tail.push(at(x, 0));
    }
    assert_eq!(tail.iter(), vec![at(3, 0), at(4, 0), at(5, 0)]);
    assert!(!tail.contains(at(1, 0)));
    assert!(!tail.contains(at(2, 0)));
    assert!(tail.contains(at(3, 0)));
}

#[test]
fn size_never_exceeds_length() {
    for length in 0usize..6 {
        let mut tail = Tail::new(length);
        for n in 0..20 {
            tail.push(at(n, n));
            assert!(tail.iter().len() <= tail.len());
        }
    }
}

#[test]
fn tail_holds_the_most_recent_pushes_in_order() {
    for length in 0usize..6 {
        let mut tail = Tail::new(length);
        let mut pushed = Vec::new();
        for n in 0..12 {
            tail.push(at(n, 2 * n));
            pushed.push(at(n, 2 * n));
            let keep = length.min(pushed.len());
            assert_eq!(tail.iter(), pushed[pushed.len() - keep..].to_vec());
        }
    }
}

#[test]
fn tail_of_length_zero_stays_empty() {
    let mut tail = Tail::new(0);
    tail.push(at(4, 4));
    tail.push(at(5, 4));
    assert_eq!(tail.iter(), vec![]);
    assert_eq!(tail.len(), 0);
    assert!(!tail.contains(at(4, 4)));
}

#[test]
fn inc_length_adds_exactly_one() {
    let mut tail = Tail::new(2);
    tail.inc_length();
    assert_eq!(tail.len(), 3);
    tail.inc_length();
    assert_eq!(tail.len(), 4);
}

#[test]
fn inc_length_keeps_the_cells() {
    let mut tail = Tail::new(2);
    tail.push(at(1, 0));
    tail.push(at(2, 0));
    tail.inc_length();
    assert_eq!(tail.iter(), vec![at(1, 0), at(2, 0)]);
}

#[test]
fn len_is_the_target_not_the_count() {
    let mut tail = Tail::new(1);
    tail.push(at(1, 0));
    tail.inc_length();
    tail.inc_length();
    assert_eq!(tail.len(), 3);
    assert_eq!(tail.iter().len(), 1);
}

#[test]
fn growth_never_evicts_before_the_new_bound() {
    let mut tail = Tail::new(2);
    tail.push(at(1, 0));
    tail.push(at(2, 0));
    tail.inc_length();
    tail.push(at(3, 0));
    assert_eq!(tail.iter(), vec![at(1, 0), at(2, 0), at(3, 0)]);
    tail.push(at(4, 0));
    assert_eq!(tail.iter(), vec![at(2, 0), at(3, 0), at(4, 0)]);
}

#[test]
fn repeated_growth_fills_up_without_eviction() {
    let mut tail = Tail::new(0);
    let mut expected = Vec::new();
    for n in 0..10 {
        tail.inc_length();
        tail.push(at(n, 7));
        expected.push(at(n, 7));
        assert_eq!(tail.iter(), expected);
    }
}

#[test]
fn contains_compares_both_coordinates() {
    let mut tail = Tail::new(2);
    tail.push(at(10, 10));
    assert!(tail.contains(at(10, 10)));
    assert!(!tail.contains(at(10, 11)));
    assert!(!tail.contains(at(11, 10)));
}

#[test]
fn clone_is_equal() {
    let mut tail = Tail::new(3);
    tail.push(at(1, 2));
    tail.push(at(3, 4));
    let copy = tail.clone();
    assert_eq!(copy, tail);
    assert_eq!(copy.iter(), vec![at(1, 2), at(3, 4)]);
    assert_eq!(copy.len(), 3);
}
