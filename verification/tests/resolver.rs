use range_responder::range::{truncate_range, PartialFileRange};

fn resolve(range: PartialFileRange, length: Option<u64>) -> Option<(u64, u64)> {
    truncate_range(&range, &length)
}

#[test]
fn from_to_inside_is_unchanged() {
    assert_eq!(resolve(PartialFileRange::FromTo(0, 499), Some(1000)), Some((0, 499)));
    assert_eq!(resolve(PartialFileRange::FromTo(10, 20), Some(21)), Some((10, 20)));
    assert_eq!(resolve(PartialFileRange::FromTo(0, 999), Some(1000)), Some((0, 999)));
}

#[test]
fn from_to_single_byte() {
    assert_eq!(resolve(PartialFileRange::FromTo(7, 7), Some(8)), Some((7, 7)));
    assert_eq!(resolve(PartialFileRange::FromTo(0, 0), Some(1)), Some((0, 0)));
}

#[test]
fn from_to_past_the_end_is_clamped() {
    assert_eq!(resolve(PartialFileRange::FromTo(500, 1000), Some(1000)), Some((500, 999)));
    assert_eq!(resolve(PartialFileRange::FromTo(999, u64::MAX), Some(1000)), Some((999, 999)));
    assert_eq!(resolve(PartialFileRange::FromTo(0, 5000), Some(1)), Some((0, 0)));
}

#[test]
fn from_to_out_of_order_is_unsatisfiable() {
    assert_eq!(resolve(PartialFileRange::FromTo(5, 4), Some(1000)), None);
    assert_eq!(resolve(PartialFileRange::FromTo(u64::MAX, 0), Some(u64::MAX)), None);
}

#[test]
fn from_to_starting_past_the_end_is_unsatisfiable() {
    assert_eq!(resolve(PartialFileRange::FromTo(1000, 1200), Some(1000)), None);
    assert_eq!(resolve(PartialFileRange::FromTo(1001, 1001), Some(1000)), None);
}

#[test]
fn last_shorter_than_the_resource() {
    assert_eq!(resolve(PartialFileRange::Last(100), Some(1000)), Some((900, 999)));
    assert_eq!(resolve(PartialFileRange::Last(1), Some(1000)), Some((999, 999)));
    assert_eq!(resolve(PartialFileRange::Last(999), Some(1000)), Some((1, 999)));
}

#[test]
fn last_at_least_the_resource_is_all_of_it() {
    assert_eq!(resolve(PartialFileRange::Last(1000), Some(1000)), Some((0, 999)));
    assert_eq!(resolve(PartialFileRange::Last(5000), Some(1000)), Some((0, 999)));
    assert_eq!(resolve(PartialFileRange::Last(u64::MAX), Some(1)), Some((0, 0)));
}

#[test]
fn last_of_no_bytes_starts_past_its_end() {
    assert_eq!(resolve(PartialFileRange::Last(0), Some(1000)), Some((1000, 999)));
}

#[test]
fn all_from_inside_runs_to_the_end() {
    assert_eq!(resolve(PartialFileRange::AllFrom(500), Some(1000)), Some((500, 999)));
    assert_eq!(resolve(PartialFileRange::AllFrom(0), Some(1000)), Some((0, 999)));
    assert_eq!(resolve(PartialFileRange::AllFrom(999), Some(1000)), Some((999, 999)));
}

#[test]
fn all_from_past_the_end_is_unsatisfiable() {
    assert_eq!(resolve(PartialFileRange::AllFrom(1000), Some(1000)), None);
    assert_eq!(resolve(PartialFileRange::AllFrom(u64::MAX), Some(1000)), None);
}

#[test]
fn unknown_length_is_unsatisfiable() {
    assert_eq!(resolve(PartialFileRange::AllFrom(0), None), None);
    assert_eq!(resolve(PartialFileRange::FromTo(0, 10), None), None);
    assert_eq!(resolve(PartialFileRange::Last(10), None), None);
}

#[test]
fn empty_resource_is_unsatisfiable() {
    assert_eq!(resolve(PartialFileRange::AllFrom(0), Some(0)), None);
    assert_eq!(resolve(PartialFileRange::FromTo(0, 0), Some(0)), None);
    assert_eq!(resolve(PartialFileRange::FromTo(0, 10), Some(0)), None);
    assert_eq!(resolve(PartialFileRange::Last(0), Some(0)), None);
    assert_eq!(resolve(PartialFileRange::Last(10), Some(0)), None);
}

#[test]
fn longest_resource() {
    let length = Some(u64::MAX);
    assert_eq!(resolve(PartialFileRange::AllFrom(0), length), Some((0, u64::MAX - 1)));
    assert_eq!(
        resolve(PartialFileRange::FromTo(1, u64::MAX), length),
        Some((1, u64::MAX - 1))
    );
    assert_eq!(resolve(PartialFileRange::Last(u64::MAX), length), Some((0, u64::MAX - 1)));
    assert_eq!(resolve(PartialFileRange::Last(u64::MAX - 1), length), Some((1, u64::MAX - 1)));
}

#[test]
fn resolving_again_gives_the_same_window() {
    let ranges = [
        PartialFileRange::AllFrom(3),
        PartialFileRange::FromTo(2, 40),
        PartialFileRange::FromTo(9, 3),
        PartialFileRange::Last(4),
    ];
    for range in ranges {
        for length in [None, Some(0), Some(5), Some(1000)] {
            assert_eq!(resolve(range, length), resolve(range, length));
        }
    }
}

#[test]
fn resolved_window_resolves_to_itself() {
    let (start, end) = resolve(PartialFileRange::Last(30), Some(100)).unwrap();
    assert_eq!((start, end), (70, 99));
    assert_eq!(resolve(PartialFileRange::FromTo(start, end), Some(100)), Some((70, 99)));
}

#[test]
fn windows_lie_inside_the_resource() {
    let ranges = [
        PartialFileRange::AllFrom(0),
        PartialFileRange::AllFrom(17),
        PartialFileRange::FromTo(3, 3),
        PartialFileRange::FromTo(3, 900),
        PartialFileRange::Last(1),
        PartialFileRange::Last(900),
    ];
    for range in ranges {
        for length in [1u64, 4, 18, 500] {
            if let Some((start, end)) = resolve(range, Some(length)) {
                assert!(start <= end);
                assert!(end < length);
            }
        }
    }
}

#[test]
fn empty_list_is_the_whole_resource() {
    assert_eq!(PartialFileRange::from(Vec::new()), PartialFileRange::AllFrom(0));
}

#[test]
fn list_is_narrowed_to_its_first_entry() {
    let list = vec![
        PartialFileRange::FromTo(1, 100),
        PartialFileRange::AllFrom(200),
        PartialFileRange::Last(7),
    ];
    assert_eq!(PartialFileRange::from(list), PartialFileRange::FromTo(1, 100));
    assert_eq!(
        PartialFileRange::from(vec![PartialFileRange::Last(7)]),
        PartialFileRange::Last(7)
    );
}
