use xcop::io::{seems_to_be_same, FileStamp, Likeness, Timestamp};

fn stamp(size: u64, seconds: u64, nanoseconds: u32) -> FileStamp {
    FileStamp { size, modified: Timestamp { seconds, nanoseconds, before_epoch: false } }
}

#[test]
fn absent_destination_is_reported() {
    assert_eq!(seems_to_be_same(&stamp(10, 100, 0), &None), Likeness::Absent);
    assert_eq!(seems_to_be_same(&stamp(0, 0, 0), &None), Likeness::Absent);
}

#[test]
fn same_size_and_time_is_same() {
    assert_eq!(seems_to_be_same(&stamp(10, 100, 7), &Some(stamp(10, 100, 7))), Likeness::Same);
    assert_eq!(seems_to_be_same(&stamp(0, 0, 0), &Some(stamp(0, 0, 0))), Likeness::Same);
}

#[test]
fn other_size_is_unsettled() {
    assert_eq!(
        seems_to_be_same(&stamp(10, 100, 7), &Some(stamp(11, 100, 7))),
        Likeness::Unsettled
    );
}

#[test]
fn other_second_is_unsettled() {
    assert_eq!(
        seems_to_be_same(&stamp(10, 100, 7), &Some(stamp(10, 101, 7))),
        Likeness::Unsettled
    );
}

#[test]
fn other_nanosecond_is_unsettled() {
    assert_eq!(
        seems_to_be_same(&stamp(10, 100, 7), &Some(stamp(10, 100, 8))),
        Likeness::Unsettled
    );
}

#[test]
fn other_side_of_the_epoch_is_unsettled() {
    let after = stamp(10, 100, 7);
    let before = FileStamp {
        size: 10,
        modified: Timestamp { seconds: 100, nanoseconds: 7, before_epoch: true },
    };
    assert_eq!(seems_to_be_same(&after, &Some(before)), Likeness::Unsettled);
    assert_eq!(seems_to_be_same(&before, &Some(before)), Likeness::Same);
}
