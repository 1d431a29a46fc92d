use ezraft::log_id::next_index;
use ezraft::log_id::opt_log_id_less_equal;
use ezraft::log_id::to_type;
use ezraft::log_id::LogId;
use ezraft::log_id::LogIdRange;
use ezraft::log_id::RaftLogId;

fn log_id(index: u64) -> LogId {
    LogId::new_term_index(1, index)
}

#[test]
fn test_log_id_range_validate() {
    let r = LogIdRange::new(Some(log_id(5)), None);
    assert!(r.validate().is_err(), "prev(5) > last(None)");

    let r = LogIdRange::new(Some(log_id(5)), Some(log_id(4)));
    assert!(r.validate().is_err(), "prev(5) > last(4)");
}

#[test]
fn log_id_range_valid_ranges() {
    assert!(LogIdRange::new(None, None).validate().is_ok());
    assert!(LogIdRange::new(None, Some(log_id(3))).validate().is_ok());
    assert!(LogIdRange::new(Some(log_id(3)), Some(log_id(3))).validate().is_ok());
    // A greater term with a smaller index is still greater.
    assert!(LogIdRange::new(Some(log_id(9)), Some(LogId::new_term_index(2, 1))).validate().is_ok());
}

#[test]
fn log_id_range_len() {
    assert_eq!(0, LogIdRange::new(None, None).len());
    assert_eq!(4, LogIdRange::new(None, Some(log_id(3))).len());
    assert_eq!(3, LogIdRange::new(Some(log_id(2)), Some(log_id(5))).len());
    assert_eq!(0, LogIdRange::new(Some(log_id(5)), Some(log_id(5))).len());
}

#[test]
fn next_index_of_optional_log_id() {
    assert_eq!(0, next_index::<LogId>(&None));
    assert_eq!(8, next_index(&Some(log_id(7))));
    assert_eq!(3, next_index(&Some((4u64, 2u64))));
}

#[test]
fn log_id_converts_to_pair_and_back() {
    let l = LogId::new_term_index(3, 11);
    let p: (u64, u64) = to_type(&l);
    assert_eq!((3, 11), p);
    let back: LogId = to_type(&p);
    assert_eq!(l, back);
    assert_eq!((l.leader_id, 11), l.log_id_parts());
}

#[test]
fn optional_log_id_order() {
    assert!(opt_log_id_less_equal(&None, &None));
    assert!(opt_log_id_less_equal(&None, &Some(log_id(0))));
    assert!(!opt_log_id_less_equal(&Some(log_id(0)), &None));
    assert!(opt_log_id_less_equal(&Some(log_id(4)), &Some(LogId::new_term_index(2, 0))));
    assert!(!opt_log_id_less_equal(&Some(LogId::new_term_index(2, 0)), &Some(log_id(4))));
}
