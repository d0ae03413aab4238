use gamersbot::exchange::{Reply, Request};
use gamersbot::loaderror::LoadError;
use gamersbot::size::{conclude, exceeds, mbyte_to_byte, whole_megabytes, MAX_MEGABYTES};

#[test]
fn eight_megabytes_are_eight_million_bytes() {
    assert_eq!(mbyte_to_byte(8), 8_000_000);
}

#[test]
fn no_megabytes_are_no_bytes() {
    assert_eq!(mbyte_to_byte(0), 0);
}

#[test]
fn the_largest_budget_fits() {
    assert_eq!(mbyte_to_byte(MAX_MEGABYTES), 18_446_744_073_709_000_000);
}

#[test]
fn a_megabyte_is_not_a_mebibyte() {
    assert_ne!(mbyte_to_byte(1), 1_048_576);
    assert_eq!(mbyte_to_byte(1), 1_000_000);
}

#[test]
fn a_size_at_the_budget_is_within_it() {
    assert!(!exceeds(8_000_000, 8));
    assert!(!exceeds(0, 8));
}

#[test]
fn one_byte_more_is_over_the_budget() {
    assert!(exceeds(8_000_001, 8));
    assert!(exceeds(1, 0));
}

#[test]
fn whole_megabytes_round_down() {
    assert_eq!(whole_megabytes(8_999_999), 8);
    assert_eq!(whole_megabytes(999_999), 0);
    assert_eq!(whole_megabytes(u64::MAX), MAX_MEGABYTES);
}

#[test]
fn a_budget_beyond_what_bytes_can_count_is_never_exceeded() {
    assert!(!exceeds(u64::MAX, MAX_MEGABYTES + 1));
    assert!(!exceeds(u64::MAX, u64::MAX));
    assert!(exceeds(u64::MAX, MAX_MEGABYTES));
}

#[test]
fn conclude_delivers_a_file_within_the_budget() {
    assert_eq!(
        conclude("a.mp4".to_string(), vec!["v".to_string()], 8, Reply::Size(8_000_000)),
        Request::Deliver {
            file_name: "a.mp4".to_string(),
            size_bytes: 8_000_000,
            discard: vec!["v".to_string()],
        }
    );
}

#[test]
fn conclude_rejects_a_file_over_the_budget_and_discards_it() {
    assert_eq!(
        conclude("a.mp4".to_string(), vec!["v".to_string()], 8, Reply::Size(8_000_001)),
        Request::Fail {
            error: LoadError::Rejected(
                "The File is 8MB large, limit is 8MB so i cant post it".to_string()
            ),
            discard: vec!["v".to_string(), "a.mp4".to_string()],
        }
    );
}

#[test]
fn conclude_fails_where_no_size_is_reported() {
    assert_eq!(
        conclude("a.mp4".to_string(), vec![], 8, Reply::Stored),
        Request::Fail {
            error: LoadError::Error("The reply does not answer the request".to_string()),
            discard: vec!["a.mp4".to_string()],
        }
    );
}
