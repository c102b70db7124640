use rscreenrec::decimal::{signed_text, unsigned_text};

#[test]
fn unsigned_matches_display() {
    for n in [0u64, 7, 10, 305, 1000, 65535, u32::MAX as u64, u64::MAX] {
        assert_eq!(unsigned_text(n), n.to_string());
    }
}

#[test]
fn signed_matches_display() {
    for n in [0i64, 5, -5, -10, 1234, -98765, i32::MIN as i64, i64::MIN, i64::MAX] {
        assert_eq!(signed_text(n), n.to_string());
    }
}
