use voice_bot::presence::{channels_to_check, should_disconnect};

#[test]
fn leaves_when_alone_in_voice() {
    assert!(should_disconnect(true, &[10], 10));
}

#[test]
fn stays_with_company_or_outside_voice() {
    assert!(!should_disconnect(true, &[10, 11], 10));
    assert!(!should_disconnect(true, &[11], 10));
    assert!(!should_disconnect(true, &[], 10));
    assert!(!should_disconnect(false, &[10], 10));
}

#[test]
fn channels_after_update() {
    assert_eq!(channels_to_check(Some(Some(1)), Some(2)), vec![1, 2]);
    assert_eq!(channels_to_check(Some(None), Some(2)), vec![2]);
    assert_eq!(channels_to_check(None, Some(2)), vec![2]);
    assert_eq!(channels_to_check(Some(Some(1)), None), vec![1]);
    assert_eq!(channels_to_check(None, None), Vec::<u64>::new());
}
