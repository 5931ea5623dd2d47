use focus_text::search::find_first;
use focus_text::ProviderError;

#[test]
fn match_is_returned_as_some() {
    let r = find_first::<u32>(Ok(42));
    assert_eq!(r, Ok(Some(42)));
}

#[test]
fn error_with_success_status_means_no_match() {
    let r = find_first::<u32>(Err(ProviderError { code: 0 }));
    assert_eq!(r, Ok(None));
}

#[test]
fn error_with_positive_status_means_no_match() {
    let r = find_first::<u32>(Err(ProviderError { code: 1 }));
    assert_eq!(r, Ok(None));
}

#[test]
fn error_with_failure_status_propagates() {
    let e = ProviderError { code: -2147024809 };
    let r = find_first::<u32>(Err(e));
    assert_eq!(r, Err(e));
}

#[test]
fn smallest_failure_status_propagates() {
    let e = ProviderError { code: -1 };
    let r = find_first::<u32>(Err(e));
    assert_eq!(r, Err(e));
}

#[test]
fn is_success_code_splits_at_zero() {
    assert!(ProviderError { code: 0 }.is_success_code());
    assert!(ProviderError { code: 7 }.is_success_code());
    assert!(!ProviderError { code: -1 }.is_success_code());
}
