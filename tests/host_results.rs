use webru::{require_present, require_success, HostError};

#[test]
fn present_value_is_ok() {
    assert_eq!(require_present(Some(7u8)), Ok(7));
}

#[test]
fn missing_value_is_host_unavailable() {
    assert_eq!(require_present::<u8>(None), Err(HostError::HostUnavailable));
}

#[test]
fn successful_outcome_passes_through() {
    let outcome: Result<String, i32> = Ok(String::from("http://127.0.0.1:8000/"));
    assert_eq!(require_success(outcome), Ok(String::from("http://127.0.0.1:8000/")));
}

#[test]
fn failed_outcome_is_host_unavailable() {
    let outcome: Result<String, i32> = Err(-1);
    assert_eq!(require_success(outcome), Err(HostError::HostUnavailable));
}

#[test]
fn dismissed_prompt_is_not_a_failure() {
    let outcome: Result<Option<String>, ()> = Ok(None);
    assert_eq!(require_success(outcome), Ok(None));
}
