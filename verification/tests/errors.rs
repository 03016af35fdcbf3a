use neo_eink::error::report;
use neo_eink::error::NeoError;

#[test]
fn unexpected_response_has_fixed_message() {
    assert_eq!(NeoError::UnexpectedResponse.message(), "UnexpectedResponse");
}

#[test]
fn io_error_shows_its_message() {
    assert_eq!(NeoError::IoError("No such file or directory".to_string()).message(), "No such file or directory");
}

#[test]
fn suberror_shows_its_message() {
    assert_eq!(NeoError::Suberror("boom".to_string()).message(), "boom");
    assert_eq!(NeoError::Suberror(String::new()).message(), "");
}

#[test]
fn message_becomes_suberror() {
    assert_eq!(NeoError::from("Invalid Path: x".to_string()), NeoError::Suberror("Invalid Path: x".to_string()));
}

#[test]
fn report_of_success() {
    assert_eq!(report(&Ok(())), "Operation ok");
}

#[test]
fn report_of_failure_names_the_error() {
    assert_eq!(report(&Err(NeoError::UnexpectedResponse)), "Something failed UnexpectedResponse");
    assert_eq!(report(&Err(NeoError::IoError("denied".to_string()))), "Something failed denied");
    assert_eq!(report(&Err(NeoError::Suberror("späť".to_string()))), "Something failed späť");
}
