use scop::status::Status;
use std::convert::TryFrom;

#[test]
fn test_try_from_string() {
    let status = Status::try_from("ToDO".to_string()).unwrap();
    assert_eq!(status, Status::ToDo);

    let status = Status::try_from("inproGress".to_string()).unwrap();
    assert_eq!(status, Status::InProgress);

    let status = Status::try_from("Done".to_string()).unwrap();
    assert_eq!(status, Status::Done);

    let empty = String::new();
    assert!(Status::try_from(empty).is_err());

    let invalid = "InValid".to_string();
    assert!(Status::try_from(invalid).is_err());
}

#[test]
fn test_try_from_str() {
    let status = Status::try_from("todo").unwrap();
    assert_eq!(status, Status::ToDo);

    let status = Status::try_from("inprogress").unwrap();
    assert_eq!(status, Status::InProgress);

    let status = Status::try_from("done").unwrap();
    assert_eq!(status, Status::Done);

    assert!(Status::try_from("").is_err());
    assert!(Status::try_from("invalid").is_err());
}

#[test]
fn from_lowercase_takes_only_lowercase_names() {
    assert_eq!(Status::from_lowercase("todo"), Ok(Status::ToDo));
    assert_eq!(Status::from_lowercase("inprogress"), Ok(Status::InProgress));
    assert_eq!(Status::from_lowercase("done"), Ok(Status::Done));
    assert_eq!(Status::from_lowercase("ToDo"), Err(()));
    assert_eq!(Status::from_lowercase("todo "), Err(()));
    assert_eq!(Status::from_lowercase("in progress"), Err(()));
}

#[test]
fn try_from_lowercases_whole_text() {
    assert_eq!(Status::try_from("DONE"), Ok(Status::Done));
    assert_eq!(Status::try_from("INPROGRESS".to_string()), Ok(Status::InProgress));
    assert_eq!(Status::try_from("TODO".to_string()), Status::try_from("todo"));
    assert!(Status::try_from(" done").is_err());
}
