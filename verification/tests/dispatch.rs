use certval::dispatch::{
    gather_successful_items, select_any_success, select_any_true, select_first_determined,
    select_first_some, select_first_success, select_first_success_or_last_failure,
};
use certval::{Error, PathValidationStatus, Result};

#[test]
fn first_success_picks_earliest_success() {
    let answers: Vec<Result<u32>> = vec![Err(Error::Misc), Ok(4), Err(Error::ParseError), Ok(5)];
    assert_eq!(select_first_success(answers, Error::Unrecognized), Ok(4));
}

#[test]
fn first_success_falls_back_when_none_succeeds() {
    let answers: Vec<Result<u32>> = vec![Err(Error::Misc), Err(Error::ParseError)];
    assert_eq!(select_first_success(answers, Error::Unrecognized), Err(Error::Unrecognized));
    let none: Vec<Result<u32>> = vec![];
    assert_eq!(select_first_success(none, Error::NotFound), Err(Error::NotFound));
}

#[test]
fn validation_verdict_prefers_success_then_last_failure() {
    let ok: Vec<Result<()>> = vec![Err(Error::Misc), Ok(()), Err(Error::ParseError)];
    assert_eq!(select_first_success_or_last_failure(ok, Error::Unrecognized), Ok(()));
    let failures: Vec<Result<()>> = vec![Err(Error::Misc), Err(Error::LengthError), Err(Error::ParseError)];
    assert_eq!(
        select_first_success_or_last_failure(failures, Error::Unrecognized),
        Err(Error::ParseError)
    );
    let single: Vec<Result<()>> = vec![Err(Error::LengthError)];
    assert_eq!(select_first_success_or_last_failure(single, Error::Unrecognized), Err(Error::LengthError));
    let none: Vec<Result<()>> = vec![];
    assert_eq!(select_first_success_or_last_failure(none, Error::Unrecognized), Err(Error::Unrecognized));
}

#[test]
fn any_success_reports_not_found_only_when_all_fail() {
    assert_eq!(select_any_success::<()>(&vec![Err(Error::Misc), Ok(()), Err(Error::Misc)]), Ok(()));
    assert_eq!(select_any_success::<()>(&vec![Err(Error::Misc), Err(Error::ParseError)]), Err(Error::NotFound));
    assert_eq!(select_any_success::<()>(&vec![]), Err(Error::NotFound));
}

#[test]
fn gather_keeps_items_of_successes_in_order() {
    let answers: Vec<Result<Vec<u8>>> = vec![Ok(vec![1, 2]), Err(Error::Misc), Ok(vec![]), Ok(vec![3])];
    assert_eq!(gather_successful_items(answers), Ok(vec![1, 2, 3]));
    let empty: Vec<Result<Vec<u8>>> = vec![Ok(vec![]), Err(Error::Misc)];
    assert_eq!(gather_successful_items(empty), Err(Error::NotFound));
    let none: Vec<Result<Vec<u8>>> = vec![];
    assert_eq!(gather_successful_items(none), Err(Error::NotFound));
}

#[test]
fn first_determined_skips_undetermined_statuses() {
    assert_eq!(
        select_first_determined(&vec![PathValidationStatus::RevocationStatusNotDetermined, PathValidationStatus::CertificateRevoked, PathValidationStatus::Valid]),
        PathValidationStatus::CertificateRevoked
    );
    assert_eq!(
        select_first_determined(&vec![PathValidationStatus::RevocationStatusNotDetermined, PathValidationStatus::RevocationStatusNotDetermined]),
        PathValidationStatus::RevocationStatusNotDetermined
    );
    assert_eq!(select_first_determined(&vec![]), PathValidationStatus::RevocationStatusNotDetermined);
}

#[test]
fn first_some_and_any_true() {
    assert_eq!(select_first_some(vec![None, Some(2), Some(3)]), Some(2));
    assert_eq!(select_first_some::<u8>(vec![None, None]), None);
    assert!(select_any_true(&vec![false, true, false]));
    assert!(!select_any_true(&vec![false, false]));
    assert!(!select_any_true(&vec![]));
}

#[test]
fn later_answers_do_not_change_a_decided_verdict() {
    let decided: Vec<Result<u32>> = vec![Err(Error::Misc), Ok(1)];
    let extended: Vec<Result<u32>> = vec![Err(Error::Misc), Ok(1), Ok(2), Err(Error::ParseError)];
    assert_eq!(
        select_first_success(decided, Error::Unrecognized),
        select_first_success(extended, Error::Unrecognized)
    );
    assert_eq!(
        select_first_determined(&vec![PathValidationStatus::Valid]),
        select_first_determined(&vec![PathValidationStatus::Valid, PathValidationStatus::CertificateRevoked])
    );
    assert_eq!(select_first_some(vec![Some(1)]), select_first_some(vec![Some(1), Some(2), None]));
}

#[test]
fn gathering_two_runs_concatenates_their_items() {
    let first: Vec<Result<Vec<u8>>> = vec![Ok(vec![1]), Err(Error::Misc)];
    let second: Vec<Result<Vec<u8>>> = vec![Ok(vec![2, 3])];
    let both: Vec<Result<Vec<u8>>> = vec![Ok(vec![1]), Err(Error::Misc), Ok(vec![2, 3])];
    let mut joined = gather_successful_items(first).unwrap();
    joined.extend(gather_successful_items(second).unwrap());
    assert_eq!(gather_successful_items(both), Ok(joined));
}
