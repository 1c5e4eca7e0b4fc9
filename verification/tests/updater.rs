use spe::updater::{check_version, InvalidVersionError, UpdateCheck, UpdateStep};

#[test]
fn newer_release_is_available() {
    assert_eq!(check_version("0.1.0", "0.2.0"), Ok(UpdateCheck::Available));
    assert_eq!(check_version("0.1.0", "0.1.1"), Ok(UpdateCheck::Available));
    assert_eq!(check_version("0.9.9", "1.0.0"), Ok(UpdateCheck::Available));
    assert_eq!(check_version("1.0.0-alpha", "1.0.0"), Ok(UpdateCheck::Available));
    assert_eq!(check_version("1.9.0", "1.10.0"), Ok(UpdateCheck::Available));
}

#[test]
fn same_or_older_release_is_up_to_date() {
    assert_eq!(check_version("0.1.0", "0.1.0"), Ok(UpdateCheck::UpToDate));
    assert_eq!(check_version("0.2.0", "0.1.0"), Ok(UpdateCheck::UpToDate));
    assert_eq!(check_version("1.0.0", "1.0.0-alpha"), Ok(UpdateCheck::UpToDate));
    assert_eq!(check_version("1.10.0", "1.9.0"), Ok(UpdateCheck::UpToDate));
}

#[test]
fn unreadable_version_is_an_error() {
    assert_eq!(check_version("0.1.0", "latest"), Err(InvalidVersionError {}));
    assert_eq!(check_version("", "0.1.0"), Err(InvalidVersionError {}));
    assert_eq!(check_version("0.1", "0.2"), Err(InvalidVersionError {}));
}

#[test]
fn comparison_decides_the_check() {
    assert_eq!(UpdateCheck::from_comparison(Some(true)), Ok(UpdateCheck::Available));
    assert_eq!(UpdateCheck::from_comparison(Some(false)), Ok(UpdateCheck::UpToDate));
    assert_eq!(UpdateCheck::from_comparison(None), Err(InvalidVersionError {}));
}

#[test]
fn update_is_installed_only_when_available_and_agreed() {
    assert_eq!(UpdateCheck::UpToDate.next_step(None), UpdateStep::Finish);
    assert_eq!(UpdateCheck::UpToDate.next_step(Some(true)), UpdateStep::Finish);
    assert_eq!(UpdateCheck::UpToDate.next_step(Some(false)), UpdateStep::Finish);
    assert_eq!(UpdateCheck::Available.next_step(None), UpdateStep::AskUser);
    assert_eq!(UpdateCheck::Available.next_step(Some(true)), UpdateStep::Install);
    assert_eq!(UpdateCheck::Available.next_step(Some(false)), UpdateStep::Finish);
}
