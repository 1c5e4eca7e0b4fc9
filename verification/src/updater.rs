//! Whether a newer release is offered to the user, and what follows from the
//! user's answer. Finding the latest release, asking the user and replacing
//! the binary are the caller's.

use vstd::prelude::*;

verus! {

/// The error type of `self_update`. It is only told apart from success.
#[verifier::external_type_specification]
#[verifier::external_body]
pub struct ExUpdateError(self_update::errors::Error);

/// What `self_update::version::bump_is_greater` makes of two version strings:
/// whether `other` is the greater semantic version, or `None` where one of
/// the two is no semantic version.
pub uninterp spec fn bump_result(current: Seq<char>, other: Seq<char>) -> Option<bool>;

/// Calls `self_update::version::bump_is_greater`, which parses both strings
/// as semantic versions and compares them. It fails exactly when one of them
/// does not parse, and what it returns depends on the two strings alone.
#[verifier::external_body]
fn bump_is_greater(current: &str, other: &str) -> (r: Result<bool, self_update::errors::Error>)
    ensures
        match r {
            Ok(greater) => bump_result(current@, other@) == Some(greater),
            Err(_) => bump_result(current@, other@) is None,
        },
{
    self_update::version::bump_is_greater(current, other)
}

/// A version string is no semantic version.
#[derive(Copy, Clone, Debug, PartialEq, Eq, Structural)]
pub struct InvalidVersionError {}

/// How the latest release compares with the running version.
#[derive(Copy, Clone, Debug, PartialEq, Eq, Structural)]
pub enum UpdateCheck {
    /// The latest release is not newer than what runs.
    UpToDate,
    /// The latest release is newer.
    Available,
}

/// What the updater does next.
#[derive(Copy, Clone, Debug, PartialEq, Eq, Structural)]
pub enum UpdateStep {
    /// Nothing more.
    Finish,
    /// Ask the user whether to update.
    AskUser,
    /// Download the release and replace the binary.
    Install,
}

impl UpdateCheck {
    /// The check that a comparison of the two versions amounts to.
    pub open spec fn of(compared: Option<bool>) -> Result<UpdateCheck, InvalidVersionError> {
        match compared {
            None => Err(InvalidVersionError {}),
            Some(greater) => if greater {
                Ok(UpdateCheck::Available)
            } else {
                Ok(UpdateCheck::UpToDate)
            },
        }
    }

    /// An update is installed only when a newer release is out and the user
    /// has agreed; the user is asked only when a newer release is out.
    pub open spec fn step(self, answer: Option<bool>) -> UpdateStep {
        match self {
            UpdateCheck::UpToDate => UpdateStep::Finish,
            UpdateCheck::Available => match answer {
                None => UpdateStep::AskUser,
                Some(agreed) => if agreed {
                    UpdateStep::Install
                } else {
                    UpdateStep::Finish
                },
            },
        }
    }

    /// Reads a comparison of the running version with the latest release:
    /// `Some` of whether the latest is greater, `None` where a version could
    /// not be read.
    pub fn from_comparison(compared: Option<bool>) -> (r: Result<UpdateCheck, InvalidVersionError>)
        ensures
            r == UpdateCheck::of(compared),
    {
        match compared {
            None => Err(InvalidVersionError {}),
            Some(true) => Ok(UpdateCheck::Available),
            Some(false) => Ok(UpdateCheck::UpToDate),
        }
    }

    /// What to do next, given the user's answer if the user has been asked.
    pub fn next_step(&self, answer: Option<bool>) -> (step: UpdateStep)
        ensures
            step == self.step(answer),
    {
        match self {
            UpdateCheck::UpToDate => UpdateStep::Finish,
            UpdateCheck::Available => match answer {
                None => UpdateStep::AskUser,
                Some(true) => UpdateStep::Install,
                Some(false) => UpdateStep::Finish,
            },
        }
    }
}

/// Compares the running version with the latest release.
pub fn check_version(current: &str, latest: &str) -> (r: Result<UpdateCheck, InvalidVersionError>)
    ensures
        r == UpdateCheck::of(bump_result(current@, latest@)),
{
    match bump_is_greater(current, latest) {
        Ok(greater) => UpdateCheck::from_comparison(Some(greater)),
        Err(_) => UpdateCheck::from_comparison(None),
    }
}

} // verus!
