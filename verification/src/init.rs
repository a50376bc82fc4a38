//! Opening the database: find its path, open it, prepare it.

use vstd::prelude::*;

use crate::location::{get_db_path, path_start, PathStep};
use crate::setup::{init_step, prepare_db, SetupStep};

verus! {

pub const ANNOUNCEMENT: &'static str = "Using database at: ";

/// How opening the database goes on.
pub enum InitStep<P> {
    /// Carry out the steps until [`PathStep::Finished`], and hand the outcome to [`located`].
    Locate(PathStep<P>),
    /// Print [`OpenDue::announcement`], open the database, and say how it went to
    /// [`OpenDue::reply`].
    Open(OpenDue<P>),
    /// There is no path to open, for this reason.
    Failed(String),
}

pub struct OpenDue<P> {
    pub path: P,
}

impl<P> OpenDue<P> {
    /// What is printed before the database is opened, where `shown` is the path as text.
    pub fn announcement(&self, shown: &str) -> (text: String)
        ensures
            text@ == ANNOUNCEMENT@ + shown@,
    {
        let mut text = ANNOUNCEMENT.to_owned();
        text.append(shown);
        text
    }

    /// Goes on once it has been tried to open the database: an open one is handed back with
    /// the first step of preparing it, and an error ends it.
    pub fn reply<C, E>(self, opened: Result<C, E>) -> (step: Result<(C, SetupStep), E>)
        ensures
            step == match opened {
                Ok(open) => Ok::<(C, SetupStep), E>((open, init_step())),
                Err(error) => Err(error),
            },
    {
        match opened {
            Ok(open) => Ok((open, prepare_db())),
            Err(error) => Err(error),
        }
    }
}

/// Goes on with the path that was found, or with why there is none.
pub fn located<P>(outcome: Result<P, String>) -> (step: InitStep<P>)
    ensures
        step == match outcome {
            Ok(path) => InitStep::Open(OpenDue { path }),
            Err(reason) => InitStep::Failed(reason),
        },
{
    match outcome {
        Ok(path) => InitStep::Open(OpenDue { path }),
        Err(reason) => InitStep::Failed(reason),
    }
}

/// Opens the database, at `custom_path` if one is given.
pub fn init_db<P>(custom_path: Option<P>) -> (step: InitStep<P>)
    ensures
        step matches InitStep::Locate(first) && first@ == path_start(custom_path),
{
    InitStep::Locate(get_db_path(custom_path))
}

} // verus!
