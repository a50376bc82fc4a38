//! Where the database file is.
//!
//! A path given on the command line comes first, then the directory that an environment
//! variable names, then the directory for application data. Paths are of a type `P` that
//! is only passed along: whoever runs the steps takes them apart and puts them together.

use vstd::prelude::*;

verus! {

pub const DATA_DIR_VARIABLE: &'static str = "BB_DATA_DIR";

/// The name of the file within a directory.
pub const DATABASE_FILE: &'static str = "database.db";

pub const QUALIFIER: &'static str = "com";

pub const ORGANIZATION: &'static str = "mateoradman";

pub const APPLICATION: &'static str = "bazarr-bulk";

pub const NO_DIRECTORY: &'static str = "Failed to create database directory: ";

pub const NO_DEFAULT: &'static str = "Failed to obtain a default database path";

/// How finding the path goes on.
pub enum PathStep<P> {
    /// Hand the parent directory of [`ParentAsked::path`], if any, to [`ParentAsked::reply`].
    FindParent(ParentAsked<P>),
    /// Create [`DirAsked::dir`] with all directories above it, and say how it went to
    /// [`DirAsked::reply`].
    CreateDir(DirAsked<P>),
    /// Hand the value of [`VariableAsked::name`], if it has one, to [`VariableAsked::reply`].
    ReadVariable(VariableAsked),
    /// Append [`JoinAsked::file`] to [`JoinAsked::dir`], and hand the path to
    /// [`JoinAsked::reply`].
    JoinFile(JoinAsked<P>),
    /// Hand the local data directory of the application that [`DataDirAsked::project`] names,
    /// if any, to [`DataDirAsked::reply`].
    FindDataDir(DataDirAsked),
    /// The path, or why there is none.
    Finished(Result<P, String>),
}

/// A [`PathStep`], with a message taken as a sequence of characters.
pub enum PathPoint<P> {
    FindParent(ParentAsked<P>),
    CreateDir(DirAsked<P>),
    ReadVariable,
    JoinFile(JoinAsked<P>),
    FindDataDir,
    Finished(Result<P, Seq<char>>),
}

impl<P> View for PathStep<P> {
    type V = PathPoint<P>;

    open spec fn view(&self) -> PathPoint<P> {
        match self {
            PathStep::FindParent(asked) => PathPoint::FindParent(*asked),
            PathStep::CreateDir(asked) => PathPoint::CreateDir(*asked),
            PathStep::ReadVariable(_) => PathPoint::ReadVariable,
            PathStep::JoinFile(asked) => PathPoint::JoinFile(*asked),
            PathStep::FindDataDir(_) => PathPoint::FindDataDir,
            PathStep::Finished(Ok(path)) => PathPoint::Finished(Ok(*path)),
            PathStep::Finished(Err(message)) => PathPoint::Finished(Err(message@)),
        }
    }
}

/// The path of the database is known; its directory has to be there.
pub struct ParentAsked<P> {
    pub path: P,
}

/// What a directory is created for.
pub enum Purpose<P> {
    /// To hold the database at this path.
    ParentOf(P),
    /// It is the default directory.
    Default,
}

pub struct DirAsked<P> {
    pub dir: P,
    pub purpose: Purpose<P>,
}

pub struct VariableAsked {}

pub struct JoinAsked<P> {
    pub dir: P,
    /// Whether the directory has been created.
    pub created: bool,
}

pub struct DataDirAsked {}

impl<P> ParentAsked<P> {
    /// How it goes on: a path without a parent needs no directory.
    pub open spec fn next(self, parent: Option<P>) -> PathPoint<P> {
        match parent {
            Some(dir) => PathPoint::CreateDir(
                DirAsked { dir, purpose: Purpose::ParentOf(self.path) },
            ),
            None => PathPoint::Finished(Ok(self.path)),
        }
    }

    /// Goes on with the parent directory of the path.
    pub fn reply(self, parent: Option<P>) -> (step: PathStep<P>)
        ensures
            step@ == self.next(parent),
    {
        match parent {
            Some(dir) => PathStep::CreateDir(
                DirAsked { dir, purpose: Purpose::ParentOf(self.path) },
            ),
            None => PathStep::Finished(Ok(self.path)),
        }
    }
}

impl<P> DirAsked<P> {
    /// How it goes on: why a directory could not be created is passed on, except that of the
    /// default directory.
    pub open spec fn next(self, created: Result<(), Seq<char>>) -> PathPoint<P> {
        match (self.purpose, created) {
            (Purpose::ParentOf(path), Ok(())) => PathPoint::Finished(Ok(path)),
            (Purpose::ParentOf(_), Err(reason)) => PathPoint::Finished(
                Err(NO_DIRECTORY@ + reason),
            ),
            (Purpose::Default, Ok(())) => PathPoint::JoinFile(
                JoinAsked { dir: self.dir, created: true },
            ),
            (Purpose::Default, Err(_)) => PathPoint::Finished(Err(NO_DEFAULT@)),
        }
    }

    /// Goes on once it has been tried to create the directory.
    pub fn reply(self, created: Result<(), String>) -> (step: PathStep<P>)
        ensures
            step@ == self.next(
                match created {
                    Ok(()) => Ok(()),
                    Err(reason) => Err(reason@),
                },
            ),
    {
        match self.purpose {
            Purpose::ParentOf(path) => match created {
                Ok(()) => PathStep::Finished(Ok(path)),
                Err(reason) => {
                    let mut message = NO_DIRECTORY.to_owned();
                    message.append(reason.as_str());
                    PathStep::Finished(Err(message))
                },
            },
            Purpose::Default => match created {
                Ok(()) => PathStep::JoinFile(JoinAsked { dir: self.dir, created: true }),
                Err(_) => PathStep::Finished(Err(NO_DEFAULT.to_owned())),
            },
        }
    }
}

impl VariableAsked {
    /// The name of the environment variable.
    pub fn name(&self) -> (name: &'static str)
        ensures
            name@ == DATA_DIR_VARIABLE@,
    {
        DATA_DIR_VARIABLE
    }

    /// How it goes on: without the variable, the default directory is tried.
    pub open spec fn next<P>(value: Option<P>) -> PathPoint<P> {
        match value {
            Some(dir) => PathPoint::JoinFile(JoinAsked { dir, created: false }),
            None => PathPoint::FindDataDir,
        }
    }

    /// Goes on with the directory that the variable names.
    pub fn reply<P>(self, value: Option<P>) -> (step: PathStep<P>)
        ensures
            step@ == VariableAsked::next(value),
    {
        match value {
            Some(dir) => PathStep::JoinFile(JoinAsked { dir, created: false }),
            None => PathStep::FindDataDir(DataDirAsked {  }),
        }
    }
}

impl<P> JoinAsked<P> {
    /// The name of the file.
    pub fn file(&self) -> (file: &'static str)
        ensures
            file@ == DATABASE_FILE@,
    {
        DATABASE_FILE
    }

    /// How it goes on: the directory has to be there.
    pub open spec fn next(self, path: P) -> PathPoint<P> {
        if self.created {
            PathPoint::Finished(Ok(path))
        } else {
            PathPoint::FindParent(ParentAsked { path })
        }
    }

    /// Goes on with the path of the file.
    pub fn reply(self, path: P) -> (step: PathStep<P>)
        ensures
            step@ == self.next(path),
    {
        if self.created {
            PathStep::Finished(Ok(path))
        } else {
            PathStep::FindParent(ParentAsked { path })
        }
    }
}

impl DataDirAsked {
    /// The qualifier, the organization and the name of the application.
    pub fn project(&self) -> (project: (&'static str, &'static str, &'static str))
        ensures
            project.0@ == QUALIFIER@,
            project.1@ == ORGANIZATION@,
            project.2@ == APPLICATION@,
    {
        (QUALIFIER, ORGANIZATION, APPLICATION)
    }

    /// How it goes on.
    pub open spec fn next<P>(dir: Option<P>) -> PathPoint<P> {
        match dir {
            Some(dir) => PathPoint::CreateDir(DirAsked { dir, purpose: Purpose::Default }),
            None => PathPoint::Finished(Err(NO_DEFAULT@)),
        }
    }

    /// Goes on with the data directory of the application.
    pub fn reply<P>(self, dir: Option<P>) -> (step: PathStep<P>)
        ensures
            step@ == DataDirAsked::next(dir),
    {
        match dir {
            Some(dir) => PathStep::CreateDir(DirAsked { dir, purpose: Purpose::Default }),
            None => PathStep::Finished(Err(NO_DEFAULT.to_owned())),
        }
    }
}

/// How finding the path starts.
pub open spec fn path_start<P>(custom_path: Option<P>) -> PathPoint<P> {
    match custom_path {
        Some(path) => PathPoint::FindParent(ParentAsked { path }),
        None => PathPoint::ReadVariable,
    }
}

/// Finds the path of the database.
pub fn get_db_path<P>(custom_path: Option<P>) -> (step: PathStep<P>)
    ensures
        step@ == path_start(custom_path),
{
    match custom_path {
        Some(path) => PathStep::FindParent(ParentAsked { path }),
        None => PathStep::ReadVariable(VariableAsked {  }),
    }
}

/// What the machine answers to the requests of [`PathStep`].
#[verifier::reject_recursive_types(P)]
pub struct Surroundings<P> {
    pub parent: spec_fn(P) -> Option<P>,
    pub create_dir: spec_fn(P) -> Result<(), Seq<char>>,
    /// The value of the environment variable of this name.
    pub variable: spec_fn(Seq<char>) -> Option<P>,
    /// The path of the file of this name in a directory.
    pub join: spec_fn(P, Seq<char>) -> P,
    /// The data directory for a qualifier, an organization and an application.
    pub data_dir: spec_fn(Seq<char>, Seq<char>, Seq<char>) -> Option<P>,
}

impl<P> Surroundings<P> {
    /// How many steps there are at most until the path is found.
    pub open spec fn distance(point: PathPoint<P>) -> nat {
        match point {
            PathPoint::ReadVariable => 4,
            PathPoint::FindDataDir => 3,
            PathPoint::JoinFile(asked) => if asked.created {
                1
            } else {
                3
            },
            PathPoint::FindParent(_) => 2,
            PathPoint::CreateDir(asked) => match asked.purpose {
                Purpose::ParentOf(_) => 1,
                Purpose::Default => 2,
            },
            PathPoint::Finished(_) => 0,
        }
    }

    /// What the steps from `point` on come to.
    pub open spec fn run(self, point: PathPoint<P>) -> Result<P, Seq<char>>
        decreases Self::distance(point),
    {
        match point {
            PathPoint::ReadVariable => self.run(
                VariableAsked::next((self.variable)(DATA_DIR_VARIABLE@)),
            ),
            PathPoint::FindDataDir => self.run(DataDirAsked::next(self.default_dir())),
            PathPoint::JoinFile(asked) => self.run(
                asked.next((self.join)(asked.dir, DATABASE_FILE@)),
            ),
            PathPoint::FindParent(asked) => self.run(asked.next((self.parent)(asked.path))),
            PathPoint::CreateDir(asked) => self.run(asked.next((self.create_dir)(asked.dir))),
            PathPoint::Finished(outcome) => outcome,
        }
    }

    /// The data directory of this application.
    pub open spec fn default_dir(self) -> Option<P> {
        (self.data_dir)(QUALIFIER@, ORGANIZATION@, APPLICATION@)
    }

    /// The path itself, if its parent directory, where it has one, can be created.
    pub open spec fn housed(self, path: P) -> Result<P, Seq<char>> {
        match (self.parent)(path) {
            Some(dir) => match (self.create_dir)(dir) {
                Ok(()) => Ok(path),
                Err(reason) => Err(NO_DIRECTORY@ + reason),
            },
            None => Ok(path),
        }
    }

    /// The file in the default directory, if that is known and can be created.
    pub open spec fn default_path(self) -> Result<P, Seq<char>> {
        match self.default_dir() {
            Some(dir) => match (self.create_dir)(dir) {
                Ok(()) => Ok((self.join)(dir, DATABASE_FILE@)),
                Err(_) => Err(NO_DEFAULT@),
            },
            None => Err(NO_DEFAULT@),
        }
    }
}

/// A given path comes first, then the directory that the environment variable names, then
/// the default directory; a later one is never used to make up for an earlier one that fails.
pub proof fn law_path_priority<P>(surroundings: Surroundings<P>, custom_path: Option<P>)
    ensures
        surroundings.run(path_start(custom_path)) == match (
            custom_path,
            (surroundings.variable)(DATA_DIR_VARIABLE@),
        ) {
            (Some(path), _) => surroundings.housed(path),
            (None, Some(dir)) => surroundings.housed((surroundings.join)(dir, DATABASE_FILE@)),
            (None, None) => surroundings.default_path(),
        },
{
    reveal_with_fuel(Surroundings::run, 5);
}

} // verus!
