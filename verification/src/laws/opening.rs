//! Finding and opening the database as it is carried out: the questions are put to the
//! surroundings, and the answers go into the replies.

use vstd::prelude::*;

use crate::init::{init_db, located, InitStep, OpenDue};
use crate::location::{
    get_db_path, law_path_priority, DataDirAsked, DirAsked, JoinAsked, ParentAsked, PathStep,
    Surroundings, VariableAsked,
};
use crate::setup::{prepare_db, SetupStep};

verus! {

/// This is how creating a directory goes.
pub open spec fn is_created<P>(
    surroundings: Surroundings<P>,
    dir: P,
    created: Result<(), String>,
) -> bool {
    match (surroundings.create_dir)(dir) {
        Ok(_) => created is Ok,
        Err(reason) => created matches Err(text) && text@ == reason,
    }
}

/// Creating a directory leads on to `next`.
pub open spec fn dir_leads<P>(
    surroundings: Surroundings<P>,
    asked: DirAsked<P>,
    created: Result<(), String>,
    next: PathStep<P>,
) -> bool {
    &&& is_created(surroundings, asked.dir, created)
    &&& call_ensures(DirAsked::<P>::reply, (asked, created), next)
}

/// Reading the environment variable leads on to `next`.
pub open spec fn variable_leads<P>(
    surroundings: Surroundings<P>,
    asked: VariableAsked,
    name: &'static str,
    next: PathStep<P>,
) -> bool {
    &&& call_ensures(VariableAsked::name, (&asked,), name)
    &&& call_ensures(VariableAsked::reply::<P>, (asked, (surroundings.variable)(name@)), next)
}

/// Appending the name of the file leads on to `next`.
pub open spec fn file_leads<P>(
    surroundings: Surroundings<P>,
    asked: JoinAsked<P>,
    file: &'static str,
    next: PathStep<P>,
) -> bool {
    &&& call_ensures(JoinAsked::<P>::file, (&asked,), file)
    &&& call_ensures(
        JoinAsked::<P>::reply,
        (asked, (surroundings.join)(asked.dir, file@)),
        next,
    )
}

/// Asking for the data directory leads on to `next`.
pub open spec fn data_dir_leads<P>(
    surroundings: Surroundings<P>,
    asked: DataDirAsked,
    project: (&'static str, &'static str, &'static str),
    next: PathStep<P>,
) -> bool {
    &&& call_ensures(DataDirAsked::project, (&asked,), project)
    &&& call_ensures(
        DataDirAsked::reply::<P>,
        (asked, (surroundings.data_dir)(project.0@, project.1@, project.2@)),
        next,
    )
}

/// A step leads on to `next`.
pub open spec fn path_leads<P>(
    surroundings: Surroundings<P>,
    step: PathStep<P>,
    next: PathStep<P>,
) -> bool {
    match step {
        PathStep::FindParent(asked) => call_ensures(
            ParentAsked::<P>::reply,
            (asked, (surroundings.parent)(asked.path)),
            next,
        ),
        PathStep::CreateDir(asked) => exists|created: Result<(), String>| #[trigger]
            dir_leads(surroundings, asked, created, next),
        PathStep::ReadVariable(asked) => exists|name: &'static str| #[trigger]
            variable_leads(surroundings, asked, name, next),
        PathStep::JoinFile(asked) => exists|file: &'static str| #[trigger]
            file_leads(surroundings, asked, file, next),
        PathStep::FindDataDir(asked) => exists|
            project: (&'static str, &'static str, &'static str),
        | #[trigger] data_dir_leads(surroundings, asked, project, next),
        PathStep::Finished(_) => false,
    }
}

/// From `step` on, finding the path ends with `outcome` after `n` questions.
pub open spec fn finds<P>(
    surroundings: Surroundings<P>,
    step: PathStep<P>,
    outcome: Result<P, String>,
    n: nat,
) -> bool
    decreases n,
{
    if n == 0 {
        step == PathStep::Finished(outcome)
    } else {
        exists|next: PathStep<P>| #[trigger]
            path_leads(surroundings, step, next) && finds(
                surroundings,
                next,
                outcome,
                (n - 1) as nat,
            )
    }
}

/// The outcome is this path, or an error with this message.
pub open spec fn is_outcome<P>(
    outcome: Result<P, String>,
    expected: Result<P, Seq<char>>,
) -> bool {
    match expected {
        Ok(path) => outcome == Ok::<P, String>(path),
        Err(message) => outcome matches Err(text) && text@ == message,
    }
}

proof fn lemma_path_leads<P>(
    surroundings: Surroundings<P>,
    step: PathStep<P>,
    next: PathStep<P>,
)
    requires
        path_leads(surroundings, step, next),
    ensures
        surroundings.run(step@) == surroundings.run(next@),
        Surroundings::<P>::distance(next@) < Surroundings::<P>::distance(step@),
{
    match step {
        PathStep::FindParent(_) => {},
        PathStep::CreateDir(asked) => {
            let created = choose|created: Result<(), String>| #[trigger]
                dir_leads(surroundings, asked, created, next);
            assert(dir_leads(surroundings, asked, created, next));
        },
        PathStep::ReadVariable(asked) => {
            let name = choose|name: &'static str| #[trigger]
                variable_leads(surroundings, asked, name, next);
            assert(variable_leads(surroundings, asked, name, next));
        },
        PathStep::JoinFile(asked) => {
            let file = choose|file: &'static str| #[trigger]
                file_leads(surroundings, asked, file, next);
            assert(file_leads(surroundings, asked, file, next));
        },
        PathStep::FindDataDir(asked) => {
            let project = choose|project: (&'static str, &'static str, &'static str)| #[trigger]
                data_dir_leads(surroundings, asked, project, next);
            assert(data_dir_leads(surroundings, asked, project, next));
        },
        PathStep::Finished(_) => {},
    }
}

proof fn lemma_finds<P>(
    surroundings: Surroundings<P>,
    step: PathStep<P>,
    outcome: Result<P, String>,
    n: nat,
)
    requires
        finds(surroundings, step, outcome, n),
    ensures
        is_outcome(outcome, surroundings.run(step@)),
        n <= Surroundings::<P>::distance(step@),
    decreases n,
{
    if n > 0 {
        let next = choose|next: PathStep<P>| #[trigger]
            path_leads(surroundings, step, next) && finds(
                surroundings,
                next,
                outcome,
                (n - 1) as nat,
            );
        lemma_path_leads(surroundings, step, next);
        lemma_finds(surroundings, next, outcome, (n - 1) as nat);
    }
}

/// A path counts if it has no parent directory, or if that can be created. If not, the message
/// says why.
pub open spec fn is_housed<P>(
    surroundings: Surroundings<P>,
    path: P,
    outcome: Result<P, String>,
) -> bool {
    match (surroundings.parent)(path) {
        None => outcome == Ok::<P, String>(path),
        Some(dir) => match (surroundings.create_dir)(dir) {
            Ok(_) => outcome == Ok::<P, String>(path),
            Err(reason) => outcome matches Err(text) && text@
                == "Failed to create database directory: "@ + reason,
        },
    }
}

/// Carried out, a given path is the path of the database, and nothing else is looked at. Without
/// one, `BB_DATA_DIR` names the directory of `database.db`; the directory of either is created.
/// Without both it is in the data directory of the application, if that is known and can be
/// created. At most four questions are asked.
pub proof fn law_path_found<P>(
    surroundings: Surroundings<P>,
    custom_path: Option<P>,
    first: PathStep<P>,
    outcome: Result<P, String>,
    n: nat,
)
    requires
        call_ensures(get_db_path::<P>, (custom_path,), first),
        finds(surroundings, first, outcome, n),
    ensures
        custom_path matches Some(path) ==> is_housed(surroundings, path, outcome) && n <= 2,
        custom_path is None ==> match (surroundings.variable)("BB_DATA_DIR"@) {
            Some(dir) => is_housed(
                surroundings,
                (surroundings.join)(dir, "database.db"@),
                outcome,
            ),
            None => match (surroundings.data_dir)("com"@, "mateoradman"@, "bazarr-bulk"@) {
                Some(dir) if (surroundings.create_dir)(dir) is Ok => outcome == Ok::<P, String>(
                    (surroundings.join)(dir, "database.db"@),
                ),
                _ => outcome matches Err(text) && text@
                    == "Failed to obtain a default database path"@,
            },
        },
        n <= 4,
{
    lemma_finds(surroundings, first, outcome, n);
    law_path_priority(surroundings, custom_path);
}

/// Opening the database starts with finding its path. A path that was found is announced and
/// opened; without one, why there is none is handed on. The open database is handed back, to be
/// prepared, and an error in opening it is handed on.
pub proof fn law_opening<P, C, E>(
    surroundings: Surroundings<P>,
    custom_path: Option<P>,
    first: InitStep<P>,
    outcome: Result<P, String>,
    step: InitStep<P>,
    due: OpenDue<P>,
    shown: &str,
    text: String,
    opened: Result<C, E>,
    end: Result<(C, SetupStep), E>,
)
    requires
        call_ensures(init_db::<P>, (custom_path,), first),
        call_ensures(located::<P>, (outcome,), step),
        call_ensures(OpenDue::<P>::announcement, (&due, shown), text),
        call_ensures(OpenDue::<P>::reply::<C, E>, (due, opened), end),
    ensures
        first is Locate,
        custom_path matches Some(path) ==> first->Locate_0 == PathStep::FindParent(
            ParentAsked { path },
        ),
        custom_path is None ==> first->Locate_0 is ReadVariable,
        outcome matches Ok(path) ==> step == InitStep::Open(OpenDue { path }),
        outcome matches Err(reason) ==> step == InitStep::<P>::Failed(reason),
        text@ == "Using database at: "@ + shown@,
        opened matches Err(error) ==> end == Err::<(C, SetupStep), E>(error),
        opened matches Ok(open) ==> end matches Ok(pair) && pair.0 == open,
{
}

/// An opened database is prepared from the start on.
pub proof fn law_opened_is_prepared<P, C, E>(
    due: OpenDue<P>,
    open: C,
    end: Result<(C, SetupStep), E>,
    step: SetupStep,
)
    requires
        call_ensures(OpenDue::<P>::reply::<C, E>, (due, Ok::<C, E>(open)), end),
        call_ensures(prepare_db, (), step),
    ensures
        end == Ok::<(C, SetupStep), E>((open, step)),
{
}

} // verus!
