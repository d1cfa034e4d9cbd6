use crate::error::MapError;
use vstd::prelude::*;

verus! {

/// The operating-system primitives a mapped file is built on.
#[derive(Debug, Clone, Copy, PartialEq, Eq, Structural)]
pub enum Primitive {
    /// Open the file by its path, with the flags and permission bits of the
    /// mode.
    OpenFile,
    /// Ask for the current length of the file behind the descriptor.
    QueryLength,
    /// Map the whole file, from offset 0, with the protection and sharing of
    /// the mode.
    EstablishMapping,
    /// Write the modified pages of the region back to the file and wait for
    /// it.
    SyncMapping,
    /// Force what the descriptor has buffered to stable storage.
    SyncDescriptor,
    /// Unmap the region.
    ReleaseMapping,
    /// Close the descriptor.
    CloseDescriptor,
}

/// What a sequence of primitives is run for.
#[derive(Debug, Clone, Copy, PartialEq, Eq, Structural)]
pub enum Procedure {
    /// Bring a mapped file into being.
    Open,
    /// Make the file on disk equal to the region.
    Flush,
    /// Give up the region and the descriptor at the end of the file's life.
    Teardown,
}

/// What the owner of a procedure does next.
#[derive(Debug, Clone, Copy, PartialEq, Eq, Structural)]
pub enum Action {
    /// Run this primitive and report how it went.
    Perform(Primitive),
    /// Every primitive of the procedure has succeeded.
    Finish,
    /// Give the procedure up and return this error to the caller.
    Fail(MapError),
    /// Give the procedure up; nobody is left to take the error, so it is
    /// fatal.
    Abort(MapError),
}

impl Procedure {
    /// The primitives of the procedure, in the order they are run.
    pub open spec fn plan(self) -> Seq<Primitive> {
        match self {
            Procedure::Open => seq![
                Primitive::OpenFile,
                Primitive::QueryLength,
                Primitive::EstablishMapping,
            ],
            Procedure::Flush => seq![Primitive::SyncMapping, Primitive::SyncDescriptor],
            Procedure::Teardown => seq![
                Primitive::SyncMapping,
                Primitive::SyncDescriptor,
                Primitive::ReleaseMapping,
                Primitive::CloseDescriptor,
            ],
        }
    }

    /// Whether a failing primitive ends the procedure with a fatal error
    /// instead of a returned one.
    pub open spec fn fatal(self) -> bool {
        self == Procedure::Teardown
    }

    /// The action that follows when `completed` primitives of the plan have
    /// succeeded and the last one run reported `last`. A failure ends the
    /// procedure at once, with the error as the operating system gave it;
    /// nothing is run again.
    pub open spec fn decide(self, completed: nat, last: Result<(), i32>) -> Action {
        match last {
            Err(errno) => if self.fatal() {
                Action::Abort(MapError::Os(errno))
            } else {
                Action::Fail(MapError::Os(errno))
            },
            Ok(_) => if completed < self.plan().len() {
                Action::Perform(self.plan()[completed as int])
            } else {
                Action::Finish
            },
        }
    }

    /// Decides what to do after `completed` primitives have succeeded, given
    /// the report `last` of the primitive run last (`Ok` before the first).
    pub fn next(self, completed: usize, last: Result<(), i32>) -> (r: Action)
        ensures
            r == self.decide(completed as nat, last),
    {
        if let Err(errno) = last {
            return match self {
                Procedure::Teardown => Action::Abort(MapError::Os(errno)),
                _ => Action::Fail(MapError::Os(errno)),
            };
        }
        match self {
            Procedure::Open => match completed {
                0 => Action::Perform(Primitive::OpenFile),
                1 => Action::Perform(Primitive::QueryLength),
                2 => Action::Perform(Primitive::EstablishMapping),
                _ => Action::Finish,
            },
            Procedure::Flush => match completed {
                0 => Action::Perform(Primitive::SyncMapping),
                1 => Action::Perform(Primitive::SyncDescriptor),
                _ => Action::Finish,
            },
            Procedure::Teardown => match completed {
                0 => Action::Perform(Primitive::SyncMapping),
                1 => Action::Perform(Primitive::SyncDescriptor),
                2 => Action::Perform(Primitive::ReleaseMapping),
                3 => Action::Perform(Primitive::CloseDescriptor),
                _ => Action::Finish,
            },
        }
    }
}

/// Teardown begins with a flush: its plan is the plan of a flush, then the
/// release of the mapping, then the closing of the descriptor.
pub proof fn lemma_teardown_flushes_first()
    ensures
        Procedure::Teardown.plan() == Procedure::Flush.plan() + seq![
            Primitive::ReleaseMapping,
            Primitive::CloseDescriptor,
        ],
{
}

/// No plan runs a primitive twice: what is acquired is acquired once and
/// what is released is released once.
pub proof fn lemma_plan_runs_each_primitive_once(procedure: Procedure, i: int, j: int)
    requires
        0 <= i < j < procedure.plan().len(),
    ensures
        procedure.plan()[i] != procedure.plan()[j],
{
}

/// A procedure whose primitives all succeed performs its plan in order and
/// then finishes.
pub proof fn lemma_success_follows_the_plan(procedure: Procedure, completed: nat)
    ensures
        completed < procedure.plan().len() ==> procedure.decide(completed, Ok(()))
            == Action::Perform(procedure.plan()[completed as int]),
        completed >= procedure.plan().len() ==> procedure.decide(completed, Ok(()))
            == Action::Finish,
{
}

/// A failure is never followed by another primitive: the procedure ends with
/// the operating system's error, returned while the file is opened or
/// flushed, fatal during teardown.
pub proof fn lemma_failure_ends_the_procedure(procedure: Procedure, completed: nat, errno: i32)
    ensures
        procedure.decide(completed, Err(errno)) == if procedure == Procedure::Teardown {
            Action::Abort(MapError::Os(errno))
        } else {
            Action::Fail(MapError::Os(errno))
        },
{
}

} // verus!
