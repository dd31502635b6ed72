use vstd::prelude::*;
use crate::error::ExdirError;
use crate::text::str_eq;

verus! {

/// How a store is held by this process.
#[derive(Debug, Clone, Copy, PartialEq, Eq, Structural)]
pub enum OpenMode {
    ReadWrite,
    ReadOnly,
    FileClosed,
}

/// A recognised open-mode token.
#[derive(Debug, Clone, Copy, PartialEq, Eq, Structural)]
pub enum ModeToken {
    /// `r`: open an existing store for reading.
    Read,
    /// `r+`: open an existing store for reading and writing.
    ReadPlus,
    /// `w`: create, replacing an existing store only with confirmation.
    Write,
    /// `w-` or `x`: create; the store must not exist.
    Exclusive,
    /// `a`: open, creating the store if it is absent.
    Append,
}

/// What lies at a store's path before it is opened.
#[derive(Debug, Clone, Copy, PartialEq, Eq, Structural)]
pub enum StoreState {
    /// Nothing is there.
    Absent,
    /// A directory whose envelope reads as a file.
    Valid,
    /// Something is there, but not a directory with a file envelope.
    Invalid,
}

/// What opening a store asks of the filesystem, and the mode it leaves the
/// handle in.
#[derive(Debug, Clone, Copy, PartialEq, Eq, Structural)]
pub struct OpenPlan {
    pub open_mode: OpenMode,
    /// Remove the existing store entirely first.
    pub remove_existing: bool,
    /// Create a fresh store directory with a file envelope.
    pub create: bool,
}

/// The token that a mode string denotes.
pub open spec fn mode_token_spec(s: Seq<char>) -> Option<ModeToken> {
    if s == seq!['r'] {
        Some(ModeToken::Read)
    } else if s == seq!['r', '+'] {
        Some(ModeToken::ReadPlus)
    } else if s == seq!['w'] {
        Some(ModeToken::Write)
    } else if s == seq!['w', '-'] || s == seq!['x'] {
        Some(ModeToken::Exclusive)
    } else if s == seq!['a'] {
        Some(ModeToken::Append)
    } else {
        None
    }
}

/// The state a store is in, from whether its path exists and what its
/// envelope reads as (`None`: missing or unreadable).
pub open spec fn store_state_spec(exists: bool, envelope_type: Option<crate::envelope::ObjectType>) -> StoreState {
    if !exists {
        StoreState::Absent
    } else if envelope_type == Some(crate::envelope::ObjectType::File) {
        StoreState::Valid
    } else {
        StoreState::Invalid
    }
}

/// The plan for opening a store in `state` with `token`; `allow_remove` is the
/// explicit confirmation that an existing store may be destroyed.
pub open spec fn open_plan_spec(token: ModeToken, state: StoreState, allow_remove: bool) -> Result<OpenPlan, ExdirError> {
    if state == StoreState::Invalid {
        Err(ExdirError::InvalidFormat)
    } else {
        let exists = state == StoreState::Valid;
        match token {
            ModeToken::Read => if exists {
                Ok(OpenPlan { open_mode: OpenMode::ReadOnly, remove_existing: false, create: false })
            } else {
                Err(ExdirError::NotFound)
            },
            ModeToken::ReadPlus => if exists {
                Ok(OpenPlan { open_mode: OpenMode::ReadWrite, remove_existing: false, create: false })
            } else {
                Err(ExdirError::NotFound)
            },
            ModeToken::Write => if exists && !allow_remove {
                Err(ExdirError::AlreadyExists)
            } else {
                Ok(OpenPlan { open_mode: OpenMode::ReadWrite, remove_existing: exists, create: true })
            },
            ModeToken::Exclusive => if exists {
                Err(ExdirError::AlreadyExists)
            } else {
                Ok(OpenPlan { open_mode: OpenMode::ReadWrite, remove_existing: false, create: true })
            },
            ModeToken::Append => Ok(
                OpenPlan { open_mode: OpenMode::ReadWrite, remove_existing: false, create: !exists },
            ),
        }
    }
}

/// The state of a store after a plan was carried out on it.
pub open spec fn state_after_spec(state: StoreState, plan: OpenPlan) -> StoreState {
    if plan.create {
        StoreState::Valid
    } else if plan.remove_existing {
        StoreState::Absent
    } else {
        state
    }
}

impl ModeToken {
    /// Reads a mode string; `None` for an unrecognised token.
    pub fn parse(s: &str) -> (r: Option<ModeToken>)
        ensures
            r == mode_token_spec(s@),
    {
        proof {
            reveal_strlit("r");
            reveal_strlit("r+");
            reveal_strlit("w");
            reveal_strlit("w-");
            reveal_strlit("x");
            reveal_strlit("a");
            assert("r"@ =~= seq!['r']);
            assert("r+"@ =~= seq!['r', '+']);
            assert("w"@ =~= seq!['w']);
            assert("w-"@ =~= seq!['w', '-']);
            assert("x"@ =~= seq!['x']);
            assert("a"@ =~= seq!['a']);
        }
        if str_eq(s, "r") {
            Some(ModeToken::Read)
        } else if str_eq(s, "r+") {
            Some(ModeToken::ReadPlus)
        } else if str_eq(s, "w") {
            Some(ModeToken::Write)
        } else if str_eq(s, "w-") || str_eq(s, "x") {
            Some(ModeToken::Exclusive)
        } else if str_eq(s, "a") {
            Some(ModeToken::Append)
        } else {
            None
        }
    }
}

/// Classifies what lies at a store's path.
pub fn store_state(exists: bool, envelope_type: Option<crate::envelope::ObjectType>) -> (r: StoreState)
    ensures
        r == store_state_spec(exists, envelope_type),
{
    if !exists {
        StoreState::Absent
    } else {
        match envelope_type {
            Some(crate::envelope::ObjectType::File) => StoreState::Valid,
            _ => StoreState::Invalid,
        }
    }
}

/// Decides how to open a store in `state` with `token`.
pub fn open_plan(token: ModeToken, state: StoreState, allow_remove: bool) -> (r: Result<OpenPlan, ExdirError>)
    ensures
        r == open_plan_spec(token, state, allow_remove),
{
    if let StoreState::Invalid = state {
        return Err(ExdirError::InvalidFormat);
    }
    let exists = match state {
        StoreState::Valid => true,
        _ => false,
    };
    match token {
        ModeToken::Read => if exists {
            Ok(OpenPlan { open_mode: OpenMode::ReadOnly, remove_existing: false, create: false })
        } else {
            Err(ExdirError::NotFound)
        },
        ModeToken::ReadPlus => if exists {
            Ok(OpenPlan { open_mode: OpenMode::ReadWrite, remove_existing: false, create: false })
        } else {
            Err(ExdirError::NotFound)
        },
        ModeToken::Write => if exists && !allow_remove {
            Err(ExdirError::AlreadyExists)
        } else {
            Ok(OpenPlan { open_mode: OpenMode::ReadWrite, remove_existing: exists, create: true })
        },
        ModeToken::Exclusive => if exists {
            Err(ExdirError::AlreadyExists)
        } else {
            Ok(OpenPlan { open_mode: OpenMode::ReadWrite, remove_existing: false, create: true })
        },
        ModeToken::Append => Ok(
            OpenPlan { open_mode: OpenMode::ReadWrite, remove_existing: false, create: !exists },
        ),
    }
}

/// The advisory write lock of one store: any number of read-only handles,
/// at most one read-write handle at a time.
#[derive(Debug)]
pub struct StoreLock {
    pub writer_held: bool,
}

/// Whether the write lock is held after a handle in `mode` took it.
pub open spec fn lock_after_spec(writer_held: bool, mode: OpenMode) -> bool {
    writer_held || mode == OpenMode::ReadWrite
}

/// Whether acquiring the lock for `mode` succeeds while `writer_held`.
pub open spec fn acquire_ok_spec(writer_held: bool, mode: OpenMode) -> bool {
    !(mode == OpenMode::ReadWrite && writer_held)
}

impl StoreLock {
    /// A lock that nobody holds.
    pub fn new() -> (r: StoreLock)
        ensures
            !r.writer_held,
    {
        StoreLock { writer_held: false }
    }

    /// Takes the lock for a handle opened in `mode`, without waiting: a second
    /// read-write handle fails at once with `LockContention`.
    pub fn acquire(&mut self, mode: OpenMode) -> (r: Result<(), ExdirError>)
        ensures
            r is Ok <==> acquire_ok_spec(old(self).writer_held, mode),
            r matches Err(e) ==> e == ExdirError::LockContention,
            final(self).writer_held == lock_after_spec(old(self).writer_held, mode),
    {
        match mode {
            OpenMode::ReadWrite => if self.writer_held {
                Err(ExdirError::LockContention)
            } else {
                self.writer_held = true;
                Ok(())
            },
            _ => Ok(()),
        }
    }

    /// Gives the lock back when a handle opened in `mode` closes.
    pub fn release(&mut self, mode: OpenMode)
        ensures
            final(self).writer_held == (old(self).writer_held && mode != OpenMode::ReadWrite),
    {
        if let OpenMode::ReadWrite = mode {
            self.writer_held = false;
        }
    }
}

/// Read-only handles share a store: two in a row both succeed. Read-write
/// handles exclude each other: once one holds the lock, a second fails at once.
pub proof fn lemma_lock_sharing(writer_held: bool)
    ensures
        acquire_ok_spec(writer_held, OpenMode::ReadOnly),
        acquire_ok_spec(lock_after_spec(writer_held, OpenMode::ReadOnly), OpenMode::ReadOnly),
        !writer_held ==> acquire_ok_spec(writer_held, OpenMode::ReadWrite),
        !acquire_ok_spec(lock_after_spec(writer_held, OpenMode::ReadWrite), OpenMode::ReadWrite),
{
}

} // verus!
