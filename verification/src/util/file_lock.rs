//! The advisory lock around read-modify-write of files in a
//! consultation directory (`meta.toml`): the lock is the existence of a
//! `.<name>.lock` sibling, created exclusively; the holder removes it.
//! Replacing a file goes through a sibling temp file and a rename.
use vstd::prelude::*;
use crate::{A2aError, ErrView, other_err};
use crate::text::{decimal, push_decimal};

verus! {

/// A held lock: the path of its lock file.
pub struct FileLock {
    path: String,
}

impl View for FileLock {
    type V = Seq<char>;

    closed spec fn view(&self) -> Seq<char> {
        self.path@
    }
}

impl FileLock {
    pub fn new(path: String) -> (l: Self)
        ensures
            l@ == path@,
    {
        FileLock { path }
    }

    /// The lock file's path.
    pub fn path(&self) -> (r: &str)
        ensures
            r@ == self@,
    {
        self.path.as_str()
    }
}

/// The lock file's name for a target file named `leaf` (`file` when the
/// target has no name).
pub open spec fn lock_name_spec(leaf: Option<Seq<char>>) -> Seq<char> {
    "."@ + match leaf {
        Some(l) => l,
        None => "file"@,
    } + ".lock"@
}

pub fn lock_name_for(leaf: Option<&str>) -> (r: String)
    ensures
        r@ == lock_name_spec(
            match leaf {
                Some(l) => Some(l@),
                None => None,
            },
        ),
{
    let mut s = String::from_str(".");
    match leaf {
        Some(l) => s.append(l),
        None => s.append("file"),
    }
    s.append(".lock");
    s
}

/// Seconds a writer waits for the lock.
pub const LOCK_TIMEOUT_SECS: u64 = 30;

/// Milliseconds between attempts.
pub const LOCK_POLL_MS: u64 = 50;

/// What one attempt to create the lock file met.
pub enum LockAttempt {
    Created,
    AlreadyExists,
    /// Any other failure, with its text.
    Failed(String),
}

/// What follows an attempt.
pub enum LockStep {
    Acquired,
    /// Sleep [`LOCK_POLL_MS`] and try again.
    Retry,
    Fail(A2aError),
}

pub open spec fn lock_timeout_msg(target: Seq<char>, lock: Seq<char>) -> Seq<char> {
    "could not acquire lock on "@ + target + " within "@ + decimal(LOCK_TIMEOUT_SECS as nat)
        + "s; stale lock file? remove `"@ + lock + "` if no other a2a process is running"@
}

pub open spec fn lock_open_msg(lock: Seq<char>, cause: Seq<char>) -> Seq<char> {
    "open lock file "@ + lock + ": "@ + cause
}

/// A lock file that already exists means another writer holds it: wait
/// until the deadline, then give up naming the file to remove.
pub fn lock_step(attempt: LockAttempt, past_deadline: bool, target: &str, lock: &str) -> (s: LockStep)
    ensures
        match attempt {
            LockAttempt::Created => s is Acquired,
            LockAttempt::AlreadyExists => if past_deadline {
                s matches LockStep::Fail(e) && e@ == ErrView::Other(lock_timeout_msg(target@, lock@))
            } else {
                s is Retry
            },
            LockAttempt::Failed(c) => s matches LockStep::Fail(e) && e@ == ErrView::Other(
                lock_open_msg(lock@, c@),
            ),
        },
{
    match attempt {
        LockAttempt::Created => LockStep::Acquired,
        LockAttempt::AlreadyExists => if past_deadline {
            let mut m = String::from_str("could not acquire lock on ");
            m.append(target);
            m.append(" within ");
            push_decimal(&mut m, LOCK_TIMEOUT_SECS);
            m.append("s; stale lock file? remove `");
            m.append(lock);
            m.append("` if no other a2a process is running");
            LockStep::Fail(other_err(m))
        } else {
            LockStep::Retry
        },
        LockAttempt::Failed(c) => {
            let mut m = String::from_str("open lock file ");
            m.append(lock);
            m.append(": ");
            m.append(c.as_str());
            LockStep::Fail(other_err(m))
        },
    }
}

/// The sibling temp file a replacement is written to first:
/// `.<leaf>.tmp.<pid>.<id>`.
pub open spec fn tmp_name_spec(leaf: Option<Seq<char>>, pid: nat, id: Seq<char>) -> Seq<char> {
    "."@ + match leaf {
        Some(l) => l,
        None => "file"@,
    } + ".tmp."@ + decimal(pid) + "."@ + id
}

pub fn atomic_tmp_name(leaf: Option<&str>, pid: u32, id: &str) -> (r: String)
    ensures
        r@ == tmp_name_spec(
            match leaf {
                Some(l) => Some(l@),
                None => None,
            },
            pid as nat,
            id@,
        ),
{
    let mut s = String::from_str(".");
    match leaf {
        Some(l) => s.append(l),
        None => s.append("file"),
    }
    s.append(".tmp.");
    push_decimal(&mut s, pid as u64);
    s.append(".");
    s.append(id);
    s
}

} // verus!
