use vstd::prelude::*;
use vstd::string::StringExecFns;
use crate::error::ErrorKind;
use crate::path::{has_container_extension, is_container_path};

verus! {

/// Which way a run goes, decided by the target's name alone.
#[derive(Debug, Clone, Copy, PartialEq, Eq, Structural)]
pub enum Direction {
    Encrypt,
    Decrypt,
}

pub open spec fn direction_spec(clean: Seq<char>) -> Direction {
    if has_container_extension(clean) {
        Direction::Decrypt
    } else {
        Direction::Encrypt
    }
}

/// A path that ends in the container extension is opened; any other is sealed.
pub fn direction_of(clean: &str) -> (d: Direction)
    ensures
        d == direction_spec(clean@),
{
    if is_container_path(clean) {
        Direction::Decrypt
    } else {
        Direction::Encrypt
    }
}

pub open spec fn success_text(d: Direction, clean: Seq<char>) -> Seq<char> {
    match d {
        Direction::Encrypt => "ENCRYPTED: "@ + clean,
        Direction::Decrypt => "DECRYPTED: "@ + clean,
    }
}

/// The message a successful run reports.
pub fn success_message(d: Direction, clean: &str) -> (m: String)
    ensures
        m@ == success_text(d, clean@),
{
    match d {
        Direction::Encrypt => String::from_str("ENCRYPTED: ").concat(clean),
        Direction::Decrypt => String::from_str("DECRYPTED: ").concat(clean),
    }
}

/// Where a run stands.
#[derive(Debug, Clone, Copy, PartialEq, Eq, Structural)]
pub enum Stage {
    Idle,
    Validating,
    Encrypting,
    Decrypting,
    Erasing,
    Done,
    Failed(ErrorKind),
}

/// What the driver of a run reports back.
#[derive(Debug, Clone, Copy, PartialEq, Eq, Structural)]
pub enum Event {
    /// A path and passphrase were handed in.
    Start,
    /// The target was looked up.
    Checked { exists: bool, direction: Direction },
    /// Sealing or opening, with its archive work, completed.
    TransformDone,
    /// The input target was erased.
    EraseDone,
    /// The current stage failed.
    Failure(ErrorKind),
}

pub open spec fn is_terminal(s: Stage) -> bool {
    s == Stage::Done || s is Failed
}

pub open spec fn next_stage(s: Stage, e: Event) -> Stage {
    if is_terminal(s) {
        s
    } else {
        match e {
            Event::Failure(k) => Stage::Failed(k),
            Event::Start => if s == Stage::Idle {
                Stage::Validating
            } else {
                s
            },
            Event::Checked { exists, direction } => if s != Stage::Validating {
                s
            } else if !exists {
                Stage::Failed(ErrorKind::FileNotFound)
            } else if direction == Direction::Decrypt {
                Stage::Decrypting
            } else {
                Stage::Encrypting
            },
            Event::TransformDone => if s == Stage::Encrypting || s == Stage::Decrypting {
                Stage::Erasing
            } else {
                s
            },
            Event::EraseDone => if s == Stage::Erasing {
                Stage::Done
            } else {
                s
            },
        }
    }
}

/// Moves a run on by one event. `Done` and `Failed` are final; erasing is
/// entered only once a transform has completed; an event that does not fit
/// the stage leaves it as it is.
pub fn advance(s: Stage, e: Event) -> (r: Stage)
    ensures
        r == next_stage(s, e),
        is_terminal(s) ==> r == s,
        r == Stage::Erasing ==> s == Stage::Erasing || ((s == Stage::Encrypting || s
            == Stage::Decrypting) && e == Event::TransformDone),
        r == Stage::Done ==> s == Stage::Done || (s == Stage::Erasing && e == Event::EraseDone),
{
    match s {
        Stage::Done | Stage::Failed(_) => s,
        _ => match e {
            Event::Failure(k) => Stage::Failed(k),
            Event::Start => match s {
                Stage::Idle => Stage::Validating,
                _ => s,
            },
            Event::Checked { exists, direction } => match s {
                Stage::Validating => if !exists {
                    Stage::Failed(ErrorKind::FileNotFound)
                } else {
                    match direction {
                        Direction::Decrypt => Stage::Decrypting,
                        Direction::Encrypt => Stage::Encrypting,
                    }
                },
                _ => s,
            },
            Event::TransformDone => match s {
                Stage::Encrypting | Stage::Decrypting => Stage::Erasing,
                _ => s,
            },
            Event::EraseDone => match s {
                Stage::Erasing => Stage::Done,
                _ => s,
            },
        },
    }
}

} // verus!
