//! Handing over to the wrapped binary: its arguments, and the launcher's exit
//! code.

use vstd::prelude::*;

verus! {

/// The flag that forces a check, whatever the cooldown marker says. It counts
/// only as the first argument.
pub const FORCE_FLAG: &'static str = "-U";

/// The launcher's arguments, sorted.
#[derive(Debug)]
pub struct Arguments {
    /// Whether a check was forced.
    pub forced: bool,
    /// What the wrapped binary gets.
    pub forwarded: Vec<String>,
}

/// Whether `args` begin with the forcing flag.
pub open spec fn forces(args: Seq<String>) -> bool {
    args.len() > 0 && args[0]@ == FORCE_FLAG@
}

/// Sorts the launcher's arguments, its own name not among them: a forcing
/// flag in the first place is taken out, and all the rest is for the wrapped
/// binary, in its order.
pub fn split_arguments(args: Vec<String>) -> (r: Arguments)
    ensures
        r.forced == forces(args@),
        r.forwarded@ == if forces(args@) {
            args@.skip(1)
        } else {
            args@
        },
{
    let mut rest = args;
    if rest.len() > 0 {
        let flag: String = FORCE_FLAG.to_owned();
        if rest[0] == flag {
            rest.remove(0);
            proof {
                assert(rest@ =~= args@.skip(1));
            }
            return Arguments { forced: true, forwarded: rest };
        }
    }
    Arguments { forced: false, forwarded: rest }
}

/// How the attempt to run the wrapped binary ended.
#[derive(Clone, Copy, Debug, PartialEq, Eq, Structural)]
pub enum LaunchOutcome {
    /// There is no wrapped binary.
    NotFound,
    /// The wrapped binary could not be started.
    NotStarted,
    /// The wrapped binary ran, and exited with this code, or with none where
    /// it was killed.
    Exited { code: Option<i32> },
}

/// The launcher's exit code: that of the wrapped binary where it ran and had
/// one, 1 where it ran and had none, and 0 where it did not run.
pub fn exit_code(outcome: LaunchOutcome) -> (r: i32)
    ensures
        r == (match outcome {
            LaunchOutcome::Exited { code: Some(c) } => c,
            LaunchOutcome::Exited { code: None } => 1i32,
            LaunchOutcome::NotFound => 0i32,
            LaunchOutcome::NotStarted => 0i32,
        }),
{
    match outcome {
        LaunchOutcome::Exited { code: Some(c) } => c,
        LaunchOutcome::Exited { code: None } => 1,
        LaunchOutcome::NotFound => 0,
        LaunchOutcome::NotStarted => 0,
    }
}

} // verus!
