//! The plugins that a link can name, one module each.

use crate::command::Outcome;
use crate::error::{Error, ErrorView};
use vstd::prelude::*;

pub mod pipe;
pub mod play;
pub mod stream;

verus! {

/// Which plugin handles a link: the segment after the scheme.
#[derive(Debug, Clone, Copy, PartialEq, Eq, Structural)]
pub enum Plugins {
    Play,
    Stream,
    Pipe,
}

/// What the outcome of the player's run means for the handler.
pub open spec fn spec_player_result(outcome: Outcome) -> Result<(), ErrorView> {
    match outcome {
        Outcome::Exited(Some(code)) => if code == 0 {
            Ok(())
        } else {
            Err(ErrorView::PlayerExited(Some(code as u8)))
        },
        Outcome::Exited(None) => Err(ErrorView::PlayerExited(None)),
        Outcome::NotStarted(reason) => Err(ErrorView::PlayerRunFailed(reason@)),
    }
}

/// Judges the run of the player: exit code 0 is success; another code is
/// handed on in its lowest eight bits; an end by a signal is a failure
/// without a code; a player that did not start is reported with the reason.
pub fn player_result(outcome: Outcome) -> (r: Result<(), Error>)
    ensures
        match r {
            Ok(_) => spec_player_result(outcome) is Ok,
            Err(e) => spec_player_result(outcome) == Err::<(), _>(e@),
        },
{
    match outcome {
        Outcome::Exited(Some(code)) => if code == 0 {
            Ok(())
        } else {
            Err(Error::PlayerExited(Some(#[verifier::truncate] (code as u8))))
        },
        Outcome::Exited(None) => Err(Error::PlayerExited(None)),
        Outcome::NotStarted(reason) => Err(Error::PlayerRunFailed(reason)),
    }
}

} // verus!
