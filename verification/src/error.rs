use vstd::prelude::*;

verus! {

/// Everything that can go wrong while driving a game: lookup failures,
/// authorization and turn-order violations, phase violations, bad values,
/// commit-reveal protocol violations, and timing violations.
#[derive(Clone, Copy, Debug, PartialEq, Eq, Structural)]
pub enum Error {
    GameNotFound,
    NotPlayer,
    InvalidState,
    CannotPlaySelf,
    GameFull,
    BuyInTooLow,
    BuyInTooHigh,
    AlreadyCommitted,
    AlreadyRevealed,
    InvalidSeed,
    MustCallOrRaise,
    InvalidAmount,
    RaiseTooSmall,
    GameAlreadyDecided,
    NotYourTurn,
    InvalidCards,
    InvalidRank,
    InvalidCommitment,
    InvalidProof,
    GameAlreadyFinished,
    GameCancelled,
    TimeoutNotReached,
    NoTimeoutApplicable,
    ConfigNotSet,
    TableNotFound,
    NoWaitingSession,
    WaitingTimeoutNotReached,
    MessageTooLong,
}

} // verus!
