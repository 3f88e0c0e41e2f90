//! The wire protocol spoken with the matchmaking server: plain data,
//! no behaviour. The host's networking layer carries these values;
//! here they are only defined so the rest of the code can build and
//! inspect them.

use vstd::prelude::*;

verus! {

/// A client-to-server message.
#[derive(Debug, Clone)]
pub enum MatchmakerRequest {
    /// Request a match ID from the server.
    RequestMatch(MatchInfo),
}

/// Information about a match that is being requested.
#[derive(Debug, Clone, Copy, Hash, PartialEq, Eq, Structural)]
pub struct MatchInfo {
    pub player_count: u8,
}

/// A server-to-client message.
#[derive(Debug, Clone)]
pub enum MatchmakerResponse {
    /// The request was accepted; the match is being assembled.
    Accepted,
    /// How many players have joined so far.
    PlayerCount(u8),
    /// The match is full and starts now.
    Success,
}

} // verus!
