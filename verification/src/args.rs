//! The configuration surface: read once when the process starts, and not
//! changed after.

use vstd::prelude::*;

verus! {

/// Where to find the matchmaking service, which room to join there, and how
/// many players take part in a match.
#[derive(Debug, Clone)]
pub struct Args {
    pub matchbox: String,
    pub room: Option<String>,
    pub players: usize,
}

impl Default for Args {
    /// The configuration of a process started without arguments: the local
    /// matchmaking service, no room, two players.
    fn default() -> (args: Self)
        ensures
            args.matchbox@ == "ws://127.0.0.1:3536"@,
            args.room is None,
            args.players == 2,
    {
        Args { matchbox: "ws://127.0.0.1:3536".to_owned(), room: None, players: 2 }
    }
}

} // verus!
