//! How the inputs of the local players reach their vehicles.

use vstd::prelude::*;
use crate::game_state::Input;

verus! {

/// Who plays at this machine.
#[derive(Clone, Copy, Debug)]
pub enum ClientMode {
    /// One player, who may use both sets of keys.
    Singleplayer { player_handle: u64 },
    /// Two players, each with a set of keys and a half of the screen.
    Splitscreen { player_handles: (u64, u64) },
}

/// The inputs that the players get from the two sets of keys: a single
/// player gets both sets merged; of two players, each gets one set.
pub open spec fn routed(mode: ClientMode, input1: Input, input2: Input) -> Seq<(u64, Input)> {
    match mode {
        ClientMode::Singleplayer { player_handle } => seq![
            (player_handle, input1.spec_merged(input2)),
        ],
        ClientMode::Splitscreen { player_handles } => seq![
            (player_handles.0, input1),
            (player_handles.1, input2),
        ],
    }
}

/// Hands the inputs of the two sets of keys to the players.
pub fn route_inputs(mode: ClientMode, input1: Input, input2: Input) -> (r: Vec<(u64, Input)>)
    ensures
        r@ == routed(mode, input1, input2),
{
    let mut r: Vec<(u64, Input)> = Vec::new();
    match mode {
        ClientMode::Singleplayer { player_handle } => {
            r.push((player_handle, input1.merged(input2)));
        },
        ClientMode::Splitscreen { player_handles } => {
            r.push((player_handles.0, input1));
            r.push((player_handles.1, input2));
        },
    }
    assert(r@ =~= routed(mode, input1, input2));
    r
}

} // verus!
