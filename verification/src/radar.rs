//! What the main page shows of the capture side: the round location, the
//! opponent's pin, the synchronised map rectangle and the duel state, kept up
//! to date from the messages of the capture worker.

use vstd::prelude::*;
use vstd::string::StringExecFns;

use crate::api::Location;
use crate::message::BackendMessage;
use crate::processor::{event_messages, forwarded_messages};
use crate::protocol::{Duel, DuelState, GameEvent, MapBoundaries};

verus! {

/// The duel is over: its status is `Finished` or `Canceled`.
pub open spec fn is_over(state: DuelState) -> bool {
    state.status@ == "Finished"@ || state.status@ == "Canceled"@
}

/// A new duel state starts a new round when no state was shown before or the
/// round number changed.
pub open spec fn starts_new_round(shown: Option<Box<DuelState>>, state: DuelState) -> bool {
    match shown {
        Some(old) => old.current_round_number != state.current_round_number,
        None => true,
    }
}

/// The backend data of the main page.
#[derive(Debug, Clone, PartialEq)]
pub struct RadarState {
    pub player_location: Option<Location>,
    pub opponent_pin: Option<Location>,
    pub map_bounds: Option<MapBoundaries>,
    pub game_state: Option<Box<DuelState>>,
}

/// The state after one message.
pub open spec fn radar_step(s: RadarState, message: BackendMessage) -> RadarState {
    match message {
        BackendMessage::PlayerLocation(location) => RadarState {
            player_location: Some(location),
            ..s
        },
        BackendMessage::OpponentPin(location) => RadarState { opponent_pin: Some(location), ..s },
        BackendMessage::MapSync(bounds) => RadarState { map_bounds: Some(bounds), ..s },
        BackendMessage::GameStateUpdate(state) => if is_over(*state) {
            RadarState {
                player_location: None,
                opponent_pin: None,
                map_bounds: None,
                game_state: None,
            }
        } else if starts_new_round(s.game_state, *state) {
            RadarState {
                player_location: None,
                opponent_pin: None,
                map_bounds: s.map_bounds,
                game_state: Some(state),
            }
        } else {
            RadarState { game_state: Some(state), ..s }
        },
    }
}

/// The state after the messages, applied one after the other in order.
pub open spec fn radar_steps(s: RadarState, messages: Seq<BackendMessage>) -> RadarState
    decreases messages.len(),
{
    if messages.len() == 0 {
        s
    } else {
        radar_step(radar_steps(s, messages.drop_last()), messages.last())
    }
}

impl RadarState {
    /// Nothing shown yet.
    pub fn new() -> (res: Self)
        ensures
            res.player_location is None,
            res.opponent_pin is None,
            res.map_bounds is None,
            res.game_state is None,
    {
        RadarState { player_location: None, opponent_pin: None, map_bounds: None, game_state: None }
    }

    /// Applies one message of the capture worker: a location, pin or map
    /// rectangle replaces the one shown; a finished or cancelled duel clears
    /// everything; a duel state of a new round clears the location and the
    /// pin of the previous round; any other duel state replaces the one shown.
    pub fn apply(&mut self, message: BackendMessage)
        ensures
            *final(self) == radar_step(*old(self), message),
    {
        match message {
            BackendMessage::PlayerLocation(location) => {
                self.player_location = Some(location);
            },
            BackendMessage::OpponentPin(location) => {
                self.opponent_pin = Some(location);
            },
            BackendMessage::MapSync(bounds) => {
                self.map_bounds = Some(bounds);
            },
            BackendMessage::GameStateUpdate(state) => {
                let finished = String::from_str("Finished");
                let canceled = String::from_str("Canceled");
                if state.status == finished || state.status == canceled {
                    self.game_state = None;
                    self.player_location = None;
                    self.opponent_pin = None;
                    self.map_bounds = None;
                    return;
                }
                let is_new_round = match &self.game_state {
                    Some(old_state) => old_state.current_round_number != state.current_round_number,
                    None => true,
                };
                if is_new_round {
                    self.player_location = None;
                    self.opponent_pin = None;
                }
                self.game_state = Some(state);
            },
        }
    }

    /// Applies the messages waiting on the channel, each once, in the order
    /// they were sent.
    pub fn apply_all(&mut self, messages: Vec<BackendMessage>)
        ensures
            *final(self) == radar_steps(*old(self), messages@),
    {
        let ghost start = *self;
        let ghost all = messages@;
        broadcast use vstd::std_specs::vec::axiom_spec_into_iter;
        for message in it: messages.into_iter()
            invariant
                it.seq() == all,
                *self == radar_steps(start, all.take(it.index())),
        {
            proof {
                assert(all.take(it.index() + 1).drop_last() =~= all.take(it.index()));
            }
            self.apply(message);
        }
        proof {
            assert(all.take(all.len() as int) =~= all);
        }
    }
}

/// A finished or cancelled duel clears everything shown.
pub proof fn lemma_finished_duel_clears(s: RadarState, state: Box<DuelState>)
    requires
        is_over(*state),
    ensures
        radar_step(s, BackendMessage::GameStateUpdate(state)) == (RadarState {
            player_location: None,
            opponent_pin: None,
            map_bounds: None,
            game_state: None,
        }),
{
}

/// A duel state of a new round drops the location and pin of the previous
/// round, keeps the map rectangle, and is shown.
pub proof fn lemma_new_round_clears_pins(s: RadarState, state: Box<DuelState>)
    requires
        !is_over(*state),
        starts_new_round(s.game_state, *state),
    ensures
        radar_step(s, BackendMessage::GameStateUpdate(state)).player_location is None,
        radar_step(s, BackendMessage::GameStateUpdate(state)).opponent_pin is None,
        radar_step(s, BackendMessage::GameStateUpdate(state)).map_bounds == s.map_bounds,
        radar_step(s, BackendMessage::GameStateUpdate(state)).game_state == Some(state),
{
}

/// A duel state of the round already shown keeps the location and pin.
pub proof fn lemma_same_round_keeps_pins(s: RadarState, state: Box<DuelState>)
    requires
        !is_over(*state),
        !starts_new_round(s.game_state, *state),
    ensures
        radar_step(s, BackendMessage::GameStateUpdate(state)) == (RadarState {
            game_state: Some(state),
            ..s
        }),
{
}

/// A location, pin or map rectangle replaces only what it is about.
pub proof fn lemma_positions_replace_own_field(s: RadarState, location: Location, bounds: MapBoundaries)
    ensures
        radar_step(s, BackendMessage::PlayerLocation(location)) == (RadarState {
            player_location: Some(location),
            ..s
        }),
        radar_step(s, BackendMessage::OpponentPin(location)) == (RadarState {
            opponent_pin: Some(location),
            ..s
        }),
        radar_step(s, BackendMessage::MapSync(bounds)) == (RadarState { map_bounds: Some(bounds), ..s }),
{
}

/// The location looked up for a duel start or a new round is shown together
/// with the new duel state: the state is forwarded before the location, so the
/// new-round rule does not erase it.
pub proof fn lemma_round_location_is_shown(
    s: RadarState,
    me: Option<Seq<char>>,
    game_id: String,
    duel: Duel,
    timestamp: String,
    location: Location,
)
    requires
        !is_over(duel.state),
    ensures
        ({
            let started = GameEvent::DuelStarted { game_id, duel, timestamp };
            let after = radar_steps(s, forwarded_messages(event_messages(me, started), Some(location)));
            &&& after.player_location == Some(location)
            &&& after.game_state == Some(Box::new(duel.state))
        }),
        ({
            let new_round = GameEvent::DuelNewRound { game_id, duel, timestamp };
            let after = radar_steps(s, forwarded_messages(event_messages(me, new_round), Some(location)));
            &&& after.player_location == Some(location)
            &&& after.game_state == Some(Box::new(duel.state))
        }),
{
    let msgs = seq![BackendMessage::GameStateUpdate(Box::new(duel.state))].push(
        BackendMessage::PlayerLocation(location),
    );
    let first = seq![BackendMessage::GameStateUpdate(Box::new(duel.state))];
    assert(msgs.drop_last() =~= first);
    assert(first.drop_last() =~= Seq::<BackendMessage>::empty());
    assert(radar_steps(s, Seq::<BackendMessage>::empty()) == s);
    assert(radar_steps(s, first.drop_last()) == s);
    assert(radar_steps(s, first) == radar_step(s, first.last()));
    let mid = radar_step(s, BackendMessage::GameStateUpdate(Box::new(duel.state)));
    assert(mid.game_state == Some(Box::new(duel.state)));
    assert(radar_steps(s, msgs) == radar_step(mid, BackendMessage::PlayerLocation(location)));
    let started = GameEvent::DuelStarted { game_id, duel, timestamp };
    let new_round = GameEvent::DuelNewRound { game_id, duel, timestamp };
    assert(forwarded_messages(event_messages(me, started), Some(location)) == msgs);
    assert(forwarded_messages(event_messages(me, new_round), Some(location)) == msgs);
}

/// The end of a duel clears the radar: a finished or cancelled duel state,
/// forwarded for a `DuelFinished` event (which looks nothing up), leaves no
/// location, pin, map rectangle or duel state shown.
pub proof fn lemma_duel_end_clears_radar(
    s: RadarState,
    me: Option<Seq<char>>,
    game_id: String,
    duel: Duel,
    timestamp: String,
)
    requires
        duel.state.status@ == "Finished"@ || duel.state.status@ == "Canceled"@,
    ensures
        radar_steps(
            s,
            forwarded_messages(
                event_messages(me, GameEvent::DuelFinished { game_id, duel, timestamp }),
                None,
            ),
        ) == (RadarState { player_location: None, opponent_pin: None, map_bounds: None, game_state: None }),
{
    let first = seq![BackendMessage::GameStateUpdate(Box::new(duel.state))];
    assert(first.drop_last() =~= Seq::<BackendMessage>::empty());
    assert(radar_steps(s, Seq::<BackendMessage>::empty()) == s);
    assert(radar_steps(s, first.drop_last()) == s);
}

/// Whether a duel state of a running duel keeps the location and the pin is
/// decided by the round number alone: a different round number than the one
/// shown (or no duel shown) drops them, the same round number keeps them.
pub proof fn lemma_round_number_decides(s: RadarState, state: Box<DuelState>)
    requires
        state.status@ != "Finished"@,
        state.status@ != "Canceled"@,
    ensures
        ({
            let after = radar_step(s, BackendMessage::GameStateUpdate(state));
            &&& after.game_state == Some(state)
            &&& after.map_bounds == s.map_bounds
            &&& (s.game_state matches Some(shown) && shown.current_round_number
                == state.current_round_number) ==> after.player_location == s.player_location
                && after.opponent_pin == s.opponent_pin
            &&& !(s.game_state matches Some(shown) && shown.current_round_number
                == state.current_round_number) ==> after.player_location is None
                && after.opponent_pin is None
        }),
{
}

/// Applying no message changes nothing, and applying one more message applies
/// it after all the earlier ones.
pub proof fn lemma_radar_steps_in_order(s: RadarState, messages: Seq<BackendMessage>, message: BackendMessage)
    ensures
        radar_steps(s, Seq::empty()) == s,
        radar_steps(s, messages.push(message)) == radar_step(radar_steps(s, messages), message),
{
    assert(messages.push(message).drop_last() =~= messages);
}

} // verus!
