//! Decisions of the capture worker on each decoded protocol event: which
//! panorama to look up, which messages to forward to the user interface, and
//! which player is "me".

use vstd::prelude::*;

use crate::api::Location;
use crate::message::BackendMessage;
use crate::protocol::{
    decoded_id, panorama_round, Duel, GameEvent, LiveStreamData, LiveStreamEvent,
    LiveStreamEventWrapper, MapBoundaries,
};

verus! {

/// The message a live sample yields: the player's own map rectangle, or the
/// opponent's pin; nothing for other samples.
pub open spec fn sample_message(is_me: bool, sample: LiveStreamData) -> Option<BackendMessage> {
    match sample.event {
        LiveStreamEventWrapper::Known(LiveStreamEvent::MapBoundingBox { north, east, south, west }) =>
            if is_me {
            Some(BackendMessage::MapSync(MapBoundaries { north, east, south, west }))
        } else {
            None
        },
        LiveStreamEventWrapper::Known(LiveStreamEvent::PinPosition { latitude, longitude }) =>
            if !is_me {
            Some(BackendMessage::OpponentPin(Location { latitude, longitude }))
        } else {
            None
        },
        _ => None,
    }
}

/// The messages a sequence of live samples yields, in order.
pub open spec fn sample_messages(is_me: bool, samples: Seq<LiveStreamData>) -> Seq<BackendMessage>
    decreases samples.len(),
{
    if samples.len() == 0 {
        Seq::empty()
    } else {
        let rest = sample_messages(is_me, samples.drop_last());
        match sample_message(is_me, samples.last()) {
            Some(m) => rest.push(m),
            None => rest,
        }
    }
}

/// The messages an event yields when `me` is the player known as "me".
pub open spec fn event_messages(me: Option<Seq<char>>, event: GameEvent) -> Seq<BackendMessage> {
    match event {
        GameEvent::DuelStarted { duel, .. } => seq![BackendMessage::GameStateUpdate(Box::new(duel.state))],
        GameEvent::DuelNewRound { duel, .. } => seq![BackendMessage::GameStateUpdate(Box::new(duel.state))],
        GameEvent::DuelFinished { duel, .. } => seq![BackendMessage::GameStateUpdate(Box::new(duel.state))],
        GameEvent::LiveStreamSamples { player_id, payload } => sample_messages(
            me == Some(player_id@),
            payload@,
        ),
        _ => Seq::empty(),
    }
}

/// The player known as "me" after an event: the player of a live-stream
/// subscription, otherwise unchanged.
pub open spec fn next_me(me: Option<Seq<char>>, event: GameEvent) -> Option<Seq<char>> {
    match event {
        GameEvent::SubscribeToLiveStream { player_id, .. } => Some(player_id@),
        _ => me,
    }
}

/// The panorama to look up for an event: the decoded identifier of the latest
/// round of a duel event that announces one, when it decodes.
pub open spec fn panorama_lookup(event: GameEvent) -> Option<Seq<char>> {
    match panorama_round(event) {
        Some(round) => decoded_id(round.panorama.id@),
        None => None,
    }
}

/// What to do for one event: look up the panorama (if any), then forward the
/// messages followed by the location the lookup found (see `forward`).
#[derive(Debug, PartialEq)]
pub struct EventPlan {
    pub panorama_lookup: Option<String>,
    pub messages: Vec<BackendMessage>,
}

/// The messages forwarded for an event: its own messages (the duel state of a
/// round event among them), then the location that the panorama lookup found.
pub open spec fn forwarded_messages(messages: Seq<BackendMessage>, found: Option<Location>) -> Seq<
    BackendMessage,
> {
    match found {
        Some(location) => messages.push(BackendMessage::PlayerLocation(location)),
        None => messages,
    }
}

impl EventPlan {
    /// The messages to forward once the panorama lookup has answered `found`:
    /// the duel state comes before the round's location, so that the new
    /// round does not erase the location it was looked up for.
    pub fn forward(self, found: Option<Location>) -> (res: Vec<BackendMessage>)
        ensures
            res@ == forwarded_messages(self.messages@, found),
    {
        let mut messages = self.messages;
        match found {
            Some(location) => messages.push(BackendMessage::PlayerLocation(location)),
            None => {},
        }
        messages
    }
}

/// The state the worker keeps between events: the player whose telemetry is
/// "mine" (learnt from the live-stream subscription).
#[derive(Debug)]
pub struct EventProcessor {
    my_player_id: Option<String>,
}

impl EventProcessor {
    /// The player known as "me".
    pub closed spec fn me(&self) -> Option<Seq<char>> {
        match self.my_player_id {
            Some(id) => Some(id@),
            None => None,
        }
    }

    /// A processor that tracks no player yet.
    pub fn new() -> (res: Self)
        ensures
            res.me() is None,
    {
        EventProcessor { my_player_id: None }
    }

    /// The player known as "me", if any.
    pub fn my_player_id(&self) -> (res: Option<&String>)
        ensures
            match res {
                Some(id) => self.me() == Some(id@),
                None => self.me() is None,
            },
    {
        match &self.my_player_id {
            Some(id) => Some(id),
            None => None,
        }
    }

    /// Decides what an event leads to. The panorama of a round event is to be
    /// looked up (an identifier that does not decode is skipped); duel start,
    /// new round and finish forward the duel state; a live-stream subscription
    /// sets the player known as "me"; live samples of that player forward its
    /// map rectangle, those of anyone else forward their pin.
    pub fn process_event(&mut self, event: GameEvent) -> (plan: EventPlan)
        ensures
            final(self).me() == next_me(old(self).me(), event),
            match plan.panorama_lookup {
                Some(id) => panorama_lookup(event) == Some(id@),
                None => panorama_lookup(event) is None,
            },
            plan.messages@ == event_messages(old(self).me(), event),
    {
        let panorama_lookup = match event.get_player_panorama() {
            Ok(Some(id)) => Some(id),
            _ => None,
        };
        let mut messages: Vec<BackendMessage> = Vec::new();
        match event {
            GameEvent::DuelStarted { duel, .. } => {
                messages.push(BackendMessage::GameStateUpdate(Box::new(duel.state)));
            },
            GameEvent::DuelNewRound { duel, .. } => {
                messages.push(BackendMessage::GameStateUpdate(Box::new(duel.state)));
            },
            GameEvent::DuelFinished { duel, .. } => {
                messages.push(BackendMessage::GameStateUpdate(Box::new(duel.state)));
            },
            GameEvent::SubscribeToLiveStream { player_id, .. } => {
                self.my_player_id = Some(player_id);
            },
            GameEvent::LiveStreamSamples { player_id, payload } => {
                let is_me = match &self.my_player_id {
                    Some(id) => *id == player_id,
                    None => false,
                };
                let mut i: usize = 0;
                while i < payload.len()
                    invariant
                        i <= payload@.len(),
                        messages@ == sample_messages(is_me, payload@.take(i as int)),
                    decreases payload@.len() - i,
                {
                    assert(payload@.take(i + 1).drop_last() =~= payload@.take(i as int));
                    match &payload[i].event {
                        LiveStreamEventWrapper::Known(
                            LiveStreamEvent::MapBoundingBox { north, east, south, west },
                        ) => {
                            if is_me {
                                messages.push(
                                    BackendMessage::MapSync(
                                        MapBoundaries {
                                            north: *north,
                                            east: *east,
                                            south: *south,
                                            west: *west,
                                        },
                                    ),
                                );
                            }
                        },
                        LiveStreamEventWrapper::Known(
                            LiveStreamEvent::PinPosition { latitude, longitude },
                        ) => {
                            if !is_me {
                                messages.push(
                                    BackendMessage::OpponentPin(
                                        Location { latitude: *latitude, longitude: *longitude },
                                    ),
                                );
                            }
                        },
                        _ => {},
                    }
                    i += 1;
                }
                assert(payload@.take(payload@.len() as int) =~= payload@);
            },
            _ => {},
        }
        EventPlan { panorama_lookup, messages }
    }
}

/// Telemetry is routed by identity: the player's own live samples yield only
/// map synchronisations, anyone else's yield only opponent pins.
pub proof fn lemma_samples_routed_by_identity(is_me: bool, samples: Seq<LiveStreamData>)
    ensures
        forall|i: int|
            0 <= i < sample_messages(is_me, samples).len() ==> if is_me {
                #[trigger] sample_messages(is_me, samples)[i] is MapSync
            } else {
                sample_messages(is_me, samples)[i] is OpponentPin
            },
        sample_messages(is_me, samples).len() <= samples.len(),
    decreases samples.len(),
{
    if samples.len() > 0 {
        lemma_samples_routed_by_identity(is_me, samples.drop_last());
    }
}

/// Once a live-stream subscription names a player, that player's samples are
/// treated as "mine" (only map rectangles are forwarded) and any other
/// player's samples as the opponent's (only pins are forwarded).
pub proof fn lemma_subscription_sets_identity(
    me: Option<Seq<char>>,
    game_id: String,
    subscriber: String,
    sender: String,
    payload: Vec<LiveStreamData>,
)
    ensures
        ({
            let after = next_me(
                me,
                GameEvent::SubscribeToLiveStream { game_id, player_id: subscriber },
            );
            let msgs = event_messages(
                after,
                GameEvent::LiveStreamSamples { player_id: sender, payload },
            );
            &&& after == Some(subscriber@)
            &&& msgs == sample_messages(subscriber@ == sender@, payload@)
            &&& forall|i: int|
                0 <= i < msgs.len() ==> if subscriber@ == sender@ {
                    #[trigger] msgs[i] is MapSync
                } else {
                    msgs[i] is OpponentPin
                }
        }),
{
    lemma_samples_routed_by_identity(subscriber@ == sender@, payload@);
}

/// Before any live-stream subscription every live sample is the opponent's:
/// only pins are forwarded.
pub proof fn lemma_no_identity_means_opponent(sender: String, payload: Vec<LiveStreamData>)
    ensures
        forall|i: int|
            0 <= i < event_messages(None, GameEvent::LiveStreamSamples { player_id: sender, payload }).len()
                ==> #[trigger] event_messages(
                None,
                GameEvent::LiveStreamSamples { player_id: sender, payload },
            )[i] is OpponentPin,
{
    lemma_samples_routed_by_identity(false, payload@);
}

/// A batch without samples forwards nothing, and each further sample adds its
/// own message at the end: the player's own map rectangle, or another
/// player's pin.
pub proof fn lemma_each_sample_forwarded(is_me: bool, samples: Seq<LiveStreamData>, sample: LiveStreamData)
    ensures
        sample_messages(is_me, Seq::empty()) == Seq::<BackendMessage>::empty(),
        sample_messages(is_me, samples.push(sample)) == sample_messages(is_me, samples) + match sample.event {
            LiveStreamEventWrapper::Known(LiveStreamEvent::MapBoundingBox { north, east, south, west }) =>
                if is_me {
                seq![BackendMessage::MapSync(MapBoundaries { north, east, south, west })]
            } else {
                Seq::empty()
            },
            LiveStreamEventWrapper::Known(LiveStreamEvent::PinPosition { latitude, longitude }) =>
                if is_me {
                Seq::empty()
            } else {
                seq![BackendMessage::OpponentPin(Location { latitude, longitude })]
            },
            _ => Seq::empty(),
        },
{
    assert(samples.push(sample).drop_last() =~= samples);
    let rest = sample_messages(is_me, samples);
    match sample.event {
        LiveStreamEventWrapper::Known(LiveStreamEvent::MapBoundingBox { north, east, south, west }) => {
            let m = BackendMessage::MapSync(MapBoundaries { north, east, south, west });
            assert(rest.push(m) =~= rest + seq![m]);
        },
        LiveStreamEventWrapper::Known(LiveStreamEvent::PinPosition { latitude, longitude }) => {
            let m = BackendMessage::OpponentPin(Location { latitude, longitude });
            assert(rest.push(m) =~= rest + seq![m]);
        },
        _ => {
            assert(rest + Seq::<BackendMessage>::empty() =~= rest);
        },
    }
}

/// A live-stream batch of another player holding one pin forwards exactly that
/// pin; the same batch from the player known as "me" forwards nothing.
pub proof fn lemma_single_pin_forwarded(me: Seq<char>, sender: String, payload: Vec<LiveStreamData>, time: u64, latitude: u64, longitude: u64)
    requires
        payload@ == seq![LiveStreamData { time, event: LiveStreamEventWrapper::Known(LiveStreamEvent::PinPosition { latitude, longitude }) }],
    ensures
        me != sender@ ==> event_messages(Some(me), GameEvent::LiveStreamSamples { player_id: sender, payload })
            == seq![BackendMessage::OpponentPin(Location { latitude, longitude })],
        me == sender@ ==> event_messages(Some(me), GameEvent::LiveStreamSamples { player_id: sender, payload })
            == Seq::<BackendMessage>::empty(),
{
    lemma_each_sample_forwarded(me == sender@, Seq::empty(), payload@[0]);
    assert(Seq::<LiveStreamData>::empty().push(payload@[0]) =~= payload@);
}

/// The duel state is forwarded, alone, for a duel start, a new round and the
/// end of a duel; no panorama is looked up at the end of a duel.
pub proof fn lemma_duel_state_forwarded(me: Option<Seq<char>>, game_id: String, duel: Duel, timestamp: String)
    ensures
        event_messages(me, GameEvent::DuelStarted { game_id, duel, timestamp }) == seq![
            BackendMessage::GameStateUpdate(Box::new(duel.state)),
        ],
        event_messages(me, GameEvent::DuelNewRound { game_id, duel, timestamp }) == seq![
            BackendMessage::GameStateUpdate(Box::new(duel.state)),
        ],
        event_messages(me, GameEvent::DuelFinished { game_id, duel, timestamp }) == seq![
            BackendMessage::GameStateUpdate(Box::new(duel.state)),
        ],
        panorama_lookup(GameEvent::DuelFinished { game_id, duel, timestamp }) is None,
        next_me(me, GameEvent::DuelFinished { game_id, duel, timestamp }) == me,
{
}

/// Only a live-stream subscription changes the player known as "me"; it makes
/// the subscribing player "me".
pub proof fn lemma_identity_changes_only_on_subscription(me: Option<Seq<char>>, event: GameEvent)
    ensures
        !(event is SubscribeToLiveStream) ==> next_me(me, event) == me,
        match event {
            GameEvent::SubscribeToLiveStream { player_id, .. } => next_me(me, event) == Some(player_id@),
            _ => true,
        },
{
}

/// Events other than a duel start, a new round, the end of a duel and a
/// live-stream batch forward nothing.
pub proof fn lemma_other_events_forward_nothing(me: Option<Seq<char>>, event: GameEvent)
    requires
        !(event is DuelStarted || event is DuelNewRound || event is DuelFinished
            || event is LiveStreamSamples),
    ensures
        event_messages(me, event) == Seq::<BackendMessage>::empty(),
{
}

/// The location found by the lookup is forwarded after all the event's own
/// messages; without a location only the event's messages are forwarded.
pub proof fn lemma_location_forwarded_last(messages: Seq<BackendMessage>, location: Location)
    ensures
        forwarded_messages(messages, Some(location)) == messages + seq![BackendMessage::PlayerLocation(location)],
        forwarded_messages(messages, None) == messages,
{
    assert(messages.push(BackendMessage::PlayerLocation(location)) =~= messages + seq![
        BackendMessage::PlayerLocation(location),
    ]);
}

} // verus!
