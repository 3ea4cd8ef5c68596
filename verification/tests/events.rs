use shadowguessr::api::Location;
use shadowguessr::hex_codec::HexError;
use shadowguessr::message::BackendMessage;
use shadowguessr::processor::EventProcessor;
use shadowguessr::protocol::{
    Coordinates, Duel, DuelState, GameEvent, GameMap, LiveStreamData, LiveStreamEvent,
    LiveStreamEventWrapper, MapBoundaries, MapBounds, MovementOptions, Panorama, ProtocolError,
    Round, StateOptions,
};
use shadowguessr::radar::RadarState;

fn bits(x: f64) -> u64 {
    x.to_bits()
}

fn panorama(id: &str) -> Panorama {
    Panorama {
        id: id.to_string(),
        latitude: bits(37.826655),
        longitude: bits(-122.42289),
        country_code: String::new(),
        heading: bits(329.14108534270133),
        pitch: bits(-0.18209029651973196),
        zoom: bits(0.0),
    }
}

fn round(number: u8, pano_id: &str) -> Round {
    Round {
        round_number: number,
        panorama: panorama(pano_id),
        has_processed_round_timeout: false,
        is_healing_round: false,
        multiplier: bits(1.0),
        damage_multiplier: bits(1.0),
        start_time: "2026-05-20T22:19:46.0746169Z".to_string(),
        end_time: None,
        timer_start_time: None,
        skipped_by_player_id: None,
    }
}

fn bounds() -> MapBounds {
    MapBounds {
        min: Coordinates { latitude: bits(-54.88672138251638), longitude: bits(-177.39450713648608) },
        max: Coordinates { latitude: bits(78.23591049351379), longitude: bits(178.5434054107903) },
    }
}

fn movement() -> MovementOptions {
    MovementOptions { forbid_moving: false, forbid_zooming: false, forbid_rotating: false }
}

fn state(status: &str, current_round: u8, rounds: Vec<Round>) -> DuelState {
    DuelState {
        game_id: "6a0e337ddb568a66ee576488".to_string(),
        game_server_node_id: "0c870f9bace54aa49579be97cdc29e81".to_string(),
        teams: vec![],
        rounds,
        current_round_number: current_round,
        status: status.to_string(),
        version: 3,
        options: StateOptions {
            initial_health: 6000,
            individual_initial_health: false,
            initial_health_team_one: 6000,
            initial_health_team_two: 6000,
            round_time: 15,
            max_round_time: 0,
            grace_period_time: 1,
            max_number_of_rounds: 0,
            healing_rounds: vec![5],
            movement_options: movement(),
            map_slug: "6983611e411dbe3f3b2a8c5b".to_string(),
            is_rated: true,
            map: GameMap {
                name: "A Figsy World".to_string(),
                slug: "6983611e411dbe3f3b2a8c5b".to_string(),
                bounds: bounds(),
                max_error_distance: 18499075,
            },
            rounds_without_damage_multiplier: 1,
            multiplier_increment: 0,
            round_win_multiplier_increment: 5,
            disable_healing: true,
            is_team_duels: false,
            game_context: None,
            round_starting_behavior: "Default".to_string(),
            competitive_game_mode: "StandardDuels".to_string(),
            count_all_guesses: false,
            master_control_auto_start_rounds: false,
            guess_map_type: "roadmap".to_string(),
            progression_system: 5,
        },
        context: None,
        movement_options: movement(),
        map_bounds: bounds(),
        initial_health: 6000,
        max_number_of_rounds: 0,
        result: None,
        is_paused: false,
    }
}

fn duel(state: DuelState) -> Duel {
    Duel { state, pin: None, from_pano_id: None, location: None, player_id: None }
}

fn duel_started(rounds: Vec<Round>) -> GameEvent {
    GameEvent::DuelStarted {
        game_id: "6a0e337ddb568a66ee576488".to_string(),
        duel: duel(state("Ongoing", 1, rounds)),
        timestamp: "2026-05-20T22:19:42.1772555Z".to_string(),
    }
}

fn sample(event: LiveStreamEvent) -> LiveStreamData {
    LiveStreamData { time: 1779315645752, event: LiveStreamEventWrapper::Known(event) }
}

fn box_event(north: f64) -> LiveStreamEvent {
    LiveStreamEvent::MapBoundingBox {
        north: bits(north),
        east: bits(180.0),
        south: bits(-78.737625),
        west: bits(-180.0),
    }
}

fn pin_event() -> LiveStreamEvent {
    LiveStreamEvent::PinPosition { latitude: bits(50.45), longitude: bits(30.52) }
}

fn samples_from(player: &str) -> GameEvent {
    GameEvent::LiveStreamSamples {
        player_id: player.to_string(),
        payload: vec![
            sample(LiveStreamEvent::MapDisplay { is_active: true, is_sticky: false, size: 4 }),
            sample(box_event(82.515)),
            sample(pin_event()),
            LiveStreamData { time: 1, event: LiveStreamEventWrapper::Unknown("{\"type\":\"X\"}".to_string()) },
            sample(LiveStreamEvent::PanoPov { heading: bits(293.46143), pitch: bits(-8.943378) }),
        ],
    }
}

const PANO_HEX: &str = "4E324A683732617541384A4C706A50306F4A504E3677";

#[test]
fn decode_panorama_id() {
    assert_eq!(panorama(PANO_HEX).decode_id(), Ok("N2Jh72auA8JLpjP0oJPN6w".to_string()));
}

#[test]
fn decode_panorama_id_errors() {
    assert_eq!(
        panorama("4E3").decode_id(),
        Err(ProtocolError::InvalidHexPano(HexError::OddLength))
    );
    assert_eq!(
        panorama("4Ez2").decode_id(),
        Err(ProtocolError::InvalidHexPano(HexError::InvalidHexCharacter { c: 'z', index: 2 }))
    );
    assert_eq!(panorama("ff41").decode_id(), Err(ProtocolError::InvalidUtf8(vec![0xff, 0x41])));
}

#[test]
fn player_panorama_of_latest_round() {
    let event = duel_started(vec![round(1, "4142"), round(2, PANO_HEX)]);
    assert_eq!(event.get_player_panorama(), Ok(Some("N2Jh72auA8JLpjP0oJPN6w".to_string())));
}

#[test]
fn player_panorama_absent() {
    assert_eq!(duel_started(vec![]).get_player_panorama(), Ok(None));
    assert_eq!(GameEvent::HeartBeat.get_player_panorama(), Ok(None));
    let finished = GameEvent::DuelFinished {
        game_id: "g".to_string(),
        duel: duel(state("Finished", 1, vec![round(1, PANO_HEX)])),
        timestamp: "t".to_string(),
    };
    assert_eq!(finished.get_player_panorama(), Ok(None));
}

#[test]
fn player_panorama_error() {
    let event = GameEvent::DuelNewRound {
        game_id: "g".to_string(),
        duel: duel(state("Ongoing", 1, vec![round(1, "zz")])),
        timestamp: "t".to_string(),
    };
    assert_eq!(
        event.get_player_panorama(),
        Err(ProtocolError::InvalidHexPano(HexError::InvalidHexCharacter { c: 'z', index: 0 }))
    );
}

#[test]
fn process_duel_started() {
    let mut processor = EventProcessor::new();
    let event = duel_started(vec![round(1, PANO_HEX)]);
    let plan = processor.process_event(event);
    assert_eq!(plan.panorama_lookup, Some("N2Jh72auA8JLpjP0oJPN6w".to_string()));
    assert_eq!(
        plan.messages,
        vec![BackendMessage::GameStateUpdate(Box::new(state("Ongoing", 1, vec![round(1, PANO_HEX)])))]
    );
    assert_eq!(processor.my_player_id(), None);
}

#[test]
fn process_bad_panorama_skips_lookup_only() {
    let mut processor = EventProcessor::new();
    let plan = processor.process_event(duel_started(vec![round(1, "zz")]));
    assert_eq!(plan.panorama_lookup, None);
    assert_eq!(plan.messages.len(), 1);
}

#[test]
fn process_replace_panorama_looks_up_without_state() {
    let mut processor = EventProcessor::new();
    let plan = processor.process_event(GameEvent::DuelReplaceRoundPanorama {
        game_id: "g".to_string(),
        duel: duel(state("Ongoing", 1, vec![round(1, "4142")])),
        timestamp: "t".to_string(),
    });
    assert_eq!(plan.panorama_lookup, Some("AB".to_string()));
    assert_eq!(plan.messages, vec![]);
}

#[test]
fn process_subscription_then_own_samples() {
    let mut processor = EventProcessor::new();
    let plan = processor.process_event(GameEvent::SubscribeToLiveStream {
        game_id: "g".to_string(),
        player_id: "me".to_string(),
    });
    assert_eq!(plan.panorama_lookup, None);
    assert!(plan.messages.is_empty());
    assert_eq!(processor.my_player_id(), Some(&"me".to_string()));

    let plan = processor.process_event(samples_from("me"));
    assert_eq!(
        plan.messages,
        vec![BackendMessage::MapSync(MapBoundaries {
            north: bits(82.515),
            east: bits(180.0),
            south: bits(-78.737625),
            west: bits(-180.0),
        })]
    );
}

#[test]
fn process_opponent_samples() {
    let mut processor = EventProcessor::new();
    processor.process_event(GameEvent::SubscribeToLiveStream {
        game_id: "g".to_string(),
        player_id: "me".to_string(),
    });
    let plan = processor.process_event(samples_from("opponent"));
    assert_eq!(
        plan.messages,
        vec![BackendMessage::OpponentPin(Location { latitude: bits(50.45), longitude: bits(30.52) })]
    );
}

#[test]
fn process_samples_before_subscription_are_opponent() {
    let mut processor = EventProcessor::new();
    let plan = processor.process_event(samples_from("me"));
    assert_eq!(plan.messages.len(), 1);
    assert!(matches!(plan.messages[0], BackendMessage::OpponentPin(_)));
}

#[test]
fn process_other_events_keep_identity() {
    let mut processor = EventProcessor::new();
    processor.process_event(GameEvent::SubscribeToLiveStream {
        game_id: "g".to_string(),
        player_id: "me".to_string(),
    });
    let plan = processor.process_event(GameEvent::SubscribeToLobby {
        game_id: "g".to_string(),
        player_id: "someone".to_string(),
    });
    assert!(plan.messages.is_empty());
    let plan = processor.process_event(GameEvent::HeartBeat);
    assert!(plan.messages.is_empty());
    assert_eq!(processor.my_player_id(), Some(&"me".to_string()));
}

fn loc(x: f64) -> Location {
    Location { latitude: bits(x), longitude: bits(-x) }
}

#[test]
fn radar_locations_and_bounds() {
    let mut radar = RadarState::new();
    radar.apply(BackendMessage::PlayerLocation(loc(1.0)));
    radar.apply(BackendMessage::OpponentPin(loc(2.0)));
    let b = MapBoundaries { north: bits(1.0), east: bits(2.0), south: bits(3.0), west: bits(4.0) };
    radar.apply(BackendMessage::MapSync(b));
    assert_eq!(radar.player_location, Some(loc(1.0)));
    assert_eq!(radar.opponent_pin, Some(loc(2.0)));
    assert_eq!(radar.map_bounds, Some(b));
    assert_eq!(radar.game_state, None);
}

#[test]
fn radar_new_round_clears_pins() {
    let mut radar = RadarState::new();
    radar.apply(BackendMessage::GameStateUpdate(Box::new(state("Ongoing", 1, vec![]))));
    radar.apply(BackendMessage::PlayerLocation(loc(1.0)));
    radar.apply(BackendMessage::OpponentPin(loc(2.0)));
    // same round: kept
    radar.apply(BackendMessage::GameStateUpdate(Box::new(state("Ongoing", 1, vec![]))));
    assert_eq!(radar.player_location, Some(loc(1.0)));
    assert_eq!(radar.opponent_pin, Some(loc(2.0)));
    // next round: dropped
    radar.apply(BackendMessage::GameStateUpdate(Box::new(state("Ongoing", 2, vec![]))));
    assert_eq!(radar.player_location, None);
    assert_eq!(radar.opponent_pin, None);
    assert_eq!(radar.game_state.as_ref().map(|s| s.current_round_number), Some(2));
}

#[test]
fn radar_first_state_clears_pins() {
    let mut radar = RadarState::new();
    radar.apply(BackendMessage::PlayerLocation(loc(1.0)));
    radar.apply(BackendMessage::GameStateUpdate(Box::new(state("Ongoing", 1, vec![]))));
    assert_eq!(radar.player_location, None);
}

#[test]
fn radar_finished_and_canceled_clear_everything() {
    for status in ["Finished", "Canceled"] {
        let mut radar = RadarState::new();
        radar.apply(BackendMessage::GameStateUpdate(Box::new(state("Ongoing", 1, vec![]))));
        radar.apply(BackendMessage::PlayerLocation(loc(1.0)));
        radar.apply(BackendMessage::MapSync(MapBoundaries { north: 1, east: 2, south: 3, west: 4 }));
        radar.apply(BackendMessage::GameStateUpdate(Box::new(state(status, 1, vec![]))));
        assert_eq!(radar, RadarState::new());
    }
}

#[test]
fn forward_puts_state_before_location() {
    let mut processor = EventProcessor::new();
    let plan = processor.process_event(duel_started(vec![round(1, PANO_HEX)]));
    let forwarded = plan.forward(Some(loc(5.0)));
    assert_eq!(
        forwarded,
        vec![
            BackendMessage::GameStateUpdate(Box::new(state("Ongoing", 1, vec![round(1, PANO_HEX)]))),
            BackendMessage::PlayerLocation(loc(5.0)),
        ]
    );
}

#[test]
fn forward_without_location() {
    let mut processor = EventProcessor::new();
    let plan = processor.process_event(GameEvent::HeartBeat);
    assert_eq!(plan.forward(None), vec![]);
}

#[test]
fn radar_shows_location_of_new_round() {
    let mut radar = RadarState::new();
    radar.apply(BackendMessage::GameStateUpdate(Box::new(state("Ongoing", 1, vec![round(1, PANO_HEX)]))));
    radar.apply(BackendMessage::PlayerLocation(loc(1.0)));
    let mut processor = EventProcessor::new();
    let plan = processor.process_event(GameEvent::DuelNewRound {
        game_id: "g".to_string(),
        duel: duel(state("Ongoing", 2, vec![round(1, PANO_HEX), round(2, "4142")])),
        timestamp: "t".to_string(),
    });
    assert_eq!(plan.panorama_lookup, Some("AB".to_string()));
    radar.apply_all(plan.forward(Some(loc(7.0))));
    assert_eq!(radar.player_location, Some(loc(7.0)));
    assert_eq!(radar.game_state.as_ref().map(|s| s.current_round_number), Some(2));
}

#[test]
fn radar_apply_all_in_order() {
    let mut one_by_one = RadarState::new();
    let messages = vec![
        BackendMessage::PlayerLocation(loc(1.0)),
        BackendMessage::GameStateUpdate(Box::new(state("Ongoing", 1, vec![]))),
        BackendMessage::OpponentPin(loc(2.0)),
        BackendMessage::PlayerLocation(loc(3.0)),
    ];
    for m in messages.clone() {
        one_by_one.apply(m);
    }
    let mut all = RadarState::new();
    all.apply_all(messages);
    assert_eq!(all, one_by_one);
    assert_eq!(all.player_location, Some(loc(3.0)));
    assert_eq!(all.opponent_pin, Some(loc(2.0)));
    let mut empty = RadarState::new();
    empty.apply_all(vec![]);
    assert_eq!(empty, RadarState::new());
}
