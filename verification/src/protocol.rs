//! The GeoGuessr real-time protocol as the library sees it.
//!
//! Numbers that the protocol sends as floating point are held as their
//! IEEE 754 bit patterns (`f64::to_bits`); fields of undocumented shape are
//! held as their JSON text.

use vstd::prelude::*;
use vstd::string::StringSliceAdditionalSpecFns;
use vstd::utf8::*;

use crate::hex_codec::{decode_hex, hex_decode, hex_encode, lemma_hex_roundtrip, HexError};
use crate::text::string_from_utf8;

verus! {

/// A decoded protocol message: a known event, or the JSON text of one of
/// unknown shape.
#[derive(Debug, Clone, PartialEq)]
pub enum GameEventWrapper {
    Known(Box<GameEvent>),
    Unknown(String),
}

/// Events of the lobby, duel, live-stream, matchmaking and chat channels.
#[derive(Debug, Clone, PartialEq)]
pub enum GameEvent {
    SubscribeToLobby { game_id: String, player_id: String },
    SubscribeToLiveStream { game_id: String, player_id: String },
    DuelStarted { game_id: String, duel: Duel, timestamp: String },
    DuelNewRound { game_id: String, duel: Duel, timestamp: String },
    DuelPlayerGuessed { game_id: String, duel: Duel, timestamp: String },
    DuelPinPlaced { game_id: String, duel: Duel, timestamp: String },
    DuelRoundTimedOut { game_id: String, duel: Duel, timestamp: String },
    DuelFinished { game_id: String, duel: Duel, timestamp: String },
    DuelReplaceRoundPanorama { game_id: String, duel: Duel, timestamp: String },
    LiveStreamSamples { player_id: String, payload: Vec<LiveStreamData> },
    HeartBeat,
    Subscribe { topic: String, client: String },
    Unsubscribe { topic: String, client: String },
    Subscribed { topic: String, level: String },
    SubscribeToMatchmaking { topic: String, client: String, payload: MatchmakingSubscribe },
    /// `payload` is the JSON text of a `MatchmakingJoinInfo`.
    MatchmakingJoined {
        topic: String,
        client: String,
        timestamp: String,
        access_token: Option<String>,
        payload: String,
    },
    /// `payload` is the JSON text of a `MatchmakingMatchInfo`.
    MatchmakingMatched {
        topic: String,
        client: String,
        timestamp: String,
        access_token: Option<String>,
        payload: String,
    },
    /// `payload` is an emoji.
    ChatEmote { client: String, topic: String, payload: String },
    /// `payload` is the JSON text of a `ChatMessageInfo`.
    ChatMessage {
        topic: String,
        client: String,
        timestamp: String,
        access_token: Option<String>,
        payload: String,
    },
    ChatDisconnect { topic: String, client: String },
}

/// A duel snapshot; the optional fields of unknown shape are JSON text.
#[derive(Debug, Clone, PartialEq)]
pub struct Duel {
    pub state: DuelState,
    pub pin: Option<Coordinates>,
    pub from_pano_id: Option<String>,
    pub location: Option<String>,
    pub player_id: Option<String>,
}

/// The state of a duel: teams, rounds played so far and the options.
#[derive(Debug, Clone, PartialEq)]
pub struct DuelState {
    pub game_id: String,
    pub game_server_node_id: String,
    pub teams: Vec<Team>,
    pub rounds: Vec<Round>,
    pub current_round_number: u8,
    pub status: String,
    pub version: i32,
    pub options: StateOptions,
    /// JSON text.
    pub context: Option<String>,
    pub movement_options: MovementOptions,
    pub map_bounds: MapBounds,
    pub initial_health: u32,
    pub max_number_of_rounds: u8,
    pub result: Option<GameResult>,
    pub is_paused: bool,
}

/// A team; `current_multiplier` is an `f64` bit pattern.
#[derive(Debug, Clone, PartialEq)]
pub struct Team {
    pub id: String,
    pub name: String,
    pub health: u32,
    pub players: Vec<Player>,
    pub round_results: Vec<RoundResult>,
    pub current_multiplier: u64,
}

#[derive(Debug, Clone, PartialEq)]
pub struct Player {
    pub id: String,
    pub guesses: Vec<Guess>,
    pub rating: u32,
    pub country_code: String,
    pub progress_change: Option<ProgressChange>,
    pub pin: Option<Coordinates>,
    pub help_requested: bool,
    pub is_steam: bool,
}

/// A round; `multiplier` and `damage_multiplier` are `f64` bit patterns,
/// `skipped_by_player_id` is JSON text.
#[derive(Debug, Clone, PartialEq)]
pub struct Round {
    pub round_number: u8,
    pub panorama: Panorama,
    pub has_processed_round_timeout: bool,
    pub is_healing_round: bool,
    pub multiplier: u64,
    pub damage_multiplier: u64,
    pub start_time: String,
    pub end_time: Option<String>,
    pub timer_start_time: Option<String>,
    pub skipped_by_player_id: Option<String>,
}

/// The panorama of a round. `id` is hexadecimal text of the UTF-8 bytes of
/// the panorama identifier; the other numbers are `f64` bit patterns.
#[derive(Debug, Clone, PartialEq)]
pub struct Panorama {
    pub id: String,
    pub latitude: u64,
    pub longitude: u64,
    pub country_code: String,
    pub heading: u64,
    pub pitch: u64,
    pub zoom: u64,
}

#[derive(Debug, Clone, PartialEq)]
pub struct StateOptions {
    pub initial_health: u32,
    pub individual_initial_health: bool,
    pub initial_health_team_one: u32,
    pub initial_health_team_two: u32,
    pub round_time: u32,
    pub max_round_time: u32,
    pub grace_period_time: i32,
    pub max_number_of_rounds: u32,
    pub healing_rounds: Vec<i32>,
    pub movement_options: MovementOptions,
    pub map_slug: String,
    pub is_rated: bool,
    pub map: GameMap,
    pub rounds_without_damage_multiplier: i32,
    pub multiplier_increment: i32,
    pub round_win_multiplier_increment: i32,
    pub disable_healing: bool,
    pub is_team_duels: bool,
    /// JSON text.
    pub game_context: Option<String>,
    pub round_starting_behavior: String,
    pub competitive_game_mode: String,
    pub count_all_guesses: bool,
    pub master_control_auto_start_rounds: bool,
    pub guess_map_type: String,
    pub progression_system: i32,
}

#[derive(Debug, Clone, Copy, PartialEq, Eq, Structural)]
pub struct MovementOptions {
    pub forbid_moving: bool,
    pub forbid_zooming: bool,
    pub forbid_rotating: bool,
}

/// The map a duel is played on (the protocol's `map` object).
#[derive(Debug, Clone, PartialEq)]
pub struct GameMap {
    pub name: String,
    pub slug: String,
    pub bounds: MapBounds,
    pub max_error_distance: i32,
}

#[derive(Debug, Clone, Copy, PartialEq, Eq, Structural)]
pub struct MapBounds {
    pub min: Coordinates,
    pub max: Coordinates,
}

/// A point; both numbers are `f64` bit patterns.
#[derive(Debug, Clone, Copy, PartialEq, Eq, Structural)]
pub struct Coordinates {
    pub latitude: u64,
    pub longitude: u64,
}

/// Result of a round for a team; `multiplier` is an `f64` bit pattern.
#[derive(Debug, Clone, PartialEq)]
pub struct RoundResult {
    pub round_number: u8,
    pub score: i32,
    pub health_before: i32,
    pub health_after: i32,
    pub best_guess: Option<Guess>,
    pub damage_dealt: i32,
    pub multiplier: u64,
}

/// A guess; `lat`, `lng` and `distance` are `f64` bit patterns.
#[derive(Debug, Clone, PartialEq)]
pub struct Guess {
    pub round_number: i32,
    pub lat: u64,
    pub lng: u64,
    pub distance: u64,
    pub created: String,
    pub is_teams_best_guess_on_round: bool,
    pub score: Option<i32>,
}

/// Experience awarded; `xp_awards` holds JSON texts.
#[derive(Debug, Clone, PartialEq)]
pub struct AwardedXp {
    pub total_awarded_xp: i32,
    pub xp_awards: Vec<String>,
}

#[derive(Debug, Clone, Copy, PartialEq, Eq, Structural)]
pub struct RatingDelta {
    pub before: i32,
    pub after: i32,
}

/// Progress of a player after a game; the fields of unknown shape are JSON text.
#[derive(Debug, Clone, PartialEq)]
pub struct ProgressChange {
    pub xp_progressions: Vec<String>,
    pub awarded_xp: AwardedXp,
    pub medal: String,
    pub competitive_progress: Option<String>,
    pub ranked_system_progress: Option<String>,
    pub ranked_team_duels_progress: Option<String>,
    pub quickplay_duels_progress: RatingDelta,
}

#[derive(Debug, Clone, PartialEq)]
pub struct GameResult {
    pub is_draw: bool,
    pub winning_team_id: String,
    pub winner_style: String,
}

/// One live-stream sample and its time stamp.
#[derive(Debug, Clone, PartialEq)]
pub struct LiveStreamData {
    pub time: u64,
    pub event: LiveStreamEventWrapper,
}

/// Live telemetry of a player; every number but `size` is an `f64` bit pattern.
#[derive(Debug, Clone, PartialEq)]
pub enum LiveStreamEvent {
    GuessWithLatLng { latitude: u64, longitude: u64 },
    MapBoundingBox { north: u64, east: u64, south: u64, west: u64 },
    MapDisplay { is_active: bool, is_sticky: bool, size: i32 },
    PanoPosition { latitude: u64, longitude: u64, pano_id: String },
    PanoPov { heading: u64, pitch: u64 },
    PanoZoom { zoom: u64 },
    PinPosition { latitude: u64, longitude: u64 },
    Timer { time: u64 },
}

#[derive(Debug, Clone, PartialEq)]
pub struct MatchmakingSubscribe {
    pub game_modes: Vec<String>,
    pub queue: String,
}

#[derive(Debug, Clone, PartialEq)]
pub struct MatchmakingJoinInfo {
    /// JSON text.
    pub team_members_in_matchmaking: Option<String>,
    pub game_modes: Vec<String>,
}

#[derive(Debug, Clone, PartialEq)]
pub struct MatchmakingMatchInfo {
    pub game_id: String,
    pub game_server_node_id: String,
}

/// A chat message; the fields of unknown shape are JSON text.
#[derive(Debug, Clone, PartialEq)]
pub struct ChatMessageInfo {
    pub id: String,
    pub payload_type: String,
    pub text_payload: String,
    pub invite_payload: Option<String>,
    pub recipient_type: String,
    pub recipient_id: Option<String>,
    pub source_type: String,
    pub source_id: String,
    pub sent_at: String,
    pub room_id: String,
    pub context: String,
    pub channel: Option<String>,
    pub club_payload: Option<String>,
    pub reaction_payload: Option<String>,
}

/// A live sample of known kind, or the JSON text of one of unknown kind.
#[derive(Debug, Clone, PartialEq)]
pub enum LiveStreamEventWrapper {
    Known(LiveStreamEvent),
    Unknown(String),
}

/// The visible map rectangle of a player; `f64` bit patterns.
#[derive(Debug, Clone, Copy, PartialEq, Eq, Structural)]
pub struct MapBoundaries {
    pub north: u64,
    pub east: u64,
    pub south: u64,
    pub west: u64,
}

/// Why a panorama identifier could not be decoded.
#[derive(Debug, Clone, PartialEq)]
pub enum ProtocolError {
    /// The identifier is not hexadecimal text.
    InvalidHexPano(HexError),
    /// The decoded bytes are not UTF-8; they are kept.
    InvalidUtf8(Vec<u8>),
}

/// `res` is what decoding the hexadecimal panorama identifier `id` gives:
/// its bytes read as hexadecimal, then as UTF-8 text.
pub open spec fn decoded_id_matches(id: Seq<char>, res: Result<String, ProtocolError>) -> bool {
    let hex = hex_decode(encode_utf8(id));
    match res {
        Ok(s) => hex matches Ok(b) && valid_utf8(b) && s@ == decode_utf8(b),
        Err(ProtocolError::InvalidHexPano(e)) => hex == Err::<Seq<u8>, HexError>(e),
        Err(ProtocolError::InvalidUtf8(b)) => hex == Ok::<Seq<u8>, HexError>(b@) && !valid_utf8(b@),
    }
}

/// The panorama identifier as text, when `id` decodes.
pub open spec fn decoded_id(id: Seq<char>) -> Option<Seq<char>> {
    match hex_decode(encode_utf8(id)) {
        Ok(b) => if valid_utf8(b) {
            Some(decode_utf8(b))
        } else {
            None
        },
        Err(_) => None,
    }
}

impl Panorama {
    /// The panorama identifier: `id` read as hexadecimal, then as UTF-8 text.
    pub fn decode_id(&self) -> (res: Result<String, ProtocolError>)
        ensures
            decoded_id_matches(self.id@, res),
    {
        let bytes = match decode_hex(self.id.as_str().as_bytes()) {
            Ok(b) => b,
            Err(e) => return Err(ProtocolError::InvalidHexPano(e)),
        };
        match string_from_utf8(bytes) {
            Ok(s) => Ok(s),
            Err(b) => Err(ProtocolError::InvalidUtf8(b)),
        }
    }
}

/// The duel of the events that announce a round panorama.
pub open spec fn panorama_duel(event: GameEvent) -> Option<Duel> {
    match event {
        GameEvent::DuelStarted { duel, .. } => Some(duel),
        GameEvent::DuelNewRound { duel, .. } => Some(duel),
        GameEvent::DuelReplaceRoundPanorama { duel, .. } => Some(duel),
        _ => None,
    }
}

/// The last round of the duel of an event that announces a round panorama.
pub open spec fn panorama_round(event: GameEvent) -> Option<Round> {
    match panorama_duel(event) {
        Some(duel) => if duel.state.rounds@.len() > 0 {
            Some(duel.state.rounds@.last())
        } else {
            None
        },
        None => None,
    }
}

impl GameEvent {
    /// The decoded panorama identifier of the latest round, for the events
    /// that announce one (`DuelStarted`, `DuelNewRound`,
    /// `DuelReplaceRoundPanorama`); `Ok(None)` for other events and for a
    /// duel without rounds.
    pub fn get_player_panorama(&self) -> (res: Result<Option<String>, ProtocolError>)
        ensures
            match panorama_round(*self) {
                None => res matches Ok(None),
                Some(round) => match res {
                    Ok(Some(s)) => decoded_id_matches(
                        round.panorama.id@,
                        Ok::<String, ProtocolError>(s),
                    ),
                    Ok(None) => false,
                    Err(e) => decoded_id_matches(round.panorama.id@, Err::<String, ProtocolError>(e)),
                },
            },
    {
        let duel = match self {
            GameEvent::DuelStarted { duel, .. } => duel,
            GameEvent::DuelNewRound { duel, .. } => duel,
            GameEvent::DuelReplaceRoundPanorama { duel, .. } => duel,
            _ => return Ok(None),
        };
        let n = duel.state.rounds.len();
        if n == 0 {
            return Ok(None);
        }
        match duel.state.rounds[n - 1].panorama.decode_id() {
            Ok(id) => Ok(Some(id)),
            Err(e) => Err(e),
        }
    }
}

/// The characters of an ASCII byte text.
pub open spec fn ascii_text(b: Seq<u8>) -> Seq<char> {
    Seq::new(b.len(), |i: int| b[i] as char)
}

/// A panorama identifier written as hexadecimal text of its UTF-8 bytes (the
/// way the protocol sends it) decodes back to that identifier.
pub proof fn lemma_panorama_id_roundtrip(pano_id: Seq<char>)
    ensures
        decoded_id(ascii_text(hex_encode(encode_utf8(pano_id)))) == Some(pano_id),
{
    let bytes = encode_utf8(pano_id);
    let hex = hex_encode(bytes);
    let text = ascii_text(hex);
    assert forall|i: int| 0 <= i < hex.len() implies #[trigger] hex[i] < 128 by {
        let x = bytes[i / 2];
        assert(x >> 4 < 16 && x & 0xf < 16) by (bit_vector);
    }
    assert(is_ascii_chars(text));
    is_ascii_chars_encode_utf8(text);
    assert(encode_utf8(text) =~= hex);
    lemma_hex_roundtrip(bytes);
    encode_utf8_valid_utf8(pano_id);
    encode_utf8_decode_utf8(pano_id);
}

/// Only a duel start, a new round and a replaced round panorama announce a
/// panorama to look up, and for them it is the one of the latest round; every
/// other event (guesses, pins, time-outs, the end of a duel, ...) announces none.
pub proof fn lemma_panorama_events(event: GameEvent)
    ensures
        panorama_round(event) is Some ==> (event is DuelStarted || event is DuelNewRound
            || event is DuelReplaceRoundPanorama),
        !(event is DuelStarted || event is DuelNewRound || event is DuelReplaceRoundPanorama)
            ==> panorama_round(event) is None,
        match event {
            GameEvent::DuelStarted { duel, .. } => duel.state.rounds@.len() > 0 ==> panorama_round(event)
                == Some(duel.state.rounds@[duel.state.rounds@.len() - 1]),
            GameEvent::DuelNewRound { duel, .. } => duel.state.rounds@.len() > 0 ==> panorama_round(event)
                == Some(duel.state.rounds@[duel.state.rounds@.len() - 1]),
            GameEvent::DuelReplaceRoundPanorama { duel, .. } => duel.state.rounds@.len() > 0
                ==> panorama_round(event) == Some(duel.state.rounds@[duel.state.rounds@.len() - 1]),
            _ => true,
        },
{
}

/// Decoding a panorama identifier written as hexadecimal text of its UTF-8
/// bytes succeeds and gives that identifier.
pub proof fn lemma_decode_id_gives_identifier(pano_id: Seq<char>, res: Result<String, ProtocolError>)
    requires
        decoded_id_matches(ascii_text(hex_encode(encode_utf8(pano_id))), res),
    ensures
        res matches Ok(s) && s@ == pano_id,
{
    lemma_panorama_id_roundtrip(pano_id);
}

/// An identifier with an odd number of hexadecimal digits is refused as such.
pub proof fn lemma_decode_id_odd_length(id: Seq<u8>, res: Result<String, ProtocolError>)
    requires
        forall|i: int| 0 <= i < id.len() ==> #[trigger] id[i] < 128,
        id.len() % 2 == 1,
        decoded_id_matches(ascii_text(id), res),
    ensures
        res == Err::<String, ProtocolError>(ProtocolError::InvalidHexPano(HexError::OddLength)),
{
    let text = ascii_text(id);
    assert(is_ascii_chars(text));
    is_ascii_chars_encode_utf8(text);
    assert(encode_utf8(text) =~= id);
}

} // verus!
