//! JSON values as the library reads them, and the decoding of each record shape.
use vstd::prelude::*;
use crate::game::{Base, Context, Inning, Movement, PlayType, Player, Team, Weather, base_of_wire, play_type_of_wire};

verus! {

/// A decoded JSON value. A number keeps its value when it is a non-negative integer
/// that fits in 64 bits, and nothing otherwise.
#[derive(Debug)]
pub enum JsonValue {
    Null,
    Bool(bool),
    Number(Option<u64>),
    Str(String),
    Array(Vec<JsonValue>),
    Object(Vec<(String, JsonValue)>),
}

#[verifier::external_type_specification]
#[verifier::external_body]
pub struct ExValue(serde_json::Value);

/// The JSON value that the text `line` holds, or nothing when it is not JSON.
pub uninterp spec fn json_of(line: Seq<char>) -> Option<JsonValue>;

/// Relies on serde_json::from_str into serde_json::Value: whether the text is JSON,
/// and which value it holds, depend on the text alone.
#[verifier::external_body]
pub(crate) fn decode_json(line: &str) -> (r: Option<JsonValue>)
    ensures
        r == json_of(line@),
{
    serde_json::from_str::<serde_json::Value>(line).ok().map(from_serde)
}

/// Relies on the variants of serde_json::Value and on serde_json::Number::as_u64: moves
/// each value into the library's tree. Only `decode_json` uses it.
#[verifier::external_body]
fn from_serde(v: serde_json::Value) -> JsonValue {
    match v {
        serde_json::Value::Null => JsonValue::Null,
        serde_json::Value::Bool(b) => JsonValue::Bool(b),
        serde_json::Value::Number(n) => JsonValue::Number(n.as_u64()),
        serde_json::Value::String(s) => JsonValue::Str(s),
        serde_json::Value::Array(a) => JsonValue::Array(a.into_iter().map(from_serde).collect()),
        serde_json::Value::Object(o) => JsonValue::Object(o.into_iter().map(|(k, x)| (k, from_serde(x))).collect()),
    }
}

/// The value of the first entry named `key`.
pub open spec fn field(fields: Seq<(String, JsonValue)>, key: Seq<char>) -> Option<JsonValue>
    decreases fields.len(),
{
    if fields.len() == 0 {
        None
    } else if fields[0].0@ == key {
        Some(fields[0].1)
    } else {
        field(fields.subrange(1, fields.len() as int), key)
    }
}

/// The member `key` of an object; nothing for a missing member or a value that is no object.
pub open spec fn member(v: JsonValue, key: Seq<char>) -> Option<JsonValue> {
    match v {
        JsonValue::Object(fields) => field(fields@, key),
        _ => None,
    }
}

/// A number that fits in 32 bits.
pub open spec fn u32_of(v: Option<JsonValue>) -> Option<u32> {
    match v {
        Some(JsonValue::Number(Some(n))) => if n <= u32::MAX { Some(n as u32) } else { None },
        _ => None,
    }
}

/// A string.
pub open spec fn string_of(v: Option<JsonValue>) -> Option<String> {
    match v {
        Some(JsonValue::Str(s)) => Some(s),
        _ => None,
    }
}

/// A boolean.
pub open spec fn bool_of(v: Option<JsonValue>) -> Option<bool> {
    match v {
        Some(JsonValue::Bool(b)) => Some(b),
        _ => None,
    }
}

/// The wire text of a base.
pub open spec fn base_of(v: Option<JsonValue>) -> Option<Base> {
    match v {
        Some(JsonValue::Str(s)) => base_of_wire(s@),
        _ => None,
    }
}

/// The wire text of a kind of play.
pub open spec fn play_type_of(v: Option<JsonValue>) -> Option<PlayType> {
    match v {
        Some(JsonValue::Str(s)) => play_type_of_wire(s@),
        _ => None,
    }
}

/// An inning object: a number and a top flag.
pub open spec fn inning_of(v: Option<JsonValue>) -> Option<Inning> {
    match v {
        Some(o) => {
            let number = u32_of(member(o, "number"@));
            let top = bool_of(member(o, "top"@));
            if number is Some && top is Some {
                Some(Inning { number: number.unwrap(), top: top.unwrap() })
            } else {
                None
            }
        },
        None => None,
    }
}

/// A movement object.
pub open spec fn movement_of(v: JsonValue) -> Option<Movement> {
    let runner = string_of(member(v, "runner"@));
    let start = base_of(member(v, "start_base"@));
    let end = base_of(member(v, "end_base"@));
    let out = bool_of(member(v, "is_out"@));
    if runner is Some && start is Some && end is Some && out is Some {
        Some(Movement { runner: runner.unwrap(), start_base: start.unwrap(), end_base: end.unwrap(), is_out: out.unwrap() })
    } else {
        None
    }
}

/// A player object.
pub open spec fn player_of(v: JsonValue) -> Option<Player> {
    let position = string_of(member(v, "position"@));
    let name = string_of(member(v, "name"@));
    if position is Some && name is Some {
        Some(Player { position: position.unwrap(), name: name.unwrap() })
    } else {
        None
    }
}

/// A weather object.
pub open spec fn weather_of(v: Option<JsonValue>) -> Option<Weather> {
    match v {
        Some(o) => {
            let condition = string_of(member(o, "condition"@));
            let temperature = u32_of(member(o, "temperature"@));
            let wind_speed = u32_of(member(o, "wind_speed"@));
            if condition is Some && temperature is Some && wind_speed is Some {
                Some(Weather { condition: condition.unwrap(), temperature: temperature.unwrap(), wind_speed: wind_speed.unwrap() })
            } else {
                None
            }
        },
        None => None,
    }
}

/// An array of strings.
pub open spec fn strings_of(v: Option<JsonValue>) -> Option<Seq<String>> {
    match v {
        Some(JsonValue::Array(items)) => if forall|i: int| 0 <= i < items@.len() ==> (#[trigger] items@[i]) is Str {
            Some(items@.map_values(|x: JsonValue| x->Str_0))
        } else {
            None
        },
        _ => None,
    }
}

/// An array of movement objects.
pub open spec fn movements_of_json(v: Option<JsonValue>) -> Option<Seq<Movement>> {
    match v {
        Some(JsonValue::Array(items)) => if forall|i: int| 0 <= i < items@.len() ==> movement_of(#[trigger] items@[i]) is Some {
            Some(items@.map_values(|x: JsonValue| movement_of(x).unwrap()))
        } else {
            None
        },
        _ => None,
    }
}

/// An array of player objects.
pub open spec fn players_of(v: Option<JsonValue>) -> Option<Seq<Player>> {
    match v {
        Some(JsonValue::Array(items)) => if forall|i: int| 0 <= i < items@.len() ==> player_of(#[trigger] items@[i]) is Some {
            Some(items@.map_values(|x: JsonValue| player_of(x).unwrap()))
        } else {
            None
        },
        _ => None,
    }
}

/// A team object: its id and its roster.
pub open spec fn team_of(v: Option<JsonValue>) -> Option<(u32, Seq<Player>)> {
    match v {
        Some(o) => {
            let id = u32_of(member(o, "id"@));
            let players = players_of(member(o, "players"@));
            if id is Some && players is Some {
                Some((id.unwrap(), players.unwrap()))
            } else {
                None
            }
        },
        None => None,
    }
}

/// The value is a context object.
pub open spec fn context_ok(v: JsonValue) -> bool {
    &&& u32_of(member(v, "game_pk"@)) is Some
    &&& string_of(member(v, "date"@)) is Some
    &&& string_of(member(v, "venue_name"@)) is Some
    &&& weather_of(member(v, "weather"@)) is Some
    &&& team_of(member(v, "home_team"@)) is Some
    &&& team_of(member(v, "away_team"@)) is Some
}

/// `c` holds what the context object `v` holds.
pub open spec fn context_fits(v: JsonValue, c: Context) -> bool {
    &&& u32_of(member(v, "game_pk"@)) == Some(c.game_pk)
    &&& string_of(member(v, "date"@)) == Some(c.date)
    &&& string_of(member(v, "venue_name"@)) == Some(c.venue_name)
    &&& weather_of(member(v, "weather"@)) == Some(c.weather)
    &&& team_of(member(v, "home_team"@)) == Some((c.home_team.id, c.home_team.players@))
    &&& team_of(member(v, "away_team"@)) == Some((c.away_team.id, c.away_team.players@))
}

/// An optional member: nothing when the member is missing or null, the decoded
/// value otherwise; `None` when it is present and cannot be decoded.
pub open spec fn optional<T>(v: JsonValue, key: Seq<char>, decoded: Option<T>) -> Option<Option<T>> {
    match member(v, key) {
        None => Some(None),
        Some(JsonValue::Null) => Some(None),
        Some(_) => match decoded {
            Some(x) => Some(Some(x)),
            None => None,
        },
    }
}

/// The member `key` of `v`.
pub fn get_member<'a>(v: &'a JsonValue, key: &str) -> (r: Option<&'a JsonValue>)
    ensures
        match r {
            Some(x) => member(*v, key@) == Some(*x),
            None => member(*v, key@) is None,
        },
{
    match v {
        JsonValue::Object(fields) => {
            let k = String::from_str(key);
            let mut i: usize = 0;
            assert(fields@.subrange(0, fields.len() as int) =~= fields@);
            while i < fields.len()
                invariant
                    i <= fields.len(),
                    k@ == key@,
                    *v == JsonValue::Object(*fields),
                    field(fields@, key@) == field(fields@.subrange(i as int, fields.len() as int), key@),
                decreases fields.len() - i,
            {
                let ghost rest = fields@.subrange(i as int, fields.len() as int);
                assert(rest[0] == fields@[i as int]);
                assert(rest.subrange(1, rest.len() as int) =~= fields@.subrange(i as int + 1, fields.len() as int));
                if fields[i].0 == k {
                    return Some(&fields[i].1);
                }
                i = i + 1;
            }
            None
        },
        _ => None,
    }
}

/// Decodes a number that fits in 32 bits.
pub fn u32_from(v: Option<&JsonValue>) -> (r: Option<u32>)
    ensures
        r == u32_of(match v { Some(x) => Some(*x), None => None }),
{
    match v {
        Some(JsonValue::Number(Some(n))) => if *n <= 0xffff_ffffu64 { Some(*n as u32) } else { None },
        _ => None,
    }
}

/// Decodes a string.
pub fn string_from(v: Option<&JsonValue>) -> (r: Option<String>)
    ensures
        r == string_of(match v { Some(x) => Some(*x), None => None }),
{
    match v {
        Some(JsonValue::Str(s)) => Some(s.clone()),
        _ => None,
    }
}

/// Decodes a boolean.
pub fn bool_from(v: Option<&JsonValue>) -> (r: Option<bool>)
    ensures
        r == bool_of(match v { Some(x) => Some(*x), None => None }),
{
    match v {
        Some(JsonValue::Bool(b)) => Some(*b),
        _ => None,
    }
}

/// Decodes the wire text of a base.
pub fn base_from(v: Option<&JsonValue>) -> (r: Option<Base>)
    ensures
        r == base_of(match v { Some(x) => Some(*x), None => None }),
{
    match v {
        Some(JsonValue::Str(s)) => Base::from_wire(s),
        _ => None,
    }
}

/// Decodes the wire text of a kind of play.
pub fn play_type_from(v: Option<&JsonValue>) -> (r: Option<PlayType>)
    ensures
        r == play_type_of(match v { Some(x) => Some(*x), None => None }),
{
    match v {
        Some(JsonValue::Str(s)) => PlayType::from_wire(s),
        _ => None,
    }
}

/// Decodes an inning object.
pub fn inning_from(v: Option<&JsonValue>) -> (r: Option<Inning>)
    ensures
        r == inning_of(match v { Some(x) => Some(*x), None => None }),
{
    match v {
        Some(o) => {
            let number = u32_from(get_member(o, "number"));
            let top = bool_from(get_member(o, "top"));
            match (number, top) {
                (Some(number), Some(top)) => Some(Inning { number, top }),
                _ => None,
            }
        },
        None => None,
    }
}

/// Decodes a movement object.
pub fn movement_from(v: &JsonValue) -> (r: Option<Movement>)
    ensures
        r == movement_of(*v),
{
    let runner = string_from(get_member(v, "runner"));
    let start = base_from(get_member(v, "start_base"));
    let end = base_from(get_member(v, "end_base"));
    let out = bool_from(get_member(v, "is_out"));
    match (runner, start, end, out) {
        (Some(runner), Some(start_base), Some(end_base), Some(is_out)) => Some(Movement { runner, start_base, end_base, is_out }),
        _ => None,
    }
}

/// Decodes a player object.
pub fn player_from(v: &JsonValue) -> (r: Option<Player>)
    ensures
        r == player_of(*v),
{
    let position = string_from(get_member(v, "position"));
    let name = string_from(get_member(v, "name"));
    match (position, name) {
        (Some(position), Some(name)) => Some(Player { position, name }),
        _ => None,
    }
}

/// Decodes a weather object.
pub fn weather_from(v: Option<&JsonValue>) -> (r: Option<Weather>)
    ensures
        r == weather_of(match v { Some(x) => Some(*x), None => None }),
{
    match v {
        Some(o) => {
            let condition = string_from(get_member(o, "condition"));
            let temperature = u32_from(get_member(o, "temperature"));
            let wind_speed = u32_from(get_member(o, "wind_speed"));
            match (condition, temperature, wind_speed) {
                (Some(condition), Some(temperature), Some(wind_speed)) => Some(Weather { condition, temperature, wind_speed }),
                _ => None,
            }
        },
        None => None,
    }
}

/// Decodes an array of strings.
pub fn strings_from(v: Option<&JsonValue>) -> (r: Option<Vec<String>>)
    ensures
        match r {
            Some(x) => strings_of(match v { Some(x) => Some(*x), None => None }) == Some(x@),
            None => strings_of(match v { Some(x) => Some(*x), None => None }) is None,
        },
{
    match v {
        Some(JsonValue::Array(items)) => {
            let mut out: Vec<String> = Vec::new();
            let mut i: usize = 0;
            while i < items.len()
                invariant
                    i <= items.len(),
                    out.len() == i,
                    match v {
                        Some(x) => *x == JsonValue::Array(*items),
                        None => false,
                    },
                    forall|k: int| 0 <= k < i ==> (#[trigger] items@[k]) is Str && out@[k] == items@[k]->Str_0,
                decreases items.len() - i,
            {
                match &items[i] {
                    JsonValue::Str(s) => out.push(s.clone()),
                    _ => {
                        assert(!(items@[i as int] is Str));
                        return None;
                    },
                }
                i = i + 1;
            }
            assert(out@ =~= items@.map_values(|x: JsonValue| x->Str_0));
            Some(out)
        },
        _ => None,
    }
}

/// Decodes an array of movement objects.
pub fn movements_from(v: Option<&JsonValue>) -> (r: Option<Vec<Movement>>)
    ensures
        match r {
            Some(x) => movements_of_json(match v { Some(x) => Some(*x), None => None }) == Some(x@),
            None => movements_of_json(match v { Some(x) => Some(*x), None => None }) is None,
        },
{
    match v {
        Some(JsonValue::Array(items)) => {
            let mut out: Vec<Movement> = Vec::new();
            let mut i: usize = 0;
            while i < items.len()
                invariant
                    i <= items.len(),
                    out.len() == i,
                    match v {
                        Some(x) => *x == JsonValue::Array(*items),
                        None => false,
                    },
                    forall|k: int| 0 <= k < i ==> movement_of(#[trigger] items@[k]) == Some(out@[k]),
                decreases items.len() - i,
            {
                match movement_from(&items[i]) {
                    Some(m) => out.push(m),
                    None => {
                        assert(movement_of(items@[i as int]) is None);
                        return None;
                    },
                }
                i = i + 1;
            }
            assert(out@ =~= items@.map_values(|x: JsonValue| movement_of(x).unwrap()));
            Some(out)
        },
        _ => None,
    }
}

/// Decodes an array of player objects.
pub fn players_from(v: Option<&JsonValue>) -> (r: Option<Vec<Player>>)
    ensures
        match r {
            Some(x) => players_of(match v { Some(x) => Some(*x), None => None }) == Some(x@),
            None => players_of(match v { Some(x) => Some(*x), None => None }) is None,
        },
{
    match v {
        Some(JsonValue::Array(items)) => {
            let mut out: Vec<Player> = Vec::new();
            let mut i: usize = 0;
            while i < items.len()
                invariant
                    i <= items.len(),
                    out.len() == i,
                    match v {
                        Some(x) => *x == JsonValue::Array(*items),
                        None => false,
                    },
                    forall|k: int| 0 <= k < i ==> player_of(#[trigger] items@[k]) == Some(out@[k]),
                decreases items.len() - i,
            {
                match player_from(&items[i]) {
                    Some(p) => out.push(p),
                    None => {
                        assert(player_of(items@[i as int]) is None);
                        return None;
                    },
                }
                i = i + 1;
            }
            assert(out@ =~= items@.map_values(|x: JsonValue| player_of(x).unwrap()));
            Some(out)
        },
        _ => None,
    }
}

/// Decodes a team object.
pub fn team_from(v: Option<&JsonValue>) -> (r: Option<Team>)
    ensures
        match r {
            Some(t) => team_of(match v { Some(x) => Some(*x), None => None }) == Some((t.id, t.players@)),
            None => team_of(match v { Some(x) => Some(*x), None => None }) is None,
        },
{
    match v {
        Some(o) => {
            let id = u32_from(get_member(o, "id"));
            let players = players_from(get_member(o, "players"));
            match (id, players) {
                (Some(id), Some(players)) => Some(Team { id, players }),
                _ => None,
            }
        },
        None => None,
    }
}

/// Decodes a context object.
pub fn context_from(v: &JsonValue) -> (r: Option<Context>)
    ensures
        match r {
            Some(c) => context_ok(*v) && context_fits(*v, c),
            None => !context_ok(*v),
        },
{
    let game_pk = u32_from(get_member(v, "game_pk"));
    let date = string_from(get_member(v, "date"));
    let venue_name = string_from(get_member(v, "venue_name"));
    let weather = weather_from(get_member(v, "weather"));
    let home_team = team_from(get_member(v, "home_team"));
    let away_team = team_from(get_member(v, "away_team"));
    match (game_pk, date, venue_name, weather, home_team, away_team) {
        (Some(game_pk), Some(date), Some(venue_name), Some(weather), Some(home_team), Some(away_team)) =>
            Some(Context { game_pk, date, venue_name, weather, home_team, away_team }),
        _ => None,
    }
}

/// The optional string member `key`.
pub fn optional_string(v: &JsonValue, key: &str) -> (r: Option<Option<String>>)
    ensures
        r == optional(*v, key@, string_of(member(*v, key@))),
{
    match get_member(v, key) {
        None => Some(None),
        Some(JsonValue::Null) => Some(None),
        Some(x) => match string_from(Some(x)) {
            Some(s) => Some(Some(s)),
            None => None,
        },
    }
}

/// The optional base member `key`.
pub fn optional_base(v: &JsonValue, key: &str) -> (r: Option<Option<Base>>)
    ensures
        r == optional(*v, key@, base_of(member(*v, key@))),
{
    match get_member(v, key) {
        None => Some(None),
        Some(JsonValue::Null) => Some(None),
        Some(x) => match base_from(Some(x)) {
            Some(b) => Some(Some(b)),
            None => None,
        },
    }
}

/// The optional member `key` holding an array of strings.
pub fn optional_strings(v: &JsonValue, key: &str) -> (r: Option<Option<Vec<String>>>)
    ensures
        match r {
            Some(Some(x)) => optional(*v, key@, strings_of(member(*v, key@))) == Some(Some(x@)),
            Some(None) => optional(*v, key@, strings_of(member(*v, key@))) == Some(None::<Seq<String>>),
            None => optional(*v, key@, strings_of(member(*v, key@))) is None,
        },
{
    match get_member(v, key) {
        None => Some(None),
        Some(JsonValue::Null) => Some(None),
        Some(x) => match strings_from(Some(x)) {
            Some(s) => Some(Some(s)),
            None => None,
        },
    }
}

} // verus!
