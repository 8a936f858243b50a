//! The four-state line protocol: each accepted line updates the game and yields the
//! regular expression of the next line.
use vstd::prelude::*;
use crate::error::ParseError;
use crate::game::{Base, Context, FieldRow, Movement, Play, PlayBuilder, PlayType, all_play_types, copy_movements, copy_strings, play_types};
use crate::json::{
    JsonValue, base_of, context_from, context_fits, context_ok, decode_json,
    get_member, inning_from, inning_of, json_of, member, movements_from, movements_of_json,
    optional, optional_base, optional_string, optional_strings, play_type_from, play_type_of,
    string_of, strings_of,
};
use crate::json_schema::{
    JsonType, KeyValueType, ToRegex, array_regex, bool_options_regex, entry_regex,
    int_options_regex, max_digits_regex, object_regex, paren, string_regex, union_regex,
};
use crate::state::{Game, GameBuilder, RunnerPositions, movements_of, names, pinch_runner_names, total_runs};
use crate::text::{join, escape_dots, join_strings, escape_dots_string};

verus! {

/// The characters of a name or venue.
pub open spec fn name_pattern() -> Seq<char> {
    "[a-zA-ZÀ-ÖØ-öø-ÿ.'\\- ]+"@
}

/// The position codes of a player.
pub open spec fn position_codes() -> Seq<Seq<char>> {
    seq![
        "PITCHER"@, "CATCHER"@, "FIRST_BASE"@, "SECOND_BASE"@, "THIRD_BASE"@, "SHORTSTOP"@,
        "LEFT_FIELD"@, "CENTER_FIELD"@, "RIGHT_FIELD"@, "DESIGNATED_HITTER"@, "PINCH_HITTER"@,
        "PINCH_RUNNER"@, "TWO_WAY_PLAYER"@, "OUTFIELD"@, "INFIELD"@, "UTILITY"@,
        "RELIEF_PITCHER"@, "STARTING_PITCHER"@,
    ]
}

/// The regular expression of a player object.
pub open spec fn player_regex() -> Seq<char> {
    object_regex(seq![
        entry_regex("position"@, string_regex(paren(join(position_codes(), "|"@)))),
        entry_regex("name"@, string_regex(name_pattern())),
    ])
}

/// The regular expression of a team object.
pub open spec fn team_regex() -> Seq<char> {
    object_regex(seq![
        entry_regex("id"@, max_digits_regex(3)),
        entry_regex("players"@, array_regex(player_regex())),
    ])
}

/// The regular expression of the weather entry of a context.
pub open spec fn weather_entry_regex() -> Seq<char> {
    entry_regex("weather"@, object_regex(seq![
        entry_regex("condition"@, string_regex("[a-zA-Z ]+"@)),
        entry_regex("temperature"@, max_digits_regex(3)),
        entry_regex("wind_speed"@, max_digits_regex(3)),
    ]))
}

/// The regular expression of the context line.
pub open spec fn context_regex() -> Seq<char> {
    object_regex(seq![
        entry_regex("game_pk"@, max_digits_regex(6)),
        entry_regex("date"@, string_regex("\\d{4}-\\d{2}-\\d{2}"@)),
        entry_regex("venue_name"@, string_regex(name_pattern())),
        weather_entry_regex(),
        entry_regex("home_team"@, team_regex()),
        entry_regex("away_team"@, team_regex()),
    ])
}

fn context_section_team_player_json() -> (r: JsonType)
    ensures
        r.regex() == player_regex(),
{
    let codes: Vec<String> = vec![
        String::from_str("PITCHER"), String::from_str("CATCHER"), String::from_str("FIRST_BASE"),
        String::from_str("SECOND_BASE"), String::from_str("THIRD_BASE"), String::from_str("SHORTSTOP"),
        String::from_str("LEFT_FIELD"), String::from_str("CENTER_FIELD"), String::from_str("RIGHT_FIELD"),
        String::from_str("DESIGNATED_HITTER"), String::from_str("PINCH_HITTER"), String::from_str("PINCH_RUNNER"),
        String::from_str("TWO_WAY_PLAYER"), String::from_str("OUTFIELD"), String::from_str("INFIELD"),
        String::from_str("UTILITY"), String::from_str("RELIEF_PITCHER"), String::from_str("STARTING_PITCHER"),
    ];
    assert(codes@.map_values(|s: String| s@) =~= position_codes());
    let joined = join_strings(&codes, "|");
    let mut alternation = String::from_str("(");
    alternation.append(joined.as_str());
    alternation.append(")");
    let items = vec![
        JsonType::key_value("position", JsonType::string_with_regex(alternation.as_str())),
        JsonType::key_value("name", JsonType::string_with_regex("[a-zA-ZÀ-ÖØ-öø-ÿ.'\\- ]+")),
    ];
    let ghost entries = items@.map_values(|kv: KeyValueType| kv.regex());
    assert(entries =~= seq![
        entry_regex("position"@, string_regex(paren(join(position_codes(), "|"@)))),
        entry_regex("name"@, string_regex(name_pattern())),
    ]);
    JsonType::object(items)
}

fn context_section_team_json() -> (r: JsonType)
    ensures
        r.regex() == team_regex(),
{
    let items = vec![
        JsonType::key_value("id", JsonType::integer_max_digits(3)),
        JsonType::key_value("players", JsonType::array(context_section_team_player_json())),
    ];
    let ghost entries = items@.map_values(|kv: KeyValueType| kv.regex());
    assert(entries =~= seq![
        entry_regex("id"@, max_digits_regex(3)),
        entry_regex("players"@, array_regex(player_regex())),
    ]);
    JsonType::object(items)
}

fn context_section_weather_json() -> (r: KeyValueType)
    ensures
        r.regex() == weather_entry_regex(),
{
    let items = vec![
        JsonType::key_value("condition", JsonType::string_with_regex("[a-zA-Z ]+")),
        JsonType::key_value("temperature", JsonType::integer_max_digits(3)),
        JsonType::key_value("wind_speed", JsonType::integer_max_digits(3)),
    ];
    let ghost entries = items@.map_values(|kv: KeyValueType| kv.regex());
    assert(entries =~= seq![
        entry_regex("condition"@, string_regex("[a-zA-Z ]+"@)),
        entry_regex("temperature"@, max_digits_regex(3)),
        entry_regex("wind_speed"@, max_digits_regex(3)),
    ]);
    JsonType::key_value("weather", JsonType::object(items))
}

/// The schema of the context line.
fn context_section_json() -> (r: JsonType)
    ensures
        r.regex() == context_regex(),
{
    let items = vec![
        JsonType::key_value("game_pk", JsonType::integer_max_digits(6)),
        JsonType::key_value("date", JsonType::string_with_regex("\\d{4}-\\d{2}-\\d{2}")),
        JsonType::key_value("venue_name", JsonType::string_with_regex("[a-zA-ZÀ-ÖØ-öø-ÿ.'\\- ]+")),
        context_section_weather_json(),
        JsonType::key_value("home_team", context_section_team_json()),
        JsonType::key_value("away_team", context_section_team_json()),
    ];
    let ghost entries = items@.map_values(|kv: KeyValueType| kv.regex());
    assert(entries =~= seq![
        entry_regex("game_pk"@, max_digits_regex(6)),
        entry_regex("date"@, string_regex("\\d{4}-\\d{2}-\\d{2}"@)),
        entry_regex("venue_name"@, string_regex(name_pattern())),
        weather_entry_regex(),
        entry_regex("home_team"@, team_regex()),
        entry_regex("away_team"@, team_regex()),
    ]);
    JsonType::object(items)
}

/// The inning numbers and top flags that the next play may carry: those of the last
/// play and of the half inning after it; `1` and `true` before the first play.
pub open spec fn inning_options(plays: Seq<Play>) -> (Seq<u64>, Seq<bool>) {
    if plays.len() == 0 {
        (seq![1u64], seq![true])
    } else {
        let cur = plays.last().inning();
        if cur.top {
            (seq![cur.number as u64], seq![true, false])
        } else {
            (seq![cur.number as u64, (cur.number + 1) as u64], seq![false, true])
        }
    }
}

/// The wire texts of every kind of play, in declaration order.
pub open spec fn play_type_names() -> Seq<Seq<char>> {
    all_play_types().map_values(|t: PlayType| t.wire())
}

/// The regular expression of a play introduction line after the given plays.
pub open spec fn intro_regex(plays: Seq<Play>) -> Seq<char> {
    let options = inning_options(plays);
    object_regex(seq![
        entry_regex("inning"@, object_regex(seq![
            entry_regex("number"@, int_options_regex(options.0)),
            entry_regex("top"@, bool_options_regex(options.1)),
        ])),
        entry_regex("type"@, string_regex(join(play_type_names(), "|"@))),
    ])
}

/// The names of a roster as alternatives, dots escaped; any name while the
/// roster is unknown.
pub open spec fn roster_regex(ctx: Option<Context>, home: bool) -> Seq<char> {
    match ctx {
        Some(c) => join(
            names(if home { c.home_team } else { c.away_team }).map_values(|n: Seq<char>| paren(escape_dots(n))),
            "|"@,
        ),
        None => name_pattern(),
    }
}

/// `e` when `present`, else nothing.
pub open spec fn entry_if(present: bool, e: Seq<char>) -> Seq<Seq<char>> {
    if present { seq![e] } else { Seq::empty() }
}

/// The entries of a play information line: the fields of `row`, batter and runners
/// drawn from `batting`, pitcher, catcher and fielders from `fielding`.
pub open spec fn info_entries(row: FieldRow, batting: Seq<char>, fielding: Seq<char>) -> Seq<Seq<char>> {
    entry_if(row.base, entry_regex("base"@, string_regex("home|1|2|3"@)))
        + entry_if(row.batter, entry_regex("batter"@, string_regex(batting)))
        + entry_if(row.pitcher, entry_regex("pitcher"@, string_regex(fielding)))
        + entry_if(row.catcher, entry_regex("catcher"@, string_regex(fielding)))
        + entry_if(row.fielders, entry_regex("fielders"@, array_regex(string_regex(fielding))))
        + entry_if(row.runner, entry_regex("runner"@, string_regex(batting)))
        + entry_if(row.scoring_runner, entry_regex("scoring_runner"@, string_regex(batting)))
}

/// The regular expression of the information line of a play of kind `pt` in the half
/// inning `top`. The home team bats when `top` is false.
pub open spec fn info_regex(pt: PlayType, top: bool, ctx: Option<Context>) -> Seq<char> {
    object_regex(info_entries(pt.row(), roster_regex(ctx, !top), roster_regex(ctx, top)))
}

/// A movement as text and values: runner, start, end, out.
pub open spec fn move_view(m: Movement) -> (Seq<char>, Base, Base, bool) {
    (m.runner@, m.start_base, m.end_base, m.is_out)
}

/// The movements as text and values.
pub open spec fn move_views(s: Seq<Movement>) -> Seq<(Seq<char>, Base, Base, bool)> {
    s.map_values(|m: Movement| move_view(m))
}

/// Runner `r` moving from `from` to each of `targets`, safe and out.
pub open spec fn moves_to(r: Seq<char>, from: Base, targets: Seq<Base>) -> Seq<(Seq<char>, Base, Base, bool)>
    decreases targets.len(),
{
    if targets.len() == 0 {
        Seq::empty()
    } else {
        moves_to(r, from, targets.drop_last()) + seq![(r, from, targets.last(), false), (r, from, targets.last(), true)]
    }
}

/// The moves of the runner on base `b`, if any: to each later base, safe or out, and
/// out in place.
pub open spec fn occupant_moves(m: RunnerPositions, b: Base) -> Seq<(Seq<char>, Base, Base, bool)> {
    match m.at(b) {
        Some(r) => moves_to(r@, b, b.later_bases()).push((r@, b, b, true)),
        None => Seq::empty(),
    }
}

/// The moves from home of a named player, if any.
pub open spec fn home_moves(o: Option<String>) -> Seq<(Seq<char>, Base, Base, bool)> {
    match o {
        Some(r) => moves_to(r@, Base::Home, Base::Home.later_bases()),
        None => Seq::empty(),
    }
}

/// Each of `moves` made by each of `pinch` in place of its runner.
pub open spec fn with_pinch(moves: Seq<(Seq<char>, Base, Base, bool)>, pinch: Seq<Seq<char>>) -> Seq<(Seq<char>, Base, Base, bool)>
    decreases moves.len(),
{
    if moves.len() == 0 {
        Seq::empty()
    } else {
        let last = moves.last();
        with_pinch(moves.drop_last(), pinch) + pinch.map_values(|p: Seq<char>| (p, last.1, last.2, last.3))
    }
}

/// The pinch runners of the batting team; none while the rosters are unknown.
pub open spec fn batting_pinch_runners(ctx: Option<Context>, top: bool) -> Seq<Seq<char>> {
    match ctx {
        Some(c) => pinch_runner_names((if top { c.away_team } else { c.home_team }).players@),
        None => Seq::empty(),
    }
}

/// The moves of the runners on base and of the batter.
pub open spec fn own_moves(m: RunnerPositions, b: PlayBuilder) -> Seq<(Seq<char>, Base, Base, bool)> {
    occupant_moves(m, Base::First) + occupant_moves(m, Base::Second) + occupant_moves(m, Base::Third)
        + home_moves(b.batter)
}

/// Every movement that the movements line may hold: those of the runners on base and
/// of the batter, the same made by each pinch runner of the batting team, and those
/// of the play's runner and scoring runner from home.
pub open spec fn candidate_moves(m: RunnerPositions, b: PlayBuilder, ctx: Option<Context>, top: bool) -> Seq<(Seq<char>, Base, Base, bool)> {
    let own = own_moves(m, b);
    own + with_pinch(own, batting_pinch_runners(ctx, top)) + home_moves(b.runner) + home_moves(b.scoring_runner)
}

/// The regular expression of one movement literal.
pub open spec fn move_regex(c: (Seq<char>, Base, Base, bool)) -> Seq<char> {
    object_regex(seq![
        entry_regex("runner"@, string_regex(escape_dots(c.0))),
        entry_regex("start_base"@, string_regex(c.1.wire())),
        entry_regex("end_base"@, string_regex(c.2.wire())),
        entry_regex("is_out"@, bool_options_regex(seq![c.3])),
    ])
}

/// The regular expression of a movements line whose movements are among `cands`.
pub open spec fn movements_regex(cands: Seq<(Seq<char>, Base, Base, bool)>) -> Seq<char> {
    object_regex(seq![
        entry_regex("movements"@, array_regex(union_regex(cands.map_values(|c: (Seq<char>, Base, Base, bool)| move_regex(c))))),
    ])
}

fn push_moves_to(out: &mut Vec<Movement>, runner: &String, from: Base)
    ensures
        move_views(final(out)@) == move_views(old(out)@) + moves_to(runner@, from, from.later_bases()),
{
    let targets = from.valid_to_bases();
    let ghost start = move_views(out@);
    let mut i: usize = 0;
    while i < targets.len()
        invariant
            i <= targets.len(),
            targets@ == from.later_bases(),
            move_views(out@) == start + moves_to(runner@, from, targets@.subrange(0, i as int)),
        decreases targets.len() - i,
    {
        let t = targets[i];
        let ghost before = out@;
        out.push(Movement { runner: runner.clone(), start_base: from, end_base: t, is_out: false });
        out.push(Movement { runner: runner.clone(), start_base: from, end_base: t, is_out: true });
        assert(targets@.subrange(0, i as int + 1).drop_last() =~= targets@.subrange(0, i as int));
        assert(move_views(out@) =~= move_views(before) + seq![(runner@, from, t, false), (runner@, from, t, true)]);
        i = i + 1;
    }
    assert(targets@.subrange(0, targets.len() as int) =~= targets@);
}

fn push_home_moves(out: &mut Vec<Movement>, o: &Option<String>)
    ensures
        move_views(final(out)@) == move_views(old(out)@) + home_moves(*o),
{
    match o {
        Some(r) => push_moves_to(out, r, Base::Home),
        None => assert(move_views(out@) =~= move_views(out@) + home_moves(*o)),
    }
}

fn push_occupant_moves(out: &mut Vec<Movement>, m: &RunnerPositions, b: Base)
    ensures
        move_views(final(out)@) == move_views(old(out)@) + occupant_moves(*m, b),
{
    match m.get(b) {
        Some(r) => {
            push_moves_to(out, r, b);
            let ghost before = out@;
            out.push(Movement { runner: r.clone(), start_base: b, end_base: b, is_out: true });
            assert(move_views(out@) =~= move_views(before).push((r@, b, b, true)));
        },
        None => assert(move_views(out@) =~= move_views(out@) + occupant_moves(*m, b)),
    }
}

/// The kind of line that the parser expects next.
#[derive(Clone, Copy, Debug, PartialEq, Eq, Structural)]
pub enum LineType {
    /// The game's context.
    Context,
    /// The inning and kind of a play.
    PlayIntroduction,
    /// The rest of the information of the play introduced by the previous line.
    PlayInformation,
    /// The movements of the play introduced by the previous lines.
    PlayMovements,
}

/// A streaming parser for line-delimited game transcripts.
pub struct Parser {
    /// Whether the caller asked for tracing; parsing does not depend on it.
    pub debug: bool,
    /// The kind of line to be parsed next.
    pub line_type: LineType,
    /// The game under construction.
    pub game_builder: GameBuilder,
}

fn pinch_moves(own: &Vec<Movement>, pinch: &Vec<String>) -> (r: Vec<Movement>)
    ensures
        move_views(r@) == with_pinch(move_views(own@), pinch@.map_values(|s: String| s@)),
{
    let ghost own_v = move_views(own@);
    let ghost pv = pinch@.map_values(|s: String| s@);
    let mut out: Vec<Movement> = Vec::new();
    let mut i: usize = 0;
    while i < own.len()
        invariant
            i <= own.len(),
            own_v == move_views(own@),
            pv == pinch@.map_values(|s: String| s@),
            move_views(out@) == with_pinch(own_v.subrange(0, i as int), pv),
        decreases own.len() - i,
    {
        let m = &own[i];
        let ghost base = move_views(out@);
        let mut j: usize = 0;
        while j < pinch.len()
            invariant
                j <= pinch.len(),
                i < own.len(),
                *m == own@[i as int],
                pv == pinch@.map_values(|s: String| s@),
                move_views(out@) == base + pv.subrange(0, j as int).map_values(|p: Seq<char>| (p, m.start_base, m.end_base, m.is_out)),
            decreases pinch.len() - j,
        {
            let ghost before = out@;
            out.push(Movement { runner: pinch[j].clone(), start_base: m.start_base, end_base: m.end_base, is_out: m.is_out });
            assert(move_views(out@) =~= move_views(before).push((pinch@[j as int]@, m.start_base, m.end_base, m.is_out)));
            assert(pv.subrange(0, j as int + 1).map_values(|p: Seq<char>| (p, m.start_base, m.end_base, m.is_out))
                =~= pv.subrange(0, j as int).map_values(|p: Seq<char>| (p, m.start_base, m.end_base, m.is_out)).push((pinch@[j as int]@, m.start_base, m.end_base, m.is_out)));
            j = j + 1;
        }
        assert(pv.subrange(0, pinch.len() as int) =~= pv);
        assert(own_v.subrange(0, i as int + 1).drop_last() =~= own_v.subrange(0, i as int));
        assert(own_v[i as int] == move_view(own@[i as int]));
        i = i + 1;
    }
    assert(own_v.subrange(0, own.len() as int) =~= own_v);
    out
}

fn push_entry_if(items: &mut Vec<KeyValueType>, present: bool, kv: KeyValueType)
    ensures
        final(items)@.map_values(|e: KeyValueType| e.regex())
            == old(items)@.map_values(|e: KeyValueType| e.regex()) + entry_if(present, kv.regex()),
{
    let ghost before = items@;
    if present {
        items.push(kv);
    }
    assert(items@.map_values(|e: KeyValueType| e.regex())
        =~= before.map_values(|e: KeyValueType| e.regex()) + entry_if(present, kv.regex()));
}

impl Parser {
    /// The schema of a play introduction line: the inning of the last play or the half
    /// inning after it, and any kind of play.
    fn play_introduction_json(&self) -> (r: JsonType)
        ensures
            r.regex() == intro_regex(self.game_builder.plays@),
    {
        let n = self.game_builder.plays.len();
        let (numbers, tops) = if n == 0 {
            (vec![1u64], vec![true])
        } else {
            let cur = self.game_builder.plays[n - 1].get_inning();
            if cur.top {
                (vec![cur.number as u64], vec![true, false])
            } else {
                (vec![cur.number as u64, cur.number as u64 + 1], vec![false, true])
            }
        };
        let ghost options = inning_options(self.game_builder.plays@);
        assert(numbers@ =~= options.0);
        assert(tops@ =~= options.1);
        let inning_items = vec![
            JsonType::key_value("number", JsonType::integer_with_options(numbers)),
            JsonType::key_value("top", JsonType::boolean_with_options(tops)),
        ];
        assert(inning_items@.map_values(|kv: KeyValueType| kv.regex()) =~= seq![
            entry_regex("number"@, int_options_regex(options.0)),
            entry_regex("top"@, bool_options_regex(options.1)),
        ]);
        let inning = JsonType::key_value("inning", JsonType::object(inning_items));
        let kinds = play_types();
        let mut kind_names: Vec<String> = Vec::new();
        let mut i: usize = 0;
        while i < kinds.len()
            invariant
                i <= kinds.len(),
                kinds@ == all_play_types(),
                kind_names.len() == i,
                forall|k: int| 0 <= k < i ==> (#[trigger] kind_names@[k])@ == kinds@[k].wire(),
            decreases kinds.len() - i,
        {
            kind_names.push(String::from_str(kinds[i].wire_name()));
            i = i + 1;
        }
        assert(kind_names@.map_values(|s: String| s@) =~= play_type_names());
        let alternation = join_strings(&kind_names, "|");
        let play_type = JsonType::key_value("type", JsonType::string_with_regex(alternation.as_str()));
        let items = vec![inning, play_type];
        assert(items@.map_values(|kv: KeyValueType| kv.regex()) =~= seq![
            entry_regex("inning"@, object_regex(seq![
                entry_regex("number"@, int_options_regex(options.0)),
                entry_regex("top"@, bool_options_regex(options.1)),
            ])),
            entry_regex("type"@, string_regex(join(play_type_names(), "|"@))),
        ]);
        JsonType::object(items)
    }

    /// The names of the home (`home`) or away roster as alternatives.
    fn roster_names_regex(&self, home: bool) -> (r: String)
        ensures
            r@ == roster_regex(self.game_builder.context, home),
    {
        let found = if home {
            self.game_builder.home_team_player_names()
        } else {
            self.game_builder.away_team_player_names()
        };
        match found {
            Some(list) => {
                let ghost team_names = names(if home {
                    self.game_builder.context.unwrap().home_team
                } else {
                    self.game_builder.context.unwrap().away_team
                });
                let mut parts: Vec<String> = Vec::new();
                let mut i: usize = 0;
                while i < list.len()
                    invariant
                        i <= list.len(),
                        list@.map_values(|s: String| s@) == team_names,
                        parts.len() == i,
                        forall|k: int| 0 <= k < i ==> (#[trigger] parts@[k])@ == paren(escape_dots(team_names[k])),
                    decreases list.len() - i,
                {
                    assert(team_names[i as int] == list@[i as int]@);
                    let escaped = escape_dots_string(list[i].as_str());
                    let mut part = String::from_str("(");
                    part.append(escaped.as_str());
                    part.append(")");
                    parts.push(part);
                    i = i + 1;
                }
                assert(parts@.map_values(|s: String| s@) =~= team_names.map_values(|n: Seq<char>| paren(escape_dots(n))));
                join_strings(&parts, "|")
            },
            None => String::from_str("[a-zA-ZÀ-ÖØ-öø-ÿ.'\\- ]+"),
        }
    }

    /// The schema of a play information line with the fields of `row`, in the half
    /// inning `top`.
    fn single_play_information_json(&self, row: FieldRow, top: bool) -> (r: JsonType)
        ensures
            r.regex() == object_regex(info_entries(
                row,
                roster_regex(self.game_builder.context, !top),
                roster_regex(self.game_builder.context, top),
            )),
    {
        let batting = self.roster_names_regex(!top);
        let fielding = self.roster_names_regex(top);
        let mut items: Vec<KeyValueType> = Vec::new();
        push_entry_if(&mut items, row.base, JsonType::key_value("base", JsonType::string_with_regex("home|1|2|3")));
        push_entry_if(&mut items, row.batter, JsonType::key_value("batter", JsonType::string_with_regex(batting.as_str())));
        push_entry_if(&mut items, row.pitcher, JsonType::key_value("pitcher", JsonType::string_with_regex(fielding.as_str())));
        push_entry_if(&mut items, row.catcher, JsonType::key_value("catcher", JsonType::string_with_regex(fielding.as_str())));
        push_entry_if(
            &mut items,
            row.fielders,
            JsonType::key_value("fielders", JsonType::array(JsonType::string_with_regex(fielding.as_str()))),
        );
        push_entry_if(&mut items, row.runner, JsonType::key_value("runner", JsonType::string_with_regex(batting.as_str())));
        push_entry_if(
            &mut items,
            row.scoring_runner,
            JsonType::key_value("scoring_runner", JsonType::string_with_regex(batting.as_str())),
        );
        assert(Seq::<Seq<char>>::empty() + entry_if(row.base, entry_regex("base"@, string_regex("home|1|2|3"@)))
            =~= entry_if(row.base, entry_regex("base"@, string_regex("home|1|2|3"@))));
        JsonType::object(items)
    }

    /// The schema of the information line of a play of kind `play_type` in the half
    /// inning `top`.
    fn play_information_json_for_play_type(&self, play_type: &PlayType, top: bool) -> (r: JsonType)
        ensures
            r.regex() == info_regex(*play_type, top, self.game_builder.context),
    {
        self.single_play_information_json(play_type.fields(), top)
    }

    /// The schema of exactly one movement.
    fn movement_json(&self, movement: &Movement) -> (r: JsonType)
        ensures
            r.regex() == move_regex(move_view(*movement)),
    {
        let runner = escape_dots_string(movement.runner.as_str());
        let items = vec![
            JsonType::key_value("runner", JsonType::string_with_regex(runner.as_str())),
            JsonType::key_value("start_base", JsonType::string_with_regex(movement.start_base.wire_name())),
            JsonType::key_value("end_base", JsonType::string_with_regex(movement.end_base.wire_name())),
            JsonType::key_value("is_out", JsonType::boolean_with_options(vec![movement.is_out])),
        ];
        proof {
            let c = move_view(*movement);
            assert(seq![movement.is_out] =~= seq![c.3]);
        }
        assert(items@.map_values(|kv: KeyValueType| kv.regex()) =~= seq![
            entry_regex("runner"@, string_regex(escape_dots(movement.runner@))),
            entry_regex("start_base"@, string_regex(movement.start_base.wire())),
            entry_regex("end_base"@, string_regex(movement.end_base.wire())),
            entry_regex("is_out"@, bool_options_regex(seq![movement.is_out])),
        ]);
        JsonType::object(items)
    }

    /// Every movement that the movements line of the current play may hold.
    fn valid_movements(&self, top: bool) -> (r: Vec<Movement>)
        ensures
            move_views(r@) == candidate_moves(
                self.game_builder.runner_positions,
                self.game_builder.play_builder,
                self.game_builder.context,
                top,
            ),
    {
        let positions = &self.game_builder.runner_positions;
        let builder = &self.game_builder.play_builder;
        let mut moves: Vec<Movement> = Vec::new();
        push_occupant_moves(&mut moves, positions, Base::First);
        push_occupant_moves(&mut moves, positions, Base::Second);
        push_occupant_moves(&mut moves, positions, Base::Third);
        push_home_moves(&mut moves, &builder.batter);
        assert(move_views(moves@) =~= own_moves(*positions, *builder));
        let pinch_runners = if top {
            self.game_builder.away_team_pinch_runner_names()
        } else {
            self.game_builder.home_team_pinch_runner_names()
        };
        let pinch_runners = match pinch_runners {
            Some(list) => list,
            None => Vec::new(),
        };
        assert(pinch_runners@.map_values(|s: String| s@) =~= batting_pinch_runners(self.game_builder.context, top));
        let mut extra = pinch_moves(&moves, &pinch_runners);
        let ghost own = moves@;
        moves.append(&mut extra);
        assert(move_views(moves@) =~= move_views(own) + with_pinch(move_views(own), batting_pinch_runners(self.game_builder.context, top)));
        push_home_moves(&mut moves, &builder.runner);
        push_home_moves(&mut moves, &builder.scoring_runner);
        moves
    }

    /// The schema of the list of movements of the current play: any number of the
    /// candidate movements, in any order.
    fn valid_movements_json(&self, top: bool) -> (r: JsonType)
        ensures
            r.regex() == array_regex(union_regex(candidate_moves(
                self.game_builder.runner_positions,
                self.game_builder.play_builder,
                self.game_builder.context,
                top,
            ).map_values(|c: (Seq<char>, Base, Base, bool)| move_regex(c)))),
    {
        let moves = self.valid_movements(top);
        let ghost cands = move_views(moves@);
        let mut shapes: Vec<JsonType> = Vec::new();
        let mut i: usize = 0;
        while i < moves.len()
            invariant
                i <= moves.len(),
                cands == move_views(moves@),
                shapes.len() == i,
                forall|k: int| 0 <= k < i ==> (#[trigger] shapes@[k]).regex() == move_regex(cands[k]),
            decreases moves.len() - i,
        {
            shapes.push(self.movement_json(&moves[i]));
            i = i + 1;
        }
        assert(shapes@.map_values(|j: JsonType| j.regex()) =~= cands.map_values(|c: (Seq<char>, Base, Base, bool)| move_regex(c)));
        JsonType::array(JsonType::union(shapes))
    }

    /// The schema of the movements line of the current play.
    fn movements_json(&self, top: bool) -> (r: JsonType)
        ensures
            r.regex() == movements_regex(candidate_moves(
                self.game_builder.runner_positions,
                self.game_builder.play_builder,
                self.game_builder.context,
                top,
            )),
    {
        let items = vec![JsonType::key_value("movements", self.valid_movements_json(top))];
        let ghost cands = candidate_moves(
            self.game_builder.runner_positions,
            self.game_builder.play_builder,
            self.game_builder.context,
            top,
        );
        assert(items@.map_values(|kv: KeyValueType| kv.regex()) =~= seq![
            entry_regex("movements"@, array_regex(union_regex(cands.map_values(|c: (Seq<char>, Base, Base, bool)| move_regex(c))))),
        ]);
        JsonType::object(items)
    }
}

/// The builder holds a kind with a movements line, its inning and every information
/// field of the kind's row.
pub open spec fn awaiting_movements(b: PlayBuilder) -> bool {
    &&& b.play_type is Some
    &&& b.inning is Some
    &&& {
        let row = b.play_type.unwrap().row();
        &&& row.movements
        &&& row.base ==> b.base is Some
        &&& row.batter ==> b.batter is Some
        &&& row.pitcher ==> b.pitcher is Some
        &&& row.catcher ==> b.catcher is Some
        &&& row.fielders ==> b.fielders is Some
        &&& row.runner ==> b.runner is Some
        &&& row.scoring_runner ==> b.scoring_runner is Some
    }
}

/// The play that `b` and the movements `mvs` make: of the builder's kind and inning,
/// with the information fields of the kind's row and the movements `mvs`.
pub open spec fn completes(b: PlayBuilder, mvs: Seq<Movement>, p: Play) -> bool {
    let row = b.play_type.unwrap().row();
    &&& p.kind() == b.play_type.unwrap()
    &&& p.inning() == b.inning.unwrap()
    &&& p.base_field() == (if row.base { b.base } else { None })
    &&& p.batter_field() == (if row.batter { b.batter } else { None })
    &&& p.pitcher_field() == (if row.pitcher { b.pitcher } else { None })
    &&& p.catcher_field() == (if row.catcher { b.catcher } else { None })
    &&& p.fielders_field() == (if row.fielders { b.fielders } else { None })
    &&& p.runner_field() == (if row.runner { b.runner } else { None })
    &&& p.scoring_runner_field() == (if row.scoring_runner { b.scoring_runner } else { None })
    &&& p.movements_field() is Some
    &&& p.movements_field().unwrap()@ == mvs
}

/// `b` holds the slots of the play just committed from `before` and the movements `mvs`.
pub open spec fn holds_committed(b: PlayBuilder, before: PlayBuilder, mvs: Seq<Movement>) -> bool {
    &&& b.inning == before.inning
    &&& b.play_type == before.play_type
    &&& b.base == before.base
    &&& b.batter == before.batter
    &&& b.pitcher == before.pitcher
    &&& b.catcher == before.catcher
    &&& b.fielders is Some == before.fielders is Some
    &&& b.fielders is Some ==> b.fielders.unwrap()@ == before.fielders.unwrap()@
    &&& b.runner == before.runner
    &&& b.scoring_runner == before.scoring_runner
    &&& b.movements is Some
    &&& b.movements.unwrap()@ == mvs
}

fn copy_name(o: &Option<String>) -> (r: Option<String>)
    ensures
        r == *o,
{
    match o {
        Some(s) => Some(s.clone()),
        None => None,
    }
}

/// The information members of `v` decode: `v` is an object, and each member is
/// missing, null, or of its type.
pub open spec fn info_ok(v: JsonValue) -> bool {
    &&& v is Object
    &&& optional(v, "base"@, base_of(member(v, "base"@))) is Some
    &&& optional(v, "batter"@, string_of(member(v, "batter"@))) is Some
    &&& optional(v, "pitcher"@, string_of(member(v, "pitcher"@))) is Some
    &&& optional(v, "catcher"@, string_of(member(v, "catcher"@))) is Some
    &&& optional(v, "fielders"@, strings_of(member(v, "fielders"@))) is Some
    &&& optional(v, "runner"@, string_of(member(v, "runner"@))) is Some
    &&& optional(v, "scoring_runner"@, string_of(member(v, "scoring_runner"@))) is Some
}

/// The information members present in `v` are exactly those of `row`.
pub open spec fn info_fits_row(v: JsonValue, row: FieldRow) -> bool {
    &&& (optional(v, "base"@, base_of(member(v, "base"@))).unwrap() is Some) == row.base
    &&& (optional(v, "batter"@, string_of(member(v, "batter"@))).unwrap() is Some) == row.batter
    &&& (optional(v, "pitcher"@, string_of(member(v, "pitcher"@))).unwrap() is Some) == row.pitcher
    &&& (optional(v, "catcher"@, string_of(member(v, "catcher"@))).unwrap() is Some) == row.catcher
    &&& (optional(v, "fielders"@, strings_of(member(v, "fielders"@))).unwrap() is Some) == row.fielders
    &&& (optional(v, "runner"@, string_of(member(v, "runner"@))).unwrap() is Some) == row.runner
    &&& (optional(v, "scoring_runner"@, string_of(member(v, "scoring_runner"@))).unwrap() is Some) == row.scoring_runner
}

/// `b` is `before` with the information members of `v` in its slots.
pub open spec fn info_filled(b: PlayBuilder, before: PlayBuilder, v: JsonValue) -> bool {
    &&& b.inning == before.inning
    &&& b.play_type == before.play_type
    &&& b.base == optional(v, "base"@, base_of(member(v, "base"@))).unwrap()
    &&& b.batter == optional(v, "batter"@, string_of(member(v, "batter"@))).unwrap()
    &&& b.pitcher == optional(v, "pitcher"@, string_of(member(v, "pitcher"@))).unwrap()
    &&& b.catcher == optional(v, "catcher"@, string_of(member(v, "catcher"@))).unwrap()
    &&& match b.fielders {
        Some(f) => optional(v, "fielders"@, strings_of(member(v, "fielders"@))).unwrap() == Some(f@),
        None => optional(v, "fielders"@, strings_of(member(v, "fielders"@))).unwrap() is None,
    }
    &&& b.runner == optional(v, "runner"@, string_of(member(v, "runner"@))).unwrap()
    &&& b.scoring_runner == optional(v, "scoring_runner"@, string_of(member(v, "scoring_runner"@))).unwrap()
    &&& b.movements is None
}

/// Between lines, the runs of the two teams together are the number of accepted
/// movements that end at home and are not outs.
pub proof fn law_runs_match_scoring_movements(p: Parser)
    requires
        p.wf(),
    ensures
        p.game_builder.home_team_runs + p.game_builder.away_team_runs == total_runs(p.game_builder.plays@),
{
}

/// The line commits a play: a movements line, or the introduction of a game advisory.
pub open spec fn commits_play(old: Parser, v: JsonValue) -> bool {
    old.line_type == LineType::PlayMovements || (old.line_type == LineType::PlayIntroduction
        && play_type_of(member(v, "type"@)) == Some(PlayType::GameAdvisory))
}

/// Each accepted line that commits a play appends exactly that one play and keeps
/// the plays before it; every other accepted line keeps the plays as they are; a
/// refused line changes nothing.
pub proof fn law_each_line_commits_at_most_one_play(old: Parser, v: JsonValue, r: Result<String, ParseError>, new: Parser)
    requires
        old.wf(),
        Parser::step(old, v, r, new),
    ensures
        r is Err ==> new == old,
        r is Ok && commits_play(old, v) ==> new.game_builder.plays@.drop_last() == old.game_builder.plays@
            && new.game_builder.plays.len() == old.game_builder.plays.len() + 1,
        r is Ok && !commits_play(old, v) ==> new.game_builder.plays == old.game_builder.plays,
{
    if r is Ok && commits_play(old, v) {
        assert(new.game_builder.plays@.drop_last() =~= old.game_builder.plays@);
    }
}

impl Parser {
    /// The invariant of the parser between lines.
    pub open spec fn wf(self) -> bool {
        let g = self.game_builder;
        let b = g.play_builder;
        &&& g.runs_consistent()
        &&& g.home_team_runs + g.away_team_runs <= usize::MAX
        &&& self.line_type != LineType::Context ==> g.context is Some
        &&& self.line_type == LineType::PlayInformation ==> {
            &&& b.play_type is Some
            &&& b.inning is Some
            &&& b.play_type.unwrap().row().movements
        }
        &&& self.line_type == LineType::PlayMovements ==> awaiting_movements(b)
    }

    /// The regular expression of the line that the parser expects next.
    pub open spec fn regex_spec(self) -> Seq<char> {
        let g = self.game_builder;
        match self.line_type {
            LineType::Context => context_regex(),
            LineType::PlayIntroduction => intro_regex(g.plays@),
            LineType::PlayInformation => info_regex(g.play_builder.play_type.unwrap(), g.play_builder.inning.unwrap().top, g.context),
            LineType::PlayMovements => movements_regex(candidate_moves(
                g.runner_positions,
                g.play_builder,
                g.context,
                g.play_builder.inning.unwrap().top,
            )),
        }
    }

    /// Accepting the context line `v`.
    pub open spec fn context_step(old: Parser, v: JsonValue, r: Result<(), ParseError>, new: Parser) -> bool {
        if !context_ok(v) {
            r == Err::<(), ParseError>(ParseError::MalformedLine) && new == old
        } else {
            &&& r is Ok
            &&& new.debug == old.debug
            &&& new.line_type == LineType::PlayIntroduction
            &&& new.game_builder.context is Some
            &&& context_fits(v, new.game_builder.context.unwrap())
            &&& new.game_builder == (GameBuilder { context: new.game_builder.context, ..old.game_builder })
        }
    }

    /// Accepting the play introduction line `v`: every play starts with a fresh builder
    /// holding its inning and kind; a game advisory is committed at once, and the
    /// builder keeps its inning and kind.
    pub open spec fn introduction_step(old: Parser, v: JsonValue, r: Result<(), ParseError>, new: Parser) -> bool {
        let inning = inning_of(member(v, "inning"@));
        let pt = play_type_of(member(v, "type"@));
        if inning is None || pt is None {
            r == Err::<(), ParseError>(ParseError::MalformedLine) && new == old
        } else {
            &&& r is Ok
            &&& new.debug == old.debug
            &&& if pt.unwrap() == PlayType::GameAdvisory {
                let p = new.game_builder.plays@.last();
                &&& new.game_builder.plays.len() > 0
                &&& p == (Play::GameAdvisory { inning: inning.unwrap() })
                &&& GameBuilder::added(old.game_builder, p, GameBuilder { play_builder: old.game_builder.play_builder, ..new.game_builder })
                &&& new.game_builder.play_builder == (PlayBuilder { inning: inning, play_type: pt, ..PlayBuilder::empty() })
                &&& new.line_type == LineType::PlayIntroduction
            } else {
                &&& new.game_builder == (GameBuilder {
                    play_builder: PlayBuilder { inning: inning, play_type: pt, ..PlayBuilder::empty() },
                    ..old.game_builder
                })
                &&& new.line_type == if pt.unwrap() == PlayType::Ejection {
                    LineType::PlayMovements
                } else {
                    LineType::PlayInformation
                }
            }
        }
    }

    /// Accepting the play information line `v`: its members must be exactly those of
    /// the kind's row.
    pub open spec fn information_step(old: Parser, v: JsonValue, r: Result<(), ParseError>, new: Parser) -> bool {
        if !info_ok(v) {
            r == Err::<(), ParseError>(ParseError::MalformedLine) && new == old
        } else if !info_fits_row(v, old.game_builder.play_builder.play_type.unwrap().row()) {
            r == Err::<(), ParseError>(ParseError::ProtocolViolation) && new == old
        } else {
            &&& r is Ok
            &&& new.debug == old.debug
            &&& new.line_type == LineType::PlayMovements
            &&& info_filled(new.game_builder.play_builder, old.game_builder.play_builder, v)
            &&& new.game_builder == (GameBuilder { play_builder: new.game_builder.play_builder, ..old.game_builder })
        }
    }

    /// Accepting the movements line `v`: the play is completed and committed, and the
    /// builder keeps its slots until the next play begins. A play whose runs the
    /// counters cannot hold is refused.
    pub open spec fn movements_step(old: Parser, v: JsonValue, r: Result<(), ParseError>, new: Parser) -> bool {
        let mvs = movements_of_json(member(v, "movements"@));
        let g = old.game_builder;
        if mvs is None {
            r == Err::<(), ParseError>(ParseError::MalformedLine) && new == old
        } else if g.home_team_runs + g.away_team_runs + mvs.unwrap().len() > usize::MAX {
            r == Err::<(), ParseError>(ParseError::ProtocolViolation) && new == old
        } else {
            let p = new.game_builder.plays@.last();
            &&& r is Ok
            &&& new.debug == old.debug
            &&& new.line_type == LineType::PlayIntroduction
            &&& new.game_builder.plays.len() > 0
            &&& completes(g.play_builder, mvs.unwrap(), p)
            &&& GameBuilder::added(g, p, GameBuilder { play_builder: g.play_builder, ..new.game_builder })
            &&& holds_committed(new.game_builder.play_builder, g.play_builder, mvs.unwrap())
        }
    }

    /// Accepting the line `v` in the state `old` gives `r` and the state `new`.
    pub open spec fn step(old: Parser, v: JsonValue, r: Result<String, ParseError>, new: Parser) -> bool {
        let done = match r {
            Ok(_) => Ok::<(), ParseError>(()),
            Err(e) => Err(e),
        };
        &&& match old.line_type {
            LineType::Context => Parser::context_step(old, v, done, new),
            LineType::PlayIntroduction => Parser::introduction_step(old, v, done, new),
            LineType::PlayInformation => Parser::information_step(old, v, done, new),
            LineType::PlayMovements => Parser::movements_step(old, v, done, new),
        }
        &&& r is Ok ==> r.unwrap()@ == new.regex_spec()
    }

    /// A fresh parser, expecting the context line.
    pub fn new(debug: bool) -> (r: Self)
        ensures
            r.wf(),
            r.debug == debug,
            r.line_type == LineType::Context,
            r.game_builder.context is None,
            r.game_builder.plays@ == Seq::<Play>::empty(),
            r.game_builder.play_builder == PlayBuilder::empty(),
            r.game_builder.runner_positions == RunnerPositions::cleared(),
            r.game_builder.home_team_runs == 0,
            r.game_builder.away_team_runs == 0,
    {
        Parser { debug, line_type: LineType::Context, game_builder: GameBuilder::new() }
    }

    /// The regular expression of the line that the parser expects next.
    pub fn generate_regex(&self) -> (r: String)
        requires
            self.wf(),
        ensures
            r@ == self.regex_spec(),
    {
        match self.line_type {
            LineType::Context => context_section_json().to_regex(),
            LineType::PlayIntroduction => self.play_introduction_json().to_regex(),
            LineType::PlayInformation => {
                let b = &self.game_builder.play_builder;
                self.play_information_json_for_play_type(&b.play_type.unwrap(), b.inning.unwrap().top).to_regex()
            },
            LineType::PlayMovements => self.movements_json(self.game_builder.play_builder.inning.unwrap().top).to_regex(),
        }
    }

    fn parse_context(&mut self, v: &JsonValue) -> (r: Result<(), ParseError>)
        requires
            old(self).wf(),
            old(self).line_type == LineType::Context,
        ensures
            Parser::context_step(*old(self), *v, r, *final(self)),
            final(self).wf(),
    {
        match context_from(v) {
            Some(context) => {
                self.game_builder.add_context(context);
                self.line_type = LineType::PlayIntroduction;
                Ok(())
            },
            None => Err(ParseError::MalformedLine),
        }
    }

    fn parse_play_introduction(&mut self, v: &JsonValue) -> (r: Result<(), ParseError>)
        requires
            old(self).wf(),
            old(self).line_type == LineType::PlayIntroduction,
        ensures
            Parser::introduction_step(*old(self), *v, r, *final(self)),
            final(self).wf(),
    {
        let inning = inning_from(get_member(v, "inning"));
        let play_type = play_type_from(get_member(v, "type"));
        match (inning, play_type) {
            (Some(inning), Some(play_type)) => {
                let mut builder = PlayBuilder::new();
                builder.set_inning(inning);
                builder.set_play_type(play_type);
                if play_type == PlayType::GameAdvisory {
                    let play = builder.build();
                    let ghost before = self.game_builder;
                    self.game_builder.add_play(play);
                    proof {
                        crate::state::law_runs_count_scoring_movements(before, play, self.game_builder);
                    }
                    let mut committed = PlayBuilder::new();
                    committed.set_inning(inning);
                    committed.set_play_type(play_type);
                    self.game_builder.play_builder = committed;
                    self.line_type = LineType::PlayIntroduction;
                } else {
                    self.game_builder.play_builder = builder;
                    self.line_type = if play_type == PlayType::Ejection {
                        LineType::PlayMovements
                    } else {
                        LineType::PlayInformation
                    };
                }
                Ok(())
            },
            _ => Err(ParseError::MalformedLine),
        }
    }

    fn parse_play_information(&mut self, v: &JsonValue) -> (r: Result<(), ParseError>)
        requires
            old(self).wf(),
            old(self).line_type == LineType::PlayInformation,
        ensures
            Parser::information_step(*old(self), *v, r, *final(self)),
            final(self).wf(),
    {
        let is_object = match v {
            JsonValue::Object(_) => true,
            _ => false,
        };
        if !is_object {
            return Err(ParseError::MalformedLine);
        }
        let base = optional_base(v, "base");
        let batter = optional_string(v, "batter");
        let pitcher = optional_string(v, "pitcher");
        let catcher = optional_string(v, "catcher");
        let fielders = optional_strings(v, "fielders");
        let runner = optional_string(v, "runner");
        let scoring_runner = optional_string(v, "scoring_runner");
        match (base, batter, pitcher, catcher, fielders, runner, scoring_runner) {
            (Some(base), Some(batter), Some(pitcher), Some(catcher), Some(fielders), Some(runner), Some(scoring_runner)) => {
                let row = self.game_builder.play_builder.play_type.unwrap().fields();
                if base.is_some() != row.base || batter.is_some() != row.batter || pitcher.is_some() != row.pitcher
                    || catcher.is_some() != row.catcher || fielders.is_some() != row.fielders
                    || runner.is_some() != row.runner || scoring_runner.is_some() != row.scoring_runner {
                    return Err(ParseError::ProtocolViolation);
                }
                let builder = PlayBuilder {
                    inning: self.game_builder.play_builder.inning,
                    play_type: self.game_builder.play_builder.play_type,
                    base,
                    batter,
                    pitcher,
                    catcher,
                    fielders,
                    runner,
                    scoring_runner,
                    movements: None,
                };
                self.game_builder.play_builder = builder;
                self.line_type = LineType::PlayMovements;
                Ok(())
            },
            _ => Err(ParseError::MalformedLine),
        }
    }

    fn parse_play_movements(&mut self, v: &JsonValue) -> (r: Result<(), ParseError>)
        requires
            old(self).wf(),
            old(self).line_type == LineType::PlayMovements,
        ensures
            Parser::movements_step(*old(self), *v, r, *final(self)),
            final(self).wf(),
    {
        let movements = match movements_from(get_member(v, "movements")) {
            Some(m) => m,
            None => return Err(ParseError::MalformedLine),
        };
        let runs = self.game_builder.home_team_runs + self.game_builder.away_team_runs;
        if movements.len() > usize::MAX - runs {
            return Err(ParseError::ProtocolViolation);
        }
        let ghost mvs = movements@;
        let mut builder = PlayBuilder::new();
        std::mem::swap(&mut builder, &mut self.game_builder.play_builder);
        let ghost pending = builder;
        let kept = PlayBuilder {
            inning: builder.inning,
            play_type: builder.play_type,
            base: builder.base,
            batter: copy_name(&builder.batter),
            pitcher: copy_name(&builder.pitcher),
            catcher: copy_name(&builder.catcher),
            fielders: match &builder.fielders {
                Some(f) => Some(copy_strings(f)),
                None => None,
            },
            runner: copy_name(&builder.runner),
            scoring_runner: copy_name(&builder.scoring_runner),
            movements: Some(copy_movements(&movements)),
        };
        builder.set_movements(movements);
        let play = builder.build();
        let ghost before = GameBuilder { play_builder: pending, ..self.game_builder };
        assert(movements_of(play) == mvs);
        self.game_builder.add_play(play);
        proof {
            crate::state::law_runs_count_scoring_movements(
                before,
                play,
                GameBuilder { play_builder: pending, ..self.game_builder },
            );
        }
        self.game_builder.play_builder = kept;
        self.line_type = LineType::PlayIntroduction;
        Ok(())
    }

    /// Consumes one decoded line in the current state, advances, and returns the
    /// regular expression of the next line.
    pub fn parse_value(&mut self, v: &JsonValue) -> (r: Result<String, ParseError>)
        requires
            old(self).wf(),
        ensures
            final(self).wf(),
            Parser::step(*old(self), *v, r, *final(self)),
    {
        let done = match self.line_type {
            LineType::Context => self.parse_context(v),
            LineType::PlayIntroduction => self.parse_play_introduction(v),
            LineType::PlayInformation => self.parse_play_information(v),
            LineType::PlayMovements => self.parse_play_movements(v),
        };
        match done {
            Ok(()) => Ok(self.generate_regex()),
            Err(e) => Err(e),
        }
    }

    /// Consumes one line in the current state, advances, and returns the regular
    /// expression of the next line. A line that is not JSON is refused and changes
    /// nothing.
    pub fn parse_line(&mut self, line: &str) -> (r: Result<String, ParseError>)
        requires
            old(self).wf(),
        ensures
            final(self).wf(),
            match json_of(line@) {
                None => r == Err::<String, ParseError>(ParseError::MalformedLine) && *final(self) == *old(self),
                Some(v) => Parser::step(*old(self), v, r, *final(self)),
            },
    {
        match decode_json(line) {
            Some(v) => self.parse_value(&v),
            None => Err(ParseError::MalformedLine),
        }
    }

    /// The finished game. Fails while the context is not set or no play was accepted.
    pub fn finish(&self) -> (r: Result<Game, ParseError>)
        ensures
            match r {
                Ok(g) => {
                    &&& self.game_builder.context is Some
                    &&& self.game_builder.plays.len() > 0
                    &&& g.context.same(self.game_builder.context.unwrap())
                    &&& g.plays.len() == self.game_builder.plays.len()
                    &&& forall|i: int| 0 <= i < g.plays.len() ==> (#[trigger] g.plays@[i]).same(self.game_builder.plays@[i])
                },
                Err(e) => e == ParseError::IncompleteGame
                    && (self.game_builder.context is None || self.game_builder.plays.len() == 0),
            },
    {
        self.game_builder.build()
    }
}

} // verus!
