//! The game state: accepted context and plays, the runner on each base, and the
//! runs of each team.
use vstd::prelude::*;
use crate::error::ParseError;
use crate::game::{Base, Context, Movement, Play, PlayBuilder, Player, Team};

verus! {

/// The runner on each of the bases 1, 2 and 3, if any.
#[derive(Clone, Debug, PartialEq, Eq)]
pub struct RunnerPositions {
    pub first: Option<String>,
    pub second: Option<String>,
    pub third: Option<String>,
}

/// The name held in a slot, as text.
pub open spec fn name_view(o: Option<String>) -> Option<Seq<char>> {
    match o {
        Some(s) => Some(s@),
        None => None,
    }
}

impl View for RunnerPositions {
    type V = Map<Base, Option<Seq<char>>>;

    open spec fn view(&self) -> Map<Base, Option<Seq<char>>> {
        map![
            Base::First => name_view(self.first),
            Base::Second => name_view(self.second),
            Base::Third => name_view(self.third),
        ]
    }
}

impl RunnerPositions {
    /// Every base empty.
    pub open spec fn cleared() -> RunnerPositions {
        RunnerPositions { first: None, second: None, third: None }
    }

    /// The runner on base `b`; nobody stands on home.
    pub open spec fn at(self, b: Base) -> Option<String> {
        match b {
            Base::Home => None,
            Base::First => self.first,
            Base::Second => self.second,
            Base::Third => self.third,
        }
    }

    /// The map with base `b` holding `v`; home holds nobody, so it is left as is.
    pub open spec fn with(self, b: Base, v: Option<String>) -> RunnerPositions {
        match b {
            Base::Home => self,
            Base::First => RunnerPositions { first: v, ..self },
            Base::Second => RunnerPositions { second: v, ..self },
            Base::Third => RunnerPositions { third: v, ..self },
        }
    }

    /// Every base empty.
    pub fn new() -> (r: Self)
        ensures
            r == RunnerPositions::cleared(),
    {
        RunnerPositions { first: None, second: None, third: None }
    }

    /// The runner on base `b`, if any.
    pub fn get(&self, b: Base) -> (r: Option<&String>)
        ensures
            match r {
                Some(s) => self.at(b) == Some(*s),
                None => self.at(b) is None,
            },
    {
        match b {
            Base::Home => None,
            Base::First => self.first.as_ref(),
            Base::Second => self.second.as_ref(),
            Base::Third => self.third.as_ref(),
        }
    }

    fn set(&mut self, b: Base, v: Option<String>)
        ensures
            *final(self) == old(self).with(b, v),
    {
        match b {
            Base::Home => {},
            Base::First => self.first = v,
            Base::Second => self.second = v,
            Base::Third => self.third = v,
        }
    }
}

/// The names on a roster, in order.
pub open spec fn names(t: Team) -> Seq<Seq<char>> {
    t.players@.map_values(|p: Player| p.name@)
}

/// The names of the pinch runners among `players`, in order.
pub open spec fn pinch_runner_names(players: Seq<Player>) -> Seq<Seq<char>>
    decreases players.len(),
{
    if players.len() == 0 {
        Seq::empty()
    } else {
        let rest = pinch_runner_names(players.drop_last());
        if players.last().position@ == "PINCH_RUNNER"@ {
            rest.push(players.last().name@)
        } else {
            rest
        }
    }
}

/// `name` is on the roster of the home team (`home`) or of the away team.
pub open spec fn on_roster(ctx: Option<Context>, home: bool, name: Seq<char>) -> bool {
    match ctx {
        Some(c) => names(if home { c.home_team } else { c.away_team }).contains(name),
        None => false,
    }
}

/// A run scored by `name` counts for the home team: the batting team when the name
/// is on its roster, else the other team. The away team bats in the top half.
pub open spec fn scores_for_home(ctx: Option<Context>, top: bool, name: Seq<char>) -> bool {
    if top {
        !on_roster(ctx, false, name)
    } else {
        on_roster(ctx, true, name)
    }
}

/// The movement scores a run: it ends at home and is not an out.
pub open spec fn scores(mv: Movement) -> bool {
    mv.end_base == Base::Home && !mv.is_out
}

/// The runner map after one movement: a runner out from a base leaves it; a runner
/// reaching home safely leaves its base; any other movement puts the runner on its end
/// base and clears its start base if the runner stood there.
pub open spec fn apply_movement(m: RunnerPositions, mv: Movement) -> RunnerPositions {
    if mv.is_out && mv.start_base != Base::Home {
        m.with(mv.start_base, None)
    } else if mv.end_base == Base::Home && !mv.is_out {
        m.with(mv.start_base, None)
    } else {
        let placed = m.with(mv.end_base, Some(mv.runner));
        if placed.at(mv.start_base) is Some && placed.at(mv.start_base).unwrap()@ == mv.runner@ {
            placed.with(mv.start_base, None)
        } else {
            placed
        }
    }
}

/// The runner map after the movements, in order.
pub open spec fn apply_movements(m: RunnerPositions, mvs: Seq<Movement>) -> RunnerPositions
    decreases mvs.len(),
{
    if mvs.len() == 0 {
        m
    } else {
        apply_movement(apply_movements(m, mvs.drop_last()), mvs.last())
    }
}

/// The number of movements that score.
pub open spec fn runs_in(mvs: Seq<Movement>) -> nat
    decreases mvs.len(),
{
    if mvs.len() == 0 {
        0
    } else {
        runs_in(mvs.drop_last()) + if scores(mvs.last()) { 1nat } else { 0nat }
    }
}

/// The number of movements that score for the home team (`home`) or the away team.
pub open spec fn team_runs_in(mvs: Seq<Movement>, ctx: Option<Context>, top: bool, home: bool) -> nat
    decreases mvs.len(),
{
    if mvs.len() == 0 {
        0
    } else {
        let mv = mvs.last();
        team_runs_in(mvs.drop_last(), ctx, top, home)
            + if scores(mv) && scores_for_home(ctx, top, mv.runner@) == home { 1nat } else { 0nat }
    }
}

/// The movements of a play; a game advisory has none.
pub open spec fn movements_of(p: Play) -> Seq<Movement> {
    match p.movements_field() {
        Some(v) => v@,
        None => Seq::empty(),
    }
}

/// The number of scoring movements over the plays.
pub open spec fn total_runs(plays: Seq<Play>) -> nat
    decreases plays.len(),
{
    if plays.len() == 0 {
        0
    } else {
        total_runs(plays.drop_last()) + runs_in(movements_of(plays.last()))
    }
}

proof fn lemma_team_runs_split(mvs: Seq<Movement>, ctx: Option<Context>, top: bool)
    ensures
        team_runs_in(mvs, ctx, top, true) + team_runs_in(mvs, ctx, top, false) == runs_in(mvs),
        runs_in(mvs) <= mvs.len(),
    decreases mvs.len(),
{
    if mvs.len() > 0 {
        lemma_team_runs_split(mvs.drop_last(), ctx, top);
    }
}

fn team_has(team: &Team, name: &String) -> (r: bool)
    ensures
        r == names(*team).contains(name@),
{
    let mut i: usize = 0;
    while i < team.players.len()
        invariant
            i <= team.players.len(),
            forall|k: int| 0 <= k < i ==> (#[trigger] team.players@[k]).name@ != name@,
        decreases team.players.len() - i,
    {
        if team.players[i].name == *name {
            assert(names(*team)[i as int] == name@);
            return true;
        }
        i = i + 1;
    }
    assert forall|k: int| 0 <= k < names(*team).len() implies names(*team)[k] != name@ by {
        assert(names(*team)[k] == team.players@[k].name@);
    }
    false
}

fn names_of(team: &Team) -> (r: Vec<String>)
    ensures
        r@.map_values(|s: String| s@) == names(*team),
{
    let mut r: Vec<String> = Vec::new();
    let mut i: usize = 0;
    while i < team.players.len()
        invariant
            i <= team.players.len(),
            r.len() == i,
            forall|k: int| 0 <= k < i ==> (#[trigger] r@[k])@ == team.players@[k].name@,
        decreases team.players.len() - i,
    {
        r.push(team.players[i].name.clone());
        i = i + 1;
    }
    assert(r@.map_values(|s: String| s@) =~= names(*team));
    r
}

fn pinch_runners_of(team: &Team) -> (r: Vec<String>)
    ensures
        r@.map_values(|s: String| s@) == pinch_runner_names(team.players@),
{
    let mut r: Vec<String> = Vec::new();
    let mut i: usize = 0;
    let code = String::from_str("PINCH_RUNNER");
    while i < team.players.len()
        invariant
            i <= team.players.len(),
            code@ == "PINCH_RUNNER"@,
            r@.map_values(|s: String| s@) == pinch_runner_names(team.players@.subrange(0, i as int)),
        decreases team.players.len() - i,
    {
        let p = &team.players[i];
        assert(team.players@.subrange(0, i as int + 1).drop_last() =~= team.players@.subrange(0, i as int));
        if p.position == code {
            let ghost before = r@;
            r.push(p.name.clone());
            assert(r@.map_values(|s: String| s@) =~= before.map_values(|s: String| s@).push(p.name@));
        }
        i = i + 1;
    }
    assert(team.players@.subrange(0, team.players.len() as int) =~= team.players@);
    r
}

/// The movement puts its runner on base 1, 2 or 3: it ends there and is not an out
/// from a base.
pub open spec fn places_runner(mv: Movement) -> bool {
    mv.end_base != Base::Home && !(mv.is_out && mv.start_base != Base::Home)
}

proof fn lemma_cleared_stays_cleared(mvs: Seq<Movement>)
    requires
        forall|i: int| 0 <= i < mvs.len() ==> !places_runner(#[trigger] mvs[i]),
    ensures
        apply_movements(RunnerPositions::cleared(), mvs) == RunnerPositions::cleared(),
    decreases mvs.len(),
{
    if mvs.len() > 0 {
        assert forall|i: int| 0 <= i < mvs.drop_last().len() implies !places_runner(#[trigger] mvs.drop_last()[i]) by {
            assert(mvs.drop_last()[i] == mvs[i]);
        }
        lemma_cleared_stays_cleared(mvs.drop_last());
        assert(!places_runner(mvs[mvs.len() - 1]));
    }
}

/// The runner map has an entry for each of the bases 1, 2 and 3, holding a name or
/// nothing, and for no other base.
pub proof fn law_runner_map_covers_bases(m: RunnerPositions)
    ensures
        m@.dom() == set![Base::First, Base::Second, Base::Third],
{
    assert(m@.dom() =~= set![Base::First, Base::Second, Base::Third]);
}

/// When a play is the first, or stays in the half inning of the play before it, the
/// runner map after it is the map before it with the play's movements applied in order.
pub proof fn law_same_half_inning_applies_movements(before: GameBuilder, play: Play, after: GameBuilder)
    requires
        GameBuilder::added(before, play, after),
        before.plays.len() == 0 || before.plays@.last().inning().top == play.inning().top,
    ensures
        after.runner_positions == apply_movements(before.runner_positions, movements_of(play)),
{
}

/// When a play changes the half inning, the runner map before it is forgotten: the map
/// after it is the empty map with the play's movements applied. If none of them
/// leaves a runner on a base, every base is empty.
pub proof fn law_new_half_inning_empties_bases(before: GameBuilder, play: Play, after: GameBuilder)
    requires
        GameBuilder::added(before, play, after),
        before.plays.len() > 0,
        before.plays@.last().inning().top != play.inning().top,
    ensures
        after.runner_positions == apply_movements(RunnerPositions::cleared(), movements_of(play)),
        (forall|i: int| 0 <= i < movements_of(play).len() ==> !places_runner(#[trigger] movements_of(play)[i]))
            ==> after.runner_positions == RunnerPositions::cleared(),
{
    if forall|i: int| 0 <= i < movements_of(play).len() ==> !places_runner(#[trigger] movements_of(play)[i]) {
        lemma_cleared_stays_cleared(movements_of(play));
    }
}

/// The runs of the two teams together are the number of accepted movements that end
/// at home and are not outs.
pub proof fn law_runs_count_scoring_movements(before: GameBuilder, play: Play, after: GameBuilder)
    requires
        GameBuilder::added(before, play, after),
        before.runs_consistent(),
    ensures
        after.runs_consistent(),
        after.home_team_runs + after.away_team_runs == before.home_team_runs + before.away_team_runs + runs_in(movements_of(play)),
        runs_in(movements_of(play)) <= movements_of(play).len(),
{
    lemma_team_runs_split(movements_of(play), before.context, play.inning().top);
    assert(after.plays@.drop_last() =~= before.plays@);
}

/// A finished game: its context and its plays.
pub struct Game {
    pub context: Context,
    pub plays: Vec<Play>,
}

/// The state of a game under construction.
pub struct GameBuilder {
    pub context: Option<Context>,
    pub plays: Vec<Play>,
    pub play_builder: PlayBuilder,
    /// The name of the runner on each base.
    pub runner_positions: RunnerPositions,
    pub home_team_runs: usize,
    pub away_team_runs: usize,
}

impl GameBuilder {
    /// The runs of both teams are the scoring movements of the accepted plays.
    pub open spec fn runs_consistent(self) -> bool {
        self.home_team_runs + self.away_team_runs == total_runs(self.plays@)
    }

    /// The counters can take every run of `play`.
    pub open spec fn has_room_for(self, play: Play) -> bool {
        self.home_team_runs + self.away_team_runs + movements_of(play).len() <= usize::MAX
    }

    /// The runner map that the movements of `play` start from: emptied when the
    /// half inning changes between the last accepted play and `play`.
    pub open spec fn start_positions(self, play: Play) -> RunnerPositions {
        if self.plays.len() > 0 && self.plays@.last().inning().top != play.inning().top {
            RunnerPositions::cleared()
        } else {
            self.runner_positions
        }
    }

    /// `after` is `before` with `play` accepted.
    pub open spec fn added(before: GameBuilder, play: Play, after: GameBuilder) -> bool {
        let mvs = movements_of(play);
        let top = play.inning().top;
        &&& after.plays@ == before.plays@.push(play)
        &&& after.runner_positions == apply_movements(before.start_positions(play), mvs)
        &&& after.home_team_runs == before.home_team_runs + team_runs_in(mvs, before.context, top, true)
        &&& after.away_team_runs == before.away_team_runs + team_runs_in(mvs, before.context, top, false)
        &&& after.context == before.context
        &&& after.play_builder == before.play_builder
    }

    /// A game with no context, no plays and empty bases.
    pub fn new() -> (r: Self)
        ensures
            r.context is None,
            r.plays@ == Seq::<Play>::empty(),
            r.play_builder == PlayBuilder::empty(),
            r.runner_positions == RunnerPositions::cleared(),
            r.home_team_runs == 0,
            r.away_team_runs == 0,
            r.runs_consistent(),
    {
        GameBuilder {
            context: None,
            plays: Vec::new(),
            play_builder: PlayBuilder::new(),
            runner_positions: RunnerPositions::new(),
            home_team_runs: 0,
            away_team_runs: 0,
        }
    }

    /// Records the context of the game.
    pub fn add_context(&mut self, context: Context)
        ensures
            *final(self) == (GameBuilder { context: Some(context), ..*old(self) }),
    {
        self.context = Some(context);
    }

    /// Empties every slot of the play builder.
    pub fn clear_play_builder(&mut self)
        ensures
            *final(self) == (GameBuilder { play_builder: PlayBuilder::empty(), ..*old(self) }),
    {
        self.play_builder = PlayBuilder::new();
    }

    fn runs_for_home(&self, name: &String, top: bool) -> (r: bool)
        ensures
            r == scores_for_home(self.context, top, name@),
    {
        match &self.context {
            Some(c) => if top {
                !team_has(&c.away_team, name)
            } else {
                team_has(&c.home_team, name)
            },
            None => top,
        }
    }

    /// Applies the movements of a play in the half inning `top` to the runner map
    /// and the run counters.
    pub fn process_movements(&mut self, movements: &Vec<Movement>, top: bool)
        requires
            old(self).home_team_runs + old(self).away_team_runs + movements.len() <= usize::MAX,
        ensures
            final(self).runner_positions == apply_movements(old(self).runner_positions, movements@),
            final(self).home_team_runs == old(self).home_team_runs + team_runs_in(movements@, old(self).context, top, true),
            final(self).away_team_runs == old(self).away_team_runs + team_runs_in(movements@, old(self).context, top, false),
            final(self).home_team_runs + final(self).away_team_runs
                == old(self).home_team_runs + old(self).away_team_runs + runs_in(movements@),
            final(self).context == old(self).context,
            final(self).plays == old(self).plays,
            final(self).play_builder == old(self).play_builder,
    {
        let ghost start = self.runner_positions;
        let ghost home0 = self.home_team_runs;
        let ghost away0 = self.away_team_runs;
        let mut i: usize = 0;
        while i < movements.len()
            invariant
                i <= movements.len(),
                home0 + away0 + movements.len() <= usize::MAX,
                self.runner_positions == apply_movements(start, movements@.subrange(0, i as int)),
                self.home_team_runs == home0 + team_runs_in(movements@.subrange(0, i as int), self.context, top, true),
                self.away_team_runs == away0 + team_runs_in(movements@.subrange(0, i as int), self.context, top, false),
                self.context == old(self).context,
                self.plays == old(self).plays,
                self.play_builder == old(self).play_builder,
            decreases movements.len() - i,
        {
            let ghost done = movements@.subrange(0, i as int);
            let ghost next = movements@.subrange(0, i as int + 1);
            assert(next.drop_last() =~= done);
            proof {
                lemma_team_runs_split(done, self.context, top);
            }
            let mv = &movements[i];
            if mv.is_out && mv.start_base != Base::Home {
                self.runner_positions.set(mv.start_base, None);
            } else if mv.end_base == Base::Home && !mv.is_out {
                self.runner_positions.set(mv.start_base, None);
                if self.runs_for_home(&mv.runner, top) {
                    self.home_team_runs = self.home_team_runs + 1;
                } else {
                    self.away_team_runs = self.away_team_runs + 1;
                }
            } else {
                self.runner_positions.set(mv.end_base, Some(mv.runner.clone()));
                let same = match self.runner_positions.get(mv.start_base) {
                    Some(r) => *r == mv.runner,
                    None => false,
                };
                if same {
                    self.runner_positions.set(mv.start_base, None);
                }
            }
            i = i + 1;
        }
        assert(movements@.subrange(0, movements.len() as int) =~= movements@);
        proof {
            lemma_team_runs_split(movements@, self.context, top);
        }
    }

    /// Accepts a play: empties the bases when the half inning changes, applies the
    /// play's movements and appends the play.
    pub fn add_play(&mut self, play: Play)
        requires
            old(self).has_room_for(play),
        ensures
            GameBuilder::added(*old(self), play, *final(self)),
    {
        let top = play.get_inning().top;
        let n = self.plays.len();
        if n > 0 {
            let last_top = self.plays[n - 1].get_inning().top;
            if last_top != top {
                self.runner_positions = RunnerPositions::new();
            }
        }
        match play.get_movements() {
            Some(movements) => self.process_movements(movements, top),
            None => {},
        }
        self.plays.push(play);
    }

    /// The names on the home roster, once the context is known.
    pub fn home_team_player_names(&self) -> (r: Option<Vec<String>>)
        ensures
            match r {
                Some(v) => self.context is Some && v@.map_values(|s: String| s@) == names(self.context.unwrap().home_team),
                None => self.context is None,
            },
    {
        match &self.context {
            Some(c) => Some(names_of(&c.home_team)),
            None => None,
        }
    }

    /// The names on the away roster, once the context is known.
    pub fn away_team_player_names(&self) -> (r: Option<Vec<String>>)
        ensures
            match r {
                Some(v) => self.context is Some && v@.map_values(|s: String| s@) == names(self.context.unwrap().away_team),
                None => self.context is None,
            },
    {
        match &self.context {
            Some(c) => Some(names_of(&c.away_team)),
            None => None,
        }
    }

    /// The pinch runners on the home roster, once the context is known.
    pub fn home_team_pinch_runner_names(&self) -> (r: Option<Vec<String>>)
        ensures
            match r {
                Some(v) => self.context is Some && v@.map_values(|s: String| s@) == pinch_runner_names(self.context.unwrap().home_team.players@),
                None => self.context is None,
            },
    {
        match &self.context {
            Some(c) => Some(pinch_runners_of(&c.home_team)),
            None => None,
        }
    }

    /// The pinch runners on the away roster, once the context is known.
    pub fn away_team_pinch_runner_names(&self) -> (r: Option<Vec<String>>)
        ensures
            match r {
                Some(v) => self.context is Some && v@.map_values(|s: String| s@) == pinch_runner_names(self.context.unwrap().away_team.players@),
                None => self.context is None,
            },
    {
        match &self.context {
            Some(c) => Some(pinch_runners_of(&c.away_team)),
            None => None,
        }
    }

    /// The finished game: a copy of the context and the plays. Fails when the context
    /// is not set or no play was accepted.
    pub fn build(&self) -> (r: Result<Game, ParseError>)
        ensures
            match r {
                Ok(g) => {
                    &&& self.context is Some
                    &&& self.plays.len() > 0
                    &&& g.context.same(self.context.unwrap())
                    &&& g.plays.len() == self.plays.len()
                    &&& forall|i: int| 0 <= i < g.plays.len() ==> (#[trigger] g.plays@[i]).same(self.plays@[i])
                },
                Err(e) => e == ParseError::IncompleteGame && (self.context is None || self.plays.len() == 0),
            },
    {
        let context = match &self.context {
            Some(c) => c.duplicate(),
            None => return Err(ParseError::IncompleteGame),
        };
        if self.plays.len() == 0 {
            return Err(ParseError::IncompleteGame);
        }
        let mut plays: Vec<Play> = Vec::new();
        let mut i: usize = 0;
        while i < self.plays.len()
            invariant
                i <= self.plays.len(),
                plays.len() == i,
                forall|k: int| 0 <= k < i ==> (#[trigger] plays@[k]).same(self.plays@[k]),
            decreases self.plays.len() - i,
        {
            plays.push(self.plays[i].duplicate());
            i = i + 1;
        }
        Ok(Game { context, plays })
    }
}

} // verus!
