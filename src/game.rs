//! The domain model: kinds of play, bases, innings, rosters, plays and the play builder.
use vstd::prelude::*;

verus! {

/// A base. `Home` is where the batter starts and where runs score.
#[derive(Clone, Copy, Debug, PartialEq, Eq, Hash, Structural)]
pub enum Base {
    Home,
    First,
    Second,
    Third,
}

impl Base {
    /// The text of the base on the wire.
    pub open spec fn wire(self) -> Seq<char> {
        match self {
            Base::Home => "home"@,
            Base::First => "1"@,
            Base::Second => "2"@,
            Base::Third => "3"@,
        }
    }

    /// The bases strictly later than this one in the order
    /// home, 1, 2, 3, home (scoring).
    pub open spec fn later_bases(self) -> Seq<Base> {
        match self {
            Base::Home => seq![Base::First, Base::Second, Base::Third, Base::Home],
            Base::First => seq![Base::Second, Base::Third, Base::Home],
            Base::Second => seq![Base::Third, Base::Home],
            Base::Third => seq![Base::Home],
        }
    }

    /// The text of the base on the wire.
    pub fn wire_name(&self) -> (r: &'static str)
        ensures
            r@ == self.wire(),
    {
        match self {
            Base::Home => "home",
            Base::First => "1",
            Base::Second => "2",
            Base::Third => "3",
        }
    }

    /// The text of the base on the wire.
    pub fn to_string(&self) -> (r: String)
        ensures
            r@ == self.wire(),
    {
        String::from_str(self.wire_name())
    }

    /// The bases that a runner on this base may move to.
    pub fn valid_to_bases(&self) -> (r: Vec<Base>)
        ensures
            r@ == self.later_bases(),
    {
        let r = match self {
            Base::Home => vec![Base::First, Base::Second, Base::Third, Base::Home],
            Base::First => vec![Base::Second, Base::Third, Base::Home],
            Base::Second => vec![Base::Third, Base::Home],
            Base::Third => vec![Base::Home],
        };
        assert(r@ =~= self.later_bases());
        r
    }

    /// The base whose wire text is `s`, if any.
    pub fn from_wire(s: &String) -> (r: Option<Base>)
        ensures
            r == base_of_wire(s@),
    {
        if *s == String::from_str("home") {
            Some(Base::Home)
        } else if *s == String::from_str("1") {
            Some(Base::First)
        } else if *s == String::from_str("2") {
            Some(Base::Second)
        } else if *s == String::from_str("3") {
            Some(Base::Third)
        } else {
            None
        }
    }
}

/// The base whose wire text is `s`, if any.
pub open spec fn base_of_wire(s: Seq<char>) -> Option<Base> {
    if s == "home"@ {
        Some(Base::Home)
    } else if s == "1"@ {
        Some(Base::First)
    } else if s == "2"@ {
        Some(Base::Second)
    } else if s == "3"@ {
        Some(Base::Third)
    } else {
        None
    }
}

/// A half inning: its number, and whether it is the top (the away team bats).
#[derive(Clone, Copy, Debug, PartialEq, Eq, Structural)]
pub struct Inning {
    pub number: u32,
    pub top: bool,
}

impl Inning {
    /// The half inning after this one.
    pub open spec fn successor(self) -> (int, bool) {
        if self.top {
            (self.number as int, false)
        } else {
            (self.number + 1, true)
        }
    }

    /// The half inning after this one.
    pub fn next(&self) -> (r: Inning)
        requires
            self.top || self.number < u32::MAX,
        ensures
            (r.number as int, r.top) == self.successor(),
    {
        if self.top {
            Inning { number: self.number, top: false }
        } else {
            Inning { number: self.number + 1, top: true }
        }
    }
}

/// One runner's move between bases during a play.
#[derive(Clone, Debug, PartialEq, Eq)]
pub struct Movement {
    pub runner: String,
    pub start_base: Base,
    pub end_base: Base,
    pub is_out: bool,
}

impl Movement {
    /// A copy of the movement.
    pub fn duplicate(&self) -> (r: Movement)
        ensures
            r == *self,
    {
        Movement {
            runner: self.runner.clone(),
            start_base: self.start_base,
            end_base: self.end_base,
            is_out: self.is_out,
        }
    }
}

/// The weather at the venue.
#[derive(Clone, Debug, PartialEq, Eq)]
pub struct Weather {
    pub condition: String,
    pub temperature: u32,
    pub wind_speed: u32,
}

/// A rostered player: a position code and a name.
#[derive(Clone, Debug, PartialEq, Eq)]
pub struct Player {
    pub position: String,
    pub name: String,
}

/// A team and its roster.
#[derive(Clone, Debug, PartialEq, Eq)]
pub struct Team {
    pub id: u32,
    pub players: Vec<Player>,
}

/// The metadata that precedes the plays of a game.
#[derive(Clone, Debug, PartialEq, Eq)]
pub struct Context {
    pub game_pk: u32,
    pub date: String,
    pub venue_name: String,
    pub weather: Weather,
    pub home_team: Team,
    pub away_team: Team,
}

/// A copy of a list of names.
pub fn copy_strings(v: &Vec<String>) -> (r: Vec<String>)
    ensures
        r@ == v@,
{
    let mut r: Vec<String> = Vec::new();
    let mut i: usize = 0;
    while i < v.len()
        invariant
            i <= v.len(),
            r@ == v@.subrange(0, i as int),
        decreases v.len() - i,
    {
        r.push(v[i].clone());
        assert(r@ =~= v@.subrange(0, i as int + 1));
        i = i + 1;
    }
    assert(v@.subrange(0, v.len() as int) =~= v@);
    r
}

/// A copy of a list of movements.
pub fn copy_movements(v: &Vec<Movement>) -> (r: Vec<Movement>)
    ensures
        r@ == v@,
{
    let mut r: Vec<Movement> = Vec::new();
    let mut i: usize = 0;
    while i < v.len()
        invariant
            i <= v.len(),
            r@ == v@.subrange(0, i as int),
        decreases v.len() - i,
    {
        r.push(v[i].duplicate());
        assert(r@ =~= v@.subrange(0, i as int + 1));
        i = i + 1;
    }
    assert(v@.subrange(0, v.len() as int) =~= v@);
    r
}

impl Team {
    /// `self` and `o` hold the same values, the roster compared by its contents.
    pub open spec fn same(self, o: Team) -> bool {
        self.id == o.id && self.players@ == o.players@
    }
}

/// A copy of a roster.
fn copy_team(t: &Team) -> (r: Team)
    ensures
        r.same(*t),
{
    let mut players: Vec<Player> = Vec::new();
    let mut i: usize = 0;
    while i < t.players.len()
        invariant
            i <= t.players.len(),
            players@ == t.players@.subrange(0, i as int),
        decreases t.players.len() - i,
    {
        let p = &t.players[i];
        players.push(Player { position: p.position.clone(), name: p.name.clone() });
        assert(players@ =~= t.players@.subrange(0, i as int + 1));
        i = i + 1;
    }
    assert(t.players@.subrange(0, t.players.len() as int) =~= t.players@);
    Team { id: t.id, players }
}

impl Context {
    /// `self` and `o` hold the same values, rosters compared by their contents.
    pub open spec fn same(self, o: Context) -> bool {
        &&& self.game_pk == o.game_pk
        &&& self.date == o.date
        &&& self.venue_name == o.venue_name
        &&& self.weather == o.weather
        &&& self.home_team.same(o.home_team)
        &&& self.away_team.same(o.away_team)
    }

    /// A copy of the context.
    pub fn duplicate(&self) -> (r: Context)
        ensures
            r.same(*self),
    {
        Context {
            game_pk: self.game_pk,
            date: self.date.clone(),
            venue_name: self.venue_name.clone(),
            weather: Weather {
                condition: self.weather.condition.clone(),
                temperature: self.weather.temperature,
                wind_speed: self.weather.wind_speed,
            },
            home_team: copy_team(&self.home_team),
            away_team: copy_team(&self.away_team),
        }
    }
}

/// Which fields a play of some kind carries: the information fields, and
/// whether a movements line follows.
#[derive(Clone, Copy, Debug, PartialEq, Eq, Structural)]
pub struct FieldRow {
    pub base: bool,
    pub batter: bool,
    pub pitcher: bool,
    pub catcher: bool,
    pub fielders: bool,
    pub runner: bool,
    pub scoring_runner: bool,
    pub movements: bool,
}

/// The slots of a play under construction, filled line by line.
pub struct PlayBuilder {
    pub inning: Option<Inning>,
    pub play_type: Option<PlayType>,
    pub base: Option<Base>,
    pub batter: Option<String>,
    pub pitcher: Option<String>,
    pub catcher: Option<String>,
    pub fielders: Option<Vec<String>>,
    pub runner: Option<String>,
    pub scoring_runner: Option<String>,
    pub movements: Option<Vec<Movement>>,
}

impl PlayBuilder {
    /// The builder with every slot empty.
    pub open spec fn empty() -> PlayBuilder {
        PlayBuilder {
            inning: None,
            play_type: None,
            base: None,
            batter: None,
            pitcher: None,
            catcher: None,
            fielders: None,
            runner: None,
            scoring_runner: None,
            movements: None,
        }
    }

    /// The kind and inning are set, and so is every field that the kind's row lists.
    pub open spec fn ready(self) -> bool {
        &&& self.play_type is Some
        &&& self.inning is Some
        &&& {
            let row = self.play_type.unwrap().row();
            &&& row.base ==> self.base is Some
            &&& row.batter ==> self.batter is Some
            &&& row.pitcher ==> self.pitcher is Some
            &&& row.catcher ==> self.catcher is Some
            &&& row.fielders ==> self.fielders is Some
            &&& row.runner ==> self.runner is Some
            &&& row.scoring_runner ==> self.scoring_runner is Some
            &&& row.movements ==> self.movements is Some
        }
    }

    /// `p` is the play that the slots describe: of the builder's kind and inning,
    /// with the slots of the kind's row and no others.
    pub open spec fn builds(self, p: Play) -> bool {
        let row = self.play_type.unwrap().row();
        &&& p.kind() == self.play_type.unwrap()
        &&& p.inning() == self.inning.unwrap()
        &&& p.base_field() == (if row.base { self.base } else { None })
        &&& p.batter_field() == (if row.batter { self.batter } else { None })
        &&& p.pitcher_field() == (if row.pitcher { self.pitcher } else { None })
        &&& p.catcher_field() == (if row.catcher { self.catcher } else { None })
        &&& p.fielders_field() == (if row.fielders { self.fielders } else { None })
        &&& p.runner_field() == (if row.runner { self.runner } else { None })
        &&& p.scoring_runner_field() == (if row.scoring_runner { self.scoring_runner } else { None })
        &&& p.movements_field() == (if row.movements { self.movements } else { None })
    }

    /// A builder with every slot empty.
    pub fn new() -> (r: Self)
        ensures
            r == PlayBuilder::empty(),
    {
        PlayBuilder {
            inning: None,
            play_type: None,
            base: None,
            batter: None,
            pitcher: None,
            catcher: None,
            fielders: None,
            runner: None,
            scoring_runner: None,
            movements: None,
        }
    }

    /// Fills the `inning` slot.
    pub fn set_inning(&mut self, inning: Inning)
        ensures
            *final(self) == (PlayBuilder { inning: Some(inning), ..*old(self) }),
    {
        self.inning = Some(inning);
    }

    /// Fills the `play_type` slot.
    pub fn set_play_type(&mut self, play_type: PlayType)
        ensures
            *final(self) == (PlayBuilder { play_type: Some(play_type), ..*old(self) }),
    {
        self.play_type = Some(play_type);
    }

    /// Fills the `base` slot.
    pub fn set_base(&mut self, base: Base)
        ensures
            *final(self) == (PlayBuilder { base: Some(base), ..*old(self) }),
    {
        self.base = Some(base);
    }

    /// Fills the `batter` slot.
    pub fn set_batter(&mut self, batter: String)
        ensures
            *final(self) == (PlayBuilder { batter: Some(batter), ..*old(self) }),
    {
        self.batter = Some(batter);
    }

    /// Fills the `pitcher` slot.
    pub fn set_pitcher(&mut self, pitcher: String)
        ensures
            *final(self) == (PlayBuilder { pitcher: Some(pitcher), ..*old(self) }),
    {
        self.pitcher = Some(pitcher);
    }

    /// Fills the `catcher` slot.
    pub fn set_catcher(&mut self, catcher: String)
        ensures
            *final(self) == (PlayBuilder { catcher: Some(catcher), ..*old(self) }),
    {
        self.catcher = Some(catcher);
    }

    /// Fills the `fielders` slot.
    pub fn set_fielders(&mut self, fielders: Vec<String>)
        ensures
            *final(self) == (PlayBuilder { fielders: Some(fielders), ..*old(self) }),
    {
        self.fielders = Some(fielders);
    }

    /// Fills the `runner` slot.
    pub fn set_runner(&mut self, runner: String)
        ensures
            *final(self) == (PlayBuilder { runner: Some(runner), ..*old(self) }),
    {
        self.runner = Some(runner);
    }

    /// Fills the `scoring_runner` slot.
    pub fn set_scoring_runner(&mut self, scoring_runner: String)
        ensures
            *final(self) == (PlayBuilder { scoring_runner: Some(scoring_runner), ..*old(self) }),
    {
        self.scoring_runner = Some(scoring_runner);
    }

    /// Fills the `movements` slot.
    pub fn set_movements(&mut self, movements: Vec<Movement>)
        ensures
            *final(self) == (PlayBuilder { movements: Some(movements), ..*old(self) }),
    {
        self.movements = Some(movements);
    }
}


/// The kind of a play.
#[derive(Clone, Copy, Debug, PartialEq, Eq, Structural)]
pub enum PlayType {
    Groundout,
    BuntGroundout,
    Strikeout,
    Lineout,
    BuntLineout,
    Flyout,
    PopOut,
    BuntPopOut,
    Forceout,
    FieldersChoiceOut,
    DoublePlay,
    TriplePlay,
    RunnerDoublePlay,
    RunnerTriplePlay,
    GroundedIntoDoublePlay,
    StrikeoutDoublePlay,
    Pickoff,
    PickoffError,
    CaughtStealing,
    PickoffCaughtStealing,
    WildPitch,
    RunnerOut,
    FieldOut,
    BatterOut,
    Balk,
    PassedBall,
    Error,
    Single,
    Double,
    Triple,
    HomeRun,
    Walk,
    IntentWalk,
    HitByPitch,
    FieldersChoice,
    CatcherInterference,
    StolenBase,
    SacFly,
    SacFlyDoublePlay,
    SacBunt,
    SacBuntDoublePlay,
    FieldError,
    GameAdvisory,
    Ejection,
}

impl PlayType {
    /// The text of the kind on the wire.
    pub open spec fn wire(self) -> Seq<char> {
        match self {
            PlayType::Groundout => "Groundout"@,
            PlayType::BuntGroundout => "Bunt Groundout"@,
            PlayType::Strikeout => "Strikeout"@,
            PlayType::Lineout => "Lineout"@,
            PlayType::BuntLineout => "Bunt Lineout"@,
            PlayType::Flyout => "Flyout"@,
            PlayType::PopOut => "Pop Out"@,
            PlayType::BuntPopOut => "Bunt Pop Out"@,
            PlayType::Forceout => "Forceout"@,
            PlayType::FieldersChoiceOut => "Fielders Choice Out"@,
            PlayType::DoublePlay => "Double Play"@,
            PlayType::TriplePlay => "Triple Play"@,
            PlayType::RunnerDoublePlay => "Runner Double Play"@,
            PlayType::RunnerTriplePlay => "Runner Triple Play"@,
            PlayType::GroundedIntoDoublePlay => "Grounded Into Double Play"@,
            PlayType::StrikeoutDoublePlay => "Strikeout Double Play"@,
            PlayType::Pickoff => "Pickoff"@,
            PlayType::PickoffError => "Pickoff Error"@,
            PlayType::CaughtStealing => "Caught Stealing"@,
            PlayType::PickoffCaughtStealing => "Pickoff Caught Stealing"@,
            PlayType::WildPitch => "Wild Pitch"@,
            PlayType::RunnerOut => "Runner Out"@,
            PlayType::FieldOut => "Field Out"@,
            PlayType::BatterOut => "Batter Out"@,
            PlayType::Balk => "Balk"@,
            PlayType::PassedBall => "Passed Ball"@,
            PlayType::Error => "Error"@,
            PlayType::Single => "Single"@,
            PlayType::Double => "Double"@,
            PlayType::Triple => "Triple"@,
            PlayType::HomeRun => "Home Run"@,
            PlayType::Walk => "Walk"@,
            PlayType::IntentWalk => "Intent Walk"@,
            PlayType::HitByPitch => "Hit By Pitch"@,
            PlayType::FieldersChoice => "Fielders Choice"@,
            PlayType::CatcherInterference => "Catcher Interference"@,
            PlayType::StolenBase => "Stolen Base"@,
            PlayType::SacFly => "Sac Fly"@,
            PlayType::SacFlyDoublePlay => "Sac Fly Double Play"@,
            PlayType::SacBunt => "Sac Bunt"@,
            PlayType::SacBuntDoublePlay => "Sac Bunt Double Play"@,
            PlayType::FieldError => "Field Error"@,
            PlayType::GameAdvisory => "Game Advisory"@,
            PlayType::Ejection => "Ejection"@,
        }
    }

    /// Which fields a play of this kind carries.
    pub open spec fn row(self) -> FieldRow {
        match self {
            PlayType::Groundout | PlayType::BuntGroundout | PlayType::Lineout | PlayType::BuntLineout | PlayType::Flyout | PlayType::PopOut | PlayType::BuntPopOut | PlayType::Forceout | PlayType::DoublePlay | PlayType::TriplePlay | PlayType::RunnerDoublePlay | PlayType::RunnerTriplePlay | PlayType::GroundedIntoDoublePlay | PlayType::StrikeoutDoublePlay | PlayType::FieldersChoice | PlayType::CatcherInterference | PlayType::FieldError => FieldRow { base: false, batter: true, pitcher: true, catcher: false, fielders: true, runner: false, scoring_runner: false, movements: true },
            PlayType::Strikeout | PlayType::Single | PlayType::Double | PlayType::Triple | PlayType::HomeRun | PlayType::Walk | PlayType::IntentWalk | PlayType::HitByPitch => FieldRow { base: false, batter: true, pitcher: true, catcher: false, fielders: false, runner: false, scoring_runner: false, movements: true },
            PlayType::FieldersChoiceOut | PlayType::SacFly | PlayType::SacFlyDoublePlay => FieldRow { base: false, batter: true, pitcher: true, catcher: false, fielders: true, runner: false, scoring_runner: true, movements: true },
            PlayType::Pickoff | PlayType::PickoffError | PlayType::CaughtStealing | PlayType::PickoffCaughtStealing => FieldRow { base: true, batter: false, pitcher: false, catcher: false, fielders: true, runner: true, scoring_runner: false, movements: true },
            PlayType::WildPitch => FieldRow { base: false, batter: false, pitcher: true, catcher: false, fielders: false, runner: true, scoring_runner: false, movements: true },
            PlayType::RunnerOut | PlayType::FieldOut => FieldRow { base: false, batter: false, pitcher: false, catcher: false, fielders: true, runner: true, scoring_runner: false, movements: true },
            PlayType::BatterOut => FieldRow { base: false, batter: true, pitcher: false, catcher: true, fielders: false, runner: false, scoring_runner: false, movements: true },
            PlayType::Balk => FieldRow { base: false, batter: false, pitcher: true, catcher: false, fielders: false, runner: false, scoring_runner: false, movements: true },
            PlayType::PassedBall | PlayType::Error => FieldRow { base: false, batter: false, pitcher: true, catcher: true, fielders: false, runner: false, scoring_runner: false, movements: true },
            PlayType::StolenBase => FieldRow { base: true, batter: false, pitcher: false, catcher: false, fielders: false, runner: true, scoring_runner: false, movements: true },
            PlayType::SacBunt | PlayType::SacBuntDoublePlay => FieldRow { base: false, batter: true, pitcher: true, catcher: false, fielders: true, runner: true, scoring_runner: false, movements: true },
            PlayType::GameAdvisory => FieldRow { base: false, batter: false, pitcher: false, catcher: false, fielders: false, runner: false, scoring_runner: false, movements: false },
            PlayType::Ejection => FieldRow { base: false, batter: false, pitcher: false, catcher: false, fielders: false, runner: false, scoring_runner: false, movements: true },
        }
    }

    /// The text of the kind on the wire.
    pub fn wire_name(&self) -> (r: &'static str)
        ensures
            r@ == self.wire(),
    {
        match self {
            PlayType::Groundout => "Groundout",
            PlayType::BuntGroundout => "Bunt Groundout",
            PlayType::Strikeout => "Strikeout",
            PlayType::Lineout => "Lineout",
            PlayType::BuntLineout => "Bunt Lineout",
            PlayType::Flyout => "Flyout",
            PlayType::PopOut => "Pop Out",
            PlayType::BuntPopOut => "Bunt Pop Out",
            PlayType::Forceout => "Forceout",
            PlayType::FieldersChoiceOut => "Fielders Choice Out",
            PlayType::DoublePlay => "Double Play",
            PlayType::TriplePlay => "Triple Play",
            PlayType::RunnerDoublePlay => "Runner Double Play",
            PlayType::RunnerTriplePlay => "Runner Triple Play",
            PlayType::GroundedIntoDoublePlay => "Grounded Into Double Play",
            PlayType::StrikeoutDoublePlay => "Strikeout Double Play",
            PlayType::Pickoff => "Pickoff",
            PlayType::PickoffError => "Pickoff Error",
            PlayType::CaughtStealing => "Caught Stealing",
            PlayType::PickoffCaughtStealing => "Pickoff Caught Stealing",
            PlayType::WildPitch => "Wild Pitch",
            PlayType::RunnerOut => "Runner Out",
            PlayType::FieldOut => "Field Out",
            PlayType::BatterOut => "Batter Out",
            PlayType::Balk => "Balk",
            PlayType::PassedBall => "Passed Ball",
            PlayType::Error => "Error",
            PlayType::Single => "Single",
            PlayType::Double => "Double",
            PlayType::Triple => "Triple",
            PlayType::HomeRun => "Home Run",
            PlayType::Walk => "Walk",
            PlayType::IntentWalk => "Intent Walk",
            PlayType::HitByPitch => "Hit By Pitch",
            PlayType::FieldersChoice => "Fielders Choice",
            PlayType::CatcherInterference => "Catcher Interference",
            PlayType::StolenBase => "Stolen Base",
            PlayType::SacFly => "Sac Fly",
            PlayType::SacFlyDoublePlay => "Sac Fly Double Play",
            PlayType::SacBunt => "Sac Bunt",
            PlayType::SacBuntDoublePlay => "Sac Bunt Double Play",
            PlayType::FieldError => "Field Error",
            PlayType::GameAdvisory => "Game Advisory",
            PlayType::Ejection => "Ejection",
        }
    }

    /// The text of the kind on the wire.
    pub fn to_string(&self) -> (r: String)
        ensures
            r@ == self.wire(),
    {
        String::from_str(self.wire_name())
    }

    /// Which fields a play of this kind carries.
    pub fn fields(&self) -> (r: FieldRow)
        ensures
            r == self.row(),
    {
        match self {
            PlayType::Groundout | PlayType::BuntGroundout | PlayType::Lineout | PlayType::BuntLineout | PlayType::Flyout | PlayType::PopOut | PlayType::BuntPopOut | PlayType::Forceout | PlayType::DoublePlay | PlayType::TriplePlay | PlayType::RunnerDoublePlay | PlayType::RunnerTriplePlay | PlayType::GroundedIntoDoublePlay | PlayType::StrikeoutDoublePlay | PlayType::FieldersChoice | PlayType::CatcherInterference | PlayType::FieldError => FieldRow { base: false, batter: true, pitcher: true, catcher: false, fielders: true, runner: false, scoring_runner: false, movements: true },
            PlayType::Strikeout | PlayType::Single | PlayType::Double | PlayType::Triple | PlayType::HomeRun | PlayType::Walk | PlayType::IntentWalk | PlayType::HitByPitch => FieldRow { base: false, batter: true, pitcher: true, catcher: false, fielders: false, runner: false, scoring_runner: false, movements: true },
            PlayType::FieldersChoiceOut | PlayType::SacFly | PlayType::SacFlyDoublePlay => FieldRow { base: false, batter: true, pitcher: true, catcher: false, fielders: true, runner: false, scoring_runner: true, movements: true },
            PlayType::Pickoff | PlayType::PickoffError | PlayType::CaughtStealing | PlayType::PickoffCaughtStealing => FieldRow { base: true, batter: false, pitcher: false, catcher: false, fielders: true, runner: true, scoring_runner: false, movements: true },
            PlayType::WildPitch => FieldRow { base: false, batter: false, pitcher: true, catcher: false, fielders: false, runner: true, scoring_runner: false, movements: true },
            PlayType::RunnerOut | PlayType::FieldOut => FieldRow { base: false, batter: false, pitcher: false, catcher: false, fielders: true, runner: true, scoring_runner: false, movements: true },
            PlayType::BatterOut => FieldRow { base: false, batter: true, pitcher: false, catcher: true, fielders: false, runner: false, scoring_runner: false, movements: true },
            PlayType::Balk => FieldRow { base: false, batter: false, pitcher: true, catcher: false, fielders: false, runner: false, scoring_runner: false, movements: true },
            PlayType::PassedBall | PlayType::Error => FieldRow { base: false, batter: false, pitcher: true, catcher: true, fielders: false, runner: false, scoring_runner: false, movements: true },
            PlayType::StolenBase => FieldRow { base: true, batter: false, pitcher: false, catcher: false, fielders: false, runner: true, scoring_runner: false, movements: true },
            PlayType::SacBunt | PlayType::SacBuntDoublePlay => FieldRow { base: false, batter: true, pitcher: true, catcher: false, fielders: true, runner: true, scoring_runner: false, movements: true },
            PlayType::GameAdvisory => FieldRow { base: false, batter: false, pitcher: false, catcher: false, fielders: false, runner: false, scoring_runner: false, movements: false },
            PlayType::Ejection => FieldRow { base: false, batter: false, pitcher: false, catcher: false, fielders: false, runner: false, scoring_runner: false, movements: true },
        }
    }

    /// The kind whose wire text is `s`, if any.
    pub fn from_wire(s: &String) -> (r: Option<PlayType>)
        ensures
            r == play_type_of_wire(s@),
    {
        if *s == String::from_str("Groundout") {
            Some(PlayType::Groundout)
        } else if *s == String::from_str("Bunt Groundout") {
            Some(PlayType::BuntGroundout)
        } else if *s == String::from_str("Strikeout") {
            Some(PlayType::Strikeout)
        } else if *s == String::from_str("Lineout") {
            Some(PlayType::Lineout)
        } else if *s == String::from_str("Bunt Lineout") {
            Some(PlayType::BuntLineout)
        } else if *s == String::from_str("Flyout") {
            Some(PlayType::Flyout)
        } else if *s == String::from_str("Pop Out") {
            Some(PlayType::PopOut)
        } else if *s == String::from_str("Bunt Pop Out") {
            Some(PlayType::BuntPopOut)
        } else if *s == String::from_str("Forceout") {
            Some(PlayType::Forceout)
        } else if *s == String::from_str("Fielders Choice Out") {
            Some(PlayType::FieldersChoiceOut)
        } else if *s == String::from_str("Double Play") {
            Some(PlayType::DoublePlay)
        } else if *s == String::from_str("Triple Play") {
            Some(PlayType::TriplePlay)
        } else if *s == String::from_str("Runner Double Play") {
            Some(PlayType::RunnerDoublePlay)
        } else if *s == String::from_str("Runner Triple Play") {
            Some(PlayType::RunnerTriplePlay)
        } else if *s == String::from_str("Grounded Into Double Play") {
            Some(PlayType::GroundedIntoDoublePlay)
        } else if *s == String::from_str("Strikeout Double Play") {
            Some(PlayType::StrikeoutDoublePlay)
        } else if *s == String::from_str("Pickoff") {
            Some(PlayType::Pickoff)
        } else if *s == String::from_str("Pickoff Error") {
            Some(PlayType::PickoffError)
        } else if *s == String::from_str("Caught Stealing") {
            Some(PlayType::CaughtStealing)
        } else if *s == String::from_str("Pickoff Caught Stealing") {
            Some(PlayType::PickoffCaughtStealing)
        } else if *s == String::from_str("Wild Pitch") {
            Some(PlayType::WildPitch)
        } else if *s == String::from_str("Runner Out") {
            Some(PlayType::RunnerOut)
        } else if *s == String::from_str("Field Out") {
            Some(PlayType::FieldOut)
        } else if *s == String::from_str("Batter Out") {
            Some(PlayType::BatterOut)
        } else if *s == String::from_str("Balk") {
            Some(PlayType::Balk)
        } else if *s == String::from_str("Passed Ball") {
            Some(PlayType::PassedBall)
        } else if *s == String::from_str("Error") {
            Some(PlayType::Error)
        } else if *s == String::from_str("Single") {
            Some(PlayType::Single)
        } else if *s == String::from_str("Double") {
            Some(PlayType::Double)
        } else if *s == String::from_str("Triple") {
            Some(PlayType::Triple)
        } else if *s == String::from_str("Home Run") {
            Some(PlayType::HomeRun)
        } else if *s == String::from_str("Walk") {
            Some(PlayType::Walk)
        } else if *s == String::from_str("Intent Walk") {
            Some(PlayType::IntentWalk)
        } else if *s == String::from_str("Hit By Pitch") {
            Some(PlayType::HitByPitch)
        } else if *s == String::from_str("Fielders Choice") {
            Some(PlayType::FieldersChoice)
        } else if *s == String::from_str("Catcher Interference") {
            Some(PlayType::CatcherInterference)
        } else if *s == String::from_str("Stolen Base") {
            Some(PlayType::StolenBase)
        } else if *s == String::from_str("Sac Fly") {
            Some(PlayType::SacFly)
        } else if *s == String::from_str("Sac Fly Double Play") {
            Some(PlayType::SacFlyDoublePlay)
        } else if *s == String::from_str("Sac Bunt") {
            Some(PlayType::SacBunt)
        } else if *s == String::from_str("Sac Bunt Double Play") {
            Some(PlayType::SacBuntDoublePlay)
        } else if *s == String::from_str("Field Error") {
            Some(PlayType::FieldError)
        } else if *s == String::from_str("Game Advisory") {
            Some(PlayType::GameAdvisory)
        } else if *s == String::from_str("Ejection") {
            Some(PlayType::Ejection)
        } else {
            None
        }
    }
}

/// The kind whose wire text is `s`, if any.
pub open spec fn play_type_of_wire(s: Seq<char>) -> Option<PlayType> {
    if s == "Groundout"@ {
        Some(PlayType::Groundout)
    } else if s == "Bunt Groundout"@ {
        Some(PlayType::BuntGroundout)
    } else if s == "Strikeout"@ {
        Some(PlayType::Strikeout)
    } else if s == "Lineout"@ {
        Some(PlayType::Lineout)
    } else if s == "Bunt Lineout"@ {
        Some(PlayType::BuntLineout)
    } else if s == "Flyout"@ {
        Some(PlayType::Flyout)
    } else if s == "Pop Out"@ {
        Some(PlayType::PopOut)
    } else if s == "Bunt Pop Out"@ {
        Some(PlayType::BuntPopOut)
    } else if s == "Forceout"@ {
        Some(PlayType::Forceout)
    } else if s == "Fielders Choice Out"@ {
        Some(PlayType::FieldersChoiceOut)
    } else if s == "Double Play"@ {
        Some(PlayType::DoublePlay)
    } else if s == "Triple Play"@ {
        Some(PlayType::TriplePlay)
    } else if s == "Runner Double Play"@ {
        Some(PlayType::RunnerDoublePlay)
    } else if s == "Runner Triple Play"@ {
        Some(PlayType::RunnerTriplePlay)
    } else if s == "Grounded Into Double Play"@ {
        Some(PlayType::GroundedIntoDoublePlay)
    } else if s == "Strikeout Double Play"@ {
        Some(PlayType::StrikeoutDoublePlay)
    } else if s == "Pickoff"@ {
        Some(PlayType::Pickoff)
    } else if s == "Pickoff Error"@ {
        Some(PlayType::PickoffError)
    } else if s == "Caught Stealing"@ {
        Some(PlayType::CaughtStealing)
    } else if s == "Pickoff Caught Stealing"@ {
        Some(PlayType::PickoffCaughtStealing)
    } else if s == "Wild Pitch"@ {
        Some(PlayType::WildPitch)
    } else if s == "Runner Out"@ {
        Some(PlayType::RunnerOut)
    } else if s == "Field Out"@ {
        Some(PlayType::FieldOut)
    } else if s == "Batter Out"@ {
        Some(PlayType::BatterOut)
    } else if s == "Balk"@ {
        Some(PlayType::Balk)
    } else if s == "Passed Ball"@ {
        Some(PlayType::PassedBall)
    } else if s == "Error"@ {
        Some(PlayType::Error)
    } else if s == "Single"@ {
        Some(PlayType::Single)
    } else if s == "Double"@ {
        Some(PlayType::Double)
    } else if s == "Triple"@ {
        Some(PlayType::Triple)
    } else if s == "Home Run"@ {
        Some(PlayType::HomeRun)
    } else if s == "Walk"@ {
        Some(PlayType::Walk)
    } else if s == "Intent Walk"@ {
        Some(PlayType::IntentWalk)
    } else if s == "Hit By Pitch"@ {
        Some(PlayType::HitByPitch)
    } else if s == "Fielders Choice"@ {
        Some(PlayType::FieldersChoice)
    } else if s == "Catcher Interference"@ {
        Some(PlayType::CatcherInterference)
    } else if s == "Stolen Base"@ {
        Some(PlayType::StolenBase)
    } else if s == "Sac Fly"@ {
        Some(PlayType::SacFly)
    } else if s == "Sac Fly Double Play"@ {
        Some(PlayType::SacFlyDoublePlay)
    } else if s == "Sac Bunt"@ {
        Some(PlayType::SacBunt)
    } else if s == "Sac Bunt Double Play"@ {
        Some(PlayType::SacBuntDoublePlay)
    } else if s == "Field Error"@ {
        Some(PlayType::FieldError)
    } else if s == "Game Advisory"@ {
        Some(PlayType::GameAdvisory)
    } else if s == "Ejection"@ {
        Some(PlayType::Ejection)
    } else {
        None
    }
}

/// Every kind of play, in declaration order.
pub open spec fn all_play_types() -> Seq<PlayType> {
    seq![PlayType::Groundout, PlayType::BuntGroundout, PlayType::Strikeout, PlayType::Lineout, PlayType::BuntLineout, PlayType::Flyout, PlayType::PopOut, PlayType::BuntPopOut, PlayType::Forceout, PlayType::FieldersChoiceOut, PlayType::DoublePlay, PlayType::TriplePlay, PlayType::RunnerDoublePlay, PlayType::RunnerTriplePlay, PlayType::GroundedIntoDoublePlay, PlayType::StrikeoutDoublePlay, PlayType::Pickoff, PlayType::PickoffError, PlayType::CaughtStealing, PlayType::PickoffCaughtStealing, PlayType::WildPitch, PlayType::RunnerOut, PlayType::FieldOut, PlayType::BatterOut, PlayType::Balk, PlayType::PassedBall, PlayType::Error, PlayType::Single, PlayType::Double, PlayType::Triple, PlayType::HomeRun, PlayType::Walk, PlayType::IntentWalk, PlayType::HitByPitch, PlayType::FieldersChoice, PlayType::CatcherInterference, PlayType::StolenBase, PlayType::SacFly, PlayType::SacFlyDoublePlay, PlayType::SacBunt, PlayType::SacBuntDoublePlay, PlayType::FieldError, PlayType::GameAdvisory, PlayType::Ejection]
}

/// Every kind of play, in declaration order.
pub fn play_types() -> (r: Vec<PlayType>)
    ensures
        r@ == all_play_types(),
{
    let r = vec![PlayType::Groundout, PlayType::BuntGroundout, PlayType::Strikeout, PlayType::Lineout, PlayType::BuntLineout, PlayType::Flyout, PlayType::PopOut, PlayType::BuntPopOut, PlayType::Forceout, PlayType::FieldersChoiceOut, PlayType::DoublePlay, PlayType::TriplePlay, PlayType::RunnerDoublePlay, PlayType::RunnerTriplePlay, PlayType::GroundedIntoDoublePlay, PlayType::StrikeoutDoublePlay, PlayType::Pickoff, PlayType::PickoffError, PlayType::CaughtStealing, PlayType::PickoffCaughtStealing, PlayType::WildPitch, PlayType::RunnerOut, PlayType::FieldOut, PlayType::BatterOut, PlayType::Balk, PlayType::PassedBall, PlayType::Error, PlayType::Single, PlayType::Double, PlayType::Triple, PlayType::HomeRun, PlayType::Walk, PlayType::IntentWalk, PlayType::HitByPitch, PlayType::FieldersChoice, PlayType::CatcherInterference, PlayType::StolenBase, PlayType::SacFly, PlayType::SacFlyDoublePlay, PlayType::SacBunt, PlayType::SacBuntDoublePlay, PlayType::FieldError, PlayType::GameAdvisory, PlayType::Ejection];
    assert(r@ =~= all_play_types());
    r
}

/// One accepted play. Each kind carries the fields of its row of the field matrix.
#[derive(Clone, Debug, PartialEq, Eq)]
pub enum Play {
    Groundout { inning: Inning, batter: String, pitcher: String, fielders: Vec<String>, movements: Vec<Movement> },
    BuntGroundout { inning: Inning, batter: String, pitcher: String, fielders: Vec<String>, movements: Vec<Movement> },
    Strikeout { inning: Inning, batter: String, pitcher: String, movements: Vec<Movement> },
    Lineout { inning: Inning, batter: String, pitcher: String, fielders: Vec<String>, movements: Vec<Movement> },
    BuntLineout { inning: Inning, batter: String, pitcher: String, fielders: Vec<String>, movements: Vec<Movement> },
    Flyout { inning: Inning, batter: String, pitcher: String, fielders: Vec<String>, movements: Vec<Movement> },
    PopOut { inning: Inning, batter: String, pitcher: String, fielders: Vec<String>, movements: Vec<Movement> },
    BuntPopOut { inning: Inning, batter: String, pitcher: String, fielders: Vec<String>, movements: Vec<Movement> },
    Forceout { inning: Inning, batter: String, pitcher: String, fielders: Vec<String>, movements: Vec<Movement> },
    FieldersChoiceOut { inning: Inning, batter: String, pitcher: String, fielders: Vec<String>, scoring_runner: String, movements: Vec<Movement> },
    DoublePlay { inning: Inning, batter: String, pitcher: String, fielders: Vec<String>, movements: Vec<Movement> },
    TriplePlay { inning: Inning, batter: String, pitcher: String, fielders: Vec<String>, movements: Vec<Movement> },
    RunnerDoublePlay { inning: Inning, batter: String, pitcher: String, fielders: Vec<String>, movements: Vec<Movement> },
    RunnerTriplePlay { inning: Inning, batter: String, pitcher: String, fielders: Vec<String>, movements: Vec<Movement> },
    GroundedIntoDoublePlay { inning: Inning, batter: String, pitcher: String, fielders: Vec<String>, movements: Vec<Movement> },
    StrikeoutDoublePlay { inning: Inning, batter: String, pitcher: String, fielders: Vec<String>, movements: Vec<Movement> },
    Pickoff { inning: Inning, base: Base, fielders: Vec<String>, runner: String, movements: Vec<Movement> },
    PickoffError { inning: Inning, base: Base, fielders: Vec<String>, runner: String, movements: Vec<Movement> },
    CaughtStealing { inning: Inning, base: Base, fielders: Vec<String>, runner: String, movements: Vec<Movement> },
    PickoffCaughtStealing { inning: Inning, base: Base, fielders: Vec<String>, runner: String, movements: Vec<Movement> },
    WildPitch { inning: Inning, pitcher: String, runner: String, movements: Vec<Movement> },
    RunnerOut { inning: Inning, fielders: Vec<String>, runner: String, movements: Vec<Movement> },
    FieldOut { inning: Inning, fielders: Vec<String>, runner: String, movements: Vec<Movement> },
    BatterOut { inning: Inning, batter: String, catcher: String, movements: Vec<Movement> },
    Balk { inning: Inning, pitcher: String, movements: Vec<Movement> },
    PassedBall { inning: Inning, pitcher: String, catcher: String, movements: Vec<Movement> },
    Error { inning: Inning, pitcher: String, catcher: String, movements: Vec<Movement> },
    Single { inning: Inning, batter: String, pitcher: String, movements: Vec<Movement> },
    Double { inning: Inning, batter: String, pitcher: String, movements: Vec<Movement> },
    Triple { inning: Inning, batter: String, pitcher: String, movements: Vec<Movement> },
    HomeRun { inning: Inning, batter: String, pitcher: String, movements: Vec<Movement> },
    Walk { inning: Inning, batter: String, pitcher: String, movements: Vec<Movement> },
    IntentWalk { inning: Inning, batter: String, pitcher: String, movements: Vec<Movement> },
    HitByPitch { inning: Inning, batter: String, pitcher: String, movements: Vec<Movement> },
    FieldersChoice { inning: Inning, batter: String, pitcher: String, fielders: Vec<String>, movements: Vec<Movement> },
    CatcherInterference { inning: Inning, batter: String, pitcher: String, fielders: Vec<String>, movements: Vec<Movement> },
    StolenBase { inning: Inning, base: Base, runner: String, movements: Vec<Movement> },
    SacFly { inning: Inning, batter: String, pitcher: String, fielders: Vec<String>, scoring_runner: String, movements: Vec<Movement> },
    SacFlyDoublePlay { inning: Inning, batter: String, pitcher: String, fielders: Vec<String>, scoring_runner: String, movements: Vec<Movement> },
    SacBunt { inning: Inning, batter: String, pitcher: String, fielders: Vec<String>, runner: String, movements: Vec<Movement> },
    SacBuntDoublePlay { inning: Inning, batter: String, pitcher: String, fielders: Vec<String>, runner: String, movements: Vec<Movement> },
    FieldError { inning: Inning, batter: String, pitcher: String, fielders: Vec<String>, movements: Vec<Movement> },
    GameAdvisory { inning: Inning },
    Ejection { inning: Inning, movements: Vec<Movement> },
}

impl Play {
    /// The kind of the play.
    pub open spec fn kind(self) -> PlayType {
        match self {
            Play::Groundout { .. } => PlayType::Groundout,
            Play::BuntGroundout { .. } => PlayType::BuntGroundout,
            Play::Strikeout { .. } => PlayType::Strikeout,
            Play::Lineout { .. } => PlayType::Lineout,
            Play::BuntLineout { .. } => PlayType::BuntLineout,
            Play::Flyout { .. } => PlayType::Flyout,
            Play::PopOut { .. } => PlayType::PopOut,
            Play::BuntPopOut { .. } => PlayType::BuntPopOut,
            Play::Forceout { .. } => PlayType::Forceout,
            Play::FieldersChoiceOut { .. } => PlayType::FieldersChoiceOut,
            Play::DoublePlay { .. } => PlayType::DoublePlay,
            Play::TriplePlay { .. } => PlayType::TriplePlay,
            Play::RunnerDoublePlay { .. } => PlayType::RunnerDoublePlay,
            Play::RunnerTriplePlay { .. } => PlayType::RunnerTriplePlay,
            Play::GroundedIntoDoublePlay { .. } => PlayType::GroundedIntoDoublePlay,
            Play::StrikeoutDoublePlay { .. } => PlayType::StrikeoutDoublePlay,
            Play::Pickoff { .. } => PlayType::Pickoff,
            Play::PickoffError { .. } => PlayType::PickoffError,
            Play::CaughtStealing { .. } => PlayType::CaughtStealing,
            Play::PickoffCaughtStealing { .. } => PlayType::PickoffCaughtStealing,
            Play::WildPitch { .. } => PlayType::WildPitch,
            Play::RunnerOut { .. } => PlayType::RunnerOut,
            Play::FieldOut { .. } => PlayType::FieldOut,
            Play::BatterOut { .. } => PlayType::BatterOut,
            Play::Balk { .. } => PlayType::Balk,
            Play::PassedBall { .. } => PlayType::PassedBall,
            Play::Error { .. } => PlayType::Error,
            Play::Single { .. } => PlayType::Single,
            Play::Double { .. } => PlayType::Double,
            Play::Triple { .. } => PlayType::Triple,
            Play::HomeRun { .. } => PlayType::HomeRun,
            Play::Walk { .. } => PlayType::Walk,
            Play::IntentWalk { .. } => PlayType::IntentWalk,
            Play::HitByPitch { .. } => PlayType::HitByPitch,
            Play::FieldersChoice { .. } => PlayType::FieldersChoice,
            Play::CatcherInterference { .. } => PlayType::CatcherInterference,
            Play::StolenBase { .. } => PlayType::StolenBase,
            Play::SacFly { .. } => PlayType::SacFly,
            Play::SacFlyDoublePlay { .. } => PlayType::SacFlyDoublePlay,
            Play::SacBunt { .. } => PlayType::SacBunt,
            Play::SacBuntDoublePlay { .. } => PlayType::SacBuntDoublePlay,
            Play::FieldError { .. } => PlayType::FieldError,
            Play::GameAdvisory { .. } => PlayType::GameAdvisory,
            Play::Ejection { .. } => PlayType::Ejection,
        }
    }

    /// The inning of the play.
    pub open spec fn inning(self) -> Inning {
        match self {
            Play::Groundout { inning, .. } => inning,
            Play::BuntGroundout { inning, .. } => inning,
            Play::Strikeout { inning, .. } => inning,
            Play::Lineout { inning, .. } => inning,
            Play::BuntLineout { inning, .. } => inning,
            Play::Flyout { inning, .. } => inning,
            Play::PopOut { inning, .. } => inning,
            Play::BuntPopOut { inning, .. } => inning,
            Play::Forceout { inning, .. } => inning,
            Play::FieldersChoiceOut { inning, .. } => inning,
            Play::DoublePlay { inning, .. } => inning,
            Play::TriplePlay { inning, .. } => inning,
            Play::RunnerDoublePlay { inning, .. } => inning,
            Play::RunnerTriplePlay { inning, .. } => inning,
            Play::GroundedIntoDoublePlay { inning, .. } => inning,
            Play::StrikeoutDoublePlay { inning, .. } => inning,
            Play::Pickoff { inning, .. } => inning,
            Play::PickoffError { inning, .. } => inning,
            Play::CaughtStealing { inning, .. } => inning,
            Play::PickoffCaughtStealing { inning, .. } => inning,
            Play::WildPitch { inning, .. } => inning,
            Play::RunnerOut { inning, .. } => inning,
            Play::FieldOut { inning, .. } => inning,
            Play::BatterOut { inning, .. } => inning,
            Play::Balk { inning, .. } => inning,
            Play::PassedBall { inning, .. } => inning,
            Play::Error { inning, .. } => inning,
            Play::Single { inning, .. } => inning,
            Play::Double { inning, .. } => inning,
            Play::Triple { inning, .. } => inning,
            Play::HomeRun { inning, .. } => inning,
            Play::Walk { inning, .. } => inning,
            Play::IntentWalk { inning, .. } => inning,
            Play::HitByPitch { inning, .. } => inning,
            Play::FieldersChoice { inning, .. } => inning,
            Play::CatcherInterference { inning, .. } => inning,
            Play::StolenBase { inning, .. } => inning,
            Play::SacFly { inning, .. } => inning,
            Play::SacFlyDoublePlay { inning, .. } => inning,
            Play::SacBunt { inning, .. } => inning,
            Play::SacBuntDoublePlay { inning, .. } => inning,
            Play::FieldError { inning, .. } => inning,
            Play::GameAdvisory { inning, .. } => inning,
            Play::Ejection { inning, .. } => inning,
        }
    }

    /// The `base` field, where the kind carries one.
    pub open spec fn base_field(self) -> Option<Base> {
        match self {
            Play::Pickoff { base, .. } => Some(base),
            Play::PickoffError { base, .. } => Some(base),
            Play::CaughtStealing { base, .. } => Some(base),
            Play::PickoffCaughtStealing { base, .. } => Some(base),
            Play::StolenBase { base, .. } => Some(base),
            _ => None,
        }
    }

    /// The `batter` field, where the kind carries one.
    pub open spec fn batter_field(self) -> Option<String> {
        match self {
            Play::Groundout { batter, .. } => Some(batter),
            Play::BuntGroundout { batter, .. } => Some(batter),
            Play::Strikeout { batter, .. } => Some(batter),
            Play::Lineout { batter, .. } => Some(batter),
            Play::BuntLineout { batter, .. } => Some(batter),
            Play::Flyout { batter, .. } => Some(batter),
            Play::PopOut { batter, .. } => Some(batter),
            Play::BuntPopOut { batter, .. } => Some(batter),
            Play::Forceout { batter, .. } => Some(batter),
            Play::FieldersChoiceOut { batter, .. } => Some(batter),
            Play::DoublePlay { batter, .. } => Some(batter),
            Play::TriplePlay { batter, .. } => Some(batter),
            Play::RunnerDoublePlay { batter, .. } => Some(batter),
            Play::RunnerTriplePlay { batter, .. } => Some(batter),
            Play::GroundedIntoDoublePlay { batter, .. } => Some(batter),
            Play::StrikeoutDoublePlay { batter, .. } => Some(batter),
            Play::BatterOut { batter, .. } => Some(batter),
            Play::Single { batter, .. } => Some(batter),
            Play::Double { batter, .. } => Some(batter),
            Play::Triple { batter, .. } => Some(batter),
            Play::HomeRun { batter, .. } => Some(batter),
            Play::Walk { batter, .. } => Some(batter),
            Play::IntentWalk { batter, .. } => Some(batter),
            Play::HitByPitch { batter, .. } => Some(batter),
            Play::FieldersChoice { batter, .. } => Some(batter),
            Play::CatcherInterference { batter, .. } => Some(batter),
            Play::SacFly { batter, .. } => Some(batter),
            Play::SacFlyDoublePlay { batter, .. } => Some(batter),
            Play::SacBunt { batter, .. } => Some(batter),
            Play::SacBuntDoublePlay { batter, .. } => Some(batter),
            Play::FieldError { batter, .. } => Some(batter),
            _ => None,
        }
    }

    /// The `pitcher` field, where the kind carries one.
    pub open spec fn pitcher_field(self) -> Option<String> {
        match self {
            Play::Groundout { pitcher, .. } => Some(pitcher),
            Play::BuntGroundout { pitcher, .. } => Some(pitcher),
            Play::Strikeout { pitcher, .. } => Some(pitcher),
            Play::Lineout { pitcher, .. } => Some(pitcher),
            Play::BuntLineout { pitcher, .. } => Some(pitcher),
            Play::Flyout { pitcher, .. } => Some(pitcher),
            Play::PopOut { pitcher, .. } => Some(pitcher),
            Play::BuntPopOut { pitcher, .. } => Some(pitcher),
            Play::Forceout { pitcher, .. } => Some(pitcher),
            Play::FieldersChoiceOut { pitcher, .. } => Some(pitcher),
            Play::DoublePlay { pitcher, .. } => Some(pitcher),
            Play::TriplePlay { pitcher, .. } => Some(pitcher),
            Play::RunnerDoublePlay { pitcher, .. } => Some(pitcher),
            Play::RunnerTriplePlay { pitcher, .. } => Some(pitcher),
            Play::GroundedIntoDoublePlay { pitcher, .. } => Some(pitcher),
            Play::StrikeoutDoublePlay { pitcher, .. } => Some(pitcher),
            Play::WildPitch { pitcher, .. } => Some(pitcher),
            Play::Balk { pitcher, .. } => Some(pitcher),
            Play::PassedBall { pitcher, .. } => Some(pitcher),
            Play::Error { pitcher, .. } => Some(pitcher),
            Play::Single { pitcher, .. } => Some(pitcher),
            Play::Double { pitcher, .. } => Some(pitcher),
            Play::Triple { pitcher, .. } => Some(pitcher),
            Play::HomeRun { pitcher, .. } => Some(pitcher),
            Play::Walk { pitcher, .. } => Some(pitcher),
            Play::IntentWalk { pitcher, .. } => Some(pitcher),
            Play::HitByPitch { pitcher, .. } => Some(pitcher),
            Play::FieldersChoice { pitcher, .. } => Some(pitcher),
            Play::CatcherInterference { pitcher, .. } => Some(pitcher),
            Play::SacFly { pitcher, .. } => Some(pitcher),
            Play::SacFlyDoublePlay { pitcher, .. } => Some(pitcher),
            Play::SacBunt { pitcher, .. } => Some(pitcher),
            Play::SacBuntDoublePlay { pitcher, .. } => Some(pitcher),
            Play::FieldError { pitcher, .. } => Some(pitcher),
            _ => None,
        }
    }

    /// The `catcher` field, where the kind carries one.
    pub open spec fn catcher_field(self) -> Option<String> {
        match self {
            Play::BatterOut { catcher, .. } => Some(catcher),
            Play::PassedBall { catcher, .. } => Some(catcher),
            Play::Error { catcher, .. } => Some(catcher),
            _ => None,
        }
    }

    /// The `fielders` field, where the kind carries one.
    pub open spec fn fielders_field(self) -> Option<Vec<String>> {
        match self {
            Play::Groundout { fielders, .. } => Some(fielders),
            Play::BuntGroundout { fielders, .. } => Some(fielders),
            Play::Lineout { fielders, .. } => Some(fielders),
            Play::BuntLineout { fielders, .. } => Some(fielders),
            Play::Flyout { fielders, .. } => Some(fielders),
            Play::PopOut { fielders, .. } => Some(fielders),
            Play::BuntPopOut { fielders, .. } => Some(fielders),
            Play::Forceout { fielders, .. } => Some(fielders),
            Play::FieldersChoiceOut { fielders, .. } => Some(fielders),
            Play::DoublePlay { fielders, .. } => Some(fielders),
            Play::TriplePlay { fielders, .. } => Some(fielders),
            Play::RunnerDoublePlay { fielders, .. } => Some(fielders),
            Play::RunnerTriplePlay { fielders, .. } => Some(fielders),
            Play::GroundedIntoDoublePlay { fielders, .. } => Some(fielders),
            Play::StrikeoutDoublePlay { fielders, .. } => Some(fielders),
            Play::Pickoff { fielders, .. } => Some(fielders),
            Play::PickoffError { fielders, .. } => Some(fielders),
            Play::CaughtStealing { fielders, .. } => Some(fielders),
            Play::PickoffCaughtStealing { fielders, .. } => Some(fielders),
            Play::RunnerOut { fielders, .. } => Some(fielders),
            Play::FieldOut { fielders, .. } => Some(fielders),
            Play::FieldersChoice { fielders, .. } => Some(fielders),
            Play::CatcherInterference { fielders, .. } => Some(fielders),
            Play::SacFly { fielders, .. } => Some(fielders),
            Play::SacFlyDoublePlay { fielders, .. } => Some(fielders),
            Play::SacBunt { fielders, .. } => Some(fielders),
            Play::SacBuntDoublePlay { fielders, .. } => Some(fielders),
            Play::FieldError { fielders, .. } => Some(fielders),
            _ => None,
        }
    }

    /// The `runner` field, where the kind carries one.
    pub open spec fn runner_field(self) -> Option<String> {
        match self {
            Play::Pickoff { runner, .. } => Some(runner),
            Play::PickoffError { runner, .. } => Some(runner),
            Play::CaughtStealing { runner, .. } => Some(runner),
            Play::PickoffCaughtStealing { runner, .. } => Some(runner),
            Play::WildPitch { runner, .. } => Some(runner),
            Play::RunnerOut { runner, .. } => Some(runner),
            Play::FieldOut { runner, .. } => Some(runner),
            Play::StolenBase { runner, .. } => Some(runner),
            Play::SacBunt { runner, .. } => Some(runner),
            Play::SacBuntDoublePlay { runner, .. } => Some(runner),
            _ => None,
        }
    }

    /// The `scoring_runner` field, where the kind carries one.
    pub open spec fn scoring_runner_field(self) -> Option<String> {
        match self {
            Play::FieldersChoiceOut { scoring_runner, .. } => Some(scoring_runner),
            Play::SacFly { scoring_runner, .. } => Some(scoring_runner),
            Play::SacFlyDoublePlay { scoring_runner, .. } => Some(scoring_runner),
            _ => None,
        }
    }

    /// The `movements` field, where the kind carries one.
    pub open spec fn movements_field(self) -> Option<Vec<Movement>> {
        match self {
            Play::Groundout { movements, .. } => Some(movements),
            Play::BuntGroundout { movements, .. } => Some(movements),
            Play::Strikeout { movements, .. } => Some(movements),
            Play::Lineout { movements, .. } => Some(movements),
            Play::BuntLineout { movements, .. } => Some(movements),
            Play::Flyout { movements, .. } => Some(movements),
            Play::PopOut { movements, .. } => Some(movements),
            Play::BuntPopOut { movements, .. } => Some(movements),
            Play::Forceout { movements, .. } => Some(movements),
            Play::FieldersChoiceOut { movements, .. } => Some(movements),
            Play::DoublePlay { movements, .. } => Some(movements),
            Play::TriplePlay { movements, .. } => Some(movements),
            Play::RunnerDoublePlay { movements, .. } => Some(movements),
            Play::RunnerTriplePlay { movements, .. } => Some(movements),
            Play::GroundedIntoDoublePlay { movements, .. } => Some(movements),
            Play::StrikeoutDoublePlay { movements, .. } => Some(movements),
            Play::Pickoff { movements, .. } => Some(movements),
            Play::PickoffError { movements, .. } => Some(movements),
            Play::CaughtStealing { movements, .. } => Some(movements),
            Play::PickoffCaughtStealing { movements, .. } => Some(movements),
            Play::WildPitch { movements, .. } => Some(movements),
            Play::RunnerOut { movements, .. } => Some(movements),
            Play::FieldOut { movements, .. } => Some(movements),
            Play::BatterOut { movements, .. } => Some(movements),
            Play::Balk { movements, .. } => Some(movements),
            Play::PassedBall { movements, .. } => Some(movements),
            Play::Error { movements, .. } => Some(movements),
            Play::Single { movements, .. } => Some(movements),
            Play::Double { movements, .. } => Some(movements),
            Play::Triple { movements, .. } => Some(movements),
            Play::HomeRun { movements, .. } => Some(movements),
            Play::Walk { movements, .. } => Some(movements),
            Play::IntentWalk { movements, .. } => Some(movements),
            Play::HitByPitch { movements, .. } => Some(movements),
            Play::FieldersChoice { movements, .. } => Some(movements),
            Play::CatcherInterference { movements, .. } => Some(movements),
            Play::StolenBase { movements, .. } => Some(movements),
            Play::SacFly { movements, .. } => Some(movements),
            Play::SacFlyDoublePlay { movements, .. } => Some(movements),
            Play::SacBunt { movements, .. } => Some(movements),
            Play::SacBuntDoublePlay { movements, .. } => Some(movements),
            Play::FieldError { movements, .. } => Some(movements),
            Play::Ejection { movements, .. } => Some(movements),
            _ => None,
        }
    }

    /// The kind of the play.
    pub fn play_type(&self) -> (r: PlayType)
        ensures
            r == self.kind(),
    {
        match self {
            Play::Groundout { .. } => PlayType::Groundout,
            Play::BuntGroundout { .. } => PlayType::BuntGroundout,
            Play::Strikeout { .. } => PlayType::Strikeout,
            Play::Lineout { .. } => PlayType::Lineout,
            Play::BuntLineout { .. } => PlayType::BuntLineout,
            Play::Flyout { .. } => PlayType::Flyout,
            Play::PopOut { .. } => PlayType::PopOut,
            Play::BuntPopOut { .. } => PlayType::BuntPopOut,
            Play::Forceout { .. } => PlayType::Forceout,
            Play::FieldersChoiceOut { .. } => PlayType::FieldersChoiceOut,
            Play::DoublePlay { .. } => PlayType::DoublePlay,
            Play::TriplePlay { .. } => PlayType::TriplePlay,
            Play::RunnerDoublePlay { .. } => PlayType::RunnerDoublePlay,
            Play::RunnerTriplePlay { .. } => PlayType::RunnerTriplePlay,
            Play::GroundedIntoDoublePlay { .. } => PlayType::GroundedIntoDoublePlay,
            Play::StrikeoutDoublePlay { .. } => PlayType::StrikeoutDoublePlay,
            Play::Pickoff { .. } => PlayType::Pickoff,
            Play::PickoffError { .. } => PlayType::PickoffError,
            Play::CaughtStealing { .. } => PlayType::CaughtStealing,
            Play::PickoffCaughtStealing { .. } => PlayType::PickoffCaughtStealing,
            Play::WildPitch { .. } => PlayType::WildPitch,
            Play::RunnerOut { .. } => PlayType::RunnerOut,
            Play::FieldOut { .. } => PlayType::FieldOut,
            Play::BatterOut { .. } => PlayType::BatterOut,
            Play::Balk { .. } => PlayType::Balk,
            Play::PassedBall { .. } => PlayType::PassedBall,
            Play::Error { .. } => PlayType::Error,
            Play::Single { .. } => PlayType::Single,
            Play::Double { .. } => PlayType::Double,
            Play::Triple { .. } => PlayType::Triple,
            Play::HomeRun { .. } => PlayType::HomeRun,
            Play::Walk { .. } => PlayType::Walk,
            Play::IntentWalk { .. } => PlayType::IntentWalk,
            Play::HitByPitch { .. } => PlayType::HitByPitch,
            Play::FieldersChoice { .. } => PlayType::FieldersChoice,
            Play::CatcherInterference { .. } => PlayType::CatcherInterference,
            Play::StolenBase { .. } => PlayType::StolenBase,
            Play::SacFly { .. } => PlayType::SacFly,
            Play::SacFlyDoublePlay { .. } => PlayType::SacFlyDoublePlay,
            Play::SacBunt { .. } => PlayType::SacBunt,
            Play::SacBuntDoublePlay { .. } => PlayType::SacBuntDoublePlay,
            Play::FieldError { .. } => PlayType::FieldError,
            Play::GameAdvisory { .. } => PlayType::GameAdvisory,
            Play::Ejection { .. } => PlayType::Ejection,
        }
    }

    /// The inning of the play.
    pub fn get_inning(&self) -> (r: Inning)
        ensures
            r == self.inning(),
    {
        match self {
            Play::Groundout { inning, .. } => *inning,
            Play::BuntGroundout { inning, .. } => *inning,
            Play::Strikeout { inning, .. } => *inning,
            Play::Lineout { inning, .. } => *inning,
            Play::BuntLineout { inning, .. } => *inning,
            Play::Flyout { inning, .. } => *inning,
            Play::PopOut { inning, .. } => *inning,
            Play::BuntPopOut { inning, .. } => *inning,
            Play::Forceout { inning, .. } => *inning,
            Play::FieldersChoiceOut { inning, .. } => *inning,
            Play::DoublePlay { inning, .. } => *inning,
            Play::TriplePlay { inning, .. } => *inning,
            Play::RunnerDoublePlay { inning, .. } => *inning,
            Play::RunnerTriplePlay { inning, .. } => *inning,
            Play::GroundedIntoDoublePlay { inning, .. } => *inning,
            Play::StrikeoutDoublePlay { inning, .. } => *inning,
            Play::Pickoff { inning, .. } => *inning,
            Play::PickoffError { inning, .. } => *inning,
            Play::CaughtStealing { inning, .. } => *inning,
            Play::PickoffCaughtStealing { inning, .. } => *inning,
            Play::WildPitch { inning, .. } => *inning,
            Play::RunnerOut { inning, .. } => *inning,
            Play::FieldOut { inning, .. } => *inning,
            Play::BatterOut { inning, .. } => *inning,
            Play::Balk { inning, .. } => *inning,
            Play::PassedBall { inning, .. } => *inning,
            Play::Error { inning, .. } => *inning,
            Play::Single { inning, .. } => *inning,
            Play::Double { inning, .. } => *inning,
            Play::Triple { inning, .. } => *inning,
            Play::HomeRun { inning, .. } => *inning,
            Play::Walk { inning, .. } => *inning,
            Play::IntentWalk { inning, .. } => *inning,
            Play::HitByPitch { inning, .. } => *inning,
            Play::FieldersChoice { inning, .. } => *inning,
            Play::CatcherInterference { inning, .. } => *inning,
            Play::StolenBase { inning, .. } => *inning,
            Play::SacFly { inning, .. } => *inning,
            Play::SacFlyDoublePlay { inning, .. } => *inning,
            Play::SacBunt { inning, .. } => *inning,
            Play::SacBuntDoublePlay { inning, .. } => *inning,
            Play::FieldError { inning, .. } => *inning,
            Play::GameAdvisory { inning, .. } => *inning,
            Play::Ejection { inning, .. } => *inning,
        }
    }

    /// The movements of the play; a game advisory has none.
    pub fn get_movements(&self) -> (r: Option<&Vec<Movement>>)
        ensures
            match r {
                Some(m) => self.movements_field() == Some(*m),
                None => self.movements_field() is None,
            },
    {
        match self {
            Play::Groundout { movements, .. } => Some(movements),
            Play::BuntGroundout { movements, .. } => Some(movements),
            Play::Strikeout { movements, .. } => Some(movements),
            Play::Lineout { movements, .. } => Some(movements),
            Play::BuntLineout { movements, .. } => Some(movements),
            Play::Flyout { movements, .. } => Some(movements),
            Play::PopOut { movements, .. } => Some(movements),
            Play::BuntPopOut { movements, .. } => Some(movements),
            Play::Forceout { movements, .. } => Some(movements),
            Play::FieldersChoiceOut { movements, .. } => Some(movements),
            Play::DoublePlay { movements, .. } => Some(movements),
            Play::TriplePlay { movements, .. } => Some(movements),
            Play::RunnerDoublePlay { movements, .. } => Some(movements),
            Play::RunnerTriplePlay { movements, .. } => Some(movements),
            Play::GroundedIntoDoublePlay { movements, .. } => Some(movements),
            Play::StrikeoutDoublePlay { movements, .. } => Some(movements),
            Play::Pickoff { movements, .. } => Some(movements),
            Play::PickoffError { movements, .. } => Some(movements),
            Play::CaughtStealing { movements, .. } => Some(movements),
            Play::PickoffCaughtStealing { movements, .. } => Some(movements),
            Play::WildPitch { movements, .. } => Some(movements),
            Play::RunnerOut { movements, .. } => Some(movements),
            Play::FieldOut { movements, .. } => Some(movements),
            Play::BatterOut { movements, .. } => Some(movements),
            Play::Balk { movements, .. } => Some(movements),
            Play::PassedBall { movements, .. } => Some(movements),
            Play::Error { movements, .. } => Some(movements),
            Play::Single { movements, .. } => Some(movements),
            Play::Double { movements, .. } => Some(movements),
            Play::Triple { movements, .. } => Some(movements),
            Play::HomeRun { movements, .. } => Some(movements),
            Play::Walk { movements, .. } => Some(movements),
            Play::IntentWalk { movements, .. } => Some(movements),
            Play::HitByPitch { movements, .. } => Some(movements),
            Play::FieldersChoice { movements, .. } => Some(movements),
            Play::CatcherInterference { movements, .. } => Some(movements),
            Play::StolenBase { movements, .. } => Some(movements),
            Play::SacFly { movements, .. } => Some(movements),
            Play::SacFlyDoublePlay { movements, .. } => Some(movements),
            Play::SacBunt { movements, .. } => Some(movements),
            Play::SacBuntDoublePlay { movements, .. } => Some(movements),
            Play::FieldError { movements, .. } => Some(movements),
            Play::GameAdvisory { .. } => None,
            Play::Ejection { movements, .. } => Some(movements),
        }
    }

}

impl PlayBuilder {
    /// Materializes the play that the slots describe, taking exactly the fields that
    /// the kind's row of the field matrix lists.
    pub fn build(self) -> (r: Play)
        requires
            self.ready(),
        ensures
            self.builds(r),
    {
        let PlayBuilder { inning, play_type, base, batter, pitcher, catcher, fielders, runner, scoring_runner, movements } = self;
        let inning = inning.unwrap();
        match play_type.unwrap() {
            PlayType::Groundout => Play::Groundout { inning, batter: batter.unwrap(), pitcher: pitcher.unwrap(), fielders: fielders.unwrap(), movements: movements.unwrap() },
            PlayType::BuntGroundout => Play::BuntGroundout { inning, batter: batter.unwrap(), pitcher: pitcher.unwrap(), fielders: fielders.unwrap(), movements: movements.unwrap() },
            PlayType::Strikeout => Play::Strikeout { inning, batter: batter.unwrap(), pitcher: pitcher.unwrap(), movements: movements.unwrap() },
            PlayType::Lineout => Play::Lineout { inning, batter: batter.unwrap(), pitcher: pitcher.unwrap(), fielders: fielders.unwrap(), movements: movements.unwrap() },
            PlayType::BuntLineout => Play::BuntLineout { inning, batter: batter.unwrap(), pitcher: pitcher.unwrap(), fielders: fielders.unwrap(), movements: movements.unwrap() },
            PlayType::Flyout => Play::Flyout { inning, batter: batter.unwrap(), pitcher: pitcher.unwrap(), fielders: fielders.unwrap(), movements: movements.unwrap() },
            PlayType::PopOut => Play::PopOut { inning, batter: batter.unwrap(), pitcher: pitcher.unwrap(), fielders: fielders.unwrap(), movements: movements.unwrap() },
            PlayType::BuntPopOut => Play::BuntPopOut { inning, batter: batter.unwrap(), pitcher: pitcher.unwrap(), fielders: fielders.unwrap(), movements: movements.unwrap() },
            PlayType::Forceout => Play::Forceout { inning, batter: batter.unwrap(), pitcher: pitcher.unwrap(), fielders: fielders.unwrap(), movements: movements.unwrap() },
            PlayType::FieldersChoiceOut => Play::FieldersChoiceOut { inning, batter: batter.unwrap(), pitcher: pitcher.unwrap(), fielders: fielders.unwrap(), scoring_runner: scoring_runner.unwrap(), movements: movements.unwrap() },
            PlayType::DoublePlay => Play::DoublePlay { inning, batter: batter.unwrap(), pitcher: pitcher.unwrap(), fielders: fielders.unwrap(), movements: movements.unwrap() },
            PlayType::TriplePlay => Play::TriplePlay { inning, batter: batter.unwrap(), pitcher: pitcher.unwrap(), fielders: fielders.unwrap(), movements: movements.unwrap() },
            PlayType::RunnerDoublePlay => Play::RunnerDoublePlay { inning, batter: batter.unwrap(), pitcher: pitcher.unwrap(), fielders: fielders.unwrap(), movements: movements.unwrap() },
            PlayType::RunnerTriplePlay => Play::RunnerTriplePlay { inning, batter: batter.unwrap(), pitcher: pitcher.unwrap(), fielders: fielders.unwrap(), movements: movements.unwrap() },
            PlayType::GroundedIntoDoublePlay => Play::GroundedIntoDoublePlay { inning, batter: batter.unwrap(), pitcher: pitcher.unwrap(), fielders: fielders.unwrap(), movements: movements.unwrap() },
            PlayType::StrikeoutDoublePlay => Play::StrikeoutDoublePlay { inning, batter: batter.unwrap(), pitcher: pitcher.unwrap(), fielders: fielders.unwrap(), movements: movements.unwrap() },
            PlayType::Pickoff => Play::Pickoff { inning, base: base.unwrap(), fielders: fielders.unwrap(), runner: runner.unwrap(), movements: movements.unwrap() },
            PlayType::PickoffError => Play::PickoffError { inning, base: base.unwrap(), fielders: fielders.unwrap(), runner: runner.unwrap(), movements: movements.unwrap() },
            PlayType::CaughtStealing => Play::CaughtStealing { inning, base: base.unwrap(), fielders: fielders.unwrap(), runner: runner.unwrap(), movements: movements.unwrap() },
            PlayType::PickoffCaughtStealing => Play::PickoffCaughtStealing { inning, base: base.unwrap(), fielders: fielders.unwrap(), runner: runner.unwrap(), movements: movements.unwrap() },
            PlayType::WildPitch => Play::WildPitch { inning, pitcher: pitcher.unwrap(), runner: runner.unwrap(), movements: movements.unwrap() },
            PlayType::RunnerOut => Play::RunnerOut { inning, fielders: fielders.unwrap(), runner: runner.unwrap(), movements: movements.unwrap() },
            PlayType::FieldOut => Play::FieldOut { inning, fielders: fielders.unwrap(), runner: runner.unwrap(), movements: movements.unwrap() },
            PlayType::BatterOut => Play::BatterOut { inning, batter: batter.unwrap(), catcher: catcher.unwrap(), movements: movements.unwrap() },
            PlayType::Balk => Play::Balk { inning, pitcher: pitcher.unwrap(), movements: movements.unwrap() },
            PlayType::PassedBall => Play::PassedBall { inning, pitcher: pitcher.unwrap(), catcher: catcher.unwrap(), movements: movements.unwrap() },
            PlayType::Error => Play::Error { inning, pitcher: pitcher.unwrap(), catcher: catcher.unwrap(), movements: movements.unwrap() },
            PlayType::Single => Play::Single { inning, batter: batter.unwrap(), pitcher: pitcher.unwrap(), movements: movements.unwrap() },
            PlayType::Double => Play::Double { inning, batter: batter.unwrap(), pitcher: pitcher.unwrap(), movements: movements.unwrap() },
            PlayType::Triple => Play::Triple { inning, batter: batter.unwrap(), pitcher: pitcher.unwrap(), movements: movements.unwrap() },
            PlayType::HomeRun => Play::HomeRun { inning, batter: batter.unwrap(), pitcher: pitcher.unwrap(), movements: movements.unwrap() },
            PlayType::Walk => Play::Walk { inning, batter: batter.unwrap(), pitcher: pitcher.unwrap(), movements: movements.unwrap() },
            PlayType::IntentWalk => Play::IntentWalk { inning, batter: batter.unwrap(), pitcher: pitcher.unwrap(), movements: movements.unwrap() },
            PlayType::HitByPitch => Play::HitByPitch { inning, batter: batter.unwrap(), pitcher: pitcher.unwrap(), movements: movements.unwrap() },
            PlayType::FieldersChoice => Play::FieldersChoice { inning, batter: batter.unwrap(), pitcher: pitcher.unwrap(), fielders: fielders.unwrap(), movements: movements.unwrap() },
            PlayType::CatcherInterference => Play::CatcherInterference { inning, batter: batter.unwrap(), pitcher: pitcher.unwrap(), fielders: fielders.unwrap(), movements: movements.unwrap() },
            PlayType::StolenBase => Play::StolenBase { inning, base: base.unwrap(), runner: runner.unwrap(), movements: movements.unwrap() },
            PlayType::SacFly => Play::SacFly { inning, batter: batter.unwrap(), pitcher: pitcher.unwrap(), fielders: fielders.unwrap(), scoring_runner: scoring_runner.unwrap(), movements: movements.unwrap() },
            PlayType::SacFlyDoublePlay => Play::SacFlyDoublePlay { inning, batter: batter.unwrap(), pitcher: pitcher.unwrap(), fielders: fielders.unwrap(), scoring_runner: scoring_runner.unwrap(), movements: movements.unwrap() },
            PlayType::SacBunt => Play::SacBunt { inning, batter: batter.unwrap(), pitcher: pitcher.unwrap(), fielders: fielders.unwrap(), runner: runner.unwrap(), movements: movements.unwrap() },
            PlayType::SacBuntDoublePlay => Play::SacBuntDoublePlay { inning, batter: batter.unwrap(), pitcher: pitcher.unwrap(), fielders: fielders.unwrap(), runner: runner.unwrap(), movements: movements.unwrap() },
            PlayType::FieldError => Play::FieldError { inning, batter: batter.unwrap(), pitcher: pitcher.unwrap(), fielders: fielders.unwrap(), movements: movements.unwrap() },
            PlayType::GameAdvisory => Play::GameAdvisory { inning },
            PlayType::Ejection => Play::Ejection { inning, movements: movements.unwrap() },
        }
    }
}

impl Play {
    /// `self` and `o` hold the same values, lists compared by their contents.
    pub open spec fn same(self, o: Play) -> bool {
        &&& self.kind() == o.kind()
        &&& self.inning() == o.inning()
        &&& self.base_field() == o.base_field()
        &&& self.batter_field() == o.batter_field()
        &&& self.pitcher_field() == o.pitcher_field()
        &&& self.catcher_field() == o.catcher_field()
        &&& self.fielders_field() is Some == o.fielders_field() is Some
        &&& self.fielders_field() is Some ==> self.fielders_field().unwrap()@ == o.fielders_field().unwrap()@
        &&& self.runner_field() == o.runner_field()
        &&& self.scoring_runner_field() == o.scoring_runner_field()
        &&& self.movements_field() is Some == o.movements_field() is Some
        &&& self.movements_field() is Some ==> self.movements_field().unwrap()@ == o.movements_field().unwrap()@
    }

    /// A copy of the play.
    pub fn duplicate(&self) -> (r: Play)
        ensures
            r.same(*self),
    {
        match self {
            Play::Groundout { inning, batter, pitcher, fielders, movements } => Play::Groundout { inning: *inning, batter: batter.clone(), pitcher: pitcher.clone(), fielders: copy_strings(fielders), movements: copy_movements(movements) },
            Play::BuntGroundout { inning, batter, pitcher, fielders, movements } => Play::BuntGroundout { inning: *inning, batter: batter.clone(), pitcher: pitcher.clone(), fielders: copy_strings(fielders), movements: copy_movements(movements) },
            Play::Strikeout { inning, batter, pitcher, movements } => Play::Strikeout { inning: *inning, batter: batter.clone(), pitcher: pitcher.clone(), movements: copy_movements(movements) },
            Play::Lineout { inning, batter, pitcher, fielders, movements } => Play::Lineout { inning: *inning, batter: batter.clone(), pitcher: pitcher.clone(), fielders: copy_strings(fielders), movements: copy_movements(movements) },
            Play::BuntLineout { inning, batter, pitcher, fielders, movements } => Play::BuntLineout { inning: *inning, batter: batter.clone(), pitcher: pitcher.clone(), fielders: copy_strings(fielders), movements: copy_movements(movements) },
            Play::Flyout { inning, batter, pitcher, fielders, movements } => Play::Flyout { inning: *inning, batter: batter.clone(), pitcher: pitcher.clone(), fielders: copy_strings(fielders), movements: copy_movements(movements) },
            Play::PopOut { inning, batter, pitcher, fielders, movements } => Play::PopOut { inning: *inning, batter: batter.clone(), pitcher: pitcher.clone(), fielders: copy_strings(fielders), movements: copy_movements(movements) },
            Play::BuntPopOut { inning, batter, pitcher, fielders, movements } => Play::BuntPopOut { inning: *inning, batter: batter.clone(), pitcher: pitcher.clone(), fielders: copy_strings(fielders), movements: copy_movements(movements) },
            Play::Forceout { inning, batter, pitcher, fielders, movements } => Play::Forceout { inning: *inning, batter: batter.clone(), pitcher: pitcher.clone(), fielders: copy_strings(fielders), movements: copy_movements(movements) },
            Play::FieldersChoiceOut { inning, batter, pitcher, fielders, scoring_runner, movements } => Play::FieldersChoiceOut { inning: *inning, batter: batter.clone(), pitcher: pitcher.clone(), fielders: copy_strings(fielders), scoring_runner: scoring_runner.clone(), movements: copy_movements(movements) },
            Play::DoublePlay { inning, batter, pitcher, fielders, movements } => Play::DoublePlay { inning: *inning, batter: batter.clone(), pitcher: pitcher.clone(), fielders: copy_strings(fielders), movements: copy_movements(movements) },
            Play::TriplePlay { inning, batter, pitcher, fielders, movements } => Play::TriplePlay { inning: *inning, batter: batter.clone(), pitcher: pitcher.clone(), fielders: copy_strings(fielders), movements: copy_movements(movements) },
            Play::RunnerDoublePlay { inning, batter, pitcher, fielders, movements } => Play::RunnerDoublePlay { inning: *inning, batter: batter.clone(), pitcher: pitcher.clone(), fielders: copy_strings(fielders), movements: copy_movements(movements) },
            Play::RunnerTriplePlay { inning, batter, pitcher, fielders, movements } => Play::RunnerTriplePlay { inning: *inning, batter: batter.clone(), pitcher: pitcher.clone(), fielders: copy_strings(fielders), movements: copy_movements(movements) },
            Play::GroundedIntoDoublePlay { inning, batter, pitcher, fielders, movements } => Play::GroundedIntoDoublePlay { inning: *inning, batter: batter.clone(), pitcher: pitcher.clone(), fielders: copy_strings(fielders), movements: copy_movements(movements) },
            Play::StrikeoutDoublePlay { inning, batter, pitcher, fielders, movements } => Play::StrikeoutDoublePlay { inning: *inning, batter: batter.clone(), pitcher: pitcher.clone(), fielders: copy_strings(fielders), movements: copy_movements(movements) },
            Play::Pickoff { inning, base, fielders, runner, movements } => Play::Pickoff { inning: *inning, base: *base, fielders: copy_strings(fielders), runner: runner.clone(), movements: copy_movements(movements) },
            Play::PickoffError { inning, base, fielders, runner, movements } => Play::PickoffError { inning: *inning, base: *base, fielders: copy_strings(fielders), runner: runner.clone(), movements: copy_movements(movements) },
            Play::CaughtStealing { inning, base, fielders, runner, movements } => Play::CaughtStealing { inning: *inning, base: *base, fielders: copy_strings(fielders), runner: runner.clone(), movements: copy_movements(movements) },
            Play::PickoffCaughtStealing { inning, base, fielders, runner, movements } => Play::PickoffCaughtStealing { inning: *inning, base: *base, fielders: copy_strings(fielders), runner: runner.clone(), movements: copy_movements(movements) },
            Play::WildPitch { inning, pitcher, runner, movements } => Play::WildPitch { inning: *inning, pitcher: pitcher.clone(), runner: runner.clone(), movements: copy_movements(movements) },
            Play::RunnerOut { inning, fielders, runner, movements } => Play::RunnerOut { inning: *inning, fielders: copy_strings(fielders), runner: runner.clone(), movements: copy_movements(movements) },
            Play::FieldOut { inning, fielders, runner, movements } => Play::FieldOut { inning: *inning, fielders: copy_strings(fielders), runner: runner.clone(), movements: copy_movements(movements) },
            Play::BatterOut { inning, batter, catcher, movements } => Play::BatterOut { inning: *inning, batter: batter.clone(), catcher: catcher.clone(), movements: copy_movements(movements) },
            Play::Balk { inning, pitcher, movements } => Play::Balk { inning: *inning, pitcher: pitcher.clone(), movements: copy_movements(movements) },
            Play::PassedBall { inning, pitcher, catcher, movements } => Play::PassedBall { inning: *inning, pitcher: pitcher.clone(), catcher: catcher.clone(), movements: copy_movements(movements) },
            Play::Error { inning, pitcher, catcher, movements } => Play::Error { inning: *inning, pitcher: pitcher.clone(), catcher: catcher.clone(), movements: copy_movements(movements) },
            Play::Single { inning, batter, pitcher, movements } => Play::Single { inning: *inning, batter: batter.clone(), pitcher: pitcher.clone(), movements: copy_movements(movements) },
            Play::Double { inning, batter, pitcher, movements } => Play::Double { inning: *inning, batter: batter.clone(), pitcher: pitcher.clone(), movements: copy_movements(movements) },
            Play::Triple { inning, batter, pitcher, movements } => Play::Triple { inning: *inning, batter: batter.clone(), pitcher: pitcher.clone(), movements: copy_movements(movements) },
            Play::HomeRun { inning, batter, pitcher, movements } => Play::HomeRun { inning: *inning, batter: batter.clone(), pitcher: pitcher.clone(), movements: copy_movements(movements) },
            Play::Walk { inning, batter, pitcher, movements } => Play::Walk { inning: *inning, batter: batter.clone(), pitcher: pitcher.clone(), movements: copy_movements(movements) },
            Play::IntentWalk { inning, batter, pitcher, movements } => Play::IntentWalk { inning: *inning, batter: batter.clone(), pitcher: pitcher.clone(), movements: copy_movements(movements) },
            Play::HitByPitch { inning, batter, pitcher, movements } => Play::HitByPitch { inning: *inning, batter: batter.clone(), pitcher: pitcher.clone(), movements: copy_movements(movements) },
            Play::FieldersChoice { inning, batter, pitcher, fielders, movements } => Play::FieldersChoice { inning: *inning, batter: batter.clone(), pitcher: pitcher.clone(), fielders: copy_strings(fielders), movements: copy_movements(movements) },
            Play::CatcherInterference { inning, batter, pitcher, fielders, movements } => Play::CatcherInterference { inning: *inning, batter: batter.clone(), pitcher: pitcher.clone(), fielders: copy_strings(fielders), movements: copy_movements(movements) },
            Play::StolenBase { inning, base, runner, movements } => Play::StolenBase { inning: *inning, base: *base, runner: runner.clone(), movements: copy_movements(movements) },
            Play::SacFly { inning, batter, pitcher, fielders, scoring_runner, movements } => Play::SacFly { inning: *inning, batter: batter.clone(), pitcher: pitcher.clone(), fielders: copy_strings(fielders), scoring_runner: scoring_runner.clone(), movements: copy_movements(movements) },
            Play::SacFlyDoublePlay { inning, batter, pitcher, fielders, scoring_runner, movements } => Play::SacFlyDoublePlay { inning: *inning, batter: batter.clone(), pitcher: pitcher.clone(), fielders: copy_strings(fielders), scoring_runner: scoring_runner.clone(), movements: copy_movements(movements) },
            Play::SacBunt { inning, batter, pitcher, fielders, runner, movements } => Play::SacBunt { inning: *inning, batter: batter.clone(), pitcher: pitcher.clone(), fielders: copy_strings(fielders), runner: runner.clone(), movements: copy_movements(movements) },
            Play::SacBuntDoublePlay { inning, batter, pitcher, fielders, runner, movements } => Play::SacBuntDoublePlay { inning: *inning, batter: batter.clone(), pitcher: pitcher.clone(), fielders: copy_strings(fielders), runner: runner.clone(), movements: copy_movements(movements) },
            Play::FieldError { inning, batter, pitcher, fielders, movements } => Play::FieldError { inning: *inning, batter: batter.clone(), pitcher: pitcher.clone(), fielders: copy_strings(fielders), movements: copy_movements(movements) },
            Play::GameAdvisory { inning } => Play::GameAdvisory { inning: *inning },
            Play::Ejection { inning, movements } => Play::Ejection { inning: *inning, movements: copy_movements(movements) },
        }
    }
}
} // verus!
