use mlb_jsonl_parser::{Base, Context, GameBuilder, Inning, Movement, Play, Player, RunnerPositions, Team, Weather};

#[test]
fn game_builder_process_one_movement() {
    let mut game_builder = GameBuilder::new();

    let play = Play::Walk {
        inning: Inning { number: 1, top: true },
        batter: "Jane Doe".to_string(),
        pitcher: "John Doe".to_string(),
        movements: vec![Movement {
            runner: "Jane Doe".to_string(),
            start_base: Base::Home,
            end_base: Base::First,
            is_out: false,
        }],
    };

    game_builder.add_play(play);

    assert_eq!(game_builder.runner_positions, RunnerPositions {
        first: Some("Jane Doe".to_string()),
        second: None,
        third: None,
    });
}

#[test]
fn game_builder_process_two_movements() {
    let mut game_builder = GameBuilder::new();

    let plays = vec![
        Play::Walk {
            inning: Inning { number: 1, top: true },
            batter: "Person A".to_string(),
            pitcher: "Person B".to_string(),
            movements: vec![
                Movement {
                    runner: "Person A".to_string(),
                    start_base: Base::Home,
                    end_base: Base::First,
                    is_out: false,
                },
                Movement {
                    runner: "Person B".to_string(),
                    start_base: Base::First,
                    end_base: Base::Second,
                    is_out: false,
                },
            ],
        },
    ];

    for play in plays {
        game_builder.add_play(play);
    }

    assert_eq!(game_builder.runner_positions, RunnerPositions {
        first: Some("Person A".to_string()),
        second: Some("Person B".to_string()),
        third: None,
    });
}

#[test]
fn game_builder_process_multiple_plays_movements() {
    let mut game_builder = GameBuilder::new();

    let plays = vec![
        Play::Walk {
            inning: Inning { number: 1, top: true },
            batter: "Person A".to_string(),
            pitcher: "Person B".to_string(),
            movements: vec![
                Movement {
                    runner: "Person A".to_string(),
                    start_base: Base::Home,
                    end_base: Base::First,
                    is_out: false,
                },
            ],
        },
        Play::StolenBase {
            inning: Inning { number: 1, top: true },
            base: Base::First,
            runner: "Person A".to_string(),
            movements: vec![
                Movement {
                    runner: "Person A".to_string(),
                    start_base: Base::First,
                    end_base: Base::Second,
                    is_out: false,
                },
            ],
        },
    ];

    for play in plays {
        game_builder.add_play(play);
    }
}

#[test]
fn game_builder_process_movement_with_out() {
    let mut game_builder = GameBuilder::new();

    let play = Play::Groundout {
        inning: Inning { number: 1, top: true },
        batter: "Person A".to_string(),
        pitcher: "Person B".to_string(),
        fielders: vec!["Person C".to_string()],
        movements: vec![
            Movement {
                runner: "Person A".to_string(),
                start_base: Base::First,
                end_base: Base::Home,
                is_out: true,
            },
        ],
    };

    game_builder.add_play(play);

    assert_eq!(game_builder.runner_positions, RunnerPositions { first: None, second: None, third: None });
}

#[test]
fn game_builder_process_movements_with_scoring() {
    let mut game_builder = GameBuilder::new();
    game_builder.add_context(Context {
        game_pk: 1,
        date: "2021-01-01".to_string(),
        venue_name: "Stadium".to_string(),
        weather: Weather {
            condition: "Sunny".to_string(),
            temperature: 70,
            wind_speed: 10,
        },
        home_team: Team {
            id: 1,
            players: vec![
                Player { name: "Person A".to_string(), position: "Pitcher".to_string() },
                Player { name: "Person C".to_string(), position: "Catcher".to_string() },
            ],
        },
        away_team: Team {
            id: 2,
            players: vec![Player { name: "Person B".to_string(), position: "Pitcher".to_string() }],
        },
    });

    let play = Play::HomeRun {
        inning: Inning { number: 1, top: true },
        batter: "Person A".to_string(),
        pitcher: "Person B".to_string(),
        movements: vec![
            Movement {
                runner: "Person A".to_string(),
                start_base: Base::Home,
                end_base: Base::Home,
                is_out: false,
            },
            Movement {
                runner: "Person C".to_string(),
                start_base: Base::First,
                end_base: Base::Home,
                is_out: false,
            },
        ],
    };

    game_builder.add_play(play);

    assert_eq!(game_builder.runner_positions, RunnerPositions { first: None, second: None, third: None });
    assert_eq!(game_builder.home_team_runs, 2);
    assert_eq!(game_builder.away_team_runs, 0);
}

fn walk(top: bool, runner: &str, start: Base, end: Base) -> Play {
    Play::Walk {
        inning: Inning { number: 1, top },
        batter: runner.to_string(),
        pitcher: "Pitcher".to_string(),
        movements: vec![Movement { runner: runner.to_string(), start_base: start, end_base: end, is_out: false }],
    }
}

#[test]
fn runner_map_keeps_state_within_half_inning() {
    let mut game_builder = GameBuilder::new();
    game_builder.add_play(walk(true, "A", Base::Home, Base::First));
    game_builder.add_play(walk(true, "B", Base::Home, Base::First));
    // B is placed on first, taking the entry over from A.
    assert_eq!(game_builder.runner_positions.first, Some("B".to_string()));
    game_builder.add_play(walk(true, "B", Base::First, Base::Third));
    assert_eq!(game_builder.runner_positions, RunnerPositions { first: None, second: None, third: Some("B".to_string()) });
}

#[test]
fn runner_map_resets_when_half_inning_changes() {
    let mut game_builder = GameBuilder::new();
    game_builder.add_play(walk(true, "A", Base::Home, Base::Second));
    let advisory = Play::GameAdvisory { inning: Inning { number: 1, top: false } };
    game_builder.add_play(advisory);
    assert_eq!(game_builder.runner_positions, RunnerPositions { first: None, second: None, third: None });
    game_builder.add_play(walk(false, "C", Base::Home, Base::First));
    assert_eq!(game_builder.runner_positions, RunnerPositions { first: Some("C".to_string()), second: None, third: None });
}

#[test]
fn runner_out_in_place_clears_base() {
    let mut game_builder = GameBuilder::new();
    game_builder.add_play(walk(true, "A", Base::Home, Base::Second));
    let play = Play::Pickoff {
        inning: Inning { number: 1, top: true },
        base: Base::Second,
        fielders: vec!["F".to_string()],
        runner: "A".to_string(),
        movements: vec![Movement { runner: "A".to_string(), start_base: Base::Second, end_base: Base::Second, is_out: true }],
    };
    game_builder.add_play(play);
    assert_eq!(game_builder.runner_positions, RunnerPositions { first: None, second: None, third: None });
    assert_eq!(game_builder.home_team_runs + game_builder.away_team_runs, 0);
}

#[test]
fn runs_go_to_batting_team_when_on_its_roster() {
    let mut game_builder = GameBuilder::new();
    game_builder.add_context(Context {
        game_pk: 1,
        date: "2021-01-01".to_string(),
        venue_name: "Stadium".to_string(),
        weather: Weather { condition: "Sunny".to_string(), temperature: 70, wind_speed: 10 },
        home_team: Team { id: 1, players: vec![Player { position: "PITCHER".to_string(), name: "H".to_string() }] },
        away_team: Team { id: 2, players: vec![Player { position: "CATCHER".to_string(), name: "V".to_string() }] },
    });
    game_builder.add_play(walk(true, "V", Base::Home, Base::Home));
    assert_eq!((game_builder.home_team_runs, game_builder.away_team_runs), (0, 1));
    game_builder.add_play(walk(false, "H", Base::Home, Base::Home));
    assert_eq!((game_builder.home_team_runs, game_builder.away_team_runs), (1, 1));
    // An out at home scores nothing.
    let out = Play::Groundout {
        inning: Inning { number: 1, top: false },
        batter: "H".to_string(),
        pitcher: "V".to_string(),
        fielders: vec![],
        movements: vec![Movement { runner: "H".to_string(), start_base: Base::Third, end_base: Base::Home, is_out: true }],
    };
    game_builder.add_play(out);
    assert_eq!((game_builder.home_team_runs, game_builder.away_team_runs), (1, 1));
}

#[test]
fn build_requires_context_and_plays() {
    let mut game_builder = GameBuilder::new();
    assert_eq!(game_builder.build().err(), Some(mlb_jsonl_parser::ParseError::IncompleteGame));
    game_builder.add_play(walk(true, "A", Base::Home, Base::First));
    assert_eq!(game_builder.build().err(), Some(mlb_jsonl_parser::ParseError::IncompleteGame));
    game_builder.add_context(Context {
        game_pk: 5,
        date: "2021-01-01".to_string(),
        venue_name: "Stadium".to_string(),
        weather: Weather { condition: "Sunny".to_string(), temperature: 70, wind_speed: 10 },
        home_team: Team { id: 1, players: vec![] },
        away_team: Team { id: 2, players: vec![] },
    });
    let game = game_builder.build().unwrap();
    assert_eq!(game.context.game_pk, 5);
    assert_eq!(game.plays, vec![walk(true, "A", Base::Home, Base::First)]);
}

#[test]
fn out_from_home_follows_normal_move() {
    let mut game_builder = GameBuilder::new();
    let play = Play::Groundout {
        inning: Inning { number: 1, top: true },
        batter: "A".to_string(),
        pitcher: "P".to_string(),
        fielders: vec!["F".to_string()],
        movements: vec![
            Movement { runner: "A".to_string(), start_base: Base::Home, end_base: Base::First, is_out: true },
            Movement { runner: "B".to_string(), start_base: Base::Home, end_base: Base::Home, is_out: true },
        ],
    };
    game_builder.add_play(play);
    assert_eq!(game_builder.runner_positions, RunnerPositions { first: Some("A".to_string()), second: None, third: None });
    assert_eq!(game_builder.home_team_runs + game_builder.away_team_runs, 0);
}
