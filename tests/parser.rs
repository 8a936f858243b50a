use mlb_jsonl_parser::{Base, Context, Inning, LineType, Movement, ParseError, Parser, Play, PlayType, Player, RunnerPositions, Team, Weather};

const CONTEXT: &str = "{ \"game_pk\": 123456, \"date\": \"2024-04-24\", \"venue_name\": \"Test Stadium\", \"weather\": { \"condition\": \"Sunny\", \"temperature\": 70, \"wind_speed\": 10 }, \"home_team\": { \"id\": 1, \"players\": [{ \"position\": \"PITCHER\", \"name\": \"John Doe\" }] }, \"away_team\": { \"id\": 2, \"players\": [{ \"position\": \"CATCHER\", \"name\": \"Jane Doe\" }] } }\n";

#[test]
fn parse_context() {
    let mut parser = Parser::new(true);

    let _ = parser.parse_line(CONTEXT);
    assert_eq!(parser.line_type, LineType::PlayIntroduction);
    assert_eq!(parser.game_builder.context.unwrap(), Context {
        game_pk: 123456,
        date: "2024-04-24".to_string(),
        venue_name: "Test Stadium".to_string(),
        weather: Weather { condition: "Sunny".to_string(), temperature: 70, wind_speed: 10 },
        home_team: Team { id: 1, players: vec![Player { position: "PITCHER".to_string(), name: "John Doe".to_string() }] },
        away_team: Team { id: 2, players: vec![Player { position: "CATCHER".to_string(), name: "Jane Doe".to_string() }] },
    });
}

#[test]
fn parse_play_introduction() {
    let mut parser = Parser::new(true);

    let _ = parser.parse_line(CONTEXT);
    assert_eq!(parser.line_type, LineType::PlayIntroduction);

    let _ = parser.parse_line("{ \"inning\": { \"number\": 1, \"top\": true }, \"type\": \"Groundout\" }\n");
    assert_eq!(parser.line_type, LineType::PlayInformation);
    assert_eq!(parser.game_builder.play_builder.inning.unwrap(), Inning { number: 1, top: true });
    assert_eq!(parser.game_builder.play_builder.play_type.unwrap(), PlayType::Groundout);
}

#[test]
fn parse_play_information() {
    let mut parser = Parser::new(true);

    let _ = parser.parse_line(CONTEXT);
    assert_eq!(parser.line_type, LineType::PlayIntroduction);

    let _ = parser.parse_line("{ \"inning\": { \"number\": 1, \"top\": true }, \"type\": \"Groundout\" }\n");
    assert_eq!(parser.line_type, LineType::PlayInformation);
    assert_eq!(parser.game_builder.play_builder.inning.unwrap(), Inning { number: 1, top: true });
    assert_eq!(parser.game_builder.play_builder.play_type.unwrap(), PlayType::Groundout);

    let _ = parser.parse_line("{ \"batter\": \"Jane Doe\", \"pitcher\": \"John Doe\", \"fielders\": [\"John Doe\"] }\n");
    assert_eq!(parser.line_type, LineType::PlayMovements);
}

#[test]
fn parse_game_advisory_does_not_expect_play_information_nor_movements() {
    let mut parser = Parser::new(true);

    let _ = parser.parse_line(CONTEXT);
    assert_eq!(parser.line_type, LineType::PlayIntroduction);

    let _ = parser.parse_line("{ \"inning\": { \"number\": 1, \"top\": true }, \"type\": \"Game Advisory\" }\n");
    assert_eq!(parser.line_type, LineType::PlayIntroduction);
}

#[test]
fn parse_ejection_does_not_expect_play_information_but_does_expect_movements() {
    let mut parser = Parser::new(true);

    let _ = parser.parse_line(CONTEXT);
    assert_eq!(parser.line_type, LineType::PlayIntroduction);

    let _ = parser.parse_line("{ \"inning\": { \"number\": 1, \"top\": true }, \"type\": \"Ejection\" }\n");
    assert_eq!(parser.line_type, LineType::PlayMovements);
}

#[test]
fn parse_play_movements() {
    let mut parser = Parser::new(true);

    let _ = parser.parse_line(CONTEXT);
    assert_eq!(parser.line_type, LineType::PlayIntroduction);

    let _ = parser.parse_line("{ \"inning\": { \"number\": 1, \"top\": true }, \"type\": \"Walk\" }\n");
    assert_eq!(parser.line_type, LineType::PlayInformation);

    let _ = parser.parse_line("{ \"batter\": \"Jane Doe\", \"pitcher\": \"John Doe\" }\n");
    assert_eq!(parser.line_type, LineType::PlayMovements);

    let _ = parser.parse_line("{ \"movements\": [{ \"runner\": \"Jane Doe\", \"start_base\": \"home\", \"end_base\": \"1\", \"is_out\": false }] }\n");
    assert_eq!(parser.line_type, LineType::PlayIntroduction);
    assert_eq!(parser.game_builder.plays.len(), 1);
    assert_eq!(parser.game_builder.plays[0], Play::Walk {
        inning: Inning { number: 1, top: true },
        batter: "Jane Doe".to_string(),
        pitcher: "John Doe".to_string(),
        movements: vec![Movement {
            runner: "Jane Doe".to_string(),
            start_base: Base::Home,
            end_base: Base::First,
            is_out: false,
        }],
    });
    assert_eq!(parser.game_builder.runner_positions, RunnerPositions {
        first: Some("Jane Doe".to_string()),
        second: None,
        third: None,
    });
}

fn play_type_alternation() -> String {
    "Groundout|Bunt Groundout|Strikeout|Lineout|Bunt Lineout|Flyout|Pop Out|Bunt Pop Out|Forceout|Fielders Choice Out|Double Play|Triple Play|Runner Double Play|Runner Triple Play|Grounded Into Double Play|Strikeout Double Play|Pickoff|Pickoff Error|Caught Stealing|Pickoff Caught Stealing|Wild Pitch|Runner Out|Field Out|Batter Out|Balk|Passed Ball|Error|Single|Double|Triple|Home Run|Walk|Intent Walk|Hit By Pitch|Fielders Choice|Catcher Interference|Stolen Base|Sac Fly|Sac Fly Double Play|Sac Bunt|Sac Bunt Double Play|Field Error|Game Advisory|Ejection".to_string()
}

#[test]
fn context_line_yields_first_introduction_regex() {
    let mut parser = Parser::new(false);
    let regex = parser.parse_line(CONTEXT).unwrap();
    let expected = format!(
        r#"\{{ "inning": \{{ "number": (1), "top": (true) \}}, "type": "({})" \}}"#,
        play_type_alternation()
    );
    assert_eq!(regex, expected);
}

#[test]
fn introduction_regex_offers_current_and_next_half_inning() {
    let mut parser = Parser::new(false);
    parser.parse_line(CONTEXT).unwrap();
    let regex = parser.parse_line("{\"inning\":{\"number\":4,\"top\":false},\"type\":\"Game Advisory\"}").unwrap();
    assert!(regex.starts_with(r#"\{ "inning": \{ "number": (4|5), "top": (false|true) \}"#));
    let regex = parser.parse_line("{\"inning\":{\"number\":5,\"top\":true},\"type\":\"Game Advisory\"}").unwrap();
    assert!(regex.starts_with(r#"\{ "inning": \{ "number": (5), "top": (true|false) \}"#));
}

#[test]
fn information_regex_routes_rosters_by_half_inning() {
    let mut parser = Parser::new(false);
    parser.parse_line(CONTEXT).unwrap();
    let regex = parser.parse_line("{\"inning\":{\"number\":1,\"top\":true},\"type\":\"Groundout\"}").unwrap();
    assert_eq!(
        regex,
        r#"\{ "batter": "((Jane Doe))", "pitcher": "((John Doe))", "fielders": \[("((John Doe))"(, "((John Doe))")*)?\] \}"#
    );
}

#[test]
fn context_regex_is_fixed() {
    let parser = Parser::new(false);
    assert_eq!(parser.line_type, LineType::Context);
    let regex = parser.generate_regex();
    let player = r#"\{ "position": "((PITCHER|CATCHER|FIRST_BASE|SECOND_BASE|THIRD_BASE|SHORTSTOP|LEFT_FIELD|CENTER_FIELD|RIGHT_FIELD|DESIGNATED_HITTER|PINCH_HITTER|PINCH_RUNNER|TWO_WAY_PLAYER|OUTFIELD|INFIELD|UTILITY|RELIEF_PITCHER|STARTING_PITCHER))", "name": "([a-zA-ZÀ-ÖØ-öø-ÿ.'\- ]+)" \}"#;
    let team = format!(r#"\{{ "id": ([1-9]\d{{0,2}}), "players": \[({}(, {})*)?\] \}}"#, player, player);
    let expected = format!(
        r#"\{{ "game_pk": ([1-9]\d{{0,5}}), "date": "(\d{{4}}-\d{{2}}-\d{{2}})", "venue_name": "([a-zA-ZÀ-ÖØ-öø-ÿ.'\- ]+)", "weather": \{{ "condition": "([a-zA-Z ]+)", "temperature": ([1-9]\d{{0,2}}), "wind_speed": ([1-9]\d{{0,2}}) \}}, "home_team": {}, "away_team": {} \}}"#,
        team, team
    );
    assert_eq!(regex, expected);
}

#[test]
fn movements_regex_enumerates_batter_moves() {
    let mut parser = Parser::new(false);
    parser.parse_line(CONTEXT).unwrap();
    parser.parse_line("{\"inning\":{\"number\":1,\"top\":true},\"type\":\"Walk\"}").unwrap();
    let regex = parser.parse_line("{\"batter\":\"Jane Doe\",\"pitcher\":\"John Doe\"}").unwrap();
    let one = |end: &str, out: bool| format!(
        r#"(\{{ "runner": "(Jane Doe)", "start_base": "(home)", "end_base": "({})", "is_out": ({}) \}})"#,
        end, out
    );
    let alternatives = [
        one("1", false), one("1", true), one("2", false), one("2", true),
        one("3", false), one("3", true), one("home", false), one("home", true),
    ].join("|");
    let item = format!("({})", alternatives);
    let expected = format!(r#"\{{ "movements": \[({}(, {})*)?\] \}}"#, item, item);
    assert_eq!(regex, expected);
}

#[test]
fn names_with_dots_are_escaped() {
    let mut parser = Parser::new(false);
    let context = CONTEXT.replace("Jane Doe", "J. Doe.");
    parser.parse_line(&context).unwrap();
    let regex = parser.parse_line("{\"inning\":{\"number\":1,\"top\":true},\"type\":\"Strikeout\"}").unwrap();
    assert!(regex.contains(r#""batter": "((J\. Doe\.))""#));
}

#[test]
fn malformed_line_changes_nothing() {
    let mut parser = Parser::new(false);
    assert_eq!(parser.parse_line("not json"), Err(ParseError::MalformedLine));
    assert_eq!(parser.parse_line("{\"game_pk\": 1}"), Err(ParseError::MalformedLine));
    assert_eq!(parser.line_type, LineType::Context);
    parser.parse_line(CONTEXT).unwrap();
    assert_eq!(parser.parse_line("{\"inning\":{\"number\":1,\"top\":true},\"type\":\"Homer\"}"), Err(ParseError::MalformedLine));
    parser.parse_line("{\"inning\":{\"number\":1,\"top\":true},\"type\":\"Single\"}").unwrap();
    assert_eq!(parser.parse_line("{\"batter\": 3, \"pitcher\": \"John Doe\"}"), Err(ParseError::MalformedLine));
    assert_eq!(parser.line_type, LineType::PlayInformation);
    assert_eq!(parser.game_builder.play_builder.batter, None);
}

#[test]
fn missing_or_extra_information_is_a_protocol_violation() {
    let mut parser = Parser::new(false);
    parser.parse_line(CONTEXT).unwrap();
    parser.parse_line("{\"inning\":{\"number\":1,\"top\":true},\"type\":\"Single\"}").unwrap();
    assert_eq!(parser.parse_line("{\"batter\": \"Jane Doe\"}"), Err(ParseError::ProtocolViolation));
    assert_eq!(
        parser.parse_line("{\"batter\": \"Jane Doe\", \"pitcher\": \"John Doe\", \"catcher\": \"John Doe\"}"),
        Err(ParseError::ProtocolViolation)
    );
    assert_eq!(parser.line_type, LineType::PlayInformation);
    parser.parse_line("{\"batter\": \"Jane Doe\", \"pitcher\": \"John Doe\", \"catcher\": null}").unwrap();
    assert_eq!(parser.line_type, LineType::PlayMovements);
}

#[test]
fn walk_puts_batter_on_first() {
    let mut parser = Parser::new(false);
    parser.parse_line(CONTEXT).unwrap();
    parser.parse_line("{\"inning\":{\"number\":1,\"top\":true},\"type\":\"Walk\"}").unwrap();
    parser.parse_line("{\"batter\":\"Jane Doe\",\"pitcher\":\"John Doe\"}").unwrap();
    parser.parse_line("{\"movements\":[{\"runner\":\"Jane Doe\",\"start_base\":\"home\",\"end_base\":\"1\",\"is_out\":false}]}").unwrap();
    assert_eq!(parser.game_builder.runner_positions, RunnerPositions { first: Some("Jane Doe".to_string()), second: None, third: None });
}

#[test]
fn home_run_scores_runner_and_batter() {
    let mut parser = Parser::new(false);
    parser.parse_line(CONTEXT).unwrap();
    parser.parse_line("{\"inning\":{\"number\":1,\"top\":true},\"type\":\"Walk\"}").unwrap();
    parser.parse_line("{\"batter\":\"Jane Doe\",\"pitcher\":\"John Doe\"}").unwrap();
    parser.parse_line("{\"movements\":[{\"runner\":\"Jane Doe\",\"start_base\":\"home\",\"end_base\":\"1\",\"is_out\":false}]}").unwrap();
    parser.parse_line("{\"inning\":{\"number\":1,\"top\":true},\"type\":\"Home Run\"}").unwrap();
    parser.parse_line("{\"batter\":\"Jane Doe\",\"pitcher\":\"John Doe\"}").unwrap();
    let before = parser.game_builder.away_team_runs;
    parser.parse_line("{\"movements\":[{\"runner\":\"Jane Doe\",\"start_base\":\"1\",\"end_base\":\"home\",\"is_out\":false},{\"runner\":\"Jane Doe\",\"start_base\":\"home\",\"end_base\":\"home\",\"is_out\":false}]}").unwrap();
    assert_eq!(parser.game_builder.away_team_runs, before + 2);
    assert_eq!(parser.game_builder.home_team_runs, 0);
    assert_eq!(parser.game_builder.runner_positions, RunnerPositions { first: None, second: None, third: None });
}

#[test]
fn empty_movements_are_accepted() {
    let mut parser = Parser::new(false);
    parser.parse_line(CONTEXT).unwrap();
    parser.parse_line("{\"inning\":{\"number\":1,\"top\":true},\"type\":\"Ejection\"}").unwrap();
    parser.parse_line("{\"movements\":[]}").unwrap();
    assert_eq!(parser.game_builder.plays, vec![Play::Ejection { inning: Inning { number: 1, top: true }, movements: vec![] }]);
    assert_eq!(parser.line_type, LineType::PlayIntroduction);
}

#[test]
fn finish_requires_context_and_plays() {
    let mut parser = Parser::new(false);
    assert_eq!(parser.finish().err(), Some(ParseError::IncompleteGame));
    parser.parse_line(CONTEXT).unwrap();
    assert_eq!(parser.finish().err(), Some(ParseError::IncompleteGame));
    parser.parse_line("{\"inning\":{\"number\":1,\"top\":true},\"type\":\"Game Advisory\"}").unwrap();
    let game = parser.finish().unwrap();
    assert_eq!(game.plays, vec![Play::GameAdvisory { inning: Inning { number: 1, top: true } }]);
    assert_eq!(game.context.venue_name, "Test Stadium");
}

#[test]
fn parse_synthetic_full_game() {
    let mut parser = Parser::new(false);
    parser.parse_line(CONTEXT).unwrap();
    for i in 0..78u32 {
        let number = i / 6 + 1;
        let top = (i / 3) % 2 == 0;
        let (batter, pitcher) = if top { ("Jane Doe", "John Doe") } else { ("John Doe", "Jane Doe") };
        match i % 3 {
            0 => {
                parser.parse_line(&format!("{{\"inning\":{{\"number\":{},\"top\":{}}},\"type\":\"Single\"}}", number, top)).unwrap();
                parser.parse_line(&format!("{{\"batter\":\"{}\",\"pitcher\":\"{}\"}}", batter, pitcher)).unwrap();
                parser.parse_line(&format!("{{\"movements\":[{{\"runner\":\"{}\",\"start_base\":\"home\",\"end_base\":\"1\",\"is_out\":false}}]}}", batter)).unwrap();
            },
            1 => {
                parser.parse_line(&format!("{{\"inning\":{{\"number\":{},\"top\":{}}},\"type\":\"Stolen Base\"}}", number, top)).unwrap();
                parser.parse_line(&format!("{{\"base\":\"2\",\"runner\":\"{}\"}}", batter)).unwrap();
                parser.parse_line(&format!("{{\"movements\":[{{\"runner\":\"{}\",\"start_base\":\"1\",\"end_base\":\"2\",\"is_out\":false}}]}}", batter)).unwrap();
            },
            _ => {
                parser.parse_line(&format!("{{\"inning\":{{\"number\":{},\"top\":{}}},\"type\":\"Game Advisory\"}}", number, top)).unwrap();
            },
        }
    }
    assert_eq!(parser.game_builder.plays.len(), 78);
    assert_eq!(parser.finish().unwrap().plays.len(), 78);
}

#[test]
fn movements_regex_includes_runners_on_base_and_pinch_runners() {
    let mut parser = Parser::new(false);
    let context = CONTEXT.replace(
        "[{ \"position\": \"CATCHER\", \"name\": \"Jane Doe\" }]",
        "[{ \"position\": \"CATCHER\", \"name\": \"Jane Doe\" }, { \"position\": \"PINCH_RUNNER\", \"name\": \"Pat Roe\" }]",
    );
    parser.parse_line(&context).unwrap();
    parser.parse_line("{\"inning\":{\"number\":1,\"top\":true},\"type\":\"Walk\"}").unwrap();
    parser.parse_line("{\"batter\":\"Jane Doe\",\"pitcher\":\"John Doe\"}").unwrap();
    parser.parse_line("{\"movements\":[{\"runner\":\"Jane Doe\",\"start_base\":\"home\",\"end_base\":\"1\",\"is_out\":false}]}").unwrap();
    parser.parse_line("{\"inning\":{\"number\":1,\"top\":true},\"type\":\"Stolen Base\"}").unwrap();
    let regex = parser.parse_line("{\"base\":\"2\",\"runner\":\"Jane Doe\"}").unwrap();
    let literal = |runner: &str, start: &str, end: &str, out: bool| format!(
        r#"(\{{ "runner": "({})", "start_base": "({})", "end_base": "({})", "is_out": ({}) \}})"#,
        runner, start, end, out
    );
    assert!(regex.contains(&literal("Jane Doe", "1", "2", false)));
    assert!(regex.contains(&literal("Jane Doe", "1", "1", true)));
    assert!(regex.contains(&literal("Pat Roe", "1", "home", true)));
    assert!(regex.contains(&literal("Jane Doe", "home", "3", false)));
    assert!(!regex.contains(&literal("Jane Doe", "1", "1", false)));
    assert!(!regex.contains("John Doe"));
    // One runner on first: three targets, two outcomes each, and out in place; no batter
    // in a stolen base; the pinch runner repeats those seven; the play's runner adds eight.
    // The array lowering writes its item twice.
    assert_eq!(regex.matches("\"runner\": ").count(), 2 * (7 + 7 + 8));
}

#[test]
fn pinch_runner_names_follow_roster() {
    let mut parser = Parser::new(false);
    let context = CONTEXT.replace(
        "[{ \"position\": \"PITCHER\", \"name\": \"John Doe\" }]",
        "[{ \"position\": \"PINCH_RUNNER\", \"name\": \"Al Fast\" }, { \"position\": \"PITCHER\", \"name\": \"John Doe\" }]",
    );
    parser.parse_line(&context).unwrap();
    assert_eq!(parser.game_builder.home_team_pinch_runner_names(), Some(vec!["Al Fast".to_string()]));
    assert_eq!(parser.game_builder.away_team_pinch_runner_names(), Some(vec![]));
    assert_eq!(
        parser.game_builder.home_team_player_names(),
        Some(vec!["Al Fast".to_string(), "John Doe".to_string()])
    );
}

#[test]
fn builder_keeps_committed_advisory_slots() {
    let mut parser = Parser::new(false);
    parser.parse_line(CONTEXT).unwrap();
    parser.parse_line("{\"inning\":{\"number\":2,\"top\":false},\"type\":\"Game Advisory\"}").unwrap();
    assert_eq!(parser.game_builder.plays.len(), 1);
    assert_eq!(parser.game_builder.play_builder.inning, Some(Inning { number: 2, top: false }));
    assert_eq!(parser.game_builder.play_builder.play_type, Some(PlayType::GameAdvisory));
}

#[test]
fn builder_keeps_committed_play_slots_until_next_play() {
    let mut parser = Parser::new(false);
    parser.parse_line(CONTEXT).unwrap();
    parser.parse_line("{\"inning\":{\"number\":1,\"top\":true},\"type\":\"Groundout\"}").unwrap();
    parser.parse_line("{\"batter\":\"Jane Doe\",\"pitcher\":\"John Doe\",\"fielders\":[\"John Doe\"]}").unwrap();
    parser.parse_line("{\"movements\":[]}").unwrap();
    let builder = &parser.game_builder.play_builder;
    assert_eq!(builder.play_type, Some(PlayType::Groundout));
    assert_eq!(builder.batter, Some("Jane Doe".to_string()));
    assert_eq!(builder.fielders, Some(vec!["John Doe".to_string()]));
    assert_eq!(builder.movements, Some(vec![]));
    parser.parse_line("{\"inning\":{\"number\":1,\"top\":true},\"type\":\"Balk\"}").unwrap();
    assert_eq!(parser.game_builder.play_builder.batter, None);
    assert_eq!(parser.game_builder.play_builder.play_type, Some(PlayType::Balk));
}
