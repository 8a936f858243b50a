use mlb_jsonl_parser::{Base, Inning, Movement, Play, PlayBuilder, PlayType};

#[test]
fn base_targets_are_strictly_later() {
    assert_eq!(Base::Home.valid_to_bases(), vec![Base::First, Base::Second, Base::Third, Base::Home]);
    assert_eq!(Base::First.valid_to_bases(), vec![Base::Second, Base::Third, Base::Home]);
    assert_eq!(Base::Second.valid_to_bases(), vec![Base::Third, Base::Home]);
    assert_eq!(Base::Third.valid_to_bases(), vec![Base::Home]);
    assert_eq!(Base::Home.to_string(), "home");
    assert_eq!(Base::Third.to_string(), "3");
}

#[test]
fn inning_successor() {
    assert_eq!(Inning { number: 3, top: true }.next(), Inning { number: 3, top: false });
    assert_eq!(Inning { number: 3, top: false }.next(), Inning { number: 4, top: true });
}

#[test]
fn play_type_wire_names() {
    assert_eq!(PlayType::GroundedIntoDoublePlay.to_string(), "Grounded Into Double Play");
    assert_eq!(PlayType::from_wire(&"Sac Bunt Double Play".to_string()), Some(PlayType::SacBuntDoublePlay));
    assert_eq!(PlayType::from_wire(&"sac bunt".to_string()), None);
    assert_eq!(Base::from_wire(&"home".to_string()), Some(Base::Home));
    assert_eq!(Base::from_wire(&"4".to_string()), None);
}

#[test]
fn field_matrix_rows() {
    let row = PlayType::Pickoff.fields();
    assert!(row.base && row.fielders && row.runner && row.movements);
    assert!(!row.batter && !row.pitcher && !row.catcher && !row.scoring_runner);
    let row = PlayType::GameAdvisory.fields();
    assert!(!row.movements && !row.batter);
    let row = PlayType::Ejection.fields();
    assert!(row.movements && !row.batter && !row.pitcher);
}

#[test]
fn play_builder_takes_only_the_row_fields() {
    let mut builder = PlayBuilder::new();
    builder.set_inning(Inning { number: 2, top: false });
    builder.set_play_type(PlayType::Balk);
    builder.set_pitcher("P".to_string());
    builder.set_batter("ignored".to_string());
    builder.set_movements(vec![]);
    let play = builder.build();
    assert_eq!(play, Play::Balk { inning: Inning { number: 2, top: false }, pitcher: "P".to_string(), movements: vec![] });
    assert_eq!(play.get_movements(), Some(&vec![]));
    assert_eq!(play.play_type(), PlayType::Balk);
    let advisory = Play::GameAdvisory { inning: Inning { number: 1, top: true } };
    assert_eq!(advisory.get_movements(), None);
    let copy = Movement { runner: "R".to_string(), start_base: Base::First, end_base: Base::Third, is_out: false }.duplicate();
    assert_eq!(copy.end_base, Base::Third);
}
