use truco_boundary::{
    add_player, build, hasta, new_truco_builder, GameSetup, ResultEnum, ResultTruco,
    TrucoBuilderEnum,
};

fn name(text: &str) -> Vec<u8> {
    text.as_bytes().to_vec()
}

fn with_players(count: usize) -> TrucoBuilderEnum {
    let mut builder = new_truco_builder();
    for i in 0..count {
        add_player(&mut builder, name(&format!("jugador{}", i)));
    }
    builder
}

#[test]
fn a_new_builder_has_no_threshold_and_no_players() {
    let builder = new_truco_builder();
    assert_eq!(builder, TrucoBuilderEnum::SinCero(vec![]));
    assert_eq!(builder.count(), 0);
    assert_eq!(builder.threshold(), None);
    assert!(builder.players().is_empty());
}

#[test]
fn adding_players_counts_up_to_six() {
    for k in 0..=10usize {
        let builder = with_players(k);
        assert_eq!(builder.count(), k.min(6));
        assert_eq!(builder.players().len(), k.min(6));
        assert_eq!(builder.threshold(), None);
    }
}

#[test]
fn players_are_kept_in_the_order_added() {
    let mut builder = new_truco_builder();
    add_player(&mut builder, name("ana"));
    add_player(&mut builder, name("beto"));
    add_player(&mut builder, name("caro"));
    assert_eq!(
        builder,
        TrucoBuilderEnum::SinTres(vec!["ana".to_string(), "beto".to_string(), "caro".to_string()])
    );
}

#[test]
fn a_seventh_player_changes_nothing() {
    let mut builder = with_players(6);
    let before = builder.clone();
    add_player(&mut builder, name("de_mas"));
    assert_eq!(builder, before);
    add_player(&mut builder, name("otro"));
    assert_eq!(builder, before);

    hasta(&mut builder, 30);
    let before = builder.clone();
    add_player(&mut builder, name("de_mas"));
    assert_eq!(builder, before);
    assert_eq!(builder.count(), 6);
}

#[test]
fn a_name_that_is_not_text_is_dropped() {
    let mut builder = with_players(2);
    let before = builder.clone();
    add_player(&mut builder, vec![0x66, 0x6f, 0xff]);
    assert_eq!(builder, before);
    add_player(&mut builder, vec![0xc3]);
    assert_eq!(builder, before);
}

#[test]
fn a_name_may_hold_any_text() {
    let mut builder = new_truco_builder();
    add_player(&mut builder, "Ñandú".as_bytes().to_vec());
    add_player(&mut builder, Vec::new());
    assert_eq!(builder, TrucoBuilderEnum::SinDos(vec!["Ñandú".to_string(), String::new()]));
}

#[test]
fn the_first_threshold_is_kept() {
    for k in 0..=6usize {
        let mut builder = with_players(k);
        let players = builder.players().clone();
        hasta(&mut builder, 15);
        assert_eq!(builder.threshold(), Some(15));
        assert_eq!(builder.count(), k);
        assert_eq!(builder.players(), &players);

        let before = builder.clone();
        hasta(&mut builder, 30);
        assert_eq!(builder, before);
        assert_eq!(builder.threshold(), Some(15));
        assert_eq!(builder.count(), k);
    }
}

#[test]
fn the_threshold_moves_each_state_to_its_twin() {
    let mut builder = with_players(0);
    hasta(&mut builder, 0);
    assert_eq!(builder, TrucoBuilderEnum::ConCero(vec![], 0));
    let mut builder = with_players(1);
    hasta(&mut builder, 255);
    assert_eq!(builder, TrucoBuilderEnum::ConUno(vec!["jugador0".to_string()], 255));
    let mut builder = with_players(6);
    hasta(&mut builder, 30);
    assert!(matches!(builder, TrucoBuilderEnum::ConSeis(_, 30)));
}

#[test]
fn players_can_follow_the_threshold() {
    let mut builder = new_truco_builder();
    hasta(&mut builder, 30);
    add_player(&mut builder, name("ana"));
    assert_eq!(builder, TrucoBuilderEnum::ConUno(vec!["ana".to_string()], 30));
    add_player(&mut builder, name("beto"));
    assert_eq!(builder, TrucoBuilderEnum::ConDos(vec!["ana".to_string(), "beto".to_string()], 30));
}

#[test]
fn build_succeeds_on_exactly_three_states() {
    for with_threshold in [false, true] {
        for k in 0..=6usize {
            let mut builder = with_players(k);
            if with_threshold {
                hasta(&mut builder, 30);
            }
            let before = builder.clone();
            let ready = with_threshold && (k == 2 || k == 4 || k == 6);
            let outcome = build(builder);
            if ready {
                assert_eq!(outcome.tag(), ResultEnum::Success);
                match outcome.into_content() {
                    ResultTruco::Value(setup) => {
                        assert_eq!(&setup.players, before.players());
                        assert_eq!(setup.players.len(), k);
                        assert_eq!(setup.hasta, 30);
                    }
                    ResultTruco::Error(_) => panic!("a ready builder was handed back"),
                }
            } else {
                assert_eq!(outcome.tag(), ResultEnum::Failure);
                match outcome.into_content() {
                    ResultTruco::Value(_) => panic!("a game was built too early"),
                    ResultTruco::Error(same) => assert_eq!(same, before),
                }
            }
        }
    }
}

#[test]
fn four_players_and_a_threshold_of_thirty_build_a_game() {
    let mut builder = new_truco_builder();
    add_player(&mut builder, name("ana"));
    add_player(&mut builder, name("beto"));
    add_player(&mut builder, name("caro"));
    add_player(&mut builder, name("dani"));
    hasta(&mut builder, 30);
    let outcome = build(builder);
    assert_eq!(outcome.tag(), ResultEnum::Success);
    match outcome.into_content() {
        ResultTruco::Value(setup) => assert_eq!(
            setup,
            GameSetup {
                players: vec![
                    "ana".to_string(),
                    "beto".to_string(),
                    "caro".to_string(),
                    "dani".to_string()
                ],
                hasta: 30,
            }
        ),
        ResultTruco::Error(_) => panic!("the builder was handed back"),
    }
}

#[test]
fn three_players_fail_and_a_fourth_mends_it() {
    let mut builder = new_truco_builder();
    hasta(&mut builder, 15);
    add_player(&mut builder, name("ana"));
    add_player(&mut builder, name("beto"));
    add_player(&mut builder, name("caro"));
    let outcome = build(builder);
    assert_eq!(outcome.tag(), ResultEnum::Failure);
    let mut builder = match outcome.into_content() {
        ResultTruco::Error(builder) => builder,
        ResultTruco::Value(_) => panic!("three players built a game"),
    };
    assert_eq!(
        builder,
        TrucoBuilderEnum::ConTres(
            vec!["ana".to_string(), "beto".to_string(), "caro".to_string()],
            15
        )
    );
    assert_eq!(builder.threshold(), Some(15));
    assert_eq!(builder.count(), 3);

    add_player(&mut builder, name("dani"));
    let outcome = build(builder);
    assert_eq!(outcome.tag(), ResultEnum::Success);
    match outcome.into_content() {
        ResultTruco::Value(setup) => {
            assert_eq!(setup.players.len(), 4);
            assert_eq!(setup.players[3], "dani");
            assert_eq!(setup.hasta, 15);
        }
        ResultTruco::Error(_) => panic!("the builder was handed back"),
    }
}
