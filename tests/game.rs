use std::time::{SystemTime, UNIX_EPOCH};

use pokedle::pokemon::{Color, Generation, Height, Pokemon, Type, Weight};
use pokedle::{
    first_rotation_time, is_rotation_due, ColorComparison, GuessResult, NumberComparison, Pokedle,
    PokedleError, PokedleInitError, PokemonComparison, PokemonHandler, PythonGuessResult,
    Timestamp, TypesComparison, DAY_MILLIS,
};

const HOUR: i64 = 3_600_000;
const MINUTE: i64 = 60_000;
const T0: i64 = 1_700_000_000_000;

fn creature(name: &str, height: u64, weight: u64, types: &[&str], color: &str, generation: u8) -> Pokemon {
    Pokemon {
        name: String::from(name),
        height: Height(height),
        weight: Weight(weight),
        types: types.iter().map(|t| Type(String::from(*t))).collect(),
        color: Color(String::from(color)),
        generation: Generation(generation),
    }
}

fn generate_dummy_pokemon_data() -> (Vec<String>, Vec<Pokemon>) {
    let pokemons = vec![
        creature("Chrysacier", 7, 99, &["Insecte"], "Vert", 1),
        creature("ChrysacierBis", 7, 99, &["Insecte"], "Vert", 12),
        creature("BlagueSurLesDaron-ne-s", 7, 99, &["Insecte"], "Vert", 5),
        creature("Blanche", 3, 32, &["Normal"], "Blanc", 2),
        creature("Noirette", 3, 41, &["Normal"], "Noir", 2),
    ];
    let names: Vec<String> = pokemons.iter().map(|p| p.name.clone()).collect();
    (names, pokemons)
}

fn french_data() -> (Vec<String>, Vec<Pokemon>) {
    let pokemons = vec![
        creature("Bulbizarre", 7, 69, &["Grass"], "Green", 1),
        creature("Herbizarre", 10, 130, &["Grass"], "Green", 1),
        creature("Florizarre", 20, 1000, &["Grass", "Poison"], "Green", 1),
        creature("Salameche", 6, 85, &["Fire"], "Red", 1),
        creature("Chenipan", 3, 29, &["Bug"], "Green", 1),
    ];
    let names: Vec<String> = pokemons.iter().map(|p| p.name.clone()).collect();
    (names, pokemons)
}

/// A registry with one locale "fr" whose target is forced to index 0 and
/// whose last rotation is `T0`.
fn forced_registry() -> Pokedle {
    let (names, pokemons) = french_data();
    let handler = PokemonHandler::with_state(names, pokemons, 0, Timestamp(T0));
    Pokedle::from_handlers(vec![String::from("fr")], vec![handler])
}

fn now_millis() -> i64 {
    SystemTime::now().duration_since(UNIX_EPOCH).unwrap().as_millis() as i64
}

#[test]
fn lib_game_scenario() {
    let mut pokedle = forced_registry();
    let now = Timestamp(T0 + HOUR);

    pokedle.get_names("lol").expect_err("'lol' should not exist");
    pokedle.get_names("fr").unwrap();

    pokedle
        .guess_at("lo", "Chenipan", now)
        .expect_err("'lo' should not be a valid language");
    pokedle
        .guess_at("fr", "Sacha", now)
        .expect_err("'Sacha' should not be a pokemon");
    assert_eq!(
        pokedle.guess_at("fr", "Herbizarre", now).unwrap(),
        GuessResult::Failure(PokemonComparison {
            height: NumberComparison::Higher,
            weight: NumberComparison::Higher,
            types: TypesComparison::Equal,
            color: ColorComparison::Equal,
            generation: NumberComparison::Equal,
        })
    );
    assert_eq!(pokedle.guess_at("fr", "Bulbizarre", now).unwrap(), GuessResult::Success);
}

#[test]
fn lib_pokemon_handler_creation() {
    let (names, pokemons) = generate_dummy_pokemon_data();
    let handler = PokemonHandler::new(names, pokemons.clone());
    let daily_pokemon = handler.get_daily_pokemon();
    assert!(pokemons.contains(daily_pokemon));
    assert!(handler.daily_pokemon_index() < pokemons.len());
    assert_eq!(handler.previous_daily_pokemon_index(), None);
}

#[test]
fn lib_pokemon_handler_get_pokemon_by_name() {
    let (names, pokemons) = generate_dummy_pokemon_data();
    let handler = PokemonHandler::new(names, pokemons.clone());

    assert_eq!(
        handler.get_pokemon_by_name("Chrysacier").expect("Oh no, the pokemon is not found"),
        pokemons.get(0).expect("The error is in the test, not in the code")
    );
    assert_eq!(
        handler.get_pokemon_by_name("ChrysacierBis").expect("Oh no, the pokemon is not found"),
        pokemons.get(1).expect("The error is in the test, not in the code")
    );
    assert_eq!(
        handler
            .get_pokemon_by_name("BlagueSurLesDaron-ne-s")
            .expect("Oh no, the pokemon is not found"),
        pokemons.get(2).expect("The error is in the test, not in the code")
    );
    assert_eq!(
        handler.get_pokemon_by_name("Blanche").expect("Oh no, the pokemon is not found"),
        pokemons.get(3).expect("The error is in the test, not in the code")
    );
    assert_eq!(
        handler.get_pokemon_by_name("Noirette").expect("Oh no, the pokemon is not found"),
        pokemons.get(4).expect("The error is in the test, not in the code")
    );
}

#[test]
fn lib_pokemon_handler_update() {
    let (names, pokemons) = generate_dummy_pokemon_data();
    let mut handler = PokemonHandler::new(names.clone(), pokemons.clone());
    let first_index = handler.daily_pokemon_index();

    // Just built: no rotation is due yet.
    for _ in 0..100 {
        handler.update_daily_pokemon_if_needed();
        assert_eq!(first_index, handler.daily_pokemon_index());
    }

    // A year after the last rotation, a new target is drawn.
    let last = handler.last_pokemon_update();
    let mut handler = PokemonHandler::with_state(names, pokemons, first_index, last);
    let drawn = (first_index + 1) % 5;
    handler.refresh_with_draw(Timestamp(last.0 + 365 * DAY_MILLIS), drawn);
    assert_ne!(first_index, handler.daily_pokemon_index());
    assert_eq!(first_index, handler.previous_daily_pokemon_index().unwrap());
}

#[test]
fn new_handler_is_anchored_at_six_today() {
    let before = now_millis();
    let (names, pokemons) = generate_dummy_pokemon_data();
    let handler = PokemonHandler::new(names, pokemons);
    let after = now_millis();
    let anchor = handler.last_pokemon_update().0;
    assert_eq!(anchor.rem_euclid(DAY_MILLIS), 6 * HOUR);
    assert!(anchor - 6 * HOUR <= after);
    assert!(anchor - 6 * HOUR > before - DAY_MILLIS);
}

#[test]
fn rotation_window() {
    let (names, pokemons) = generate_dummy_pokemon_data();
    let mut handler = PokemonHandler::with_state(names, pokemons, 2, Timestamp(T0));

    handler.refresh_with_draw(Timestamp(T0 + 23 * HOUR + 59 * MINUTE), 4);
    assert_eq!(handler.daily_pokemon_index(), 2);
    assert_eq!(handler.previous_daily_pokemon_index(), None);
    assert_eq!(handler.last_pokemon_update(), Timestamp(T0));

    handler.refresh_with_draw(Timestamp(T0 + 24 * HOUR + MINUTE), 4);
    assert_eq!(handler.daily_pokemon_index(), 4);
    assert_eq!(handler.previous_daily_pokemon_index(), Some(2));
    assert_eq!(handler.last_pokemon_update(), Timestamp(T0 + 24 * HOUR + MINUTE));

    // A second check in the same window changes nothing.
    handler.refresh_with_draw(Timestamp(T0 + 30 * HOUR), 1);
    assert_eq!(handler.daily_pokemon_index(), 4);
    assert_eq!(handler.previous_daily_pokemon_index(), Some(2));
}

#[test]
fn rotation_may_draw_the_same_target() {
    let (names, pokemons) = generate_dummy_pokemon_data();
    let mut handler = PokemonHandler::with_state(names, pokemons, 3, Timestamp(T0));
    handler.refresh_with_draw(Timestamp(T0 + DAY_MILLIS), 3);
    assert_eq!(handler.daily_pokemon_index(), 3);
    assert_eq!(handler.previous_daily_pokemon_index(), Some(3));
    assert_eq!(handler.last_pokemon_update(), Timestamp(T0 + DAY_MILLIS));
}

#[test]
fn random_rotation_stays_in_range() {
    let (names, pokemons) = generate_dummy_pokemon_data();
    let mut handler = PokemonHandler::with_state(names, pokemons, 1, Timestamp(T0));
    handler.refresh_if_due(Timestamp(T0 + 2 * DAY_MILLIS));
    assert!(handler.daily_pokemon_index() < 5);
    assert_eq!(handler.previous_daily_pokemon_index(), Some(1));
    assert_eq!(handler.last_pokemon_update(), Timestamp(T0 + 2 * DAY_MILLIS));
    assert!(!handler.is_update_needed(Timestamp(T0 + 2 * DAY_MILLIS)));
}

#[test]
fn rotation_due_boundaries() {
    assert!(!is_rotation_due(Timestamp(T0 + DAY_MILLIS - 1), Timestamp(T0)));
    assert!(is_rotation_due(Timestamp(T0 + DAY_MILLIS), Timestamp(T0)));
    assert!(!is_rotation_due(Timestamp(T0 - DAY_MILLIS), Timestamp(T0)));
    assert!(is_rotation_due(Timestamp(i64::MAX), Timestamp(i64::MIN)));
    assert!(!is_rotation_due(Timestamp(i64::MIN), Timestamp(i64::MAX)));
}

#[test]
fn first_rotation_is_six_in_the_morning() {
    assert_eq!(first_rotation_time(Timestamp(T0)), Timestamp(1_699_941_600_000));
    assert_eq!(first_rotation_time(Timestamp(0)), Timestamp(6 * HOUR));
    assert_eq!(first_rotation_time(Timestamp(DAY_MILLIS - 1)), Timestamp(6 * HOUR));
    assert_eq!(first_rotation_time(Timestamp(DAY_MILLIS)), Timestamp(DAY_MILLIS + 6 * HOUR));
}

#[test]
fn previous_name_before_and_after_rotation() {
    let mut pokedle = forced_registry();
    assert_eq!(pokedle.get_previous_pokemon_to_guess_name("fr").unwrap(), None);

    pokedle.guess_at("fr", "Chenipan", Timestamp(T0 + HOUR)).unwrap();
    assert_eq!(pokedle.get_previous_pokemon_to_guess_name("fr").unwrap(), None);

    pokedle.guess_at("fr", "Chenipan", Timestamp(T0 + DAY_MILLIS + HOUR)).unwrap();
    assert_eq!(
        pokedle.get_previous_pokemon_to_guess_name("fr").unwrap(),
        Some(String::from("Bulbizarre"))
    );
    assert_eq!(
        pokedle.get_previous_pokemon_to_guess_name("de"),
        Err(PokedleError::LangDoesNotExist(String::from("de")))
    );
}

#[test]
fn end_to_end_french_scenario() {
    let mut pokedle = forced_registry();
    let now = Timestamp(T0 + 2 * HOUR);
    assert_eq!(pokedle.guess_at("fr", "Bulbizarre", now), Ok(GuessResult::Success));
    assert_eq!(
        pokedle.guess_at("fr", "Herbizarre", now),
        Ok(GuessResult::Failure(PokemonComparison {
            height: NumberComparison::Higher,
            weight: NumberComparison::Higher,
            types: TypesComparison::Equal,
            color: ColorComparison::Equal,
            generation: NumberComparison::Equal,
        }))
    );
    assert_eq!(
        pokedle.guess_at("fr", "Salameche", now),
        Ok(GuessResult::Failure(PokemonComparison {
            height: NumberComparison::Lower,
            weight: NumberComparison::Higher,
            types: TypesComparison::Different,
            color: ColorComparison::Different,
            generation: NumberComparison::Equal,
        }))
    );
    assert_eq!(
        pokedle.guess_at("fr", "Florizarre", now),
        Ok(GuessResult::Failure(PokemonComparison {
            height: NumberComparison::Higher,
            weight: NumberComparison::Higher,
            types: TypesComparison::PartiallyEqual,
            color: ColorComparison::Equal,
            generation: NumberComparison::Equal,
        }))
    );
}

#[test]
fn unknown_candidate_whatever_the_target() {
    let (names, pokemons) = french_data();
    for target in 0..5 {
        let handler = PokemonHandler::with_state(names.clone(), pokemons.clone(), target, Timestamp(T0));
        let mut pokedle = Pokedle::from_handlers(vec![String::from("fr")], vec![handler]);
        assert_eq!(
            pokedle.guess_at("fr", "Sacha", Timestamp(T0)),
            Err(PokedleError::PokemonDoesNotExist(String::from("Sacha")))
        );
    }
}

#[test]
fn unknown_locale_checked_before_rotation() {
    let mut pokedle = forced_registry();
    let late = Timestamp(T0 + 3 * DAY_MILLIS);
    assert_eq!(
        pokedle.guess_at("lo", "Chenipan", late),
        Err(PokedleError::LangDoesNotExist(String::from("lo")))
    );
    // No locale rotated: the target is still the forced one.
    assert_eq!(pokedle.get_previous_pokemon_to_guess_name("fr").unwrap(), None);
    assert_eq!(pokedle.guess_at("fr", "Bulbizarre", Timestamp(T0 + HOUR)), Ok(GuessResult::Success));
}

#[test]
fn names_and_lookups_by_locale() {
    let pokedle = forced_registry();
    let names = pokedle.get_names("fr").unwrap();
    assert_eq!(names.len(), 5);
    assert_eq!(names[0], "Bulbizarre");
    assert_eq!(pokedle.get_pokemon_by_name("fr", "Herbizarre").unwrap().height, Height(10));
    assert_eq!(
        pokedle.get_pokemon_by_name("fr", "Pikachu"),
        Err(PokedleError::PokemonDoesNotExist(String::from("Pikachu")))
    );
    assert_eq!(
        pokedle.get_pokemon_by_name("xx", "Herbizarre"),
        Err(PokedleError::LangDoesNotExist(String::from("xx")))
    );
}

#[test]
fn registry_from_coherent_data() {
    let (fr_names, fr_pokemons) = french_data();
    let (de_names, de_pokemons) = generate_dummy_pokemon_data();
    let names = vec![(String::from("fr"), fr_names), (String::from("de"), de_names)];
    let pokemons = vec![(String::from("de"), de_pokemons), (String::from("fr"), fr_pokemons)];
    let mut pokedle = Pokedle::new(names, pokemons).unwrap();
    assert_eq!(pokedle.get_names("fr").unwrap()[0], "Bulbizarre");
    assert_eq!(pokedle.get_names("de").unwrap()[0], "Chrysacier");
    assert_eq!(pokedle.get_previous_pokemon_to_guess_name("de").unwrap(), None);
    assert!(pokedle.guess("de", "Noirette").is_ok());
    assert_eq!(
        pokedle.guess("es", "Noirette"),
        Err(PokedleError::LangDoesNotExist(String::from("es")))
    );
}

#[test]
fn registry_from_incoherent_data() {
    let (fr_names, fr_pokemons) = french_data();
    let names = vec![(String::from("fr"), fr_names)];
    let pokemons = vec![(String::from("de"), fr_pokemons)];
    assert_eq!(Pokedle::new(names, pokemons).err(), Some(PokedleInitError::IncoherentData));

    let (fr_names, fr_pokemons) = french_data();
    let (de_names, _) = generate_dummy_pokemon_data();
    let names = vec![(String::from("fr"), fr_names), (String::from("de"), de_names)];
    let pokemons = vec![(String::from("fr"), fr_pokemons)];
    assert_eq!(Pokedle::new(names, pokemons).err(), Some(PokedleInitError::IncoherentData));

    let empty: Vec<(String, Vec<String>)> = Vec::new();
    let no_pokemons: Vec<(String, Vec<Pokemon>)> = Vec::new();
    assert!(Pokedle::new(empty, no_pokemons).is_ok());
}

#[test]
fn flat_guess_result() {
    let success = PythonGuessResult::new(GuessResult::Success);
    assert!(success.is_success());
    assert_eq!(success.comparison, None);

    let failure = PythonGuessResult::new(GuessResult::Failure(PokemonComparison {
        height: NumberComparison::Higher,
        weight: NumberComparison::Lower,
        types: TypesComparison::Different,
        color: ColorComparison::Different,
        generation: NumberComparison::Equal,
    }));
    assert!(!failure.is_success());
    assert_eq!(
        failure.comparison,
        Some([
            String::from("higher"),
            String::from("lower"),
            String::from("different"),
            String::from("different"),
            String::from("equal"),
        ])
    );
}
