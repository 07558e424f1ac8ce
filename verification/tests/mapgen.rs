use cell_wars::{CityState, Game, GameDifficulty, GRID_SIZE};

fn census(game: &Game) -> (u32, u32, u32, u32) {
    let mut player = 0;
    let mut computer = 0;
    let mut destroyed = 0;
    let mut blocked = 0;
    for y in 0..GRID_SIZE as u16 {
        for x in 0..GRID_SIZE as u16 {
            let cell = game
                .get_cell_at_pos(cell_wars::TerminalPos(x, y))
                .expect("in bounds");
            if cell.blocked {
                blocked += 1;
                assert!(cell.city.is_none(), "a blocked cell must not hold a city");
            }
            if let Some(c) = cell.city {
                match c.state {
                    CityState::OwnedByPlayer => player += 1,
                    CityState::OwnedByComputer => computer += 1,
                    CityState::Destroyed => destroyed += 1,
                }
            }
        }
    }
    (player, computer, destroyed, blocked)
}

#[test]
fn a_generated_map_holds_one_city_per_faction_and_no_ruins() {
    for _ in 0..50 {
        let mut game = Game::new();
        game.generate_random_map();
        let (player, computer, destroyed, _) = census(&game);
        assert_eq!(player, 1);
        assert_eq!(computer, 1);
        assert_eq!(destroyed, 0);
    }
}

#[test]
fn the_cursor_starts_on_the_players_city() {
    for _ in 0..50 {
        let mut game = Game::new();
        game.generate_random_map();
        let under_cursor = game
            .get_city_at_pos(game.cursor_loc)
            .expect("the cursor must sit on a city");
        assert_eq!(under_cursor.state, CityState::OwnedByPlayer);
    }
}

#[test]
fn starting_cities_follow_the_difficulty_profile() {
    let mut game = Game::new();
    game.difficulty = GameDifficulty::Easy;
    game.generate_random_map();
    for y in 0..GRID_SIZE as u16 {
        for x in 0..GRID_SIZE as u16 {
            let cell = game
                .get_cell_at_pos(cell_wars::TerminalPos(x, y))
                .expect("in bounds");
            if let Some(c) = cell.city {
                match c.state {
                    CityState::OwnedByPlayer => {
                        assert_eq!(c.generation_level, 2);
                        assert_eq!(c.combat_level, 2);
                        assert_eq!(c.resources, 10);
                    }
                    CityState::OwnedByComputer => {
                        assert_eq!(c.generation_level, 1);
                        assert_eq!(c.combat_level, 1);
                        assert_eq!(c.resources, 10);
                    }
                    CityState::Destroyed => panic!("no ruin belongs on a fresh map"),
                }
            }
        }
    }

    let mut game = Game::new();
    game.difficulty = GameDifficulty::NotEvenRemotelyFair;
    game.generate_random_map();
    for y in 0..GRID_SIZE as u16 {
        for x in 0..GRID_SIZE as u16 {
            let cell = game
                .get_cell_at_pos(cell_wars::TerminalPos(x, y))
                .expect("in bounds");
            if let Some(c) = cell.city {
                if c.state == CityState::OwnedByComputer {
                    assert_eq!(c.combat_level, 5);
                    assert_eq!(c.resources, 0);
                }
            }
        }
    }
}

#[test]
fn the_blocked_fraction_converges_to_the_wall_probability() {
    // Easy walls a free cell off with probability 5%; over 400 maps of
    // 98 free cells the observed fraction lands well within [3.5%, 6.5%].
    let mut blocked_total = 0u64;
    let maps = 400u64;
    for _ in 0..maps {
        let mut game = Game::new();
        game.difficulty = GameDifficulty::Easy;
        game.generate_random_map();
        let (_, _, _, blocked) = census(&game);
        blocked_total += blocked as u64;
    }
    let fraction = blocked_total as f64 / (maps * 98) as f64;
    assert!(
        (0.035..0.065).contains(&fraction),
        "blocked fraction {} strays too far from 0.05",
        fraction
    );

    // And the harshest tier sits near 30%.
    let mut blocked_total = 0u64;
    for _ in 0..maps {
        let mut game = Game::new();
        game.difficulty = GameDifficulty::NotEvenRemotelyFair;
        game.generate_random_map();
        let (_, _, _, blocked) = census(&game);
        blocked_total += blocked as u64;
    }
    let fraction = blocked_total as f64 / (maps * 98) as f64;
    assert!(
        (0.27..0.33).contains(&fraction),
        "blocked fraction {} strays too far from 0.30",
        fraction
    );
}

#[test]
fn the_two_cities_land_on_distinct_cells() {
    // One city per faction on a full census already forces distinct
    // cells; pin the cursor cell down as player-owned too.
    for _ in 0..50 {
        let mut game = Game::new();
        game.generate_random_map();
        let (player, computer, _, _) = census(&game);
        assert_eq!((player, computer), (1, 1));
        let cell = game.get_cell_at_pos(game.cursor_loc).expect("in bounds");
        assert!(!cell.blocked);
    }
}
