use cell_wars::{
    computer_turn, player_interact, player_turn, Cell, City, CityState, Game, GameAction,
    GameActionSkeleton, GameDifficulty, GameError, GameState, InputOutcome, RawCommand,
    StatusNote, TerminalPos,
};

fn city(state: CityState, combat: u32, production: u32, resources: u32) -> City {
    City {
        state,
        generation_level: production,
        combat_level: combat,
        resources,
    }
}

fn place_city(game: &mut Game, pos: TerminalPos, c: City) {
    let r = game.set_cell_at_pos(pos, Cell { city: Some(c), blocked: false });
    assert_eq!(r, Ok(()));
}

#[test]
fn moves_step_the_cursor_and_ask_for_a_redraw() {
    let mut game = Game::new();
    game.cursor_loc = TerminalPos(4, 4);
    assert_eq!(game.do_input(RawCommand::MoveRight), InputOutcome::Redraw);
    assert_eq!(game.cursor_loc, TerminalPos(5, 4));
    assert_eq!(game.do_input(RawCommand::MoveDown), InputOutcome::Redraw);
    assert_eq!(game.cursor_loc, TerminalPos(5, 5));
    assert_eq!(game.do_input(RawCommand::MoveLeft), InputOutcome::Redraw);
    assert_eq!(game.cursor_loc, TerminalPos(4, 5));
    assert_eq!(game.do_input(RawCommand::MoveUp), InputOutcome::Redraw);
    assert_eq!(game.cursor_loc, TerminalPos(4, 4));
}

#[test]
fn moves_against_the_edges_change_nothing() {
    let mut game = Game::new();
    game.cursor_loc = TerminalPos(0, 0);
    assert_eq!(game.do_input(RawCommand::MoveUp), InputOutcome::Idle);
    assert_eq!(game.do_input(RawCommand::MoveLeft), InputOutcome::Idle);
    assert_eq!(game.cursor_loc, TerminalPos(0, 0));

    game.cursor_loc = TerminalPos(9, 9);
    assert_eq!(game.do_input(RawCommand::MoveDown), InputOutcome::Idle);
    assert_eq!(game.do_input(RawCommand::MoveRight), InputOutcome::Idle);
    assert_eq!(game.cursor_loc, TerminalPos(9, 9));
}

#[test]
fn the_remaining_commands_pass_straight_through() {
    let mut game = Game::new();
    assert_eq!(game.do_input(RawCommand::Interact), InputOutcome::Interact);
    assert_eq!(game.do_input(RawCommand::EndTurn), InputOutcome::EndTurn);
    assert_eq!(game.do_input(RawCommand::QuitGame), InputOutcome::QuitGame);
    assert_eq!(game.do_input(RawCommand::Idle), InputOutcome::Idle);
}

#[test]
fn interacting_with_a_wall_leaves_a_note() {
    let mut game = Game::new();
    let pos = TerminalPos(3, 3);
    game.set_cell_at_pos(pos, Cell { city: None, blocked: true })
        .unwrap();
    assert_eq!(player_interact(pos, &mut game), Err(GameError::NoCityAtTarget));
    assert_eq!(game.status, Some(StatusNote::JustAWall));
}

#[test]
fn interacting_with_an_empty_cell_leaves_a_note() {
    let mut game = Game::new();
    let pos = TerminalPos(3, 3);
    assert_eq!(player_interact(pos, &mut game), Err(GameError::NoCityAtTarget));
    assert_eq!(game.status, Some(StatusNote::NoCityThere));
}

#[test]
fn interacting_with_the_opponents_city_leaves_a_note() {
    let mut game = Game::new();
    let pos = TerminalPos(3, 3);
    place_city(&mut game, pos, city(CityState::OwnedByComputer, 1, 1, 0));
    assert_eq!(player_interact(pos, &mut game), Err(GameError::NoCityAtTarget));
    assert_eq!(game.status, Some(StatusNote::OpposingCity));
}

#[test]
fn interacting_with_a_ruin_leaves_a_note() {
    let mut game = Game::new();
    let pos = TerminalPos(3, 3);
    place_city(&mut game, pos, city(CityState::Destroyed, 1, 1, 0));
    assert_eq!(player_interact(pos, &mut game), Err(GameError::NoCityAtTarget));
    assert_eq!(game.status, Some(StatusNote::CityDestroyed));
}

#[test]
fn interacting_with_ones_own_city_goes_through() {
    let mut game = Game::new();
    let pos = TerminalPos(3, 3);
    place_city(&mut game, pos, city(CityState::OwnedByPlayer, 1, 1, 0));
    assert_eq!(player_interact(pos, &mut game), Ok(()));
    assert_eq!(game.status, None);
}

#[test]
fn interacting_off_the_grid_is_rejected_without_a_note() {
    let mut game = Game::new();
    assert_eq!(
        player_interact(TerminalPos(10, 0), &mut game),
        Err(GameError::NotValidPosition)
    );
    assert_eq!(game.status, None);
}

#[test]
fn a_players_turn_walks_the_state_machine() {
    let mut game = Game::new();
    assert_eq!(game.state, GameState::Setup);

    assert!(!player_turn(&mut game, InputOutcome::Idle));
    assert_eq!(game.state, GameState::PlayerTurn);

    game.status = Some(StatusNote::NoCityThere);
    assert!(!player_turn(&mut game, InputOutcome::Redraw));
    assert_eq!(game.status, None);

    assert!(player_turn(&mut game, InputOutcome::EndTurn));
    assert_eq!(game.state, GameState::PlayerTurn);
}

#[test]
fn an_interaction_during_the_turn_resolves_at_the_cursor() {
    let mut game = Game::new();
    game.cursor_loc = TerminalPos(2, 2);
    place_city(&mut game, TerminalPos(2, 2), city(CityState::Destroyed, 1, 1, 0));
    assert!(!player_turn(&mut game, InputOutcome::Interact));
    assert_eq!(game.status, Some(StatusNote::CityDestroyed));
}

#[test]
fn quitting_abandons_the_session_into_stalemate() {
    let mut game = Game::new();
    assert!(player_turn(&mut game, InputOutcome::QuitGame));
    assert_eq!(game.state, GameState::Stalemate);
}

#[test]
fn the_computers_turn_hands_back_an_undecided_board() {
    let mut game = Game::new();
    place_city(&mut game, TerminalPos(1, 1), city(CityState::OwnedByPlayer, 1, 1, 0));
    place_city(&mut game, TerminalPos(8, 8), city(CityState::OwnedByComputer, 1, 1, 0));
    computer_turn(&mut game);
    assert_eq!(game.state, GameState::PlayerTurn);
}

#[test]
fn the_player_wins_once_no_enemy_city_stands() {
    let mut game = Game::new();
    place_city(&mut game, TerminalPos(1, 1), city(CityState::OwnedByPlayer, 1, 1, 0));
    place_city(&mut game, TerminalPos(8, 8), city(CityState::Destroyed, 1, 1, 0));
    computer_turn(&mut game);
    assert_eq!(game.state, GameState::PlayerWon);
}

#[test]
fn the_computer_wins_once_no_player_city_stands() {
    let mut game = Game::new();
    place_city(&mut game, TerminalPos(8, 8), city(CityState::OwnedByComputer, 1, 1, 0));
    computer_turn(&mut game);
    assert_eq!(game.state, GameState::ComputerWon);
}

#[test]
fn counting_cities_sees_every_ownership_state() {
    let mut game = Game::new();
    place_city(&mut game, TerminalPos(1, 1), city(CityState::OwnedByPlayer, 1, 1, 0));
    place_city(&mut game, TerminalPos(2, 1), city(CityState::OwnedByPlayer, 1, 1, 0));
    place_city(&mut game, TerminalPos(3, 1), city(CityState::OwnedByComputer, 1, 1, 0));
    place_city(&mut game, TerminalPos(4, 1), city(CityState::Destroyed, 1, 1, 0));
    assert_eq!(game.count_cities(CityState::OwnedByPlayer), 2);
    assert_eq!(game.count_cities(CityState::OwnedByComputer), 1);
    assert_eq!(game.count_cities(CityState::Destroyed), 1);
}

#[test]
fn assembling_actions_from_menu_parts() {
    let src = TerminalPos(1, 1);
    let tgt = TerminalPos(2, 2);
    assert_eq!(
        GameAction::from_parts(GameActionSkeleton::Produce, src, None),
        Ok(GameAction::Produce { source: src })
    );
    assert_eq!(
        GameAction::from_parts(GameActionSkeleton::UpgradeAttack, src, Some(tgt)),
        Ok(GameAction::UpgradeAttack { source: src })
    );
    assert_eq!(
        GameAction::from_parts(GameActionSkeleton::AttackCity, src, Some(tgt)),
        Ok(GameAction::AttackCity { source: src, target: tgt })
    );
    assert_eq!(
        GameAction::from_parts(GameActionSkeleton::DestroyWall, src, None),
        Err(GameError::NeedTargetPosition)
    );
    assert_eq!(
        GameAction::from_parts(GameActionSkeleton::GenerateCity, src, Some(src)),
        Err(GameError::TargetIsSource)
    );
}

#[test]
fn difficulty_lookups_match_the_tier_table() {
    assert_eq!(GameDifficulty::Easy.block_chance(), 5);
    assert_eq!(GameDifficulty::Standard.block_chance(), 10);
    assert_eq!(GameDifficulty::Hard.block_chance(), 25);
    assert_eq!(GameDifficulty::NotEvenRemotelyFair.block_chance(), 30);

    assert_eq!(GameDifficulty::Easy.starting_resources(), 10);
    assert_eq!(GameDifficulty::Standard.starting_resources(), 3);
    assert_eq!(GameDifficulty::Hard.starting_resources(), 0);
    assert_eq!(GameDifficulty::NotEvenRemotelyFair.starting_resources(), 0);

    assert_eq!(GameDifficulty::Easy.starting_enemy_level(), 1);
    assert_eq!(GameDifficulty::Hard.starting_enemy_level(), 2);
    assert_eq!(GameDifficulty::NotEvenRemotelyFair.starting_enemy_level(), 5);

    assert_eq!(GameDifficulty::Easy.starting_player_level(), 2);
    assert_eq!(GameDifficulty::Standard.starting_player_level(), 1);
}

#[test]
fn a_fresh_session_starts_in_setup() {
    let game = Game::default();
    assert_eq!(game.state, GameState::Setup);
    assert_eq!(game.difficulty, GameDifficulty::Standard);
    assert_eq!(game.cursor_loc, TerminalPos(0, 0));
    assert_eq!(game.status, None);
    for y in 0..10 {
        for x in 0..10 {
            let cell = game.get_cell_at_pos(TerminalPos(x, y)).unwrap();
            assert!(!cell.blocked);
            assert!(cell.city.is_none());
        }
    }
}
