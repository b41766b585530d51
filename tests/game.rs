use invaders::config::GameConfig;
use invaders::formation::formation;
use invaders::game::GameState;
use invaders::model::Command;
use invaders::pos::Pos;

fn cfg(rows: usize, cols: usize, every: u64) -> GameConfig {
    GameConfig {
        tick_ms: 100,
        initial_enemy_rows: rows,
        initial_enemy_cols: cols,
        enemy_move_every_ticks: every,
        enemy_speedup_every_kills: 5,
    }
}

fn same_state(a: &GameState, b: &GameState) -> bool {
    a.width == b.width
        && a.height == b.height
        && a.player == b.player
        && a.bullets == b.bullets
        && a.enemies == b.enemies
        && a.score == b.score
        && a.kills == b.kills
        && a.tick_count == b.tick_count
        && a.enemy_tick_acc == b.enemy_tick_acc
        && a.enemy_move_every_ticks == b.enemy_move_every_ticks
        && a.enemy_direction == b.enemy_direction
        && a.game_over == b.game_over
        && a.victory == b.victory
        && a.spawn_rows == b.spawn_rows
        && a.spawn_cols == b.spawn_cols
        && a.level == b.level
}

fn copy(a: &GameState) -> GameState {
    GameState {
        width: a.width,
        height: a.height,
        player: a.player,
        bullets: a.bullets.clone(),
        enemies: a.enemies.clone(),
        score: a.score,
        kills: a.kills,
        tick_count: a.tick_count,
        enemy_tick_acc: a.enemy_tick_acc,
        enemy_move_every_ticks: a.enemy_move_every_ticks,
        enemy_direction: a.enemy_direction,
        game_over: a.game_over,
        victory: a.victory,
        spawn_rows: a.spawn_rows,
        spawn_cols: a.spawn_cols,
        level: a.level,
    }
}

/// A session that has lost: a low area where the formation soon reaches the player.
fn lost_game(c: &GameConfig) -> GameState {
    let mut gs = GameState::new(40, 8, c);
    let mut n = 0;
    while !gs.game_over && n < 1000 {
        gs.tick(c);
        n += 1;
    }
    assert!(gs.game_over);
    gs
}

#[test]
fn new_session_layout() {
    let c = cfg(3, 6, 6);
    let gs = GameState::new(80, 24, &c);
    assert_eq!(gs.player, Pos::new(40, 21));
    assert!(gs.bullets.is_empty());
    assert_eq!(gs.enemies.len(), 18);
    assert_eq!(gs.enemies[0], Pos::new(12, 2));
    assert_eq!(gs.enemies[5], Pos::new(62, 2));
    assert_eq!(gs.enemies[17], Pos::new(62, 6));
    assert_eq!(gs.score, 0);
    assert_eq!(gs.kills, 0);
    assert_eq!(gs.level, 1);
    assert_eq!(gs.enemy_direction, 1);
    assert_eq!(gs.enemy_move_every_ticks, 6);
    assert!(!gs.game_over && !gs.victory);
}

#[test]
fn zero_cadence_is_normalized() {
    let gs = GameState::new(40, 20, &cfg(1, 1, 0));
    assert_eq!(gs.enemy_move_every_ticks, 1);
}

#[test]
fn formation_leaves_out_slots_outside_the_area() {
    // The spawn area ends above row height - 2 = 5: of three rows, 2 and 4 are kept.
    let f = formation(40, 7, 3, 1);
    assert_eq!(f, vec![Pos::new(20, 2), Pos::new(20, 4)]);
    // Too narrow for any column.
    assert!(formation(3, 20, 2, 2).is_empty());
    // Spacing falls to 1 and the last columns leave the area.
    let g = formation(8, 20, 1, 10);
    assert_eq!(g, vec![Pos::new(3, 2), Pos::new(4, 2), Pos::new(5, 2), Pos::new(6, 2)]);
    assert!(formation(40, 20, 0, 5).is_empty());
    assert!(formation(40, 20, 5, 0).is_empty());
}

#[test]
fn single_enemy_is_shot_and_next_wave_spawns() {
    let c = cfg(1, 1, 100);
    let mut gs = GameState::new(40, 20, &c);
    assert_eq!(gs.enemies, vec![Pos::new(20, 2)]);
    assert_eq!(gs.player, Pos::new(20, 17));
    gs.shoot();
    assert_eq!(gs.bullets, vec![Pos::new(20, 16)]);
    for _ in 0..13 {
        gs.tick(&c);
    }
    assert_eq!(gs.bullets, vec![Pos::new(20, 3)]);
    assert_eq!(gs.score, 0);
    gs.tick(&c);
    assert_eq!(gs.score, 10);
    assert_eq!(gs.kills, 1);
    assert_eq!(gs.level, 2);
    assert_eq!(gs.spawn_rows, 2);
    assert_eq!(gs.spawn_cols, 1);
    assert_eq!(gs.enemy_move_every_ticks, 99);
    assert_eq!(gs.enemies, vec![Pos::new(20, 2), Pos::new(20, 4)]);
    gs.tick(&c);
    assert_eq!(gs.tick_count, 15);
    assert_eq!(gs.score, 10);
    assert_eq!(gs.kills, 1);
    assert_eq!(gs.level, 2);
    assert_eq!(gs.bullets, vec![Pos::new(20, 1)]);
    assert_eq!(gs.enemies_remaining(), 2);
}

#[test]
fn odd_level_grows_columns() {
    let c = cfg(1, 1, 100);
    let mut gs = GameState::new(40, 20, &c);
    gs.level = 2;
    gs.enemies = vec![Pos::new(20, 10)];
    gs.bullets = vec![Pos::new(20, 11)];
    gs.tick(&c);
    assert_eq!(gs.level, 3);
    assert_eq!(gs.spawn_rows, 1);
    assert_eq!(gs.spawn_cols, 2);
    assert_eq!(gs.enemies.len(), 2);
}

#[test]
fn formation_growth_is_capped() {
    let c = cfg(6, 12, 100);
    let mut gs = GameState::new(200, 60, &c);
    gs.level = 3;
    gs.enemies = vec![Pos::new(20, 10)];
    gs.bullets = vec![Pos::new(20, 11)];
    gs.tick(&c);
    assert_eq!(gs.level, 4);
    assert_eq!(gs.spawn_rows, 6);
    gs.enemies = vec![Pos::new(20, 10)];
    gs.bullets = vec![Pos::new(20, 11)];
    gs.tick(&c);
    assert_eq!(gs.level, 5);
    assert_eq!(gs.spawn_cols, 12);
}

#[test]
fn enemy_reaching_player_row_ends_game() {
    let c = cfg(2, 3, 1);
    let mut gs = lost_game(&c);
    assert!(gs.enemies.iter().any(|e| e.y >= gs.player.y));
    // The input layer refuses everything but a restart.
    let before = copy(&gs);
    gs.handle(Command::Shoot, &c);
    gs.handle(Command::MoveLeft, &c);
    gs.handle(Command::MoveRight, &c);
    assert!(same_state(&gs, &before));
    // The engine itself does not refuse a shot.
    gs.shoot();
    assert_eq!(gs.bullets.len(), before.bullets.len() + 1);
}

#[test]
fn finished_game_is_frozen() {
    let c = cfg(2, 3, 1);
    let mut gs = lost_game(&c);
    let before = copy(&gs);
    for _ in 0..5 {
        gs.tick(&c);
    }
    assert!(same_state(&gs, &before));

    let mut won = GameState::new(40, 20, &c);
    won.victory = true;
    let before = copy(&won);
    won.tick(&c);
    assert!(same_state(&won, &before));
}

#[test]
fn reset_after_game_over_is_a_new_session() {
    let c = cfg(2, 3, 1);
    let mut gs = lost_game(&c);
    gs.reset(&c);
    let fresh = GameState::new(40, 8, &c);
    assert!(same_state(&gs, &fresh));
    assert_eq!(gs.score, 0);
    assert_eq!(gs.kills, 0);
    assert_eq!(gs.level, 1);
    assert!(!gs.game_over);
}

#[test]
fn restart_command_only_in_finished_game() {
    let c = cfg(2, 3, 1);
    let mut gs = GameState::new(40, 8, &c);
    gs.tick(&c);
    let before = copy(&gs);
    gs.handle(Command::Restart, &c);
    assert!(same_state(&gs, &before));
    let mut lost = lost_game(&c);
    lost.handle(Command::Restart, &c);
    assert!(same_state(&lost, &GameState::new(40, 8, &c)));
}

#[test]
fn bullets_move_up_and_leave_at_top() {
    let c = cfg(1, 1, 100);
    let mut gs = GameState::new(40, 20, &c);
    gs.bullets = vec![Pos::new(5, 1), Pos::new(6, 2), Pos::new(7, 0)];
    gs.tick(&c);
    assert_eq!(gs.bullets, vec![Pos::new(6, 1)]);
    gs.tick(&c);
    assert!(gs.bullets.is_empty());
}

#[test]
fn bullets_stay_on_field_over_many_ticks() {
    let c = cfg(3, 6, 6);
    let mut gs = GameState::new(60, 30, &c);
    for t in 0..200 {
        if t % 3 == 0 {
            gs.handle(Command::Shoot, &c);
        }
        if t % 7 == 0 {
            gs.handle(Command::MoveLeft, &c);
        }
        gs.tick(&c);
        assert!(gs.bullets.len() <= 3);
        if !gs.game_over {
            assert!(gs.bullets.iter().all(|b| b.y >= 1));
        }
        gs.finish_tick(&c);
    }
}

#[test]
fn shots_are_capped_at_three() {
    let c = cfg(1, 1, 100);
    let mut gs = GameState::new(40, 20, &c);
    for _ in 0..4 {
        gs.shoot();
    }
    assert_eq!(gs.bullets.len(), 3);
    assert!(gs.bullets.iter().all(|b| *b == Pos::new(20, 16)));
}

#[test]
fn shot_from_top_row_saturates() {
    let c = cfg(1, 1, 100);
    let mut gs = GameState::new(40, 20, &c);
    gs.player = Pos::new(10, 0);
    gs.shoot();
    assert_eq!(gs.bullets, vec![Pos::new(10, 0)]);
}

#[test]
fn removed_enemies_were_under_bullets() {
    let c = cfg(1, 1, 100);
    let mut gs = GameState::new(40, 20, &c);
    gs.enemies = vec![Pos::new(10, 5), Pos::new(12, 5), Pos::new(14, 5)];
    gs.bullets = vec![Pos::new(10, 6), Pos::new(14, 6), Pos::new(14, 6)];
    gs.tick(&c);
    assert_eq!(gs.enemies, vec![Pos::new(12, 5)]);
    assert_eq!(gs.kills, 2);
    assert_eq!(gs.score, 20);
    // The bullets that scored fly on.
    assert_eq!(gs.bullets.len(), 3);
}

#[test]
fn formation_shifts_then_descends_at_the_side() {
    let c = cfg(1, 1, 1);
    let mut gs = GameState::new(20, 20, &c);
    gs.enemies = vec![Pos::new(15, 3), Pos::new(16, 3)];
    gs.tick(&c);
    assert_eq!(gs.enemies, vec![Pos::new(16, 3), Pos::new(17, 3)]);
    assert_eq!(gs.enemy_direction, 1);
    // 17 + 1 reaches width - 2: down and turn round.
    gs.tick(&c);
    assert_eq!(gs.enemies, vec![Pos::new(16, 4), Pos::new(17, 4)]);
    assert_eq!(gs.enemy_direction, -1);
    gs.tick(&c);
    assert_eq!(gs.enemies, vec![Pos::new(15, 4), Pos::new(16, 4)]);
}

#[test]
fn formation_waits_for_its_cadence() {
    let c = cfg(1, 1, 3);
    let mut gs = GameState::new(40, 20, &c);
    gs.tick(&c);
    gs.tick(&c);
    assert_eq!(gs.enemies, vec![Pos::new(20, 2)]);
    assert_eq!(gs.enemy_tick_acc, 2);
    gs.tick(&c);
    assert_eq!(gs.enemies, vec![Pos::new(21, 2)]);
    assert_eq!(gs.enemy_tick_acc, 0);
}

#[test]
fn lateral_steps_stay_inside() {
    let c = cfg(3, 6, 1);
    let mut gs = GameState::new(30, 40, &c);
    for _ in 0..300 {
        let dir_before = gs.enemy_direction;
        let rows_before: Vec<u16> = gs.enemies.iter().map(|e| e.y).collect();
        gs.tick(&c);
        if gs.game_over {
            break;
        }
        let rows_after: Vec<u16> = gs.enemies.iter().map(|e| e.y).collect();
        if gs.enemy_direction == dir_before && rows_after == rows_before {
            assert!(gs.enemies.iter().all(|e| e.x >= 1 && e.x < gs.width - 1));
        }
    }
}

#[test]
fn progress_is_a_capped_fraction() {
    let c = cfg(3, 6, 6);
    let mut gs = GameState::new(80, 24, &c);
    assert_eq!(gs.progress_ratio(), (0, 18));
    gs.kills = 9;
    assert_eq!(gs.progress_ratio(), (9, 18));
    gs.level = 3;
    assert_eq!(gs.progress_ratio(), (9, 22));
    gs.kills = 100;
    assert_eq!(gs.progress_ratio(), (22, 22));
    gs.spawn_rows = 0;
    gs.level = 1;
    assert_eq!(gs.progress_ratio(), (1, 1));
    gs.kills = 0;
    assert_eq!(gs.progress_ratio(), (0, 1));
}

#[test]
fn player_moves_within_bounds() {
    let c = cfg(1, 1, 6);
    let mut gs = GameState::new(10, 20, &c);
    assert_eq!(gs.player.x, 5);
    for _ in 0..10 {
        gs.move_player_right();
    }
    assert_eq!(gs.player.x, 8);
    for _ in 0..10 {
        gs.move_player_left();
    }
    assert_eq!(gs.player.x, 1);
    gs.handle(Command::MoveRight, &c);
    assert_eq!(gs.player.x, 2);
}

#[test]
fn speedup_on_kill_multiple() {
    let c = cfg(1, 1, 6);
    let mut gs = GameState::new(40, 20, &c);
    gs.kills = 5;
    gs.finish_tick(&c);
    assert_eq!(gs.enemy_move_every_ticks, 5);
    gs.kills = 6;
    gs.finish_tick(&c);
    assert_eq!(gs.enemy_move_every_ticks, 5);
    gs.enemy_move_every_ticks = 1;
    gs.kills = 10;
    gs.finish_tick(&c);
    assert_eq!(gs.enemy_move_every_ticks, 1);
    assert!(!gs.victory);
}

#[test]
fn empty_wave_after_tick_is_victory() {
    // Too narrow for any enemy: the first wave is already empty.
    let c = cfg(2, 2, 6);
    let mut gs = GameState::new(3, 20, &c);
    assert_eq!(gs.enemies_remaining(), 0);
    gs.tick(&c);
    assert_eq!(gs.level, 2);
    gs.finish_tick(&c);
    assert!(gs.victory);
    let before = copy(&gs);
    gs.tick(&c);
    assert!(same_state(&gs, &before));
}

#[test]
fn resize_moves_player_row_only() {
    let c = cfg(1, 1, 6);
    let mut gs = GameState::new(40, 20, &c);
    gs.resize(50, 30);
    assert_eq!((gs.width, gs.height), (50, 30));
    assert_eq!(gs.player, Pos::new(20, 27));
    assert_eq!(gs.enemies, vec![Pos::new(20, 2)]);
    gs.resize(10, 2);
    assert_eq!(gs.player, Pos::new(20, 0));
}
