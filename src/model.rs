use vstd::prelude::*;

use crate::config::GameConfig;
use crate::formation::formation_seq;
use crate::pos::Pos;

verus! {

/// Most bullets that may be in flight at once.
pub const MAX_BULLETS: usize = 3;

/// Points earned for each enemy destroyed.
pub const POINTS_PER_KILL: usize = 10;

/// Largest formation height that level growth can reach.
pub const MAX_SPAWN_ROWS: usize = 6;

/// Largest formation width that level growth can reach.
pub const MAX_SPAWN_COLS: usize = 12;

/// The mathematical state of a session.
pub ghost struct GameModel {
    pub width: u16,
    pub height: u16,
    pub player: Pos,
    pub bullets: Seq<Pos>,
    pub enemies: Seq<Pos>,
    pub score: usize,
    pub kills: usize,
    pub tick_count: u64,
    pub enemy_tick_acc: u64,
    pub enemy_move_every_ticks: u64,
    pub enemy_direction: i8,
    pub game_over: bool,
    pub victory: bool,
    pub spawn_rows: usize,
    pub spawn_cols: usize,
    pub level: usize,
}

/// An integer, saturated to the range of `usize`.
pub open spec fn sat_usize(v: int) -> usize {
    if v > usize::MAX {
        usize::MAX
    } else {
        v as usize
    }
}

/// `v - 1`, but never below 1.
pub open spec fn slow_down_floor(v: u64) -> u64 {
    if v > 1 {
        (v - 1) as u64
    } else {
        1
    }
}

impl GameModel {
    /// The state invariant of a session.
    pub open spec fn wf(self) -> bool {
        &&& self.bullets.len() <= MAX_BULLETS
        &&& self.level >= 1
        &&& self.enemy_move_every_ticks >= 1
        &&& (self.enemy_direction == 1 || self.enemy_direction == -1)
    }

    /// Game over or won: nothing moves until a restart.
    pub open spec fn is_terminal(self) -> bool {
        self.game_over || self.victory
    }
}

/// A fresh session on a `width` by `height` area.
pub open spec fn initial_model(width: u16, height: u16, cfg: GameConfig) -> GameModel {
    let rows = cfg.initial_enemy_rows;
    let cols = cfg.initial_enemy_cols;
    GameModel {
        width,
        height,
        player: Pos { x: width / 2, y: height.saturating_sub(3) },
        bullets: seq![],
        enemies: formation_seq(width, height, rows, cols),
        score: 0,
        kills: 0,
        tick_count: 0,
        enemy_tick_acc: 0,
        enemy_move_every_ticks: if cfg.enemy_move_every_ticks >= 1 {
            cfg.enemy_move_every_ticks
        } else {
            1
        },
        enemy_direction: 1,
        game_over: false,
        victory: false,
        spawn_rows: rows,
        spawn_cols: cols,
        level: 1,
    }
}

/// Bullets after each one moved up a row; those that reach row 0 have left the area.
pub open spec fn advance_bullets(bs: Seq<Pos>) -> Seq<Pos>
    decreases bs.len(),
{
    if bs.len() == 0 {
        seq![]
    } else {
        let prev = advance_bullets(bs.drop_last());
        let b = bs.last();
        if b.y > 1 {
            prev.push(Pos { x: b.x, y: (b.y - 1) as u16 })
        } else {
            prev
        }
    }
}

/// The enemies that no bullet occupies, in their order.
pub open spec fn survivors(es: Seq<Pos>, bs: Seq<Pos>) -> Seq<Pos>
    decreases es.len(),
{
    if es.len() == 0 {
        seq![]
    } else {
        let prev = survivors(es.drop_last(), bs);
        if bs.contains(es.last()) {
            prev
        } else {
            prev.push(es.last())
        }
    }
}

/// Tick, first steps: counters advance and bullets move up.
pub open spec fn advance_step(m: GameModel) -> GameModel {
    GameModel {
        tick_count: m.tick_count.saturating_add(1),
        enemy_tick_acc: m.enemy_tick_acc.saturating_add(1),
        bullets: advance_bullets(m.bullets),
        ..m
    }
}

/// Tick, collisions: every enemy that shares its cell with a bullet is destroyed and scores.
pub open spec fn collision_step(m: GameModel) -> GameModel {
    let rest = survivors(m.enemies, m.bullets);
    let hits = m.enemies.len() - rest.len();
    GameModel {
        enemies: rest,
        score: sat_usize(m.score + POINTS_PER_KILL * hits),
        kills: sat_usize(m.kills + hits),
        ..m
    }
}

/// Tick, wave check: a cleared wave raises the level, grows the formation, speeds it up
/// and brings the next wave.
pub open spec fn wave_step(m: GameModel) -> GameModel {
    if m.enemies.len() == 0 {
        let level = sat_usize(m.level + 1);
        let rows: usize = if level % 2 == 0 {
            if m.spawn_rows < MAX_SPAWN_ROWS { (m.spawn_rows + 1) as usize } else { MAX_SPAWN_ROWS }
        } else {
            m.spawn_rows
        };
        let cols: usize = if level % 2 == 0 {
            m.spawn_cols
        } else {
            if m.spawn_cols < MAX_SPAWN_COLS { (m.spawn_cols + 1) as usize } else { MAX_SPAWN_COLS }
        };
        GameModel {
            level,
            spawn_rows: rows,
            spawn_cols: cols,
            enemy_move_every_ticks: slow_down_floor(m.enemy_move_every_ticks),
            enemies: formation_seq(m.width, m.height, rows, cols),
            ..m
        }
    } else {
        m
    }
}

/// Whether a lateral step by `d` would bring some enemy to column 1 or below, or to
/// column `width - 2` or beyond.
pub open spec fn hits_side(es: Seq<Pos>, d: int, width: u16) -> bool {
    exists|i: int| 0 <= i < es.len() && (es[i].x + d <= 1 || es[i].x + d >= width - 2)
}

/// Every enemy one row lower.
pub open spec fn descended(es: Seq<Pos>) -> Seq<Pos> {
    Seq::new(es.len(), |i: int| Pos { x: es[i].x, y: es[i].y.saturating_add(1) })
}

/// Every enemy `d` columns to the side.
pub open spec fn shifted(es: Seq<Pos>, d: int) -> Seq<Pos> {
    Seq::new(es.len(), |i: int| Pos { x: (es[i].x + d) as u16, y: es[i].y })
}

/// Tick, formation step: once the cadence is reached, the formation moves one column
/// in its direction, or, where that would touch a side, one row down and turns round.
pub open spec fn formation_step(m: GameModel) -> GameModel {
    if m.enemy_tick_acc >= m.enemy_move_every_ticks {
        if hits_side(m.enemies, m.enemy_direction as int, m.width) {
            GameModel {
                enemy_tick_acc: 0,
                enemies: descended(m.enemies),
                enemy_direction: (-m.enemy_direction) as i8,
                ..m
            }
        } else {
            GameModel {
                enemy_tick_acc: 0,
                enemies: shifted(m.enemies, m.enemy_direction as int),
                ..m
            }
        }
    } else {
        m
    }
}

/// Whether some enemy stands on or below the player's row.
pub open spec fn invaded(es: Seq<Pos>, player: Pos) -> bool {
    exists|i: int| 0 <= i < es.len() && es[i].y >= player.y
}

/// Tick, last step: the game is lost once an enemy reaches the player's row.
pub open spec fn loss_step(m: GameModel) -> GameModel {
    GameModel { game_over: m.game_over || invaded(m.enemies, m.player), ..m }
}

/// One tick of the simulation; a finished game stays as it is.
pub open spec fn tick_model(m: GameModel) -> GameModel {
    if m.is_terminal() {
        m
    } else {
        loss_step(formation_step(wave_step(collision_step(advance_step(m)))))
    }
}

/// What the driver applies after each tick: a speed-up on every multiple of the kill
/// threshold (a threshold of 0 counts as 1), and victory once no enemy is left.
pub open spec fn after_tick_rules(m: GameModel, cfg: GameConfig) -> GameModel {
    let every = if cfg.enemy_speedup_every_kills >= 1 { cfg.enemy_speedup_every_kills } else { 1 };
    let speedup = m.kills > 0 && m.kills % every == 0;
    GameModel {
        enemy_move_every_ticks: if speedup {
            slow_down_floor(m.enemy_move_every_ticks)
        } else {
            m.enemy_move_every_ticks
        },
        victory: m.victory || m.enemies.len() == 0,
        ..m
    }
}

/// A shot: a new bullet just above the player, unless the bullet cap is reached.
pub open spec fn shoot_model(m: GameModel) -> GameModel {
    if m.bullets.len() < MAX_BULLETS {
        GameModel {
            bullets: m.bullets.push(Pos { x: m.player.x, y: m.player.y.saturating_sub(1) }),
            ..m
        }
    } else {
        m
    }
}

/// The player one column to the left, but not onto column 0.
pub open spec fn left_model(m: GameModel) -> GameModel {
    if m.player.x > 1 {
        GameModel { player: Pos { x: (m.player.x - 1) as u16, y: m.player.y }, ..m }
    } else {
        m
    }
}

/// The player one column to the right, but not beyond column `width - 2`.
pub open spec fn right_model(m: GameModel) -> GameModel {
    if m.player.x < m.width.saturating_sub(2) {
        GameModel { player: Pos { x: (m.player.x + 1) as u16, y: m.player.y }, ..m }
    } else {
        m
    }
}

/// The area resized: the player keeps its column and moves to three rows above the
/// bottom; nothing else is laid out again.
pub open spec fn resize_model(m: GameModel, width: u16, height: u16) -> GameModel {
    GameModel {
        width,
        height,
        player: Pos { x: m.player.x, y: height.saturating_sub(3) },
        ..m
    }
}

/// What a player can ask of a session.
#[derive(Clone, Copy, Debug, PartialEq, Eq, Structural)]
pub enum Command {
    MoveLeft,
    MoveRight,
    Shoot,
    Restart,
}

/// A command as the input layer applies it: a finished game only takes a restart,
/// and a restart is only taken from a finished game.
pub open spec fn command_model(m: GameModel, cmd: Command, cfg: GameConfig) -> GameModel {
    if m.is_terminal() {
        match cmd {
            Command::Restart => initial_model(m.width, m.height, cfg),
            _ => m,
        }
    } else {
        match cmd {
            Command::MoveLeft => left_model(m),
            Command::MoveRight => right_model(m),
            Command::Shoot => shoot_model(m),
            Command::Restart => m,
        }
    }
}

/// The estimate of how many kills finish the game so far, at least 1.
pub open spec fn expected_kills(m: GameModel) -> int {
    let e = m.spawn_rows * m.spawn_cols + 2 * (m.level - 1);
    if e >= 1 { e } else { 1 }
}

} // verus!
