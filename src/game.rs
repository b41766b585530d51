use vstd::prelude::*;

use crate::config::GameConfig;
use crate::formation::{formation, formation_seq};
use crate::model::{
    advance_bullets, advance_step, collision_step, descended, formation_step, hits_side,
    initial_model, loss_step, sat_usize, shifted, slow_down_floor, survivors, tick_model,
    wave_step, GameModel, MAX_BULLETS, MAX_SPAWN_COLS, MAX_SPAWN_ROWS, POINTS_PER_KILL,
    after_tick_rules, command_model, expected_kills, left_model, resize_model, Command, right_model, shoot_model,
};
use crate::pos::Pos;

verus! {

/// A running session: the play area, the player, bullets in flight, the current wave
/// and the counters.
pub struct GameState {
    pub width: u16,
    pub height: u16,
    pub player: Pos,
    /// Bullets in flight, oldest first.
    pub bullets: Vec<Pos>,
    pub enemies: Vec<Pos>,
    pub score: usize,
    pub kills: usize,
    pub tick_count: u64,
    /// Ticks since the formation last moved.
    pub enemy_tick_acc: u64,
    /// Ticks between two formation steps.
    pub enemy_move_every_ticks: u64,
    /// +1 while the formation moves right, -1 while it moves left.
    pub enemy_direction: i8,
    pub game_over: bool,
    pub victory: bool,
    pub spawn_rows: usize,
    pub spawn_cols: usize,
    pub level: usize,
}

impl View for GameState {
    type V = GameModel;

    open spec fn view(&self) -> GameModel {
        GameModel {
            width: self.width,
            height: self.height,
            player: self.player,
            bullets: self.bullets@,
            enemies: self.enemies@,
            score: self.score,
            kills: self.kills,
            tick_count: self.tick_count,
            enemy_tick_acc: self.enemy_tick_acc,
            enemy_move_every_ticks: self.enemy_move_every_ticks,
            enemy_direction: self.enemy_direction,
            game_over: self.game_over,
            victory: self.victory,
            spawn_rows: self.spawn_rows,
            spawn_cols: self.spawn_cols,
            level: self.level,
        }
    }
}

impl GameState {
    /// The state invariant: see `GameModel::wf`.
    pub open spec fn wf(&self) -> bool {
        self@.wf()
    }

    /// A session on a `width` by `height` area with the first wave in place.
    pub fn new(width: u16, height: u16, cfg: &GameConfig) -> (r: GameState)
        ensures
            r@ == initial_model(width, height, *cfg),
            r.wf(),
    {
        let player = Pos { x: width / 2, y: height.saturating_sub(3) };
        let mut gs = GameState {
            width,
            height,
            player,
            bullets: Vec::new(),
            enemies: Vec::new(),
            score: 0,
            kills: 0,
            tick_count: 0,
            enemy_tick_acc: 0,
            enemy_move_every_ticks: if cfg.enemy_move_every_ticks >= 1 {
                cfg.enemy_move_every_ticks
            } else {
                1
            },
            enemy_direction: 1,
            game_over: false,
            victory: false,
            spawn_rows: cfg.initial_enemy_rows,
            spawn_cols: cfg.initial_enemy_cols,
            level: 1,
        };
        gs.spawn_enemies();
        assert(gs@.bullets =~= Seq::<Pos>::empty());
        gs
    }

    /// Replaces the enemies with a fresh wave of the current formation size.
    pub fn spawn_enemies(&mut self)
        ensures
            final(self)@ == (GameModel {
                enemies: formation_seq(old(self).width, old(self).height, old(self).spawn_rows, old(self).spawn_cols),
                ..old(self)@
            }),
    {
        self.enemies = formation(self.width, self.height, self.spawn_rows, self.spawn_cols);
    }

    /// Starts over: every field back to what `new` gives on the current area.
    pub fn reset(&mut self, cfg: &GameConfig)
        ensures
            final(self)@ == initial_model(old(self).width, old(self).height, *cfg),
            final(self).wf(),
    {
        self.player = Pos { x: self.width / 2, y: self.height.saturating_sub(3) };
        self.bullets.clear();
        self.enemies.clear();
        self.score = 0;
        self.kills = 0;
        self.tick_count = 0;
        self.enemy_tick_acc = 0;
        self.enemy_move_every_ticks = if cfg.enemy_move_every_ticks >= 1 {
            cfg.enemy_move_every_ticks
        } else {
            1
        };
        self.enemy_direction = 1;
        self.game_over = false;
        self.victory = false;
        self.spawn_rows = cfg.initial_enemy_rows;
        self.spawn_cols = cfg.initial_enemy_cols;
        self.level = 1;
        self.spawn_enemies();
        assert(self@.bullets =~= Seq::<Pos>::empty());
    }

    fn advance(&mut self)
        ensures
            final(self)@ == advance_step(old(self)@),
    {
        self.tick_count = self.tick_count.saturating_add(1);
        self.enemy_tick_acc = self.enemy_tick_acc.saturating_add(1);
        let ghost bs = self.bullets@;
        let mut moved: Vec<Pos> = Vec::new();
        let mut i: usize = 0;
        while i < self.bullets.len()
            invariant
                self.bullets@ == bs,
                i <= bs.len(),
                moved@ == advance_bullets(bs.subrange(0, i as int)),
            decreases bs.len() - i,
        {
            let b = self.bullets[i];
            assert(bs.subrange(0, i + 1).drop_last() =~= bs.subrange(0, i as int));
            if b.y > 1 {
                moved.push(Pos { x: b.x, y: b.y - 1 });
            }
            i = i + 1;
        }
        assert(bs.subrange(0, bs.len() as int) =~= bs);
        self.bullets = moved;
    }

    fn resolve_collisions(&mut self)
        ensures
            final(self)@ == collision_step(old(self)@),
    {
        let ghost es = self.enemies@;
        let mut rest: Vec<Pos> = Vec::new();
        let mut hits: usize = 0;
        let mut i: usize = 0;
        while i < self.enemies.len()
            invariant
                self.enemies@ == es,
                i <= es.len(),
                rest@ == survivors(es.subrange(0, i as int), self.bullets@),
                hits == i - rest@.len(),
                self.score == sat_usize(old(self).score + POINTS_PER_KILL * hits),
                self.kills == sat_usize(old(self).kills + hits),
                self.bullets == old(self).bullets,
                self.width == old(self).width,
                self.height == old(self).height,
                self.player == old(self).player,
                self.tick_count == old(self).tick_count,
                self.enemy_tick_acc == old(self).enemy_tick_acc,
                self.enemy_move_every_ticks == old(self).enemy_move_every_ticks,
                self.enemy_direction == old(self).enemy_direction,
                self.game_over == old(self).game_over,
                self.victory == old(self).victory,
                self.spawn_rows == old(self).spawn_rows,
                self.spawn_cols == old(self).spawn_cols,
                self.level == old(self).level,
                es == old(self).enemies@,
            decreases es.len() - i,
        {
            let e = self.enemies[i];
            assert(es.subrange(0, i + 1).drop_last() =~= es.subrange(0, i as int));
            assert(es.subrange(0, i + 1).last() == e);
            if contains_pos(&self.bullets, e) {
                hits = hits + 1;
                self.score = self.score.saturating_add(POINTS_PER_KILL);
                self.kills = self.kills.saturating_add(1);
            } else {
                rest.push(e);
            }
            i = i + 1;
        }
        assert(es.subrange(0, es.len() as int) =~= es);
        self.enemies = rest;
    }

    fn next_wave_if_cleared(&mut self)
        ensures
            final(self)@ == wave_step(old(self)@),
    {
        if self.enemies.len() == 0 {
            self.level = self.level.saturating_add(1);
            if self.level % 2 == 0 {
                self.spawn_rows = if self.spawn_rows < MAX_SPAWN_ROWS {
                    self.spawn_rows + 1
                } else {
                    MAX_SPAWN_ROWS
                };
            } else {
                self.spawn_cols = if self.spawn_cols < MAX_SPAWN_COLS {
                    self.spawn_cols + 1
                } else {
                    MAX_SPAWN_COLS
                };
            }
            self.enemy_move_every_ticks = slow_down(self.enemy_move_every_ticks);
            self.spawn_enemies();
        }
    }

    fn move_formation(&mut self)
        requires
            old(self).enemy_direction == 1 || old(self).enemy_direction == -1,
        ensures
            final(self)@ == formation_step(old(self)@),
    {
        if self.enemy_tick_acc >= self.enemy_move_every_ticks {
            self.enemy_tick_acc = 0;
            let d: i32 = self.enemy_direction as i32;
            let w: i32 = self.width as i32;
            let ghost es = self.enemies@;
            let mut hit_side = false;
            let mut i: usize = 0;
            while i < self.enemies.len()
                invariant
                    self.enemies@ == es,
                    i <= es.len(),
                    d == old(self).enemy_direction,
                    w == old(self).width,
                    hit_side == exists|j: int|
                        0 <= j < i && (es[j].x + d <= 1 || es[j].x + d >= w - 2),
                decreases es.len() - i,
            {
                let x: i32 = self.enemies[i].x as i32;
                if x + d <= 1 || x + d >= w - 2 {
                    hit_side = true;
                }
                i = i + 1;
            }
            let mut moved: Vec<Pos> = Vec::new();
            let mut k: usize = 0;
            while k < self.enemies.len()
                invariant
                    self.enemies@ == es,
                    k <= es.len(),
                    d == old(self).enemy_direction,
                    w == old(self).width,
                    hit_side == hits_side(es, d as int, old(self).width),
                    moved@.len() == k,
                    hit_side ==> forall|j: int| 0 <= j < k ==> moved@[j] == descended(es)[j],
                    !hit_side ==> forall|j: int| 0 <= j < k ==> moved@[j] == shifted(es, d as int)[j],
                decreases es.len() - k,
            {
                let e = self.enemies[k];
                if hit_side {
                    moved.push(Pos { x: e.x, y: e.y.saturating_add(1) });
                } else {
                    let nx: i32 = e.x as i32 + d;
                    assert(!(es[k as int].x + d <= 1 || es[k as int].x + d >= w - 2));
                    moved.push(Pos { x: nx as u16, y: e.y });
                }
                k = k + 1;
            }
            if hit_side {
                assert(moved@ =~= descended(es));
                self.enemy_direction = -self.enemy_direction;
            } else {
                assert(moved@ =~= shifted(es, d as int));
            }
            self.enemies = moved;
        }
    }

    fn check_invasion(&mut self)
        ensures
            final(self)@ == loss_step(old(self)@),
    {
        let ghost es = self.enemies@;
        let mut reached = false;
        let mut i: usize = 0;
        while i < self.enemies.len()
            invariant
                self.enemies@ == es,
                i <= es.len(),
                reached == exists|j: int| 0 <= j < i && es[j].y >= self.player.y,
            decreases es.len() - i,
        {
            if self.enemies[i].y >= self.player.y {
                reached = true;
            }
            i = i + 1;
        }
        if reached {
            self.game_over = true;
        }
    }

    /// Advances the simulation one step: bullets move, hits are scored, a cleared wave
    /// is replaced, the formation moves, and an invasion ends the game. A finished game
    /// is left unchanged.
    pub fn tick(&mut self, _cfg: &GameConfig)
        requires
            old(self).wf(),
        ensures
            final(self)@ == tick_model(old(self)@),
            final(self).wf(),
    {
        if self.game_over || self.victory {
            return;
        }
        self.advance();
        self.resolve_collisions();
        self.next_wave_if_cleared();
        self.move_formation();
        self.check_invasion();
        proof {
            lemma_tick_keeps_wf(old(self)@);
        }
    }

    /// Fires a bullet from just above the player, unless the bullet cap is reached.
    pub fn shoot(&mut self)
        requires
            old(self).wf(),
        ensures
            final(self)@ == shoot_model(old(self)@),
            final(self).wf(),
    {
        if self.bullets.len() < MAX_BULLETS {
            self.bullets.push(Pos { x: self.player.x, y: self.player.y.saturating_sub(1) });
        }
    }

    /// Moves the player one column left, stopping at column 1.
    pub fn move_player_left(&mut self)
        ensures
            final(self)@ == left_model(old(self)@),
    {
        if self.player.x > 1 {
            self.player.x = self.player.x - 1;
        }
    }

    /// Moves the player one column right, stopping at column `width - 2`.
    pub fn move_player_right(&mut self)
        ensures
            final(self)@ == right_model(old(self)@),
    {
        if self.player.x < self.width.saturating_sub(2) {
            self.player.x = self.player.x + 1;
        }
    }

    /// How many enemies of the current wave are left.
    pub fn enemies_remaining(&self) -> (r: usize)
        ensures
            r == self@.enemies.len(),
    {
        self.enemies.len()
    }

    /// The completion gauge as a fraction `num / den`: the kills over an estimate of the
    /// kills needed so far, capped at 1.
    pub fn progress_ratio(&self) -> (r: (u128, u128))
        requires
            self.wf(),
        ensures
            r.1 == expected_kills(self@),
            r.0 == (if self.kills <= r.1 { self.kills as int } else { r.1 as int }),
            0 <= r.0 <= r.1,
            r.1 >= 1,
    {
        let rows: u128 = self.spawn_rows as u128;
        let cols: u128 = self.spawn_cols as u128;
        assert(rows * cols <= 0xffff_ffff_ffff_ffffu128 * 0xffff_ffff_ffff_ffffu128)
            by (nonlinear_arith)
            requires
                rows <= 0xffff_ffff_ffff_ffffu128,
                cols <= 0xffff_ffff_ffff_ffffu128,
        ;
        let e: u128 = rows * cols + 2 * ((self.level - 1) as u128);
        let den: u128 = if e >= 1 {
            e
        } else {
            1
        };
        let kills: u128 = self.kills as u128;
        let num: u128 = if kills <= den {
            kills
        } else {
            den
        };
        (num, den)
    }

    /// The driver's rules after each tick: the formation speeds up whenever the kill
    /// count is a positive multiple of the threshold, and the game is won once no enemy
    /// is left.
    pub fn finish_tick(&mut self, cfg: &GameConfig)
        requires
            old(self).wf(),
        ensures
            final(self)@ == after_tick_rules(old(self)@, *cfg),
            final(self).wf(),
    {
        let every: usize = if cfg.enemy_speedup_every_kills >= 1 {
            cfg.enemy_speedup_every_kills
        } else {
            1
        };
        if self.kills > 0 && self.kills % every == 0 {
            self.enemy_move_every_ticks = slow_down(self.enemy_move_every_ticks);
        }
        if self.enemies.len() == 0 {
            self.victory = true;
        }
    }

    /// Follows a change of the area's size.
    pub fn resize(&mut self, width: u16, height: u16)
        ensures
            final(self)@ == resize_model(old(self)@, width, height),
    {
        self.width = width;
        self.height = height;
        self.player.y = height.saturating_sub(3);
    }

    /// Applies a player's command; see `command_model` for which are taken when.
    pub fn handle(&mut self, cmd: Command, cfg: &GameConfig)
        requires
            old(self).wf(),
        ensures
            final(self)@ == command_model(old(self)@, cmd, *cfg),
            final(self).wf(),
    {
        if self.game_over || self.victory {
            if let Command::Restart = cmd {
                self.reset(cfg);
            }
        } else {
            match cmd {
                Command::MoveLeft => self.move_player_left(),
                Command::MoveRight => self.move_player_right(),
                Command::Shoot => self.shoot(),
                Command::Restart => {},
            }
        }
    }
}

/// `v - 1`, but never below 1.
fn slow_down(v: u64) -> (r: u64)
    ensures
        r == slow_down_floor(v),
{
    if v > 1 {
        v - 1
    } else {
        1
    }
}

/// Whether `p` is one of the positions in `v`.
fn contains_pos(v: &Vec<Pos>, p: Pos) -> (r: bool)
    ensures
        r == v@.contains(p),
{
    let mut i: usize = 0;
    while i < v.len()
        invariant
            i <= v.len(),
            forall|j: int| 0 <= j < i ==> v@[j] != p,
        decreases v.len() - i,
    {
        if v[i] == p {
            return true;
        }
        i = i + 1;
    }
    false
}

/// Bullets only ever leave during movement.
pub proof fn lemma_advance_bullets_len(bs: Seq<Pos>)
    ensures
        advance_bullets(bs).len() <= bs.len(),
    decreases bs.len(),
{
    if bs.len() > 0 {
        lemma_advance_bullets_len(bs.drop_last());
    }
}

/// A tick keeps the state invariant.
pub proof fn lemma_tick_keeps_wf(m: GameModel)
    requires
        m.wf(),
    ensures
        tick_model(m).wf(),
{
    lemma_advance_bullets_len(m.bullets);
}

} // verus!
