use vstd::prelude::*;

use crate::config::GameConfig;
use crate::game::lemma_tick_keeps_wf;
use crate::model::{
    advance_bullets, advance_step, after_tick_rules, collision_step, command_model,
    formation_step, hits_side, initial_model, resize_model, survivors, tick_model, Command, GameModel, MAX_BULLETS,
};
use crate::pos::Pos;
use vstd::seq_lib::lemma_seq_contains_after_push;

verus! {

proof fn lemma_advance_bullets_live(bs: Seq<Pos>)
    ensures
        forall|i: int| 0 <= i < advance_bullets(bs).len() ==> advance_bullets(bs)[i].y >= 1,
    decreases bs.len(),
{
    if bs.len() > 0 {
        let prev = advance_bullets(bs.drop_last());
        lemma_advance_bullets_live(bs.drop_last());
        assert forall|i: int| 0 <= i < advance_bullets(bs).len() implies advance_bullets(bs)[i].y
            >= 1 by {
            if i < prev.len() {
                assert(advance_bullets(bs)[i] == prev[i]);
            }
        }
    }
}

proof fn lemma_survivors_contains(es: Seq<Pos>, bs: Seq<Pos>, e: Pos)
    ensures
        survivors(es, bs).contains(e) <==> (es.contains(e) && !bs.contains(e)),
    decreases es.len(),
{
    if es.len() > 0 {
        let init = es.drop_last();
        let last = es.last();
        lemma_survivors_contains(init, bs, e);
        assert(es =~= init.push(last));
        lemma_seq_contains_after_push(init, last, e);
        lemma_seq_contains_after_push(survivors(init, bs), last, e);
    }
}

/// A tick that runs moves every bullet up one row and drops those that reach row 0
/// before any collision is looked at: after it, every bullet in flight is on row 1 or
/// below.
pub proof fn lemma_tick_bullets_stay_on_field(m: GameModel)
    requires
        m.wf(),
        !m.is_terminal(),
    ensures
        tick_model(m).bullets == advance_bullets(m.bullets),
        collision_step(advance_step(m)).bullets == advance_bullets(m.bullets),
        forall|i: int|
            0 <= i < tick_model(m).bullets.len() ==> tick_model(m).bullets[i].y >= 1,
{
    lemma_advance_bullets_live(m.bullets);
}

/// No more than three bullets are ever in flight: a new session has none, and a tick,
/// a command, the driver's rules and a resize all keep the cap.
pub proof fn lemma_bullet_cap(
    m: GameModel,
    cmd: Command,
    cfg: GameConfig,
    width: u16,
    height: u16,
)
    requires
        m.wf(),
    ensures
        initial_model(width, height, cfg).wf(),
        tick_model(m).wf(),
        command_model(m, cmd, cfg).wf(),
        after_tick_rules(m, cfg).wf(),
        resize_model(m, width, height).wf(),
        tick_model(m).bullets.len() <= MAX_BULLETS,
        command_model(m, cmd, cfg).bullets.len() <= MAX_BULLETS,
{
    lemma_tick_keeps_wf(m);
}

/// Each enemy that a collision pass removes stood on the very cell of a bullet.
pub proof fn lemma_removed_enemy_was_hit(m: GameModel, e: Pos)
    requires
        m.enemies.contains(e),
        !collision_step(m).enemies.contains(e),
    ensures
        m.bullets.contains(e),
{
    lemma_survivors_contains(m.enemies, m.bullets, e);
}

/// A lateral formation step keeps every enemy strictly between column 1 and column
/// `width - 2`: where a step would reach either, the formation descends instead.
pub proof fn lemma_lateral_step_in_bounds(m: GameModel)
    requires
        m.wf(),
        m.enemy_tick_acc >= m.enemy_move_every_ticks,
        !hits_side(m.enemies, m.enemy_direction as int, m.width),
    ensures
        formation_step(m).enemies.len() == m.enemies.len(),
        forall|i: int|
            0 <= i < formation_step(m).enemies.len() ==> 1 < #[trigger] formation_step(
                m,
            ).enemies[i].x < m.width - 2,
        forall|i: int|
            0 <= i < formation_step(m).enemies.len() ==> formation_step(m).enemies[i].y
                == m.enemies[i].y,
{
    assert forall|i: int| 0 <= i < formation_step(m).enemies.len() implies 1
        < #[trigger] formation_step(m).enemies[i].x < m.width - 2 by {
        assert(!(m.enemies[i].x + m.enemy_direction <= 1 || m.enemies[i].x + m.enemy_direction
            >= m.width - 2));
    }
}

/// A finished game is frozen: a tick changes nothing, and neither does any command
/// but a restart.
pub proof fn lemma_terminal_is_frozen(m: GameModel, cmd: Command, cfg: GameConfig)
    requires
        m.is_terminal(),
    ensures
        tick_model(m) == m,
        tick_model(tick_model(m)) == m,
        cmd != Command::Restart ==> command_model(m, cmd, cfg) == m,
{
}

} // verus!
