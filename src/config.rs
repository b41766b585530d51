use vstd::prelude::*;

verus! {

/// The settings a session is created with and restarted from.
#[derive(Clone, Copy, Debug, PartialEq, Eq, Structural)]
pub struct GameConfig {
    /// Wall-clock time between two ticks, in milliseconds.
    pub tick_ms: u64,
    pub initial_enemy_rows: usize,
    pub initial_enemy_cols: usize,
    /// Ticks between two formation steps at the start of a session.
    pub enemy_move_every_ticks: u64,
    /// Every time the kill count reaches a multiple of this, the formation speeds up.
    pub enemy_speedup_every_kills: usize,
}

} // verus!
