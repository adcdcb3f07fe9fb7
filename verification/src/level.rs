use vstd::prelude::*;

verus! {

/// The session level; recomputed from the total number of cleared lines.
pub struct Level {
    pub number: i32,
}

/// Milliseconds between single-row gravity drops at level `n`: a fixed
/// descending table for levels 1 through 10, bands of three levels down to
/// 45 ms for levels 11 through 19, 30 ms for levels 20 through 30, and 20 ms
/// for every other level.
pub open spec fn spec_speed(n: int) -> int {
    if n == 1 {
        750
    } else if n == 2 {
        670
    } else if n == 3 {
        590
    } else if n == 4 {
        520
    } else if n == 5 {
        440
    } else if n == 6 {
        360
    } else if n == 7 {
        280
    } else if n == 8 {
        200
    } else if n == 9 {
        125
    } else if n == 10 {
        90
    } else if 11 <= n <= 13 {
        80
    } else if 14 <= n <= 16 {
        60
    } else if 17 <= n <= 19 {
        45
    } else if 20 <= n <= 30 {
        30
    } else {
        20
    }
}

impl Level {
    /// Starts at level one.
    pub fn new() -> (l: Level)
        ensures
            l.number == 1,
    {
        Level { number: 1 }
    }

    /// The milliseconds between each single-row gravity drop at this level.
    pub fn get_speed(&self) -> (ms: u64)
        ensures
            ms as int == spec_speed(self.number as int),
    {
        match self.number {
            1 => 750,
            2 => 670,
            3 => 590,
            4 => 520,
            5 => 440,
            6 => 360,
            7 => 280,
            8 => 200,
            9 => 125,
            10 => 90,
            11 | 12 | 13 => 80,
            14 | 15 | 16 => 60,
            17 | 18 | 19 => 45,
            20..=30 => 30,
            _ => 20,
        }
    }
}

} // verus!
