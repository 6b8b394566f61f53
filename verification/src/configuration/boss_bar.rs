use vstd::prelude::*;

verus! {

/// The color of a boss bar.
#[derive(Clone, Copy, Debug, PartialEq, Eq, Structural)]
pub enum BossBarColorConfig {
    Pink,
    Blue,
    Red,
    Green,
    Yellow,
    Purple,
    White,
}

/// How a boss bar is divided into notches.
#[derive(Clone, Copy, Debug, PartialEq, Eq, Structural)]
pub enum BossBarDivisionConfig {
    NoDivision,
    SixNotches,
    TenNotches,
    TwelveNotches,
    TwentyNotches,
}

} // verus!
