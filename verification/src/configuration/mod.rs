pub mod boss_bar;
pub mod queue;
