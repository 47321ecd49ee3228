pub mod ping;
pub mod play;
pub mod pause;
pub mod resume;
pub mod skip;
pub mod stop;
pub mod queue;
pub mod roulette;
