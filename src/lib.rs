//! Pimoroni Presto support: a software tone generator for the piezo speaker and
//! the board's LCD marker type.

pub mod lcd;
pub mod run;
pub mod scale;
pub mod session;
pub mod speaker;
pub mod spin;
