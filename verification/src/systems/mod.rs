pub mod ball;
pub mod path;
pub mod videographer;
pub mod wanderdata;
