pub mod ball;
pub mod path;
pub mod shapes;
pub mod transform;
pub mod videographer;
pub mod wanderdata;
