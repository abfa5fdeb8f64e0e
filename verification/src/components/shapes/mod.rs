pub mod circle;
pub mod rectangle;
