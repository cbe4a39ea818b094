pub mod animator;
pub mod clock;
pub mod direction;
pub mod frame;
pub mod sequence;
pub mod table;
