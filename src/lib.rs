//! Game rules of a small asteroids-style arcade game, stated and proved with Verus.
//!
//! All quantities are integers. Angles are counted in millionths of a radian,
//! lengths in thousandths of a pixel, and speeds in thousandths of a pixel per
//! second. Rendering, trigonometry and the physics engine live outside the library:
//! they hand it plain values and carry out the commands it returns.
pub mod angle;
pub mod geometry;
pub mod motion;
pub mod events;
pub mod game;
pub mod collision;
pub mod spawner;
pub mod ui;
