//! Verified core of a miniature 2D platformer: a single actor under gravity
//! moving over static axis-aligned rectangles, with damped collision response,
//! keyboard-driven horizontal motion, toroidal wrapping of the arena, and a
//! follower label.
//!
//! All geometry and kinematics are carried in a fixed-point scale of one
//! thousandth of an arena unit ("milliunits"), so that every stage is exact
//! integer arithmetic with stated rounding.

pub mod collision;
pub mod fixed;
pub mod frame;
pub mod label;
pub mod gravity;
pub mod movement;
pub mod scene;
pub mod world;
