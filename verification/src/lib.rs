//! The rules of a two-paddle Pong game, verified.
//!
//! Every length, coordinate and velocity is a fixed-point number: a whole
//! count of thousandths of a pixel, held in an `i64`. The arithmetic of the
//! game is therefore exact, and each function states in its contract what it
//! computes. Reading the keyboard, loading images and putting sprites on the
//! screen are left to the program that drives the game: it hands the library
//! the keys that are held and the dimensions of the images, and receives a new
//! state, a possible winner and a list of drawing commands.

pub mod units;
pub mod vector;
pub mod rectangle;
pub mod entity;
pub mod render;
pub mod game;
pub mod laws;
