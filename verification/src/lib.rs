//! Verified core of an arcade loader for the Wangan Midnight Maximum Tune 3
//! family: the decisions that the hooks installed into the game make.
//!
//! Every function here works on plain values. Reading and writing the game's
//! memory, installing hooks, talking to SDL, GLFW and the file system is left
//! to the thin layer that embeds this library.
pub mod card;
pub mod config;
pub mod display;
pub mod dongle;
pub mod input;
pub mod jamma;
pub mod network;
pub mod patch;
pub mod redirect;
pub mod text;
pub mod version;
