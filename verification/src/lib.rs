//! Gameplay core of a fixed-formation shooter.
//!
//! The crate decides, frame by frame, how the player, the enemy formation,
//! bullets, HUD text and background stars are created, changed and destroyed.
//! It never touches the screen, the keyboard or the entity store itself: every
//! structural change is written to a command queue that the engine drains
//! after all systems of a frame have run.

pub mod behaviours;
pub mod chance;
pub mod collision;
pub mod commands;
pub mod components;
pub mod constants;
pub mod cooldown;
pub mod coords;
pub mod entities;
pub mod formation;
pub mod game;
pub mod input;
pub mod layers;
pub mod prefabs;
pub mod systems;
pub mod text;
