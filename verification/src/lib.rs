//! A software raycaster for a grid world with blocks of any height, thin
//! walls, sliding doors, pushable panels and portals that chain.
//!
//! The world is a stack of floors of cells. A [`player::Player`] walks in
//! it under gravity, is stopped by walls and closed doors, and comes out of
//! a portal where its pair leads. For each pixel of the picture a
//! [`rayobject::Ray`] is walked from cell to cell to the first thing it
//! hits; through a portal it goes on from the far side, up to three times.
//! Sprites are painted over the walls, once for each camera that a portal
//! has opened a view for.
//!
//! All numbers are exact: lengths, times and angles are counted in
//! millionths ([`fixed`]), so that every function has one result, which its
//! contract states. What holds over many steps is proved in
//! [`cell::laws`], [`portal`], [`reach`], [`sight`] and [`sprite`].
//!
//! A map comes from a JSON document ([`game::Game::from_json`]); the
//! document itself is parsed and held by `serde_json`, see [`json`].
pub mod billboard;
pub mod canvas;
pub mod cell;
pub mod color;
pub mod decimal;
pub mod direction;
pub mod fixed;
pub mod game;
pub mod heading;
pub mod json;
pub mod loader;
pub mod map;
pub mod player;
pub mod portal;
pub mod rayobject;
pub mod reach;
pub mod sight;
pub mod sprite;
pub mod text;
pub mod textures;
pub mod trig;
pub mod vectors;
