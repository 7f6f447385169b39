//! A small grid game: integer points, keyboard edge detection, an entity
//! store with position, tile and player tags, a movement system and a text
//! render system.
pub mod components;
pub mod game;
pub mod keyboard;
pub mod point;
pub mod systems;
pub mod world;
