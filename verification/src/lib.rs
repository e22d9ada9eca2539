//! Verified core of the RPG engine: equipment, grid pathfinding, packet
//! framing, chunk generation rules and the server's gameplay rules.
//! Rendering, input, sockets, the database and all floating-point
//! geometry live in the application around this library.

pub mod item;
pub mod pathfinding;
pub mod protocol;
pub mod chunk;
pub mod combat;
pub mod session;
pub mod animation;
pub mod character;
pub mod hitbox;
pub mod enemy;
pub mod environment;
pub mod targeting;
pub mod editor;
pub mod server;
