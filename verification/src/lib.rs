//! Client side of the RoboCup SPL GameController protocol: the wire layout of
//! the GameController packets, the decision which datagrams are accepted, and
//! the bookkeeping of the game state that reports each field that changed.

pub mod comm;
pub mod spl;
pub mod state;
