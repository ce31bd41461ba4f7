//! The dialogue engine of a small dating-sim: a catalog of scenes, the
//! characters one can talk to, the ledger of flags and missions gathered on
//! the way, and the state machine that walks the player through it all.

pub mod scene;
pub mod catalog;
pub mod registry;
pub mod ledger;
pub mod machine;
pub mod laws;
pub mod exploration;
