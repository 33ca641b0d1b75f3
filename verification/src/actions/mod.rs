//! What the commands of the launcher decide.

pub mod launch;
pub mod list;
