//! Weather observations for a directory of cities, mapped into the records
//! that the store keeps, with the rules that decide what a run writes.

pub mod text;
pub mod model;
pub mod ident;
pub mod clock;
pub mod weather;
pub mod records;
pub mod gateway;
pub mod directory;
pub mod pipeline;
