//! Champion-mastery lookup for a player's competitive team: the data model,
//! the aggregation pipeline that sequences the remote lookups, the
//! single-flight request machine, and the text that a window displays.
pub mod champion;
pub mod model;
pub mod pipeline;
pub mod player_name;
pub mod render;
pub mod request;
pub mod text;
