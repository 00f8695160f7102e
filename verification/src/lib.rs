//! A movie watchlist: the records, the cursor that moves over them, the keys
//! that drive it and the lines that a terminal shows of it.

pub mod app;
pub mod input;
pub mod list_state;
pub mod movie;
pub mod screen;
pub mod storage;
pub mod watchlist;
