pub mod created;
pub mod listing;
pub mod naming;
pub mod order;
pub mod search;
