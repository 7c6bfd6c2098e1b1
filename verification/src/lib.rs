//! Core of a personal water-intake tracker: the entry model (date, intake,
//! target, derived percentage), an entry store keyed by monotonically
//! assigned ids, and the pure request-handling rules of the service.

pub mod api;
pub mod entry;
pub mod percent;
pub mod render;
pub mod store;
