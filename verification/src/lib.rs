//! Band logistics core: the equipment data model, the routing and assignment
//! mutators, and the resolver that derives the stage channel list.

pub mod assignments;
pub mod bindings;
pub mod bpm;
pub mod calendar;
pub mod channel_laws;
pub mod channels;
pub mod checklists;
pub mod gear;
pub mod ids;
pub mod invariants;
pub mod library;
pub mod logbook;
pub mod logbook_model;
pub mod model;
pub mod numbers;
pub mod ordering;
pub mod playlists;
pub mod records;
pub mod roles;
pub mod settings;
pub mod setlist_model;
pub mod setlists;
pub mod songs;
pub mod store;
pub mod tables;
pub mod text;
