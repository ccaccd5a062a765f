//! The store front, `store.steampowered.com`.

pub mod appdetails;
