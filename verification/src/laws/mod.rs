//! What the program promises, said of what goes in and what comes out.
pub mod acceptance;
pub mod addons;
pub mod columns;
pub mod flavors;
pub mod installing;
pub mod listing;
pub mod searching;
pub mod sorting;
pub mod tasks;
pub mod texts;
pub mod unfolding;
pub mod upkeep;
pub mod words;
