//! Browser profiles, which keep the data of the containers apart.

pub mod manager;
