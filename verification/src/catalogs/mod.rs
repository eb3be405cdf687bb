//! Entries of catalogs and their resolution, under a parameter assignment, into the
//! elements of a scenario.
pub mod entities;
pub mod environments;
pub mod routes;
pub mod trajectories;
