//! The OpenSCENARIO data model: scenario elements, catalog entries and their
//! resolution under parameter assignments, and the classification of schema
//! validation diagnostics.
pub mod text;
pub mod error;
pub mod params;
pub mod duplicate;
pub mod enums;
pub mod basic;
pub mod references;
pub mod geometry;
pub mod positions;
pub mod routing;
pub mod environment;
pub mod entities;
pub mod controllers;
pub mod catalogs;
pub mod actions;
pub mod conditions;
pub mod road;
pub mod monitors;
pub mod story;
pub mod validation;
pub mod copies;
