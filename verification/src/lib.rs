//! Dotfile management core: manifest, symlink ledger, activation engine,
//! move-to-common validation and the consistency doctor.

pub mod commands;
pub mod config;
pub mod doctor;
pub mod engine_laws;
pub mod fsview;
pub mod git;
pub mod icons;
pub mod keymap;
pub mod ledger;
pub mod manifest;
pub mod move_to_common_validation;
pub mod paths;
pub mod providers;
pub mod round_trip_laws;
pub mod scan;
pub mod screens;
pub mod strings;
pub mod styles;
pub mod symlink_manager;
pub mod text;
pub mod text_input;
pub mod validation_laws;
pub mod version_check;
