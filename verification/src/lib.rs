//! Output limits, configuration and raw-output recovery ("tee") of the rtk command filter.
pub mod chronology;
pub mod config;
pub mod constants;
pub mod hint;
pub mod index;
pub mod index_block;
pub mod index_rule;
pub mod laws;
pub mod limits;
pub mod lines;
pub mod paths;
pub mod pattern;
pub mod rotation;
pub mod tee;
pub mod tee_config;
pub mod tee_run;
pub mod text;
pub mod truncate;
