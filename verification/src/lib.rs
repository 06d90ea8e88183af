pub mod config;
pub mod error;
pub mod json;
pub mod pagination;
pub mod paths;
pub mod records;
pub mod run;
