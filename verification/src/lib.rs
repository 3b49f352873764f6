pub mod json;
pub mod text;
pub mod types;
pub mod migrations;
pub mod dedupe;
pub mod schema;
pub mod thread_view;
pub mod records_json;
pub mod search;
pub mod field_updates;
pub mod oauth;
pub mod gallery;
pub mod usage;
pub mod memory;
pub mod handle;
pub mod store;
