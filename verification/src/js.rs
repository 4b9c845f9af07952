//! The logic behind the functions that the web frontend calls.

pub mod inputs_validation_js;
pub mod explorer_links;
pub mod create_dao;
pub mod load_roadmap;
pub mod create_project;
pub mod create_assets;
pub mod queries;
pub mod check_for_updates;
pub mod add_roadmap_item;
pub mod common;
pub mod tx_groups;
pub mod opt_in_to_app;
pub mod load_pending_votes;
pub mod buy_shares;
pub mod update_data;
pub mod js_types_workarounds;
pub mod funds_activity;
pub mod view_dao;
pub mod balance;
pub mod load_investment;
