//! The logic of a self-custodial wallet's dashboard, verified with Verus.
//!
//! Everything the dashboard decides stands here as plain state machines and
//! plain functions with contracts. Drawing, timers, network access and the
//! clipboard belong to the program around this library: it hands events in and
//! performs the requests that come out.

pub mod account_dropdown;
pub mod activity;
pub mod amounts;
pub mod apps;
pub mod clipboard;
pub mod contacts;
pub mod contacts_settings;
pub mod contacts_view;
pub mod cow_flow;
pub mod crew;
pub mod deed_laws;
pub mod fetch;
pub mod function_panel;
pub mod header;
pub mod history;
pub mod home;
pub mod identity;
pub mod identity_laws;
pub mod kaomoji;
pub mod keyed;
pub mod keys;
pub mod list_laws;
pub mod lists;
pub mod modal_chrome;
pub mod name_flow;
pub mod name_laws;
pub mod name_writes;
pub mod names;
pub mod nav;
pub mod networks;
pub mod news_laws;
pub mod orders;
pub mod pane_laws;
pub mod phrase;
pub mod pool_app;
pub mod pool_form_laws;
pub mod pool_laws;
pub mod pool_view;
pub mod portfolio;
pub mod ranking;
pub mod review;
pub mod route_laws;
pub mod safe_flow;
pub mod safe_laws;
pub mod safe_queue;
pub mod safe_tx;
pub mod sanitize;
pub mod screen;
pub mod screen_fetch;
pub mod screen_laws;
pub mod screen_listen;
pub mod screen_message;
pub mod screen_orders;
pub mod screen_panes;
pub mod screen_safe;
pub mod screen_send;
pub mod screen_settles;
pub mod screen_steps;
pub mod screen_swap;
pub mod screen_update;
pub mod show_laws;
pub mod signer;
pub mod swap;
pub mod swap_laws;
pub mod text;
pub mod types;
pub mod update_dialog;
pub mod update_news;
pub mod update_orders;
pub mod update_pane;
pub mod value_laws;
