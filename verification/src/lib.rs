//! The decisions behind a collector of A-share market data.

pub mod text;
pub mod number;
pub mod json;
pub mod models;
pub mod http;
pub mod calendar;
pub mod db;
pub mod attempts;
pub mod tables;
pub mod columns;
pub mod documents;
pub mod cells;
pub mod em_cells;
pub mod shares;
pub mod shown;
pub mod verify;
pub mod state;
pub mod lines;
pub mod lookup;
pub mod em_crawler;
pub mod reports;
pub mod checklist;
pub mod crawler;
pub mod settings;
pub mod telegram;
pub mod rescrape;
pub mod launch;
pub mod panel;
pub mod progress;
