//! State and rules of a terminal client for the Signal messenger.

pub mod actions;
pub mod app;
pub mod arrivals;
pub mod autocomplete;
pub mod changes;
pub mod choosing;
pub mod commands;
pub mod common;
pub mod composer;
pub mod conversation_store;
pub mod db;
pub mod demo;
pub mod details;
pub mod directory;
pub mod drawing;
pub mod emoji_picker;
pub mod events;
pub mod export;
pub mod file_picker;
pub mod images;
pub mod inbox;
pub mod input;
pub mod key_overlay;
pub mod keybindings;
pub mod keyboard;
pub mod keyfile;
pub mod keypress;
pub mod keys;
pub mod kindset;
pub mod listing;
pub mod lists;
pub mod loading;
pub mod mentions;
pub mod menu;
pub mod messages;
pub mod mouse;
pub mod navigation;
pub mod offsets;
pub mod order;
pub mod outbox;
pub mod outgoing;
pub mod people;
pub mod pins_and_polls;
pub mod places;
pub mod pointing;
pub mod properties;
pub mod reading;
pub mod receipts;
pub mod refreshing;
pub mod requests;
pub mod rows;
pub mod saying;
pub mod search;
pub mod sending;
pub mod settings;
pub mod signal;
pub mod startup;
pub mod statuses;
pub mod strmap;
pub mod switches;
pub mod text;
pub mod understood;
pub mod upkeep;
pub mod utf16;
pub mod writing;
