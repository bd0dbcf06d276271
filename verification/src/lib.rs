//! A terminal interface for keeping a list of exercises: a stack of layers,
//! a protocol that routes terminal input to them, a deferred event bus, and
//! the widgets and pages built on these.

pub mod app_layer;
pub mod component;
pub mod entity;
pub mod event_dispatcher;
pub mod events;
pub mod layer;
pub mod layout;
pub mod message_box;
pub mod model;
pub mod render;
pub mod stack_laws;
pub mod style;
pub mod theme;
pub mod ui_events;
pub mod utils;
pub mod text_edit;
pub mod validators;
pub mod tabel;
pub mod text;
pub mod footer;
pub mod label;
pub mod tabs;
pub mod menu;
pub mod page_account;
pub mod exercise_editor;
pub mod exercises_table;
pub mod page_exercises;
pub mod main_ui_layer;
pub mod config;
pub mod rest;
pub mod controller;
pub mod ui;
pub mod app;
