//! Verified control logic for the RME Babyface Pro FS mixer.
pub mod panel;
pub mod text;
pub mod channel;
pub mod error;
pub mod topology;
pub mod links;
pub mod frontpanel;
pub mod mixer;
pub mod ui;
pub mod items;
pub mod scene;
pub mod settings;
pub mod solo;
pub mod scene_apply;
pub mod selection;
pub mod eq_edit;
pub mod backend;
pub mod osc_log;
pub mod keys;
pub mod layouts;
pub mod matrix;
pub mod audio;
pub mod controls;
pub mod autosave;
pub mod inputs;
pub mod strips;
