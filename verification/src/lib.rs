pub mod text;
pub mod radio;
pub mod favorites;
pub mod config;
pub mod paths;
pub mod navidrome;
pub mod app;
pub mod listing;
pub mod app_laws;
pub mod stations;
pub mod audiobookshelf;
pub mod control;
pub mod view;
pub mod startup;
pub mod locations;
pub mod stream;
