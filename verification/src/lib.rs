pub mod app;
pub mod cube;
pub mod history;
pub mod session;
pub mod input;
pub mod inspection;
pub mod laws;
pub mod scramble;
pub mod stats;
pub mod timer;
pub mod ui;
