pub mod geom;
pub mod event;
pub mod frontlight;
pub mod tracker;
pub mod dispatcher;
