pub mod event;
pub mod lemmas;
pub mod paths;
pub mod pattern;
pub mod request;
pub mod watch_loop;
