pub mod app;
pub mod laws;
pub mod paths;
pub mod stateful_list;

pub use app::{App, Command, Entry, InputMode, Key, PendingAction, Preview};
pub use stateful_list::StatefulList;
