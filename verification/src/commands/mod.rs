//! The commands of the sidebar.
pub mod close;
pub mod flip;
pub mod focus;
pub mod listen;
pub mod movefrom;
pub mod reorder;
pub mod togglewindow;
pub mod visibility;

pub use close::close;
pub use flip::toggle_flip;
pub use focus::focus;
pub use listen::{process_close, process_focus, process_move, react, Reaction};
pub use movefrom::{move_from, move_to};
pub use reorder::reorder;
pub use togglewindow::toggle_window;
pub use visibility::toggle_visibility;
