//! Interaction core of a terminal menu for tmux sessions: list navigation,
//! filtering, and the key-driven mode machine.
pub mod app;
pub mod config;
pub mod filter;
pub mod input;
pub mod nav;
pub mod session;
pub mod text;
pub mod theme;

pub use app::{App, AppMode};
pub use config::{Config, Settings, ThemeConfig, ThemeHighlight};
pub use filter::{contains_folded, filtered_view, item_matches};
pub use input::{handle_input, Action, EditorMode, Event, KeyCode};
pub use session::{
    attach_command, create_command, delete_command, parse_session_list, parse_template_list,
    rename_command, session_name, session_names, template_choices, NO_TEMPLATE,
};
pub use nav::{move_down, move_up, ListCursor};
pub use theme::{parse_hex_color, BorderType, Color, Theme, ThemeColor};
