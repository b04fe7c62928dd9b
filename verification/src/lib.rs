//! User-interface logic of the Rusted Ruins game client: text lookup in
//! Fluent bundles, readable and talk texts, the dialog windows and what
//! they answer to commands, the window groups and the dialog-window stack,
//! the indicators of the game screen, and the item, quest, creation and
//! status windows.
pub mod strutil;
pub mod text;
pub mod texts;
pub mod readable;
pub mod text_ids;
pub mod item_text;
pub mod desc;
pub mod effect;
pub mod geom;
pub mod command;
pub mod dialog;
pub mod manager;
pub mod dialogs;
pub mod choose_window;
pub mod menus;
pub mod read_window;
pub mod talk;
pub mod group_window;
pub mod newgame;
pub mod log_window;
pub mod info_windows;
pub mod text_window;
pub mod quest_window;
pub mod item_window;
pub mod main_window;
pub mod equip_window;
pub mod status_window;
pub mod creation_window;
pub mod indicator;
pub mod ability_window;
pub mod slot_window;
