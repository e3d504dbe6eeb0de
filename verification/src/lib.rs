pub mod text_chars;
pub mod text_postprocess;
pub mod icon_tint;
pub mod listening_status;
pub mod cursor_context;
pub mod appearance;
pub mod listening_compact;
pub mod tray;
pub mod table_laws;
pub mod bundle_icon;
