//! What the widget expects of the host: the interfaces of the parts that
//! touch the operating system, and the rules that go with them.

pub mod background_detector;
pub mod config_manager;
pub mod hotkey_manager;
pub mod window_manager;
