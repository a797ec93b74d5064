pub mod button;
pub mod credits;
pub mod main_menu;
pub mod options;

pub use credits::credits;
pub use main_menu::main_menu;
pub use options::options;
