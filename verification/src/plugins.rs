pub mod commands;
pub mod configure_window;
pub mod map_window;
pub mod unmap_window;
pub mod window_mapper;
pub mod window_selector;
pub mod window_sizer;
pub mod workspaces;
pub mod destroy_window;

pub use commands::Commands;
pub use configure_window::ConfigureWindow;
pub use destroy_window::DestroyWindow;
pub use map_window::MapWindow;
pub use unmap_window::UnmapWindow;
pub use window_selector::WindowSelector;
pub use window_sizer::WindowSizer;
pub use workspaces::Workspaces;
