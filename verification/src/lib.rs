pub mod color;
pub mod config;
pub mod dimensions;
pub mod image_data;
pub mod render;
pub mod resize;

pub use color::RGBColorTextExt;
pub use config::parse_config;
pub use config::Config;
pub use render::img_to_ascii_art;
