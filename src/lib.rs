pub mod assets;
pub mod decode;
pub mod exif_impl;
pub mod export_config;
pub mod orientation;
pub mod output_format;
pub mod pixels;
pub mod scale_config;
pub mod text;
pub mod theme;
