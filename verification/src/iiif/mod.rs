//! The parameters of an IIIF image request and what they do to a picture.

pub mod img_container;
pub mod img_info;
pub mod info_json;
pub mod parsing_error;
pub mod quality;
pub mod region;
pub mod rotation;
pub mod size;
pub mod tokens;
