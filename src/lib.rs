//! Clipboard and file image uploader for a hosted image-storage API: the
//! verified core fits an image under a byte budget, assembles the upload
//! request, and decides which side effects a command performs.

pub mod error;
pub mod fit;
pub mod metadata;
pub mod api;
pub mod config;
pub mod model;
pub mod util;
pub mod cli;
