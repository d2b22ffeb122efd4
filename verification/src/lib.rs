//! Typed request construction and response normalisation for the image
//! endpoints of a generative AI service.
//!
//! The library decides; it opens no file and no socket. For each image a
//! caller asks [`Image::part_name`] whether the path names a file, opens the
//! file, and hands the outcome to [`Image::create_part`]; the parts go into
//! [`Image::edit_form`] or [`Image::variation_form`], and the form that
//! comes back is sent. A caller that has opened the files beforehand hands
//! all outcomes to [`Image::create_edit`] or [`Image::create_variation`] at
//! once. What the service answered goes to [`response::dispatch`], which
//! says what the call resulted in. Every failure on the way is one
//! [`error::OpenAIError`].
//!
//! The contracts speak of a form as the sequence of its sections
//! ([`multipart::Section`]), of a failure by its texts
//! ([`error::ErrorView`]), of the body that streams an opened file
//! ([`multipart::file_stream`]), and of a path's final component and quoted
//! rendering as the standard library computes them
//! ([`text::path_file_name`], [`text::path_debug_text`]).

pub mod error;
pub mod image;
pub mod multipart;
pub mod response;
pub mod text;
pub mod types;

pub use image::Image;
