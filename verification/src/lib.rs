//! Resolving a link to a social-media post into one local media file that
//! fits a size budget.
//!
//! The library decides and never acts. A resolver says what is to be done
//! next (`exchange::Request`), its caller does it and reports back
//! (`exchange::Reply`), until the resolver delivers a file or fails with a
//! `loaderror::LoadError`. What each resolver asks for, given what it was
//! told, is stated as a function of those values and proved of the code.
//!
//! - `handlers`: which messages are served, and what the requester hears.
//! - `downloaders`: which resolver serves a link.
//! - `reddit`, `post`: the resolver for posts with a picture or a video.
//! - `youtube`: the resolver that has a downloader program run.
//! - `size`: the size budget.
//! - `scratch`, `muxer`, `picture`: file names, tool command lines, and the
//!   look at a downloaded picture.
//! - `json`, `text`: documents and texts as the contracts speak of them.

pub mod downloaders;
pub mod exchange;
pub mod handlers;
pub mod json;
pub mod loaderror;
pub mod muxer;
pub mod picture;
pub mod post;
pub mod reddit;
pub mod scratch;
pub mod size;
pub mod text;
pub mod youtube;
