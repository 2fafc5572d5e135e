//! Inspection of MP4 container files: classify the tracks of a decoded
//! container, describe their codecs and render a line-oriented report.

pub mod text;
pub mod timestamp;
pub mod codec;
pub mod track;
pub mod media;
pub mod report;
pub mod render;
pub mod container;
pub mod inspect;

pub use crate::inspect::run;
pub use crate::inspect::ARG_MEDIAFILE;
pub use crate::media::Media;
