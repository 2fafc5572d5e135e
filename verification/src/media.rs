//! File-level metadata of the inspected file.

use vstd::prelude::*;
use crate::text::decimal;
use crate::text::decimal_string;

verus! {

/// The three timestamps of a file, each in whole seconds since the Unix
/// epoch and each absent where the platform does not keep it.
#[derive(Clone, Copy, Debug, PartialEq, Eq)]
pub struct FileTimes {
    pub created: Option<i64>,
    pub modified: Option<i64>,
    pub accessed: Option<i64>,
}

/// Media struct which holds file metadata.
#[derive(Clone, Debug, PartialEq, Eq)]
pub struct Media {
    /// filename
    pub filename: String,
    /// number of bytes in the file
    pub size: u64,
    /// file creation time
    pub creation_time: Option<i64>,
    /// file last accessed time
    pub last_accessed_time: Option<i64>,
    /// file last modified time
    pub last_modified_time: Option<i64>,
    /// file preview in bytes
    pub preview: [u8; 256],
}

/// The mathematical content of a `Media`.
#[verifier::ext_equal]
pub ghost struct MediaView {
    pub filename: Seq<char>,
    pub size: u64,
    pub creation_time: Option<i64>,
    pub last_accessed_time: Option<i64>,
    pub last_modified_time: Option<i64>,
    pub preview: Seq<u8>,
}

impl View for Media {
    type V = MediaView;

    open spec fn view(&self) -> MediaView {
        MediaView {
            filename: self.filename@,
            size: self.size,
            creation_time: self.creation_time,
            last_accessed_time: self.last_accessed_time,
            last_modified_time: self.last_modified_time,
            preview: self.preview@,
        }
    }
}

/// The content of the description of a file of `size` bytes opened under
/// `filename`, with a preview of 256 zero bytes.
pub open spec fn media_view(filename: Seq<char>, size: u64, times: FileTimes) -> MediaView {
    MediaView {
        filename,
        size,
        creation_time: times.created,
        last_accessed_time: times.accessed,
        last_modified_time: times.modified,
        preview: Seq::new(256, |i: int| 0u8),
    }
}

impl Media {
    /// Describes a file of `size` bytes under the name it was opened by. The
    /// preview starts out as 256 zero bytes.
    pub fn new(filename: String, size: u64, times: FileTimes) -> (m: Media)
        ensures
            m@ == media_view(filename@, size, times),
    {
        let preview: [u8; 256] = [0x0; 256];
        let m = Media {
            filename,
            size,
            creation_time: times.created,
            last_accessed_time: times.accessed,
            last_modified_time: times.modified,
            preview,
        };
        m
    }

    /// The short form of the value for diagnostics: the first preview byte,
    /// as a decimal numeral.
    pub fn debug_string(&self) -> (s: String)
        ensures
            s@ == decimal(self@.preview[0] as nat),
    {
        decimal_string(self.preview[0] as u64)
    }
}

} // verus!
