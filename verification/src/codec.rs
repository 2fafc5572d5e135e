//! Codec families of video and audio tracks: the canonical name of each and
//! the extension fields that its configuration contributes to a report.

use vstd::prelude::*;
use vstd::string::StringExecFns;

verus! {

/// The codec of a video track.
#[derive(Clone, Copy, Debug, PartialEq, Eq, Structural)]
pub enum VideoCodec {
    /// H.264.
    AVC,
    /// AV1.
    AV1,
    /// H.263.
    H263,
    /// MPEG-4 part 2 video, configured by an elementary stream descriptor.
    MP4V,
    /// VP8 or VP9, with what its configuration box declares.
    VPx { bit_depth: u8, colour_primaries: u8, chroma_subsampling: u8 },
}

/// The codec of an audio track.
#[derive(Clone, Copy, Debug, PartialEq, Eq, Structural)]
pub enum AudioCodec {
    /// MPEG-4 audio, with what its elementary stream descriptor declares.
    ES { audio_sample_rate: Option<u32>, audio_object_type: Option<u16> },
    /// FLAC, with the type and data length of its first metadata block.
    FLAC { block_type: Option<u8>, block_data_length: Option<u64> },
    /// Opus, with the version of its configuration box.
    Opus { version: u8 },
    /// Apple lossless, with the length of its configuration data.
    ALAC { data_length: u64 },
    /// MPEG-1 layer 3.
    MP3,
    /// Uncompressed PCM.
    LPCM,
}

/// One codec-specific attribute: a name qualified by the codec family, and an
/// unsigned value that the configuration may lack.
#[derive(Clone, Debug, PartialEq, Eq)]
pub struct ExtensionField {
    pub name: String,
    pub value: Option<u64>,
}

impl View for ExtensionField {
    type V = (Seq<char>, Option<u64>);

    open spec fn view(&self) -> (Seq<char>, Option<u64>) {
        (self.name@, self.value)
    }
}

/// The views of a list of extension fields, in order.
pub open spec fn fields_view(fields: Seq<ExtensionField>) -> Seq<(Seq<char>, Option<u64>)> {
    fields.map_values(|f: ExtensionField| f@)
}

/// A value of a narrower unsigned type, widened.
pub open spec fn widen16(v: Option<u16>) -> Option<u64> {
    match v {
        Some(n) => Some(n as u64),
        None => None,
    }
}

/// A value of a narrower unsigned type, widened.
pub open spec fn widen32(v: Option<u32>) -> Option<u64> {
    match v {
        Some(n) => Some(n as u64),
        None => None,
    }
}

/// A value of a narrower unsigned type, widened.
pub open spec fn widen8(v: Option<u8>) -> Option<u64> {
    match v {
        Some(n) => Some(n as u64),
        None => None,
    }
}

impl VideoCodec {
    /// The canonical name of the codec.
    pub open spec fn name_text(self) -> Seq<char> {
        match self {
            VideoCodec::AVC => "AVC"@,
            VideoCodec::AV1 => "AV1"@,
            VideoCodec::H263 => "H263"@,
            VideoCodec::MP4V => "MP4V"@,
            VideoCodec::VPx { .. } => "VPx"@,
        }
    }

    /// The extension fields of the codec, in report order. Only VPx has any.
    pub open spec fn fields(self) -> Seq<(Seq<char>, Option<u64>)> {
        match self {
            VideoCodec::VPx { bit_depth, colour_primaries, chroma_subsampling } => seq![
                ("vpx.bit_depth"@, Some(bit_depth as u64)),
                ("vpx.colour_primaries"@, Some(colour_primaries as u64)),
                ("vpx.chroma_subsampling"@, Some(chroma_subsampling as u64)),
            ],
            _ => Seq::empty(),
        }
    }

    /// The canonical name of the codec, shown as `codec_name`.
    pub fn name(&self) -> (s: &'static str)
        ensures
            s@ == self.name_text(),
    {
        match self {
            VideoCodec::AVC => "AVC",
            VideoCodec::AV1 => "AV1",
            VideoCodec::H263 => "H263",
            VideoCodec::MP4V => "MP4V",
            VideoCodec::VPx { .. } => "VPx",
        }
    }

    /// The extension fields of the codec, in a fixed order: bit depth, colour
    /// primaries and chroma subsampling for VPx, none for any other codec.
    pub fn extension_fields(&self) -> (r: Vec<ExtensionField>)
        ensures
            fields_view(r@) == self.fields(),
    {
        let mut r: Vec<ExtensionField> = Vec::new();
        match self {
            VideoCodec::VPx { bit_depth, colour_primaries, chroma_subsampling } => {
                r.push(extension_field("vpx.bit_depth", Some(*bit_depth as u64)));
                r.push(extension_field("vpx.colour_primaries", Some(*colour_primaries as u64)));
                r.push(
                    extension_field("vpx.chroma_subsampling", Some(*chroma_subsampling as u64)),
                );
            },
            _ => {},
        }
        r
    }
}

impl AudioCodec {
    /// The canonical name of the codec.
    pub open spec fn name_text(self) -> Seq<char> {
        match self {
            AudioCodec::ES { .. } => "ES"@,
            AudioCodec::FLAC { .. } => "FLAC"@,
            AudioCodec::Opus { .. } => "Opus"@,
            AudioCodec::ALAC { .. } => "ALAC"@,
            AudioCodec::MP3 => "MP3"@,
            AudioCodec::LPCM => "LPCM"@,
        }
    }

    /// The extension fields of the codec, in report order.
    pub open spec fn fields(self) -> Seq<(Seq<char>, Option<u64>)> {
        match self {
            AudioCodec::ES { audio_sample_rate, audio_object_type } => seq![
                ("esds.audio_sample_rate"@, widen32(audio_sample_rate)),
                ("esds.audio_object_type"@, widen16(audio_object_type)),
            ],
            AudioCodec::FLAC { block_type, block_data_length } => seq![
                ("flac.blocks[0].block_type"@, widen8(block_type)),
                ("flac.blocks[0].data.len()"@, block_data_length),
            ],
            AudioCodec::Opus { version } => seq![("opus.version"@, Some(version as u64))],
            AudioCodec::ALAC { data_length } => seq![("alac.data.len()"@, Some(data_length))],
            AudioCodec::MP3 => Seq::empty(),
            AudioCodec::LPCM => Seq::empty(),
        }
    }

    /// The canonical name of the codec, shown as `codec_name`.
    pub fn name(&self) -> (s: &'static str)
        ensures
            s@ == self.name_text(),
    {
        match self {
            AudioCodec::ES { .. } => "ES",
            AudioCodec::FLAC { .. } => "FLAC",
            AudioCodec::Opus { .. } => "Opus",
            AudioCodec::ALAC { .. } => "ALAC",
            AudioCodec::MP3 => "MP3",
            AudioCodec::LPCM => "LPCM",
        }
    }

    /// The extension fields of the codec, in a fixed order. A value that the
    /// configuration lacks stays absent; it is not replaced by a number.
    pub fn extension_fields(&self) -> (r: Vec<ExtensionField>)
        ensures
            fields_view(r@) == self.fields(),
    {
        let mut r: Vec<ExtensionField> = Vec::new();
        match self {
            AudioCodec::ES { audio_sample_rate, audio_object_type } => {
                let rate: Option<u64> = match audio_sample_rate {
                    Some(n) => Some(*n as u64),
                    None => None,
                };
                let object_type: Option<u64> = match audio_object_type {
                    Some(n) => Some(*n as u64),
                    None => None,
                };
                r.push(extension_field("esds.audio_sample_rate", rate));
                r.push(extension_field("esds.audio_object_type", object_type));
            },
            AudioCodec::FLAC { block_type, block_data_length } => {
                let kind: Option<u64> = match block_type {
                    Some(n) => Some(*n as u64),
                    None => None,
                };
                r.push(extension_field("flac.blocks[0].block_type", kind));
                r.push(extension_field("flac.blocks[0].data.len()", *block_data_length));
            },
            AudioCodec::Opus { version } => {
                r.push(extension_field("opus.version", Some(*version as u64)));
            },
            AudioCodec::ALAC { data_length } => {
                r.push(extension_field("alac.data.len()", Some(*data_length)));
            },
            AudioCodec::MP3 => {},
            AudioCodec::LPCM => {},
        }
        r
    }
}

fn extension_field(name: &'static str, value: Option<u64>) -> (f: ExtensionField)
    ensures
        f@ == (name@, value),
{
    ExtensionField { name: String::from_str(name), value }
}

/// A VPx video codec always has exactly three extension fields: bit depth,
/// colour primaries and chroma subsampling, in that order and each with the
/// value its configuration declares. Every other video codec has none.
pub proof fn lemma_video_extension_fields(c: VideoCodec)
    ensures
        c is VPx ==> c.fields().len() == 3,
        c matches VideoCodec::VPx { bit_depth, colour_primaries, chroma_subsampling } ==> {
            &&& c.fields()[0] == ("vpx.bit_depth"@, Some(bit_depth as u64))
            &&& c.fields()[1] == ("vpx.colour_primaries"@, Some(colour_primaries as u64))
            &&& c.fields()[2] == ("vpx.chroma_subsampling"@, Some(chroma_subsampling as u64))
        },
        !(c is VPx) ==> c.fields().len() == 0,
        c is AVC ==> c.fields().len() == 0,
{
}

} // verus!
