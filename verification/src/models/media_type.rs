//! The type of a media.

use vstd::prelude::*;

verus! {

use crate::strings::str_eq;

/// A value which represents the type of media.
#[derive(Debug, Clone, Copy, PartialEq, Eq, Structural)]
pub enum MediaType {
    Video,
    Audio,
    Image,
    PdfDocument,
    MicrosoftOfficeDocument,
    Swf,
    UnknownType,
}

/// The media type named by its wire text, if any.
pub open spec fn media_type_of_text(s: Seq<char>) -> Option<MediaType> {
    if s == "Video"@ {
        Some(MediaType::Video)
    } else if s == "Audio"@ {
        Some(MediaType::Audio)
    } else if s == "Image"@ {
        Some(MediaType::Image)
    } else if s == "PdfDocument"@ {
        Some(MediaType::PdfDocument)
    } else if s == "MicrosoftOfficeDocument"@ {
        Some(MediaType::MicrosoftOfficeDocument)
    } else if s == "Swf"@ {
        Some(MediaType::Swf)
    } else if s == "UnknownType"@ {
        Some(MediaType::UnknownType)
    } else {
        None
    }
}

/// Decode the wire text of a media type.
pub fn media_type_from_text(s: &str) -> (r: Option<MediaType>)
    ensures
        r == media_type_of_text(s@),
{
    if str_eq(s, "Video") {
        Some(MediaType::Video)
    } else if str_eq(s, "Audio") {
        Some(MediaType::Audio)
    } else if str_eq(s, "Image") {
        Some(MediaType::Image)
    } else if str_eq(s, "PdfDocument") {
        Some(MediaType::PdfDocument)
    } else if str_eq(s, "MicrosoftOfficeDocument") {
        Some(MediaType::MicrosoftOfficeDocument)
    } else if str_eq(s, "Swf") {
        Some(MediaType::Swf)
    } else if str_eq(s, "UnknownType") {
        Some(MediaType::UnknownType)
    } else {
        None
    }
}

} // verus!
