//! SEO metadata vocabulary: the closed enumerations of the metadata
//! model and the robots directives with their defaults. The surrounding
//! metadata records carry URLs and timestamps and live outside the
//! library; only the plain-valued vocabulary is kept here.

use vstd::prelude::*;

verus! {

/// A page category.
#[derive(Clone, Copy, PartialEq, Eq, Structural, Debug)]
pub enum Category {
    SciFi,
    Western,
}

/// The kind of a twitter card.
#[derive(Clone, Copy, PartialEq, Eq, Structural, Debug)]
pub enum TwitterCardType {
    Summary,
    SummaryLargeImage,
    App,
    Player,
}

/// The largest image preview robots may show.
#[derive(Clone, Copy, PartialEq, Eq, Structural, Debug)]
pub enum ImagePreviewSize {
    NoPreview,
    Standard,
    Large,
}

/// The open-graph object type.
#[derive(Clone, Debug)]
pub enum OgType {
    Website,
    Article,
    Video,
    Music,
    Book,
    Profile,
    Other(String),
}

/// Robots directives; an unset directive leaves the crawler's default in
/// force.
#[derive(Clone, Debug)]
pub struct RobotsMeta {
    pub index: Option<bool>,
    pub follow: Option<bool>,
    pub archive: Option<bool>,
    pub max_snippet: Option<u32>,
    pub max_image_preview: Option<ImagePreviewSize>,
    pub max_video_preview: Option<u32>,
}

impl Default for RobotsMeta {
    /// The permissive default: indexing, following and archiving all
    /// allowed explicitly, the limits left unset.
    fn default() -> (r: Self)
        ensures
            r.index == Some(true),
            r.follow == Some(true),
            r.archive == Some(true),
            r.max_snippet is None,
            r.max_image_preview is None,
            r.max_video_preview is None,
    {
        RobotsMeta {
            index: Some(true),
            follow: Some(true),
            archive: Some(true),
            max_snippet: None,
            max_image_preview: None,
            max_video_preview: None,
        }
    }
}

} // verus!
