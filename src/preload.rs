use vstd::prelude::*;

verus! {

/// The file formats that an item's media comes in.
#[derive(Debug, Clone, Copy, PartialEq, Eq, Structural)]
pub enum FileFormat {
    Jpeg,
    Png,
    Gif,
    Swf,
    WebM,
}

/// How a page fetches a medium ahead of showing it.
#[derive(Debug, Clone, Copy, PartialEq, Eq, Structural)]
pub enum MediaKind {
    Embed,
    Video,
    Image,
}

/// Flash files load as embeds, WebM files as videos, everything else as
/// images.
pub open spec fn media_kind_spec(format: FileFormat) -> MediaKind {
    match format {
        FileFormat::Swf => MediaKind::Embed,
        FileFormat::WebM => MediaKind::Video,
        _ => MediaKind::Image,
    }
}

/// The name that a preload link gives each kind.
pub open spec fn kind_name(kind: MediaKind) -> Seq<char> {
    match kind {
        MediaKind::Embed => "embed"@,
        MediaKind::Video => "video"@,
        MediaKind::Image => "image"@,
    }
}

impl MediaKind {
    /// The kind's name, as a preload link writes it.
    pub fn as_str(&self) -> (r: &'static str)
        ensures
            r@ == kind_name(*self),
    {
        match self {
            MediaKind::Embed => "embed",
            MediaKind::Video => "video",
            MediaKind::Image => "image",
        }
    }
}

/// The kind of medium that a file of this format is.
pub fn media_kind(format: FileFormat) -> (r: MediaKind)
    ensures
        r == media_kind_spec(format),
{
    match format {
        FileFormat::Swf => MediaKind::Embed,
        FileFormat::WebM => MediaKind::Video,
        _ => MediaKind::Image,
    }
}

/// What to fetch ahead for the item one step past the current one.
#[derive(Debug)]
pub struct Preload {
    pub href: String,
    pub kind: MediaKind,
}

/// The preload hint for an item whose file is at `url`, in `format`; an item
/// without a file address gives none.
pub fn preload_hint(url: Option<String>, format: FileFormat) -> (r: Option<Preload>)
    ensures
        r is None <==> url is None,
        r matches Some(p) ==> p.href@ == url->Some_0@ && p.kind == media_kind_spec(format),
{
    match url {
        Some(href) => Some(Preload { href, kind: media_kind(format) }),
        None => None,
    }
}

} // verus!
