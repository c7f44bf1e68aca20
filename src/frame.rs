//! The frame content model: a closed set of content kinds, each with the
//! fields it carries, and a mathematical view of each.
use vstd::prelude::*;

verus! {

/// The content of one frame. The picture type and the timing table of
/// synchronised lyrics are not carried.
#[derive(Clone, Debug, PartialEq, Eq)]
pub enum FrameContent {
    Text(String),
    ExtendedText { description: String, value: String },
    Link(String),
    ExtendedLink { description: String, link: String },
    Comment { lang: String, description: String, text: String },
    Lyrics { lang: String, description: String, text: String },
    SynchronisedLyrics { lang: String },
    Picture { mime_type: String, description: String, data: Vec<u8> },
    Unknown(Vec<u8>),
}

/// What a `FrameContent` holds, as sequences of characters and bytes.
pub ghost enum ContentView {
    Text(Seq<char>),
    ExtendedText { description: Seq<char>, value: Seq<char> },
    Link(Seq<char>),
    ExtendedLink { description: Seq<char>, link: Seq<char> },
    Comment { lang: Seq<char>, description: Seq<char>, text: Seq<char> },
    Lyrics { lang: Seq<char>, description: Seq<char>, text: Seq<char> },
    SynchronisedLyrics { lang: Seq<char> },
    Picture { mime_type: Seq<char>, description: Seq<char>, data: Seq<u8> },
    Unknown(Seq<u8>),
}

impl View for FrameContent {
    type V = ContentView;

    open spec fn view(&self) -> ContentView {
        match self {
            FrameContent::Text(t) => ContentView::Text(t@),
            FrameContent::ExtendedText { description, value } => ContentView::ExtendedText {
                description: description@,
                value: value@,
            },
            FrameContent::Link(l) => ContentView::Link(l@),
            FrameContent::ExtendedLink { description, link } => ContentView::ExtendedLink {
                description: description@,
                link: link@,
            },
            FrameContent::Comment { lang, description, text } => ContentView::Comment {
                lang: lang@,
                description: description@,
                text: text@,
            },
            FrameContent::Lyrics { lang, description, text } => ContentView::Lyrics {
                lang: lang@,
                description: description@,
                text: text@,
            },
            FrameContent::SynchronisedLyrics { lang } => ContentView::SynchronisedLyrics {
                lang: lang@,
            },
            FrameContent::Picture { mime_type, description, data } => ContentView::Picture {
                mime_type: mime_type@,
                description: description@,
                data: data@,
            },
            FrameContent::Unknown(d) => ContentView::Unknown(d@),
        }
    }
}

/// One frame of a tag: its identifier (three or four characters in a
/// well-formed tag, not required to be unique) and its content.
#[derive(Clone, Debug, PartialEq, Eq)]
pub struct Frame {
    pub id: String,
    pub content: FrameContent,
}

/// What a `Frame` holds.
pub ghost struct FrameView {
    pub id: Seq<char>,
    pub content: ContentView,
}

impl View for Frame {
    type V = FrameView;

    open spec fn view(&self) -> FrameView {
        FrameView { id: self.id@, content: self.content@ }
    }
}

/// The views of a sequence of frames, in order.
pub open spec fn frames_view(s: Seq<Frame>) -> Seq<FrameView> {
    s.map_values(|f: Frame| f@)
}

impl Frame {
    /// A frame with the given identifier and content.
    pub fn with_content(id: String, content: FrameContent) -> (r: Frame)
        ensures
            r.id == id,
            r.content == content,
    {
        Frame { id, content }
    }
}

} // verus!
