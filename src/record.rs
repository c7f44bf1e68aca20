//! Records: each frame as an ordered list of key/value text fields, with
//! binary fields written as base64 text, and the way back from a record to a
//! frame.
use vstd::prelude::*;
use crate::base64_text::{base64_decoded, base64_encoded, decode_base64, encode_base64};
use crate::frame::{ContentView, Frame, FrameContent, FrameView};

verus! {

/// The keys a record can hold.
#[derive(Clone, Copy, Debug, PartialEq, Eq, Structural)]
pub enum FieldKey {
    Id,
    Text,
    Description,
    Value,
    Link,
    Lang,
    MimeType,
    Data,
}

impl FieldKey {
    pub open spec fn spec_name(self) -> Seq<char> {
        match self {
            FieldKey::Id => "id"@,
            FieldKey::Text => "text"@,
            FieldKey::Description => "description"@,
            FieldKey::Value => "value"@,
            FieldKey::Link => "link"@,
            FieldKey::Lang => "lang"@,
            FieldKey::MimeType => "mime_type"@,
            FieldKey::Data => "data"@,
        }
    }

    /// The key as it is written in a record.
    pub fn name(&self) -> (r: &'static str)
        ensures
            r@ == self.spec_name(),
    {
        match self {
            FieldKey::Id => "id",
            FieldKey::Text => "text",
            FieldKey::Description => "description",
            FieldKey::Value => "value",
            FieldKey::Link => "link",
            FieldKey::Lang => "lang",
            FieldKey::MimeType => "mime_type",
            FieldKey::Data => "data",
        }
    }
}

/// One key/value field of a record.
#[derive(Clone, Debug, PartialEq, Eq)]
pub struct Field {
    pub key: FieldKey,
    pub value: String,
}

/// A record's fields as (key, text) pairs, in order.
pub open spec fn record_view(r: Seq<Field>) -> Seq<(FieldKey, Seq<char>)> {
    r.map_values(|f: Field| (f.key, f.value@))
}

/// The fields that carry a content, after the identifier.
pub open spec fn content_fields(c: ContentView) -> Seq<(FieldKey, Seq<char>)> {
    match c {
        ContentView::Text(t) => seq![(FieldKey::Text, t)],
        ContentView::ExtendedText { description, value } => seq![
            (FieldKey::Description, description),
            (FieldKey::Value, value),
        ],
        ContentView::Link(l) => seq![(FieldKey::Link, l)],
        ContentView::ExtendedLink { description, link } => seq![
            (FieldKey::Description, description),
            (FieldKey::Link, link),
        ],
        ContentView::Comment { lang, description, text } => seq![
            (FieldKey::Lang, lang),
            (FieldKey::Description, description),
            (FieldKey::Text, text),
        ],
        ContentView::Lyrics { lang, description, text } => seq![
            (FieldKey::Lang, lang),
            (FieldKey::Description, description),
            (FieldKey::Text, text),
        ],
        ContentView::SynchronisedLyrics { lang } => seq![(FieldKey::Lang, lang)],
        ContentView::Picture { mime_type, description, data } => seq![
            (FieldKey::MimeType, mime_type),
            (FieldKey::Description, description),
            (FieldKey::Data, base64_encoded(data)),
        ],
        ContentView::Unknown(d) => seq![(FieldKey::Data, base64_encoded(d))],
    }
}

/// The record of a frame: its identifier first, then its content's fields.
pub open spec fn record_of(f: FrameView) -> Seq<(FieldKey, Seq<char>)> {
    seq![(FieldKey::Id, f.id)] + content_fields(f.content)
}

/// The identifier of unsynchronised lyrics frames. Comments and lyrics have
/// the same fields in a record, and this identifier tells them apart.
pub open spec fn lyrics_id() -> Seq<char> {
    "USLT"@
}

/// A frame whose record reads back as itself: comments do not carry the
/// lyrics identifier, and lyrics do.
pub open spec fn kind_agrees_with_id(f: FrameView) -> bool {
    match f.content {
        ContentView::Comment { .. } => f.id != lyrics_id(),
        ContentView::Lyrics { .. } => f.id == lyrics_id(),
        _ => true,
    }
}

/// The content that the fields after the identifier describe, if any.
pub open spec fn content_of_fields(id: Seq<char>, f: Seq<(FieldKey, Seq<char>)>) -> Option<
    ContentView,
> {
    if f.len() == 1 {
        match f[0].0 {
            FieldKey::Text => Some(ContentView::Text(f[0].1)),
            FieldKey::Link => Some(ContentView::Link(f[0].1)),
            FieldKey::Lang => Some(ContentView::SynchronisedLyrics { lang: f[0].1 }),
            FieldKey::Data => match base64_decoded(f[0].1) {
                Some(b) => Some(ContentView::Unknown(b)),
                None => None,
            },
            _ => None,
        }
    } else if f.len() == 2 && f[0].0 == FieldKey::Description {
        match f[1].0 {
            FieldKey::Value => Some(ContentView::ExtendedText { description: f[0].1, value: f[1].1 }),
            FieldKey::Link => Some(ContentView::ExtendedLink { description: f[0].1, link: f[1].1 }),
            _ => None,
        }
    } else if f.len() == 3 && f[0].0 == FieldKey::Lang && f[1].0 == FieldKey::Description
        && f[2].0 == FieldKey::Text {
        if id == lyrics_id() {
            Some(ContentView::Lyrics { lang: f[0].1, description: f[1].1, text: f[2].1 })
        } else {
            Some(ContentView::Comment { lang: f[0].1, description: f[1].1, text: f[2].1 })
        }
    } else if f.len() == 3 && f[0].0 == FieldKey::MimeType && f[1].0 == FieldKey::Description
        && f[2].0 == FieldKey::Data {
        match base64_decoded(f[2].1) {
            Some(b) => Some(
                ContentView::Picture { mime_type: f[0].1, description: f[1].1, data: b },
            ),
            None => None,
        }
    } else {
        None
    }
}

/// The frame that a record describes, if any: an identifier field first,
/// then the fields of exactly one kind of content, in order.
pub open spec fn decoded_record(r: Seq<(FieldKey, Seq<char>)>) -> Option<FrameView> {
    if r.len() >= 1 && r[0].0 == FieldKey::Id {
        match content_of_fields(r[0].1, r.drop_first()) {
            Some(c) => Some(FrameView { id: r[0].1, content: c }),
            None => None,
        }
    } else {
        None
    }
}

fn field(key: FieldKey, value: String) -> (r: Field)
    ensures
        r.key == key,
        r.value == value,
{
    Field { key, value }
}

/// The record of `frame`. Where comments and lyrics are told apart by their
/// identifier, reading the record back gives the frame again.
pub fn frame_to_record(frame: &Frame) -> (r: Vec<Field>)
    ensures
        record_view(r@) == record_of(frame@),
        kind_agrees_with_id(frame@) ==> decoded_record(record_view(r@)) == Some(frame@),
{
    let mut r: Vec<Field> = Vec::new();
    r.push(field(FieldKey::Id, frame.id.clone()));
    match &frame.content {
        FrameContent::Text(t) => {
            r.push(field(FieldKey::Text, t.clone()));
        },
        FrameContent::ExtendedText { description, value } => {
            r.push(field(FieldKey::Description, description.clone()));
            r.push(field(FieldKey::Value, value.clone()));
        },
        FrameContent::Link(l) => {
            r.push(field(FieldKey::Link, l.clone()));
        },
        FrameContent::ExtendedLink { description, link } => {
            r.push(field(FieldKey::Description, description.clone()));
            r.push(field(FieldKey::Link, link.clone()));
        },
        FrameContent::Comment { lang, description, text } => {
            r.push(field(FieldKey::Lang, lang.clone()));
            r.push(field(FieldKey::Description, description.clone()));
            r.push(field(FieldKey::Text, text.clone()));
        },
        FrameContent::Lyrics { lang, description, text } => {
            r.push(field(FieldKey::Lang, lang.clone()));
            r.push(field(FieldKey::Description, description.clone()));
            r.push(field(FieldKey::Text, text.clone()));
        },
        FrameContent::SynchronisedLyrics { lang } => {
            r.push(field(FieldKey::Lang, lang.clone()));
        },
        FrameContent::Picture { mime_type, description, data } => {
            r.push(field(FieldKey::MimeType, mime_type.clone()));
            r.push(field(FieldKey::Description, description.clone()));
            r.push(field(FieldKey::Data, encode_base64(data)));
        },
        FrameContent::Unknown(d) => {
            r.push(field(FieldKey::Data, encode_base64(d)));
        },
    }
    assert(record_view(r@) =~= record_of(frame@));
    assert(record_view(r@).drop_first() =~= content_fields(frame@.content));
    r
}

/// The records of `frames`, one for each frame, in the same order.
pub fn frames_to_records(frames: &Vec<Frame>) -> (r: Vec<Vec<Field>>)
    ensures
        r.len() == frames.len(),
        forall|i: int| 0 <= i < r.len() ==> record_view(#[trigger] r[i]@) == record_of(frames[i]@),
{
    let mut r: Vec<Vec<Field>> = Vec::new();
    let mut i: usize = 0;
    while i < frames.len()
        invariant
            i <= frames.len(),
            r.len() == i,
            forall|j: int| 0 <= j < i ==> record_view(#[trigger] r[j]@) == record_of(frames[j]@),
        decreases frames.len() - i,
    {
        r.push(frame_to_record(&frames[i]));
        i = i + 1;
    }
    r
}

/// A copy of the text of field `i`.
fn value_at(record: &Vec<Field>, i: usize) -> (r: String)
    requires
        i < record.len(),
    ensures
        r@ == record_view(record@)[i as int].1,
{
    record[i].value.clone()
}

/// The bytes that the base64 text of field `i` stands for, if it is valid.
fn bytes_at(record: &Vec<Field>, i: usize) -> (r: Option<Vec<u8>>)
    requires
        i < record.len(),
    ensures
        match r {
            Some(b) => base64_decoded(record_view(record@)[i as int].1) == Some(b@),
            None => base64_decoded(record_view(record@)[i as int].1) is None,
        },
{
    match decode_base64(&record[i].value) {
        Ok(b) => Some(b),
        Err(_) => None,
    }
}

/// The content that the fields after the identifier describe, if any.
fn content_from_fields(id: &String, record: &Vec<Field>) -> (r: Option<FrameContent>)
    requires
        record.len() >= 1,
    ensures
        match r {
            Some(c) => content_of_fields(id@, record_view(record@).drop_first()) == Some(c@),
            None => content_of_fields(id@, record_view(record@).drop_first()) is None,
        },
{
    let ghost f = record_view(record@).drop_first();
    let n = record.len();
    if n == 2 {
        match record[1].key {
            FieldKey::Text => Some(FrameContent::Text(value_at(record, 1))),
            FieldKey::Link => Some(FrameContent::Link(value_at(record, 1))),
            FieldKey::Lang => Some(FrameContent::SynchronisedLyrics { lang: value_at(record, 1) }),
            FieldKey::Data => match bytes_at(record, 1) {
                Some(b) => Some(FrameContent::Unknown(b)),
                None => None,
            },
            _ => None,
        }
    } else if n == 3 && record[1].key == FieldKey::Description {
        match record[2].key {
            FieldKey::Value => Some(
                FrameContent::ExtendedText {
                    description: value_at(record, 1),
                    value: value_at(record, 2),
                },
            ),
            FieldKey::Link => Some(
                FrameContent::ExtendedLink {
                    description: value_at(record, 1),
                    link: value_at(record, 2),
                },
            ),
            _ => None,
        }
    } else if n == 4 && record[1].key == FieldKey::Lang && record[2].key == FieldKey::Description
        && record[3].key == FieldKey::Text {
        let lyrics = "USLT".to_owned();
        let lang = value_at(record, 1);
        let description = value_at(record, 2);
        let text = value_at(record, 3);
        if *id == lyrics {
            Some(FrameContent::Lyrics { lang, description, text })
        } else {
            Some(FrameContent::Comment { lang, description, text })
        }
    } else if n == 4 && record[1].key == FieldKey::MimeType && record[2].key
        == FieldKey::Description && record[3].key == FieldKey::Data {
        match bytes_at(record, 3) {
            Some(data) => Some(
                FrameContent::Picture {
                    mime_type: value_at(record, 1),
                    description: value_at(record, 2),
                    data,
                },
            ),
            None => None,
        }
    } else {
        None
    }
}

/// The frame that `record` describes, or `None` where it describes none:
/// the way back from `frame_to_record`.
pub fn frame_from_record(record: &Vec<Field>) -> (r: Option<Frame>)
    ensures
        match r {
            Some(f) => decoded_record(record_view(record@)) == Some(f@),
            None => decoded_record(record_view(record@)) is None,
        },
{
    if record.len() >= 1 && record[0].key == FieldKey::Id {
        let id = value_at(record, 0);
        match content_from_fields(&id, record) {
            Some(content) => Some(Frame::with_content(id, content)),
            None => None,
        }
    } else {
        None
    }
}

} // verus!
