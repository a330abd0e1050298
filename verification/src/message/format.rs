//! The content formats that have a name.

use vstd::prelude::*;

verus! {

/// A content format, as the Content-Format and Accept options number it.
#[derive(Clone, Copy, Debug, PartialEq, Eq, Structural)]
pub enum ContentFormat {
    TextPlain,
    LinkFormat,
    Xml,
    OctetStream,
    Exi,
    Json,
}

impl ContentFormat {
    /// The number of a content format.
    pub open spec fn spec_id(self) -> u16 {
        match self {
            ContentFormat::TextPlain => 0,
            ContentFormat::LinkFormat => 40,
            ContentFormat::Xml => 41,
            ContentFormat::OctetStream => 42,
            ContentFormat::Exi => 47,
            ContentFormat::Json => 50,
        }
    }

    /// The content format with the number `id`, if there is one.
    pub fn parse(id: u16) -> (format: Option<ContentFormat>)
        ensures
            match format {
                Some(f) => f.spec_id() == id,
                None => forall|f: ContentFormat| f.spec_id() != id,
            },
    {
        match id {
            0 => Some(ContentFormat::TextPlain),
            40 => Some(ContentFormat::LinkFormat),
            41 => Some(ContentFormat::Xml),
            42 => Some(ContentFormat::OctetStream),
            47 => Some(ContentFormat::Exi),
            50 => Some(ContentFormat::Json),
            _ => None,
        }
    }

    pub fn id(&self) -> (id: u16)
        ensures
            id == self.spec_id(),
    {
        match self {
            ContentFormat::TextPlain => 0,
            ContentFormat::LinkFormat => 40,
            ContentFormat::Xml => 41,
            ContentFormat::OctetStream => 42,
            ContentFormat::Exi => 47,
            ContentFormat::Json => 50,
        }
    }
}

} // verus!
