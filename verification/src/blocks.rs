//! Content blocks: a closed tagged union over `Header` and `Footer`, each
//! wrapping exactly one field. On the wire a block is a self-describing
//! pair of an explicit discriminant (`block_type`) and the variant's
//! payload (`block_data`), so that an unknown tag is detected and
//! rejected explicitly rather than silently misparsed.

use vstd::prelude::*;

use crate::errors::{ValidationError, ValidationErrorV};
use crate::fields::{
    raw_of_field, spec_parse_field, str_eq, Field, FieldV, RawField, RawFieldV,
    lemma_field_round_trip, lemma_field_parse_inverts,
};

verus! {

/// A header block: one field of page content.
#[derive(Debug)]
pub struct Header {
    pub content: Field,
}

/// A footer block: one copyright field.
#[derive(Debug)]
pub struct Footer {
    pub copyright: Field,
}

/// One typed unit of page content, tagged by kind. The variant set is
/// closed: a new kind is added only by extending this union and its
/// schema registry entry.
#[derive(Debug)]
pub enum Block {
    Header(Header),
    Footer(Footer),
}

/// Mathematical image of a `Header`.
pub struct HeaderV {
    pub content: FieldV,
}

/// Mathematical image of a `Footer`.
pub struct FooterV {
    pub copyright: FieldV,
}

/// Mathematical image of a `Block`.
pub enum BlockV {
    Header(HeaderV),
    Footer(FooterV),
}

impl View for Header {
    type V = HeaderV;

    open spec fn view(&self) -> HeaderV {
        HeaderV { content: self.content@ }
    }
}

impl View for Footer {
    type V = FooterV;

    open spec fn view(&self) -> FooterV {
        FooterV { copyright: self.copyright@ }
    }
}

impl View for Block {
    type V = BlockV;

    open spec fn view(&self) -> BlockV {
        match self {
            Block::Header(h) => BlockV::Header(h@),
            Block::Footer(f) => BlockV::Footer(f@),
        }
    }
}

impl Clone for Header {
    fn clone(&self) -> (r: Self)
        ensures
            r == *self,
    {
        Header { content: self.content.clone() }
    }
}

impl Clone for Footer {
    fn clone(&self) -> (r: Self)
        ensures
            r == *self,
    {
        Footer { copyright: self.copyright.clone() }
    }
}

impl Clone for Block {
    fn clone(&self) -> (r: Self)
        ensures
            r == *self,
    {
        match self {
            Block::Header(h) => Block::Header(h.clone()),
            Block::Footer(f) => Block::Footer(f.clone()),
        }
    }
}

/// The wire tag of a block.
pub open spec fn block_tag(b: BlockV) -> Seq<char> {
    match b {
        BlockV::Header(_) => "Header"@,
        BlockV::Footer(_) => "Footer"@,
    }
}

/// The one field a block variant owns.
pub open spec fn block_payload(b: BlockV) -> FieldV {
    match b {
        BlockV::Header(h) => h.content,
        BlockV::Footer(f) => f.copyright,
    }
}

/// Which block, if any, a tagged payload denotes. The tag is checked
/// first: an unknown tag is rejected carrying that tag, before the
/// payload is looked at.
pub open spec fn spec_block_from_tagged(tag: Seq<char>, data: RawFieldV) -> Result<
    BlockV,
    ValidationErrorV,
> {
    if tag == "Header"@ {
        match spec_parse_field(data) {
            Some(f) => Ok(BlockV::Header(HeaderV { content: f })),
            None => Err(ValidationErrorV::InvalidFormKind(data.form_type)),
        }
    } else if tag == "Footer"@ {
        match spec_parse_field(data) {
            Some(f) => Ok(BlockV::Footer(FooterV { copyright: f })),
            None => Err(ValidationErrorV::InvalidFormKind(data.form_type)),
        }
    } else {
        Err(ValidationErrorV::UnknownBlockKind(tag))
    }
}

impl Block {
    /// The wire tag of this block.
    pub fn tag(&self) -> (r: &'static str)
        ensures
            r@ == block_tag(self@),
    {
        match self {
            Block::Header(_) => "Header",
            Block::Footer(_) => "Footer",
        }
    }

    /// The one field this block owns.
    pub fn payload(&self) -> (r: &Field)
        ensures
            r@ == block_payload(self@),
    {
        match self {
            Block::Header(h) => &h.content,
            Block::Footer(f) => &f.copyright,
        }
    }

    /// Serializes this block to its self-describing wire pair: the
    /// explicit discriminant and the raw payload.
    pub fn to_tagged(&self) -> (r: (String, RawField))
        ensures
            r.0@ == block_tag(self@),
            r.1@ == raw_of_field(block_payload(self@)),
    {
        (self.tag().to_owned(), self.payload().to_raw())
    }

    /// Resolves a tagged wire payload to the block it denotes. A tag
    /// outside the closed variant set is rejected carrying that tag; a
    /// known tag with a malformed payload is rejected for the payload.
    pub fn from_tagged_payload(tag: &str, data: &RawField) -> (res: Result<
        Block,
        ValidationError,
    >)
        ensures
            match res {
                Ok(b) => spec_block_from_tagged(tag@, data@) == Ok::<BlockV, ValidationErrorV>(b@),
                Err(e) => spec_block_from_tagged(tag@, data@) == Err::<BlockV, ValidationErrorV>(
                    e@,
                ),
            },
    {
        if str_eq(tag, "Header") {
            match Field::parse_raw(data) {
                Ok(f) => Ok(Block::Header(Header { content: f })),
                Err(e) => Err(e),
            }
        } else if str_eq(tag, "Footer") {
            match Field::parse_raw(data) {
                Ok(f) => Ok(Block::Footer(Footer { copyright: f })),
                Err(e) => Err(e),
            }
        } else {
            Err(ValidationError::UnknownBlockKind(tag.to_owned()))
        }
    }
}

/// The wire tags of the two variants differ.
pub proof fn lemma_block_tags_distinct()
    ensures
        "Header"@ != "Footer"@,
{
    reveal_strlit("Header");
    reveal_strlit("Footer");
    assert("Header"@[0] == 'H');
    assert("Footer"@[0] == 'F');
}

/// Round trip: serializing a block to its tagged pair and resolving that
/// pair yields the block back, for every variant.
pub proof fn lemma_block_round_trip(b: BlockV)
    ensures
        spec_block_from_tagged(block_tag(b), raw_of_field(block_payload(b))) == Ok::<
            BlockV,
            ValidationErrorV,
        >(b),
{
    lemma_block_tags_distinct();
    lemma_field_round_trip(block_payload(b));
}

/// Resolving then re-tagging yields the original `(tag, data)` pair.
pub proof fn lemma_block_from_tagged_inverts(tag: Seq<char>, data: RawFieldV, b: BlockV)
    requires
        spec_block_from_tagged(tag, data) == Ok::<BlockV, ValidationErrorV>(b),
    ensures
        block_tag(b) == tag,
        raw_of_field(block_payload(b)) == data,
{
    lemma_block_tags_distinct();
    if tag == "Header"@ {
        lemma_field_parse_inverts(data, spec_parse_field(data)->Some_0);
    } else {
        lemma_field_parse_inverts(data, spec_parse_field(data)->Some_0);
    }
}

} // verus!
