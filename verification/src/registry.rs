//! The schema registry: the static, process-wide mapping from block kind
//! to its form-field layout. It is a total function over the closed
//! variant set, built from exhaustive matching so that a new variant
//! cannot be added without its entry, and it is never mutated: only read
//! accessors exist.

use vstd::prelude::*;

use crate::blocks::{block_tag, Block, BlockV, Footer, FooterV, Header, HeaderV};
use crate::fields::{Field, FieldV, FormType};
use crate::post::blocks_view;

verus! {

/// One declared form field of a block kind: its field name, the label
/// shown to editors, and the wire name of its input kind.
#[derive(Debug)]
pub struct FieldSchema {
    pub name: &'static str,
    pub label: &'static str,
    pub form_type: &'static str,
}

/// Mathematical image of a `FieldSchema`.
pub struct FieldSchemaV {
    pub name: Seq<char>,
    pub label: Seq<char>,
    pub form_type: Seq<char>,
}

impl View for FieldSchema {
    type V = FieldSchemaV;

    open spec fn view(&self) -> FieldSchemaV {
        FieldSchemaV { name: self.name@, label: self.label@, form_type: self.form_type@ }
    }
}

/// The declared field layout of one block kind.
#[derive(Debug)]
pub struct BlockSchema {
    pub block_type: &'static str,
    pub fields: Vec<FieldSchema>,
}

/// Mathematical image of a `BlockSchema`.
pub struct BlockSchemaV {
    pub block_type: Seq<char>,
    pub fields: Seq<FieldSchemaV>,
}

impl View for BlockSchema {
    type V = BlockSchemaV;

    open spec fn view(&self) -> BlockSchemaV {
        BlockSchemaV {
            block_type: self.block_type@,
            fields: self.fields@.map_values(|f: FieldSchema| f@),
        }
    }
}

/// A block kind by itself: the key of the schema registry.
#[derive(Clone, Copy, PartialEq, Eq, Structural, Debug)]
pub enum BlockKind {
    Header,
    Footer,
}

/// The kind of a block.
pub open spec fn kind_of_block(b: BlockV) -> BlockKind {
    match b {
        BlockV::Header(_) => BlockKind::Header,
        BlockV::Footer(_) => BlockKind::Footer,
    }
}

/// The registry entry of the header kind.
pub open spec fn header_schema() -> BlockSchemaV {
    BlockSchemaV {
        block_type: "Header"@,
        fields: seq![
            FieldSchemaV { name: "content"@, label: "Content"@, form_type: "InputArea"@ },
        ],
    }
}

/// The registry entry of the footer kind.
pub open spec fn footer_schema() -> BlockSchemaV {
    BlockSchemaV {
        block_type: "Footer"@,
        fields: seq![
            FieldSchemaV { name: "copyright"@, label: "Copyright"@, form_type: "InputText"@ },
        ],
    }
}

/// The registry entry a kind maps to.
pub open spec fn spec_schema_for(kind: BlockKind) -> BlockSchemaV {
    match kind {
        BlockKind::Header => header_schema(),
        BlockKind::Footer => footer_schema(),
    }
}

/// Returns the field layout declared for a block kind; total over the
/// closed variant set by exhaustive matching.
pub fn schema_for(kind: BlockKind) -> (r: BlockSchema)
    ensures
        r@ == spec_schema_for(kind),
{
    match kind {
        BlockKind::Header => {
            let mut fields: Vec<FieldSchema> = Vec::new();
            fields.push(
                FieldSchema { name: "content", label: "Content", form_type: "InputArea" },
            );
            let r = BlockSchema { block_type: "Header", fields };
            proof {
                assert(r@.fields =~= header_schema().fields);
            }
            r
        },
        BlockKind::Footer => {
            let mut fields: Vec<FieldSchema> = Vec::new();
            fields.push(
                FieldSchema { name: "copyright", label: "Copyright", form_type: "InputText" },
            );
            let r = BlockSchema { block_type: "Footer", fields };
            proof {
                assert(r@.fields =~= footer_schema().fields);
            }
            r
        },
    }
}

/// Lists every registry entry, in declaration order of the variants:
/// header first, footer second. The order is stable.
pub fn get_all_block_schemas() -> (r: Vec<BlockSchema>)
    ensures
        r@.map_values(|s: BlockSchema| s@) == seq![header_schema(), footer_schema()],
{
    let mut r: Vec<BlockSchema> = Vec::new();
    r.push(schema_for(BlockKind::Header));
    r.push(schema_for(BlockKind::Footer));
    proof {
        assert(r@.map_values(|s: BlockSchema| s@) =~= seq![header_schema(), footer_schema()]);
    }
    r
}

/// Registry coherence: the entry of a block's kind carries that block's
/// own wire tag, for every variant.
pub proof fn lemma_schema_tag_matches(b: BlockV)
    ensures
        spec_schema_for(kind_of_block(b)).block_type == block_tag(b),
{
}

/// The default page layout: one header block followed by one footer
/// block, each with its declared input kind and an empty hint.
pub fn default_page_schema() -> (r: Vec<Block>)
    ensures
        blocks_view(r@) == seq![
            BlockV::Header(
                HeaderV {
                    content: FieldV {
                        label: "Header"@,
                        hint: Seq::<char>::empty(),
                        form_type: FormType::InputArea,
                    },
                },
            ),
            BlockV::Footer(
                FooterV {
                    copyright: FieldV {
                        label: "Copyright"@,
                        hint: Seq::<char>::empty(),
                        form_type: FormType::InputText,
                    },
                },
            ),
        ],
{
    let mut r: Vec<Block> = Vec::new();
    r.push(
        Block::Header(
            Header {
                content: Field {
                    label: "Header".to_owned(),
                    hint: String::new(),
                    form_type: FormType::InputArea,
                },
            },
        ),
    );
    r.push(
        Block::Footer(
            Footer {
                copyright: Field {
                    label: "Copyright".to_owned(),
                    hint: String::new(),
                    form_type: FormType::InputText,
                },
            },
        ),
    );
    proof {
        assert(blocks_view(r@) =~= seq![r@[0]@, r@[1]@]);
    }
    r
}

} // verus!
