//! Post documents: identity, a title field and an ordered sequence of
//! content blocks, together with the raw wire form of a whole document
//! and its validating codec. Block order is significant and preserved.

use vstd::prelude::*;

use crate::blocks::{
    block_payload, block_tag, spec_block_from_tagged, Block, BlockV, lemma_block_round_trip,
    lemma_block_from_tagged_inverts,
};
use crate::errors::{ValidationError, ValidationErrorV};
use crate::fields::{
    raw_of_field, spec_parse_field, Field, FieldV, RawField, RawFieldV, FormType,
    lemma_field_round_trip,
};

verus! {

/// The images of a sequence of blocks.
pub open spec fn blocks_view(s: Seq<Block>) -> Seq<BlockV> {
    s.map_values(|b: Block| b@)
}

/// The top-level content document. `id` is absent before first
/// persistence, assigned by the store on creation, and immutable
/// thereafter.
#[derive(Debug)]
pub struct Post {
    pub id: Option<u64>,
    pub title: Field,
    pub blocks: Vec<Block>,
}

/// Mathematical image of a `Post`.
pub struct PostV {
    pub id: Option<u64>,
    pub title: FieldV,
    pub blocks: Seq<BlockV>,
}

impl View for Post {
    type V = PostV;

    open spec fn view(&self) -> PostV {
        PostV { id: self.id, title: self.title@, blocks: blocks_view(self.blocks@) }
    }
}

/// Copies a sequence of blocks.
pub fn clone_blocks(v: &Vec<Block>) -> (r: Vec<Block>)
    ensures
        r@ == v@,
{
    let mut r: Vec<Block> = Vec::new();
    let mut i: usize = 0;
    while i < v.len()
        invariant
            i <= v.len(),
            r@ =~= v@.take(i as int),
        decreases v.len() - i,
    {
        r.push(v[i].clone());
        i = i + 1;
    }
    assert(r@ =~= v@);
    r
}

impl Clone for Post {
    fn clone(&self) -> (r: Self)
        ensures
            r@ == self@,
    {
        Post { id: self.id, title: self.title.clone(), blocks: clone_blocks(&self.blocks) }
    }
}

/// The request body for creating a post: just the title text.
#[derive(Debug)]
pub struct CreatePost {
    pub title: String,
}

/// The context a server-rendered edit page consumes: the post's title
/// and blocks.
#[derive(Debug)]
pub struct PageData {
    title: Field,
    blocks: Vec<Block>,
}

/// Mathematical image of a `PageData`.
pub struct PageDataV {
    pub title: FieldV,
    pub blocks: Seq<BlockV>,
}

impl View for PageData {
    type V = PageDataV;

    closed spec fn view(&self) -> PageDataV {
        PageDataV { title: self.title@, blocks: blocks_view(self.blocks@) }
    }
}

impl PageData {
    /// Gathers the two values an edit page needs.
    pub fn new(title: Field, blocks: Vec<Block>) -> (r: PageData)
        ensures
            r@.title == title@,
            r@.blocks == blocks_view(blocks@),
    {
        PageData { title, blocks }
    }
}

impl Post {
    /// Builds the document a create request denotes: no identity yet, the
    /// requested title as a plain text field, and no blocks.
    pub fn from_create(req: &CreatePost) -> (p: Post)
        ensures
            p@.id is None,
            p@.title == (FieldV {
                label: req.title@,
                hint: Seq::<char>::empty(),
                form_type: FormType::InputText,
            }),
            p@.blocks == Seq::<BlockV>::empty(),
    {
        let p = Post {
            id: None,
            title: Field {
                label: req.title.clone(),
                hint: String::new(),
                form_type: FormType::InputText,
            },
            blocks: Vec::new(),
        };
        assert(blocks_view(p.blocks@) =~= Seq::<BlockV>::empty());
        p
    }
}

/// The raw wire form of one block: the explicit discriminant paired with
/// the raw payload.
#[derive(Debug)]
pub struct RawBlock {
    pub block_type: String,
    pub block_data: RawField,
}

/// Mathematical image of a `RawBlock`.
pub struct RawBlockV {
    pub block_type: Seq<char>,
    pub block_data: RawFieldV,
}

impl View for RawBlock {
    type V = RawBlockV;

    open spec fn view(&self) -> RawBlockV {
        RawBlockV { block_type: self.block_type@, block_data: self.block_data@ }
    }
}

/// The raw wire form of a whole document.
#[derive(Debug)]
pub struct RawPost {
    pub id: Option<u64>,
    pub title: RawField,
    pub blocks: Vec<RawBlock>,
}

/// Mathematical image of a `RawPost`.
pub struct RawPostV {
    pub id: Option<u64>,
    pub title: RawFieldV,
    pub blocks: Seq<RawBlockV>,
}

impl View for RawPost {
    type V = RawPostV;

    open spec fn view(&self) -> RawPostV {
        RawPostV {
            id: self.id,
            title: self.title@,
            blocks: self.blocks@.map_values(|b: RawBlock| b@),
        }
    }
}

/// The raw form one block serializes to.
pub open spec fn raw_of_block(b: BlockV) -> RawBlockV {
    RawBlockV { block_type: block_tag(b), block_data: raw_of_field(block_payload(b)) }
}

/// The raw forms a sequence of blocks serializes to, in order.
pub open spec fn raw_of_blocks(bs: Seq<BlockV>) -> Seq<RawBlockV> {
    bs.map_values(|b: BlockV| raw_of_block(b))
}

/// Which blocks, if any, a raw sequence deserializes to. Order is kept,
/// and the error of the earliest malformed entry wins.
pub open spec fn spec_parse_blocks(rs: Seq<RawBlockV>) -> Result<Seq<BlockV>, ValidationErrorV>
    decreases rs.len(),
{
    if rs.len() == 0 {
        Ok(Seq::<BlockV>::empty())
    } else {
        match spec_parse_blocks(rs.drop_last()) {
            Ok(t) => match spec_block_from_tagged(rs.last().block_type, rs.last().block_data) {
                Ok(b) => Ok(t.push(b)),
                Err(e) => Err(e),
            },
            Err(e) => Err(e),
        }
    }
}

/// The raw form a whole document serializes to.
pub open spec fn raw_of_post(p: PostV) -> RawPostV {
    RawPostV { id: p.id, title: raw_of_field(p.title), blocks: raw_of_blocks(p.blocks) }
}

/// Which document, if any, a raw form deserializes to: the title is
/// validated first, then the blocks in order. The embedded `id` is
/// carried through untouched; addressing never relies on it.
pub open spec fn spec_parse_post(r: RawPostV) -> Result<PostV, ValidationErrorV> {
    match spec_parse_field(r.title) {
        Some(t) => match spec_parse_blocks(r.blocks) {
            Ok(bs) => Ok(PostV { id: r.id, title: t, blocks: bs }),
            Err(e) => Err(e),
        },
        None => Err(ValidationErrorV::InvalidFormKind(r.title.form_type)),
    }
}

/// Mapping a pushed block sequence to raw forms appends the raw form of
/// the pushed block.
proof fn lemma_raw_of_blocks_push(bs: Seq<BlockV>, b: BlockV)
    ensures
        raw_of_blocks(bs.push(b)) == raw_of_blocks(bs).push(raw_of_block(b)),
{
    assert(raw_of_blocks(bs.push(b)) =~= raw_of_blocks(bs).push(raw_of_block(b)));
}

/// Taking the images of a pushed block vector appends the image of the
/// pushed block.
proof fn lemma_blocks_view_push(s: Seq<Block>, b: Block)
    ensures
        blocks_view(s.push(b)) == blocks_view(s).push(b@),
{
    assert(blocks_view(s.push(b)) =~= blocks_view(s).push(b@));
}

/// If the blocks up to some index deserialize but that entry is
/// malformed, the whole sequence fails with that entry's error.
proof fn lemma_parse_blocks_error(s: Seq<RawBlockV>, i: int)
    requires
        0 <= i < s.len(),
        spec_parse_blocks(s.take(i)) is Ok,
        spec_block_from_tagged(s[i].block_type, s[i].block_data) is Err,
    ensures
        spec_parse_blocks(s) == Err::<Seq<BlockV>, ValidationErrorV>(
            spec_block_from_tagged(s[i].block_type, s[i].block_data)->Err_0,
        ),
    decreases s.len(),
{
    if i == s.len() - 1 {
        assert(s.drop_last() =~= s.take(i));
    } else {
        assert(s.drop_last().take(i) =~= s.take(i));
        lemma_parse_blocks_error(s.drop_last(), i);
    }
}

/// Deserializes a raw block sequence, in order, rejecting the earliest
/// malformed entry with its error.
pub fn parse_blocks(raws: &Vec<RawBlock>) -> (res: Result<Vec<Block>, ValidationError>)
    ensures
        match res {
            Ok(bs) => spec_parse_blocks(raws@.map_values(|b: RawBlock| b@)) == Ok::<
                Seq<BlockV>,
                ValidationErrorV,
            >(blocks_view(bs@)),
            Err(e) => spec_parse_blocks(raws@.map_values(|b: RawBlock| b@)) == Err::<
                Seq<BlockV>,
                ValidationErrorV,
            >(e@),
        },
{
    let ghost rv = raws@.map_values(|b: RawBlock| b@);
    let mut out: Vec<Block> = Vec::new();
    let mut i: usize = 0;
    proof {
        assert(rv.take(0) =~= Seq::<RawBlockV>::empty());
        assert(blocks_view(out@) =~= Seq::<BlockV>::empty());
    }
    while i < raws.len()
        invariant
            i <= raws.len(),
            rv == raws@.map_values(|b: RawBlock| b@),
            spec_parse_blocks(rv.take(i as int)) == Ok::<Seq<BlockV>, ValidationErrorV>(
                blocks_view(out@),
            ),
        decreases raws.len() - i,
    {
        let raw = &raws[i];
        match Block::from_tagged_payload(raw.block_type.as_str(), &raw.block_data) {
            Ok(b) => {
                proof {
                    lemma_blocks_view_push(out@, b);
                    assert(rv.take(i + 1).drop_last() =~= rv.take(i as int));
                    assert(rv.take(i + 1).last() == rv[i as int]);
                    assert(rv[i as int] == raw@);
                }
                out.push(b);
                i = i + 1;
            },
            Err(e) => {
                proof {
                    assert(rv[i as int] == raw@);
                    lemma_parse_blocks_error(rv, i as int);
                }
                return Err(e);
            },
        }
    }
    assert(rv.take(raws.len() as int) =~= rv);
    Ok(out)
}

impl Post {
    /// Serializes this document to its raw wire form.
    pub fn to_raw(&self) -> (r: RawPost)
        ensures
            r@ == raw_of_post(self@),
    {
        let mut raw_blocks: Vec<RawBlock> = Vec::new();
        let mut i: usize = 0;
        proof {
            assert(blocks_view(self.blocks@.take(0)) =~= Seq::<BlockV>::empty());
            assert(raw_blocks@.map_values(|b: RawBlock| b@) =~= raw_of_blocks(
                Seq::<BlockV>::empty(),
            ));
        }
        while i < self.blocks.len()
            invariant
                i <= self.blocks.len(),
                raw_blocks@.map_values(|b: RawBlock| b@) == raw_of_blocks(
                    blocks_view(self.blocks@.take(i as int)),
                ),
            decreases self.blocks.len() - i,
        {
            let (tag, data) = self.blocks[i].to_tagged();
            let ghost prev = raw_blocks@;
            raw_blocks.push(RawBlock { block_type: tag, block_data: data });
            proof {
                let bv = self.blocks@[i as int]@;
                assert(self.blocks@.take(i + 1) =~= self.blocks@.take(i as int).push(
                    self.blocks@[i as int],
                ));
                lemma_blocks_view_push(self.blocks@.take(i as int), self.blocks@[i as int]);
                lemma_raw_of_blocks_push(blocks_view(self.blocks@.take(i as int)), bv);
                assert(raw_blocks@.last()@ == raw_of_block(bv));
                assert(raw_blocks@.map_values(|b: RawBlock| b@) =~= prev.map_values(
                    |b: RawBlock| b@,
                ).push(raw_blocks@.last()@));
            }
            i = i + 1;
        }
        let r = RawPost { id: self.id, title: self.title.to_raw(), blocks: raw_blocks };
        proof {
            assert(self.blocks@.take(self.blocks@.len() as int) =~= self.blocks@);
        }
        r
    }

    /// Deserializes a raw wire form, validating the title first and then
    /// every block in order; any malformed part is rejected with its
    /// error.
    pub fn parse_raw(raw: &RawPost) -> (res: Result<Post, ValidationError>)
        ensures
            match res {
                Ok(p) => spec_parse_post(raw@) == Ok::<PostV, ValidationErrorV>(p@),
                Err(e) => spec_parse_post(raw@) == Err::<PostV, ValidationErrorV>(e@),
            },
    {
        let title = match Field::parse_raw(&raw.title) {
            Ok(t) => t,
            Err(e) => {
                return Err(e);
            },
        };
        match parse_blocks(&raw.blocks) {
            Ok(bs) => Ok(Post { id: raw.id, title, blocks: bs }),
            Err(e) => Err(e),
        }
    }
}

/// Round trip: serializing a block sequence and deserializing the result
/// yields the sequence back, in order.
pub proof fn lemma_blocks_round_trip(bs: Seq<BlockV>)
    ensures
        spec_parse_blocks(raw_of_blocks(bs)) == Ok::<Seq<BlockV>, ValidationErrorV>(bs),
    decreases bs.len(),
{
    if bs.len() == 0 {
        assert(raw_of_blocks(bs) =~= Seq::<RawBlockV>::empty());
        assert(bs =~= Seq::<BlockV>::empty());
    } else {
        lemma_blocks_round_trip(bs.drop_last());
        assert(raw_of_blocks(bs).len() == bs.len());
        assert(raw_of_blocks(bs).drop_last() =~= raw_of_blocks(bs.drop_last()));
        assert(raw_of_blocks(bs).last() == raw_of_block(bs.last()));
        lemma_block_round_trip(bs.last());
        assert(bs.drop_last().push(bs.last()) =~= bs);
        assert(spec_parse_blocks(raw_of_blocks(bs)) == Ok::<Seq<BlockV>, ValidationErrorV>(
            bs.drop_last().push(bs.last()),
        ));
    }
}

/// Round trip: serializing a whole document and deserializing the result
/// yields the document back, identity included.
pub proof fn lemma_post_round_trip(p: PostV)
    ensures
        spec_parse_post(raw_of_post(p)) == Ok::<PostV, ValidationErrorV>(p),
{
    lemma_field_round_trip(p.title);
    lemma_blocks_round_trip(p.blocks);
}

/// Deserializing then serializing a block sequence yields the original
/// raw sequence.
pub proof fn lemma_parse_blocks_inverts(rs: Seq<RawBlockV>, bs: Seq<BlockV>)
    requires
        spec_parse_blocks(rs) == Ok::<Seq<BlockV>, ValidationErrorV>(bs),
    ensures
        raw_of_blocks(bs) == rs,
    decreases rs.len(),
{
    if rs.len() == 0 {
        assert(raw_of_blocks(bs) =~= rs);
    } else {
        let prefix = spec_parse_blocks(rs.drop_last())->Ok_0;
        let b = spec_block_from_tagged(rs.last().block_type, rs.last().block_data)->Ok_0;
        assert(bs == prefix.push(b));
        lemma_parse_blocks_inverts(rs.drop_last(), prefix);
        lemma_block_from_tagged_inverts(rs.last().block_type, rs.last().block_data, b);
        lemma_raw_of_blocks_push(prefix, b);
        assert(rs.drop_last().push(rs.last()) =~= rs);
    }
}

} // verus!
