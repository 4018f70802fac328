//! The document store: an ordered collection of posts keyed by a
//! store-assigned identity, with create, lookup, listing, full-document
//! replacement and the merge-style append-block update. The store is the
//! sole owner of persisted posts; callers work on transient copies.
//!
//! `append_block` rewrites only the `blocks` field of the stored
//! document, so it composes with concurrent updates of unrelated fields.
//! Two concurrent appends to the same document are still a lost-update
//! race unless the backing store serializes them; this in-memory store,
//! mutated through `&mut`, serializes all operations by construction.

use vstd::prelude::*;

use crate::blocks::Block;
use crate::errors::StoreError;
use crate::post::{clone_blocks, Post, PostV};

verus! {

/// The images of a sequence of posts.
pub open spec fn posts_view(s: Seq<Post>) -> Seq<PostV> {
    s.map_values(|p: Post| p@)
}

/// Whether some document carries the given identity.
pub open spec fn contains_id(docs: Seq<PostV>, id: u64) -> bool {
    exists|i: int| 0 <= i < docs.len() && (#[trigger] docs[i]).id == Some(id)
}

/// The position of the document carrying the given identity; meaningful
/// only where `contains_id` holds and identities are unique.
pub open spec fn idx_of(docs: Seq<PostV>, id: u64) -> int {
    choose|i: int| 0 <= i < docs.len() && (#[trigger] docs[i]).id == Some(id)
}

/// No two documents carry the same identity.
pub open spec fn ids_unique(docs: Seq<PostV>) -> bool {
    forall|i: int, j: int|
        0 <= i < j < docs.len() ==> (#[trigger] docs[i]).id != (#[trigger] docs[j]).id
}

/// Mathematical image of a `Store`: the identity counter and the stored
/// documents in insertion order.
pub struct StoreV {
    pub next_id: u64,
    pub docs: Seq<PostV>,
}

/// Under unique identities, any position holding the identity is the
/// position `idx_of` picks.
pub proof fn lemma_idx_of_unique(docs: Seq<PostV>, id: u64, i: int)
    requires
        ids_unique(docs),
        0 <= i < docs.len(),
        docs[i].id == Some(id),
    ensures
        contains_id(docs, id),
        idx_of(docs, id) == i,
{
    assert(contains_id(docs, id));
    let j = idx_of(docs, id);
    if i < j {
        assert(docs[i].id != docs[j].id);
    } else if j < i {
        assert(docs[j].id != docs[i].id);
    }
}

/// The in-memory document store.
pub struct Store {
    next_id: u64,
    docs: Vec<Post>,
}

impl View for Store {
    type V = StoreV;

    closed spec fn view(&self) -> StoreV {
        StoreV { next_id: self.next_id, docs: posts_view(self.docs@) }
    }
}

/// The images of a pushed post vector append the image of the pushed
/// post.
proof fn lemma_posts_view_push(s: Seq<Post>, p: Post)
    ensures
        posts_view(s.push(p)) == posts_view(s).push(p@),
{
    assert(posts_view(s.push(p)) =~= posts_view(s).push(p@));
}

/// The images of an updated post vector update the image at the same
/// position.
proof fn lemma_posts_view_update(s: Seq<Post>, i: int, p: Post)
    requires
        0 <= i < s.len(),
    ensures
        posts_view(s.update(i, p)) == posts_view(s).update(i, p@),
{
    assert(posts_view(s.update(i, p)) =~= posts_view(s).update(i, p@));
}

impl Store {
    /// The store's well-formedness: every document carries an identity,
    /// all identities are unique, and all lie below the counter.
    pub open spec fn wf(&self) -> bool {
        &&& forall|i: int|
            0 <= i < self@.docs.len() ==> ((#[trigger] self@.docs[i]).id matches Some(n) && n
                < self@.next_id)
        &&& ids_unique(self@.docs)
    }

    /// An empty store, owning no documents yet.
    pub fn new() -> (s: Store)
        ensures
            s.wf(),
            s@.docs == Seq::<PostV>::empty(),
            s@.next_id == 0,
    {
        let s = Store { next_id: 0, docs: Vec::new() };
        proof {
            assert(posts_view(s.docs@) =~= Seq::<PostV>::empty());
        }
        s
    }

    /// Creates a document: assigns the next identity, stores the post
    /// under it at the end of the collection, and returns the stored
    /// state. The input must not claim an identity yet. The write is
    /// rejected, changing nothing, exactly when the identity space is
    /// exhausted; the carried message is diagnostic only.
    pub fn create(&mut self, post: Post) -> (res: Result<Post, StoreError>)
        requires
            old(self).wf(),
            post@.id is None,
        ensures
            final(self).wf(),
            match res {
                Ok(p) => {
                    &&& old(self)@.next_id < u64::MAX
                    &&& p@.id == Some(old(self)@.next_id)
                    &&& p@.title == post@.title
                    &&& p@.blocks == post@.blocks
                    &&& final(self)@.docs == old(self)@.docs.push(p@)
                    &&& final(self)@.next_id == old(self)@.next_id + 1
                },
                Err(e) => {
                    &&& e matches StoreError::WriteRejected(_)
                    &&& old(self)@.next_id == u64::MAX
                    &&& final(self)@ == old(self)@
                },
            },
    {
        if self.next_id == u64::MAX {
            return Err(StoreError::WriteRejected("identifier space exhausted".to_owned()));
        }
        let id = self.next_id;
        self.next_id = self.next_id + 1;
        let stored = Post { id: Some(id), title: post.title, blocks: post.blocks };
        let ret = stored.clone();
        proof {
            lemma_posts_view_push(self.docs@, stored);
        }
        self.docs.push(stored);
        Ok(ret)
    }

    /// Looks a document up by identity, returning a copy of its stored
    /// state; succeeds exactly when the identity is present.
    pub fn get_by_id(&self, id: u64) -> (res: Result<Post, StoreError>)
        requires
            self.wf(),
        ensures
            match res {
                Ok(p) => contains_id(self@.docs, id) && p@ == self@.docs[idx_of(self@.docs, id)],
                Err(e) => e == StoreError::NotFound && !contains_id(self@.docs, id),
            },
    {
        let mut i: usize = 0;
        while i < self.docs.len()
            invariant
                self.wf(),
                i <= self.docs@.len(),
                forall|j: int| 0 <= j < i ==> (#[trigger] self@.docs[j]).id != Some(id),
            decreases self.docs@.len() - i,
        {
            match self.docs[i].id {
                Some(d) => {
                    if d == id {
                        proof {
                            lemma_idx_of_unique(self@.docs, id, i as int);
                        }
                        return Ok(self.docs[i].clone());
                    }
                },
                None => {},
            }
            i = i + 1;
        }
        Err(StoreError::NotFound)
    }

    /// Lists every stored document, as copies, in the store's own order.
    pub fn list_all(&self) -> (res: Vec<Post>)
        ensures
            posts_view(res@) == self@.docs,
    {
        let mut res: Vec<Post> = Vec::new();
        let mut i: usize = 0;
        proof {
            assert(posts_view(res@) =~= self@.docs.take(0));
        }
        while i < self.docs.len()
            invariant
                i <= self.docs@.len(),
                posts_view(res@) == self@.docs.take(i as int),
            decreases self.docs@.len() - i,
        {
            proof {
                lemma_posts_view_push(res@, self.docs@[i as int]);
                assert(self@.docs.take(i + 1) =~= self@.docs.take(i as int).push(
                    self@.docs[i as int],
                ));
            }
            let copy = self.docs[i].clone();
            proof {
                assert(posts_view(res@).push(copy@) =~= posts_view(res@).push(
                    self@.docs[i as int],
                ));
            }
            res.push(copy);
            i = i + 1;
        }
        proof {
            assert(self@.docs.take(self@.docs.len() as int) =~= self@.docs);
        }
        res
    }

    /// Replaces the whole stored document under the given identity: the
    /// stored state becomes exactly the given post's title and blocks,
    /// while the identity is kept from the addressed document, never
    /// taken from the post's body. Fails with `NotFound`, changing
    /// nothing, exactly when the identity is absent.
    pub fn replace(&mut self, id: u64, post: &Post) -> (res: Result<Post, StoreError>)
        requires
            old(self).wf(),
        ensures
            final(self).wf(),
            final(self)@.next_id == old(self)@.next_id,
            match res {
                Ok(p) => {
                    &&& contains_id(old(self)@.docs, id)
                    &&& p@.id == Some(id)
                    &&& p@.title == post@.title
                    &&& p@.blocks == post@.blocks
                    &&& final(self)@.docs == old(self)@.docs.update(
                        idx_of(old(self)@.docs, id),
                        p@,
                    )
                },
                Err(e) => {
                    &&& e == StoreError::NotFound
                    &&& !contains_id(old(self)@.docs, id)
                    &&& final(self)@ == old(self)@
                },
            },
    {
        let mut i: usize = 0;
        while i < self.docs.len()
            invariant
                self.wf(),
                self@ == old(self)@,
                i <= self.docs@.len(),
                forall|j: int| 0 <= j < i ==> (#[trigger] self@.docs[j]).id != Some(id),
            decreases self.docs@.len() - i,
        {
            let found = match self.docs[i].id {
                Some(d) => d == id,
                None => false,
            };
            if found {
                proof {
                    lemma_idx_of_unique(self@.docs, id, i as int);
                }
                let stored = Post {
                    id: Some(id),
                    title: post.title.clone(),
                    blocks: clone_blocks(&post.blocks),
                };
                let ret = stored.clone();
                proof {
                    lemma_posts_view_update(self.docs@, i as int, stored);
                }
                let slot = &mut self.docs[i];
                *slot = stored;
                return Ok(ret);
            }
            i = i + 1;
        }
        Err(StoreError::NotFound)
    }

    /// Appends one block at the end of the addressed document's block
    /// sequence, a merge update: the identity, the title and every
    /// earlier block of the stored document are left untouched. Fails
    /// with `NotFound`, changing nothing, exactly when the identity is
    /// absent.
    pub fn append_block(&mut self, id: u64, block: Block) -> (res: Result<Post, StoreError>)
        requires
            old(self).wf(),
        ensures
            final(self).wf(),
            final(self)@.next_id == old(self)@.next_id,
            match res {
                Ok(p) => {
                    &&& contains_id(old(self)@.docs, id)
                    &&& p@.id == Some(id)
                    &&& p@.title == old(self)@.docs[idx_of(old(self)@.docs, id)].title
                    &&& p@.blocks == old(self)@.docs[idx_of(old(self)@.docs, id)].blocks.push(
                        block@,
                    )
                    &&& final(self)@.docs == old(self)@.docs.update(
                        idx_of(old(self)@.docs, id),
                        p@,
                    )
                },
                Err(e) => {
                    &&& e == StoreError::NotFound
                    &&& !contains_id(old(self)@.docs, id)
                    &&& final(self)@ == old(self)@
                },
            },
    {
        let mut i: usize = 0;
        while i < self.docs.len()
            invariant
                self.wf(),
                self@ == old(self)@,
                i <= self.docs@.len(),
                forall|j: int| 0 <= j < i ==> (#[trigger] self@.docs[j]).id != Some(id),
            decreases self.docs@.len() - i,
        {
            let found = match self.docs[i].id {
                Some(d) => d == id,
                None => false,
            };
            if found {
                proof {
                    lemma_idx_of_unique(self@.docs, id, i as int);
                }
                let current = self.docs[i].clone();
                let mut blocks = current.blocks;
                blocks.push(block);
                let stored = Post { id: Some(id), title: current.title, blocks };
                let ret = stored.clone();
                proof {
                    lemma_posts_view_update(self.docs@, i as int, stored);
                    assert(crate::post::blocks_view(stored.blocks@) =~= old(
                        self,
                    )@.docs[idx_of(old(self)@.docs, id)].blocks.push(block@));
                }
                let slot = &mut self.docs[i];
                *slot = stored;
                return Ok(ret);
            }
            i = i + 1;
        }
        Err(StoreError::NotFound)
    }
}

} // verus!
