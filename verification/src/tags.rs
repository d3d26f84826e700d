//! Tags and their attachments.  A tag belongs to a user; attachments
//! link a tag to a customer or a posting through a join set in which
//! each pair occurs at most once — attaching an attached tag changes
//! nothing, as an insert that yields to an existing row does.

use vstd::prelude::*;
use crate::matchings::clone_opt_string;

verus! {

/// The color a tag gets when the request names none.
pub open spec fn default_tag_color() -> Seq<char> {
    "#6B7280"@
}

/// A tag owned by a user.  Timestamps are seconds since the Unix epoch.
#[derive(Clone, Debug)]
pub struct Tag {
    pub id: i64,
    pub user_id: i64,
    pub tag_name: String,
    pub tag_color: String,
    pub description: Option<String>,
    pub created_at: i64,
    pub updated_at: i64,
    pub deleted_at: Option<i64>,
}

/// A request to create a tag; a missing color falls back to the
/// default.
#[derive(Clone, Debug)]
pub struct CreateTagRequest {
    pub tag_name: String,
    pub tag_color: Option<String>,
    pub description: Option<String>,
}

/// A partial tag update: supplied fields override the stored values.
#[derive(Clone, Debug)]
pub struct UpdateTagRequest {
    pub tag_name: Option<String>,
    pub tag_color: Option<String>,
    pub description: Option<String>,
}

/// A request to attach a batch of tags to an entity.
#[derive(Clone, Debug)]
pub struct AttachTagsRequest {
    pub tag_ids: Vec<i64>,
}

/// The body of a plain success response.
#[derive(Clone, Debug)]
pub struct SuccessResponse {
    pub message: String,
}

impl Tag {
    /// An exact copy of the tag.
    pub fn duplicate(&self) -> (r: Tag)
        ensures
            r == *self,
    {
        Tag {
            id: self.id,
            user_id: self.user_id,
            tag_name: self.tag_name.clone(),
            tag_color: self.tag_color.clone(),
            description: clone_opt_string(&self.description),
            created_at: self.created_at,
            updated_at: self.updated_at,
            deleted_at: self.deleted_at,
        }
    }

    /// Merge a partial update: each supplied field replaces the stored
    /// one.
    pub fn apply_update(&self, req: &UpdateTagRequest, now: i64) -> (r: Tag)
        ensures
            r == (Tag {
                tag_name: match req.tag_name {
                    Some(n) => n,
                    None => self.tag_name,
                },
                tag_color: match req.tag_color {
                    Some(c) => c,
                    None => self.tag_color,
                },
                description: match req.description {
                    Some(d) => Some(d),
                    None => self.description,
                },
                updated_at: now,
                ..*self
            }),
    {
        let mut updated = self.duplicate();
        updated.tag_name = match &req.tag_name {
            Some(n) => n.clone(),
            None => self.tag_name.clone(),
        };
        updated.tag_color = match &req.tag_color {
            Some(c) => c.clone(),
            None => self.tag_color.clone(),
        };
        updated.description = match &req.description {
            Some(d) => Some(d.clone()),
            None => clone_opt_string(&self.description),
        };
        updated.updated_at = now;
        updated
    }
}

/// Build a tag from a creation request, owned by `user_id`; a missing
/// color falls back to the default.
pub fn create_tag(user_id: i64, req: &CreateTagRequest, id: i64, now: i64) -> (r: Tag)
    ensures
        r.id == id,
        r.user_id == user_id,
        r.tag_name@ == req.tag_name@,
        r.tag_color@ == (match req.tag_color {
            Some(c) => c@,
            None => default_tag_color(),
        }),
        r.description == req.description,
        r.created_at == now,
        r.deleted_at is None,
{
    Tag {
        id,
        user_id,
        tag_name: req.tag_name.clone(),
        tag_color: match &req.tag_color {
            Some(c) => c.clone(),
            None => String::from_str("#6B7280"),
        },
        description: clone_opt_string(&req.description),
        created_at: now,
        updated_at: now,
        deleted_at: None,
    }
}

/// One join set of tag attachments: the pairs (entity id, tag id) that
/// are attached, each pair at most once.
pub struct TagLinks {
    pub pairs: Vec<(i64, i64)>,
}

impl TagLinks {
    /// Each pair occurs at most once.
    pub open spec fn wf(self) -> bool {
        forall|i: int, j: int|
            0 <= i < j < self.pairs@.len() ==> self.pairs@[i] != self.pairs@[j]
    }

    /// An empty join set.
    pub fn new() -> (r: TagLinks)
        ensures
            r.pairs@.len() == 0,
            r.wf(),
    {
        TagLinks { pairs: Vec::new() }
    }

    /// Whether `tag_id` is attached to `entity_id`.
    pub open spec fn linked(self, entity_id: i64, tag_id: i64) -> bool {
        self.pairs@.contains((entity_id, tag_id))
    }

    /// Whether `tag_id` is attached to `entity_id`.
    pub fn is_linked(&self, entity_id: i64, tag_id: i64) -> (r: bool)
        ensures
            r == self.linked(entity_id, tag_id),
    {
        let n = self.pairs.len();
        let mut i: usize = 0;
        while i < n
            invariant
                n == self.pairs@.len(),
                i <= n,
                forall|j: int| 0 <= j < i ==> #[trigger] self.pairs@[j] != (entity_id, tag_id),
            decreases n - i,
        {
            let p = self.pairs[i];
            if p.0 == entity_id && p.1 == tag_id {
                return true;
            }
            i = i + 1;
        }
        false
    }

    /// Attach `tag_id` to `entity_id`.  A pair already present is left
    /// alone, so attaching twice is the same as attaching once.
    pub fn attach(&mut self, entity_id: i64, tag_id: i64)
        requires
            old(self).wf(),
        ensures
            final(self).wf(),
            final(self).linked(entity_id, tag_id),
            final(self).pairs@ == if old(self).linked(entity_id, tag_id) {
                old(self).pairs@
            } else {
                old(self).pairs@.push((entity_id, tag_id))
            },
    {
        if !self.is_linked(entity_id, tag_id) {
            self.pairs.push((entity_id, tag_id));
            proof {
                assert(self.pairs@.last() == (entity_id, tag_id));
                assert(self.pairs@.contains(self.pairs@[self.pairs@.len() - 1]));
            }
        }
    }

    /// Detach `tag_id` from `entity_id`: afterwards the pair is gone,
    /// and every other pair is untouched.
    pub fn detach(&mut self, entity_id: i64, tag_id: i64)
        requires
            old(self).wf(),
        ensures
            final(self).wf(),
            !final(self).linked(entity_id, tag_id),
            forall|p: (i64, i64)|
                p != (entity_id, tag_id) ==> (final(self).pairs@.contains(p) <==> old(
                    self,
                ).pairs@.contains(p)),
    {
        let n = self.pairs.len();
        let mut out: Vec<(i64, i64)> = Vec::new();
        let mut i: usize = 0;
        while i < n
            invariant
                n == self.pairs@.len(),
                i <= n,
                out@ == self.pairs@.subrange(0, i as int).filter(
                    |p: (i64, i64)| p != (entity_id, tag_id),
                ),
            decreases n - i,
        {
            proof {
                reveal(Seq::filter);
                assert(self.pairs@.subrange(0, i + 1 as int).drop_last() == self.pairs@.subrange(
                    0,
                    i as int,
                ));
            }
            let p = self.pairs[i];
            if !(p.0 == entity_id && p.1 == tag_id) {
                out.push(p);
            }
            i = i + 1;
        }
        proof {
            assert(self.pairs@.subrange(0, n as int) == self.pairs@);
        }
        let ghost pre = self.pairs@;
        self.pairs = out;
        proof {
            let pred = |p: (i64, i64)| p != (entity_id, tag_id);
            broadcast use vstd::seq_lib::group_filter_ensures;

            assert forall|p: (i64, i64)| p != (entity_id, tag_id) implies (
            self.pairs@.contains(p) <==> pre.contains(p)) by {
                if pre.contains(p) {
                    let k = choose|k: int| 0 <= k < pre.len() && pre[k] == p;
                    assert(pre.filter(pred).contains(pre[k]));
                }
                if self.pairs@.contains(p) {
                    let k = choose|k: int|
                        0 <= k < self.pairs@.len() && self.pairs@[k] == p;
                    assert(pre.filter(pred)[k] == p);
                    lemma_filter_membership(pre, pred, k);
                }
            }
            if self.pairs@.contains((entity_id, tag_id)) {
                let k = choose|k: int|
                    0 <= k < self.pairs@.len() && self.pairs@[k] == (entity_id, tag_id);
                assert(pred(pre.filter(pred)[k]));
            }
            lemma_filter_keeps_distinct(pre, pred);
        }
    }

    /// Attach every tag in the batch, in order; each one lands exactly
    /// as a single attach would.
    pub fn batch_attach(&mut self, entity_id: i64, tag_ids: &Vec<i64>)
        requires
            old(self).wf(),
        ensures
            final(self).wf(),
            forall|j: int|
                0 <= j < tag_ids@.len() ==> final(self).linked(entity_id, #[trigger] tag_ids@[j]),
    {
        let n = tag_ids.len();
        let mut i: usize = 0;
        while i < n
            invariant
                n == tag_ids@.len(),
                i <= n,
                self.wf(),
                forall|j: int|
                    0 <= j < i ==> self.linked(entity_id, #[trigger] tag_ids@[j]),
            decreases n - i,
        {
            let ghost before = self.pairs@;
            self.attach(entity_id, tag_ids[i]);
            proof {
                assert forall|j: int| 0 <= j < i implies self.linked(
                    entity_id,
                    #[trigger] tag_ids@[j],
                ) by {
                    let k = choose|k: int|
                        0 <= k < before.len() && before[k] == (entity_id, tag_ids@[j]);
                    assert(self.pairs@[k] == (entity_id, tag_ids@[j]));
                }
            }
            i = i + 1;
        }
    }
}

/// An element of a filtered sequence comes from the original sequence.
proof fn lemma_filter_membership<T>(s: Seq<T>, pred: spec_fn(T) -> bool, k: int)
    requires
        0 <= k < s.filter(pred).len(),
    ensures
        s.contains(s.filter(pred)[k]),
    decreases s.len(),
{
    reveal(Seq::filter);
    if s.len() > 0 {
        let last = s.last();
        if pred(last) && k == s.filter(pred).len() - 1 {
            assert(s.filter(pred)[k] == last);
        } else {
            lemma_filter_membership(s.drop_last(), pred, k);
            assert(s.drop_last().contains(s.drop_last().filter(pred)[k]));
            let j = choose|j: int|
                0 <= j < s.drop_last().len() && s.drop_last()[j] == s.drop_last().filter(pred)[k];
            assert(s[j] == s.filter(pred)[k]);
        }
    }
}

/// Filtering a duplicate-free sequence leaves it duplicate-free.
proof fn lemma_filter_keeps_distinct<T>(s: Seq<T>, pred: spec_fn(T) -> bool)
    requires
        forall|i: int, j: int| 0 <= i < j < s.len() ==> s[i] != s[j],
    ensures
        forall|i: int, j: int|
            0 <= i < j < s.filter(pred).len() ==> s.filter(pred)[i] != s.filter(pred)[j],
    decreases s.len(),
{
    reveal(Seq::filter);
    if s.len() > 0 {
        lemma_filter_keeps_distinct(s.drop_last(), pred);
        let f = s.filter(pred);
        let fd = s.drop_last().filter(pred);
        assert forall|i: int, j: int| 0 <= i < j < f.len() implies f[i] != f[j] by {
            if pred(s.last()) {
                assert(f == fd.push(s.last()));
                if j < f.len() - 1 {
                    assert(f[i] == fd[i] && f[j] == fd[j]);
                } else {
                    assert(f[j] == s.last());
                    lemma_filter_membership(s.drop_last(), pred, i);
                    let k = choose|k: int|
                        0 <= k < s.drop_last().len() && s.drop_last()[k] == fd[i];
                    assert(s[k] == f[i]);
                    assert(s[k] != s.last());
                }
            } else {
                assert(f == fd);
            }
        }
    }
}

} // verus!
