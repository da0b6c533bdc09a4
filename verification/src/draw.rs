//! The frame's render output: draw lists of vertices, indices and
//! commands, extracted once a frame is finished.
//!
//! The engine hands this data over for exactly one tick; the model here
//! owns a plain-value copy with checked internal consistency (every index
//! addresses a vertex of its own list) and offers the two in-place
//! transforms the render backend may ask for: de-indexing and clip-rect
//! scaling. Coordinates are carried as integers in engine units, colors
//! packed 8 bits per channel.

use vstd::prelude::*;

verus! {

use vstd::pervasive::VecAdditionalExecFns;

/// One vertex: position, texture coordinates, packed color.
#[derive(Clone, Copy, Debug, PartialEq, Eq, Structural)]
pub struct DrawVert {
    pub pos_x: i32,
    pub pos_y: i32,
    pub uv_u: i32,
    pub uv_v: i32,
    pub col: u32,
}

/// One draw command: how many indices it consumes, its clip rectangle,
/// and the texture it binds.
#[derive(Clone, Copy, Debug, PartialEq, Eq, Structural)]
pub struct DrawCmd {
    pub elem_count: u32,
    pub clip_x1: i32,
    pub clip_y1: i32,
    pub clip_x2: i32,
    pub clip_y2: i32,
    pub texture_id: usize,
}

/// One engine batch: an ordered command list over shared vertex and index
/// arrays.
#[derive(Debug)]
pub struct DrawList {
    pub cmd_buffer: Vec<DrawCmd>,
    pub idx_buffer: Vec<u32>,
    pub vtx_buffer: Vec<DrawVert>,
}

/// A whole frame's output: the engine's validity flag and the ordered
/// draw lists.
#[derive(Debug)]
pub struct DrawData {
    pub valid: bool,
    pub cmd_lists: Vec<DrawList>,
}

/// Every index addresses a vertex of the same list, and the index count
/// leaves room for an identity re-numbering in 32 bits.
pub open spec fn list_wf(l: DrawList) -> bool {
    &&& forall|i: int| 0 <= i < l.idx_buffer@.len() ==> l.idx_buffer@[i] < l.vtx_buffer@.len()
    &&& l.idx_buffer@.len() <= u32::MAX
}

/// The vertex stream a list's indices spell out: entry `i` is the vertex
/// the `i`-th index points at.
pub open spec fn deindexed_vtx(vtx: Seq<DrawVert>, idx: Seq<u32>) -> Seq<DrawVert> {
    Seq::new(idx.len(), |i: int| vtx[idx[i] as int])
}

/// The identity index sequence `0, 1, .., n-1`.
pub open spec fn identity_idx(n: nat) -> Seq<u32> {
    Seq::new(n, |i: int| i as u32)
}

/// Total vertices across the given lists.
pub open spec fn sum_vtx(lists: Seq<DrawList>) -> int
    decreases lists.len(),
{
    if lists.len() == 0 {
        0
    } else {
        sum_vtx(lists.drop_last()) + lists.last().vtx_buffer@.len()
    }
}

/// Total indices across the given lists.
pub open spec fn sum_idx(lists: Seq<DrawList>) -> int
    decreases lists.len(),
{
    if lists.len() == 0 {
        0
    } else {
        sum_idx(lists.drop_last()) + lists.last().idx_buffer@.len()
    }
}

/// Partial vertex sums only grow.
proof fn lemma_sum_vtx_mono(lists: Seq<DrawList>, i: int)
    requires
        0 <= i <= lists.len(),
    ensures
        sum_vtx(lists.take(i)) >= 0,
        sum_vtx(lists.take(i)) <= sum_vtx(lists),
    decreases lists.len() - i,
{
    if i == lists.len() {
        assert(lists.take(i) =~= lists);
        lemma_sum_vtx_nonneg(lists);
    } else {
        lemma_sum_vtx_mono(lists, i + 1);
        lemma_sum_vtx_nonneg(lists.take(i));
        assert(lists.take(i + 1).drop_last() =~= lists.take(i));
    }
}

proof fn lemma_sum_vtx_nonneg(lists: Seq<DrawList>)
    ensures
        sum_vtx(lists) >= 0,
    decreases lists.len(),
{
    if lists.len() > 0 {
        lemma_sum_vtx_nonneg(lists.drop_last());
    }
}

/// Partial index sums only grow.
proof fn lemma_sum_idx_mono(lists: Seq<DrawList>, i: int)
    requires
        0 <= i <= lists.len(),
    ensures
        sum_idx(lists.take(i)) >= 0,
        sum_idx(lists.take(i)) <= sum_idx(lists),
    decreases lists.len() - i,
{
    if i == lists.len() {
        assert(lists.take(i) =~= lists);
        lemma_sum_idx_nonneg(lists);
    } else {
        lemma_sum_idx_mono(lists, i + 1);
        lemma_sum_idx_nonneg(lists.take(i));
        assert(lists.take(i + 1).drop_last() =~= lists.take(i));
    }
}

proof fn lemma_sum_idx_nonneg(lists: Seq<DrawList>)
    ensures
        sum_idx(lists) >= 0,
    decreases lists.len(),
{
    if lists.len() > 0 {
        lemma_sum_idx_nonneg(lists.drop_last());
    }
}

/// One clip coordinate scaled by a factor in thousandths: the product is
/// divided toward zero and clamped to the coordinate range.
pub open spec fn scaled_coord(c: i32, m: u32) -> i32 {
    let p: int = (c as int) * (m as int);
    let q: int = if p >= 0 {
        p / 1000
    } else {
        -((-p) / 1000)
    };
    if q > i32::MAX {
        i32::MAX
    } else if q < i32::MIN {
        i32::MIN
    } else {
        q as i32
    }
}

/// A command with its clip rectangle scaled and everything else kept.
pub open spec fn scaled_cmd(cmd: DrawCmd, sx: u32, sy: u32) -> DrawCmd {
    DrawCmd {
        clip_x1: scaled_coord(cmd.clip_x1, sx),
        clip_y1: scaled_coord(cmd.clip_y1, sy),
        clip_x2: scaled_coord(cmd.clip_x2, sx),
        clip_y2: scaled_coord(cmd.clip_y2, sy),
        ..cmd
    }
}

/// Scales one coordinate; the whole computation fits in 64 bits.
fn scale_coord(c: i32, m: u32) -> (r: i32)
    ensures
        r == scaled_coord(c, m),
{
    proof {
        lemma_coord_product_fits(c as int, m as int);
    }
    let p: i64 = (c as i64) * (m as i64);
    let q: i64 = if p >= 0 {
        p / 1000
    } else {
        -((-p) / 1000)
    };
    if q > (i32::MAX as i64) {
        i32::MAX
    } else if q < (i32::MIN as i64) {
        i32::MIN
    } else {
        q as i32
    }
}

/// The product of a coordinate and a thousandths factor stays inside the
/// 64-bit range.
proof fn lemma_coord_product_fits(c: int, m: int)
    requires
        -0x8000_0000 <= c <= 0x7fff_ffff,
        0 <= m <= 0xffff_ffff,
    ensures
        -0x7fff_ffff_ffff_ffff <= c * m <= 0x7fff_ffff_ffff_ffff,
{
    assert(-0x7fff_ffff_ffff_ffff <= c * m <= 0x7fff_ffff_ffff_ffff) by (nonlinear_arith)
        requires
            -0x8000_0000 <= c <= 0x7fff_ffff,
            0 <= m <= 0xffff_ffff,
    ;
}

impl DrawList {
    /// Replaces indexed triangles by a flat vertex stream: the vertex
    /// buffer becomes the stream the indices spelled out, and the index
    /// buffer becomes the identity over it. Commands are untouched.
    pub fn deindex(&mut self)
        requires
            list_wf(*old(self)),
        ensures
            list_wf(*final(self)),
            final(self).vtx_buffer@ == deindexed_vtx(old(self).vtx_buffer@, old(self).idx_buffer@),
            final(self).idx_buffer@ == identity_idx(old(self).idx_buffer@.len()),
            final(self).cmd_buffer@ == old(self).cmd_buffer@,
            final(self).vtx_buffer@.len() == old(self).idx_buffer@.len(),
    {
        let n: usize = self.idx_buffer.len();
        let mut new_vtx: Vec<DrawVert> = Vec::new();
        let mut i: usize = 0;
        while i < n
            invariant
                n == self.idx_buffer@.len(),
                list_wf(*self),
                0 <= i <= n,
                new_vtx@ =~= deindexed_vtx(self.vtx_buffer@, self.idx_buffer@.take(i as int)),
                *self == *old(self),
            decreases n - i,
        {
            let idx: u32 = self.idx_buffer[i];
            let v = self.vtx_buffer[idx as usize];
            new_vtx.push(v);
            proof {
                assert(new_vtx@ =~= deindexed_vtx(
                    self.vtx_buffer@,
                    self.idx_buffer@.take(i + 1),
                ));
            }
            i += 1;
        }
        let mut new_idx: Vec<u32> = Vec::new();
        let mut j: usize = 0;
        while j < n
            invariant
                n <= u32::MAX,
                0 <= j <= n,
                new_idx@ =~= identity_idx(j as nat),
            decreases n - j,
        {
            new_idx.push(j as u32);
            proof {
                assert(new_idx@ =~= identity_idx((j + 1) as nat));
            }
            j += 1;
        }
        self.vtx_buffer = new_vtx;
        self.idx_buffer = new_idx;
        proof {
            assert(final(self).vtx_buffer@ =~= deindexed_vtx(
                old(self).vtx_buffer@,
                old(self).idx_buffer@,
            ));
            assert(final(self).idx_buffer@ =~= identity_idx(old(self).idx_buffer@.len()));
        }
    }

    /// Reports whether every index addresses a vertex of this list.
    pub fn check_consistent(&self) -> (r: bool)
        ensures
            r == list_wf(*self),
    {
        if self.idx_buffer.len() > u32::MAX as usize {
            return false;
        }
        let n: usize = self.idx_buffer.len();
        let vn: usize = self.vtx_buffer.len();
        let mut i: usize = 0;
        while i < n
            invariant
                n == self.idx_buffer@.len(),
                vn == self.vtx_buffer@.len(),
                0 <= i <= n,
                forall|k: int| 0 <= k < i ==> self.idx_buffer@[k] < vn,
            decreases n - i,
        {
            if self.idx_buffer[i] as usize >= vn {
                return false;
            }
            i += 1;
        }
        true
    }
}

/// De-indexing is idempotent: a list that is already flat (identity
/// indices over a matching vertex stream) is left exactly as it is by
/// another application of the transform.
pub proof fn lemma_deindex_idempotent(vtx: Seq<DrawVert>, idx: Seq<u32>)
    requires
        forall|i: int| 0 <= i < idx.len() ==> idx[i] < vtx.len(),
        idx.len() <= u32::MAX,
    ensures
        deindexed_vtx(deindexed_vtx(vtx, idx), identity_idx(idx.len())) == deindexed_vtx(vtx, idx),
        identity_idx(identity_idx(idx.len()).len()) == identity_idx(idx.len()),
{
    assert(deindexed_vtx(deindexed_vtx(vtx, idx), identity_idx(idx.len())) =~= deindexed_vtx(
        vtx,
        idx,
    ));
}

impl DrawData {
    /// An empty frame: nothing to draw, flag down.
    pub fn empty() -> (d: DrawData)
        ensures
            !d.valid,
            d.cmd_lists@.len() == 0,
            d.wf(),
    {
        DrawData { valid: false, cmd_lists: Vec::new() }
    }

    /// Every list is internally consistent.
    pub open spec fn wf(&self) -> bool {
        forall|i: int| 0 <= i < self.cmd_lists@.len() ==> list_wf(#[trigger] self.cmd_lists@[i])
    }

    /// The engine's flag: whether this data describes a drawable frame.
    pub fn is_valid(&self) -> (r: bool)
        ensures
            r == self.valid,
    {
        self.valid
    }

    /// How many draw lists the frame produced.
    pub fn draw_list_count(&self) -> (r: usize)
        ensures
            r == self.cmd_lists@.len(),
    {
        self.cmd_lists.len()
    }

    /// Borrows one draw list.
    pub fn draw_list(&self, i: usize) -> (r: &DrawList)
        requires
            i < self.cmd_lists@.len(),
        ensures
            r == self.cmd_lists@[i as int],
    {
        &self.cmd_lists[i]
    }

    /// Total vertex count across all lists: what a backend pre-sizes its
    /// vertex buffer to.
    pub fn total_vtx_count(&self) -> (r: usize)
        requires
            sum_vtx(self.cmd_lists@) <= usize::MAX,
        ensures
            r == sum_vtx(self.cmd_lists@),
    {
        let n: usize = self.cmd_lists.len();
        let mut acc: usize = 0;
        let mut i: usize = 0;
        while i < n
            invariant
                n == self.cmd_lists@.len(),
                0 <= i <= n,
                sum_vtx(self.cmd_lists@) <= usize::MAX,
                acc == sum_vtx(self.cmd_lists@.take(i as int)),
            decreases n - i,
        {
            proof {
                lemma_sum_vtx_mono(self.cmd_lists@, i + 1);
                assert(self.cmd_lists@.take(i + 1).drop_last() =~= self.cmd_lists@.take(i as int));
            }
            acc = acc + self.cmd_lists[i].vtx_buffer.len();
            i += 1;
        }
        proof {
            assert(self.cmd_lists@.take(n as int) =~= self.cmd_lists@);
        }
        acc
    }

    /// Total index count across all lists: what a backend pre-sizes its
    /// index buffer to.
    pub fn total_idx_count(&self) -> (r: usize)
        requires
            sum_idx(self.cmd_lists@) <= usize::MAX,
        ensures
            r == sum_idx(self.cmd_lists@),
    {
        let n: usize = self.cmd_lists.len();
        let mut acc: usize = 0;
        let mut i: usize = 0;
        while i < n
            invariant
                n == self.cmd_lists@.len(),
                0 <= i <= n,
                sum_idx(self.cmd_lists@) <= usize::MAX,
                acc == sum_idx(self.cmd_lists@.take(i as int)),
            decreases n - i,
        {
            proof {
                lemma_sum_idx_mono(self.cmd_lists@, i + 1);
                assert(self.cmd_lists@.take(i + 1).drop_last() =~= self.cmd_lists@.take(i as int));
            }
            acc = acc + self.cmd_lists[i].idx_buffer.len();
            i += 1;
        }
        proof {
            assert(self.cmd_lists@.take(n as int) =~= self.cmd_lists@);
        }
        acc
    }

    /// Reports whether every list is internally consistent.
    pub fn check_consistent(&self) -> (r: bool)
        ensures
            r == self.wf(),
    {
        let n: usize = self.cmd_lists.len();
        let mut i: usize = 0;
        while i < n
            invariant
                n == self.cmd_lists@.len(),
                0 <= i <= n,
                forall|k: int| 0 <= k < i ==> list_wf(#[trigger] self.cmd_lists@[k]),
            decreases n - i,
        {
            if !self.cmd_lists[i].check_consistent() {
                return false;
            }
            i += 1;
        }
        true
    }

    /// De-indexes every list in place; the validity flag and the command
    /// buffers survive unchanged.
    pub fn deindex_all_buffers(&mut self)
        requires
            old(self).wf(),
        ensures
            final(self).wf(),
            final(self).valid == old(self).valid,
            final(self).cmd_lists@.len() == old(self).cmd_lists@.len(),
            forall|i: int| 0 <= i < old(self).cmd_lists@.len() ==> {
                let pre = old(self).cmd_lists@[i];
                let post = #[trigger] final(self).cmd_lists@[i];
                &&& post.vtx_buffer@ == deindexed_vtx(pre.vtx_buffer@, pre.idx_buffer@)
                &&& post.idx_buffer@ == identity_idx(pre.idx_buffer@.len())
                &&& post.cmd_buffer@ == pre.cmd_buffer@
                &&& post.vtx_buffer@.len() == pre.idx_buffer@.len()
            },
    {
        let n: usize = self.cmd_lists.len();
        let mut i: usize = 0;
        while i < n
            invariant
                old(self).wf(),
                n == self.cmd_lists@.len(),
                n == old(self).cmd_lists@.len(),
                0 <= i <= n,
                self.valid == old(self).valid,
                forall|k: int| i <= k < n ==> self.cmd_lists@[k] == old(self).cmd_lists@[k],
                forall|k: int| 0 <= k < i ==> {
                    let pre = old(self).cmd_lists@[k];
                    let post = #[trigger] self.cmd_lists@[k];
                    &&& list_wf(post)
                    &&& post.vtx_buffer@ == deindexed_vtx(pre.vtx_buffer@, pre.idx_buffer@)
                    &&& post.idx_buffer@ == identity_idx(pre.idx_buffer@.len())
                    &&& post.cmd_buffer@ == pre.cmd_buffer@
                },
            decreases n - i,
        {
            let list = &mut self.cmd_lists[i];
            list.deindex();
            i += 1;
        }
    }

    /// Scales every command's clip rectangle by the given factors in
    /// thousandths, for backends whose framebuffer scale differs from the
    /// logical scale. Vertices and indices are untouched.
    pub fn scale_clip_rects(&mut self, sx_milli: u32, sy_milli: u32)
        requires
            old(self).wf(),
        ensures
            final(self).wf(),
            final(self).valid == old(self).valid,
            final(self).cmd_lists@.len() == old(self).cmd_lists@.len(),
            forall|i: int| 0 <= i < old(self).cmd_lists@.len() ==> {
                let pre = old(self).cmd_lists@[i];
                let post = #[trigger] final(self).cmd_lists@[i];
                &&& post.vtx_buffer@ == pre.vtx_buffer@
                &&& post.idx_buffer@ == pre.idx_buffer@
                &&& post.cmd_buffer@.len() == pre.cmd_buffer@.len()
                &&& forall|j: int| 0 <= j < pre.cmd_buffer@.len() ==> #[trigger] post.cmd_buffer@[j]
                    == scaled_cmd(pre.cmd_buffer@[j], sx_milli, sy_milli)
            },
    {
        let n: usize = self.cmd_lists.len();
        let mut i: usize = 0;
        while i < n
            invariant
                old(self).wf(),
                n == self.cmd_lists@.len(),
                n == old(self).cmd_lists@.len(),
                0 <= i <= n,
                self.valid == old(self).valid,
                forall|k: int| i <= k < n ==> self.cmd_lists@[k] == old(self).cmd_lists@[k],
                forall|k: int| 0 <= k < i ==> {
                    let pre = old(self).cmd_lists@[k];
                    let post = #[trigger] self.cmd_lists@[k];
                    &&& list_wf(post)
                    &&& post.vtx_buffer@ == pre.vtx_buffer@
                    &&& post.idx_buffer@ == pre.idx_buffer@
                    &&& post.cmd_buffer@.len() == pre.cmd_buffer@.len()
                    &&& forall|j: int| 0 <= j < pre.cmd_buffer@.len() ==> #[trigger] post.cmd_buffer@[j]
                        == scaled_cmd(pre.cmd_buffer@[j], sx_milli, sy_milli)
                },
            decreases n - i,
        {
            let ghost pre_list: DrawList = self.cmd_lists@[i as int];
            let list = &mut self.cmd_lists[i];
            let m: usize = list.cmd_buffer.len();
            let mut j: usize = 0;
            while j < m
                invariant
                    m == list.cmd_buffer@.len(),
                    m == pre_list.cmd_buffer@.len(),
                    0 <= j <= m,
                    list.vtx_buffer@ == pre_list.vtx_buffer@,
                    list.idx_buffer@ == pre_list.idx_buffer@,
                    forall|k: int| j <= k < m ==> list.cmd_buffer@[k] == pre_list.cmd_buffer@[k],
                    forall|k: int| 0 <= k < j ==> #[trigger] list.cmd_buffer@[k] == scaled_cmd(
                        pre_list.cmd_buffer@[k],
                        sx_milli,
                        sy_milli,
                    ),
                decreases m - j,
            {
                let cmd = list.cmd_buffer[j];
                let scaled = DrawCmd {
                    elem_count: cmd.elem_count,
                    clip_x1: scale_coord(cmd.clip_x1, sx_milli),
                    clip_y1: scale_coord(cmd.clip_y1, sy_milli),
                    clip_x2: scale_coord(cmd.clip_x2, sx_milli),
                    clip_y2: scale_coord(cmd.clip_y2, sy_milli),
                    texture_id: cmd.texture_id,
                };
                list.cmd_buffer.set(j, scaled);
                j += 1;
            }
            i += 1;
        }
    }
}

/// A one-way cursor over a frame's draw lists, front to back.
#[derive(Clone, Copy, Debug, PartialEq, Eq, Structural)]
pub struct DrawListIterator {
    pub next_index: usize,
}

impl DrawListIterator {
    /// A cursor standing before the first list.
    pub fn new() -> (it: DrawListIterator)
        ensures
            it.next_index == 0,
    {
        DrawListIterator { next_index: 0 }
    }

    /// Borrows the next list in order, or reports exhaustion; the cursor
    /// never restarts.
    pub fn next<'a>(&mut self, data: &'a DrawData) -> (r: Option<&'a DrawList>)
        ensures
            old(self).next_index < data.cmd_lists@.len() ==> {
                &&& r matches Some(l) && l == data.cmd_lists@[old(self).next_index as int]
                &&& final(self).next_index == old(self).next_index + 1
            },
            old(self).next_index >= data.cmd_lists@.len() ==> r is None && *final(self) == *old(
                self,
            ),
    {
        if self.next_index < data.cmd_lists.len() {
            let r = &data.cmd_lists[self.next_index];
            self.next_index = self.next_index + 1;
            Some(r)
        } else {
            None
        }
    }
}

} // verus!
