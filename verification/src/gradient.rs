use vstd::prelude::*;

use crate::buffer::{grown_capacity, Buffer};
use crate::packed::{LinearPacked, Packed, RadialPacked};
use crate::quad::{Quad, INITIAL_INSTANCES};

verus! {

/// Tag that selects which gradient pipeline and instance buffer a draw uses.
#[derive(Debug, Copy, Clone, PartialEq, Eq, Structural)]
pub enum GradientRenderStrategy {
    Linear,
    Radial,
}

/// A quad filled with interpolated colors.
#[derive(Debug, Clone, Copy, PartialEq, Eq)]
pub struct Gradient {
    /// The background gradient data of the quad.
    pub gradient: Packed,
    /// The [`Quad`] data of the [`Gradient`].
    pub quad: Quad,
}

/// A linear gradient quad, flattened into the per-kind instance record that
/// the linear buffer holds. The kind carries no tag field: the buffer it sits
/// in communicates it.
#[derive(Debug, Clone, Copy, PartialEq, Eq)]
pub struct LinearGradient {
    /// The background gradient data of the quad.
    pub gradient: LinearPacked,
    /// The [`Quad`] data of the [`Gradient`].
    pub quad: Quad,
}

/// A radial gradient quad, flattened into the per-kind instance record that
/// the radial buffer holds.
#[derive(Debug, Clone, Copy, PartialEq, Eq)]
pub struct RadialGradient {
    /// The background gradient data of the quad.
    pub gradient: RadialPacked,
    /// The [`Quad`] data of the [`Gradient`].
    pub quad: Quad,
}

/// Whether an instance is of the linear kind.
pub open spec fn is_linear(g: Gradient) -> bool {
    match g.gradient {
        Packed::Linear(_) => true,
        Packed::Radial(_) => false,
    }
}

/// Whether an instance is of the radial kind.
pub open spec fn is_radial(g: Gradient) -> bool {
    !is_linear(g)
}

/// The linear sub-sequence of an instance list: every linear entry, flattened,
/// in its original relative order.
pub open spec fn linear_part(s: Seq<Gradient>) -> Seq<LinearGradient>
    decreases s.len(),
{
    if s.len() == 0 {
        Seq::empty()
    } else {
        let rest = linear_part(s.drop_last());
        match s.last().gradient {
            Packed::Linear(l) => rest.push(LinearGradient { gradient: l, quad: s.last().quad }),
            Packed::Radial(_) => rest,
        }
    }
}

/// The radial sub-sequence of an instance list: every radial entry, flattened,
/// in its original relative order.
pub open spec fn radial_part(s: Seq<Gradient>) -> Seq<RadialGradient>
    decreases s.len(),
{
    if s.len() == 0 {
        Seq::empty()
    } else {
        let rest = radial_part(s.drop_last());
        match s.last().gradient {
            Packed::Linear(_) => rest,
            Packed::Radial(r) => rest.push(RadialGradient { gradient: r, quad: s.last().quad }),
        }
    }
}

/// How many of the first `i` entries of `s` are linear.
pub open spec fn linear_count_before(s: Seq<Gradient>, i: int) -> int
    decreases i,
{
    if i <= 0 {
        0
    } else {
        linear_count_before(s, i - 1) + if is_linear(s[i - 1]) {
            1int
        } else {
            0int
        }
    }
}

/// How many of the first `i` entries of `s` are radial.
pub open spec fn radial_count_before(s: Seq<Gradient>, i: int) -> int
    decreases i,
{
    if i <= 0 {
        0
    } else {
        radial_count_before(s, i - 1) + if is_radial(s[i - 1]) {
            1int
        } else {
            0int
        }
    }
}

proof fn lemma_count_before_bounds(s: Seq<Gradient>, i: int)
    requires
        0 <= i <= s.len(),
    ensures
        0 <= linear_count_before(s, i) <= i,
        0 <= radial_count_before(s, i) <= i,
        linear_count_before(s, i) + radial_count_before(s, i) == i,
    decreases i,
{
    if i > 0 {
        lemma_count_before_bounds(s, i - 1);
    }
}

proof fn lemma_count_before_prefix(s: Seq<Gradient>, t: Seq<Gradient>, i: int)
    requires
        0 <= i,
        i <= s.len(),
        i <= t.len(),
        forall|j: int| 0 <= j < i ==> s[j] == t[j],
    ensures
        linear_count_before(s, i) == linear_count_before(t, i),
        radial_count_before(s, i) == radial_count_before(t, i),
    decreases i,
{
    if i > 0 {
        lemma_count_before_prefix(s, t, i - 1);
    }
}

proof fn lemma_partition_len(s: Seq<Gradient>)
    ensures
        linear_part(s).len() == linear_count_before(s, s.len() as int),
        radial_part(s).len() == radial_count_before(s, s.len() as int),
    decreases s.len(),
{
    if s.len() > 0 {
        lemma_partition_len(s.drop_last());
        lemma_count_before_prefix(s.drop_last(), s, s.len() - 1);
    }
}

/// The partition is complete: every instance lands in exactly one of the two
/// sub-sequences, so their lengths add up to the input's.
pub proof fn lemma_partition_complete(s: Seq<Gradient>)
    ensures
        linear_part(s).len() + radial_part(s).len() == s.len(),
{
    lemma_partition_len(s);
    lemma_count_before_bounds(s, s.len() as int);
}

/// The partition is stable for linear entries: the linear instance at input
/// position `i` lands at output position `linear_count_before(s, i)`, with its
/// gradient and quad carried over unchanged.
pub proof fn lemma_partition_stable_linear(s: Seq<Gradient>, i: int)
    requires
        0 <= i < s.len(),
        is_linear(s[i]),
    ensures
        0 <= linear_count_before(s, i) < linear_part(s).len(),
        (Packed::Linear(linear_part(s)[linear_count_before(s, i)].gradient)) == s[i].gradient,
        linear_part(s)[linear_count_before(s, i)].quad == s[i].quad,
    decreases s.len(),
{
    lemma_count_before_bounds(s, i);
    if i == s.len() - 1 {
        lemma_partition_len(s.drop_last());
        lemma_count_before_prefix(s.drop_last(), s, i);
    } else {
        lemma_partition_stable_linear(s.drop_last(), i);
        lemma_count_before_prefix(s.drop_last(), s, i);
    }
}

/// The partition is stable for radial entries: the radial instance at input
/// position `i` lands at output position `radial_count_before(s, i)`, with its
/// gradient and quad carried over unchanged.
pub proof fn lemma_partition_stable_radial(s: Seq<Gradient>, i: int)
    requires
        0 <= i < s.len(),
        is_radial(s[i]),
    ensures
        0 <= radial_count_before(s, i) < radial_part(s).len(),
        (Packed::Radial(radial_part(s)[radial_count_before(s, i)].gradient)) == s[i].gradient,
        radial_part(s)[radial_count_before(s, i)].quad == s[i].quad,
    decreases s.len(),
{
    lemma_count_before_bounds(s, i);
    if i == s.len() - 1 {
        lemma_partition_len(s.drop_last());
        lemma_count_before_prefix(s.drop_last(), s, i);
    } else {
        lemma_partition_stable_radial(s.drop_last(), i);
        lemma_count_before_prefix(s.drop_last(), s, i);
    }
}

/// Number of 32-bit words in one flattened instance record: 16 color words,
/// 4 offset words, 4 geometry words, 4 position/scale words, 4 border color
/// words, 4 border radius words, 1 border width word and 1 snap word.
pub const INSTANCE_WORDS: usize = 38;

/// An 8-bit channel widened to 16 bits so that the channel's full range maps
/// onto the full 16-bit range (`255` becomes `65535`).
pub open spec fn widened_channel(c: int) -> int {
    c * 257
}

/// Low color word of one stop on the wire: the two low channels of the packed
/// RGBA word, widened to 16 bits each, low channel in the low half.
pub open spec fn color_word_lo(c: u32) -> int {
    widened_channel(c as int % 256) + widened_channel((c as int / 256) % 256) * 65536
}

/// High color word of one stop on the wire: the two high channels of the
/// packed RGBA word, widened to 16 bits each.
pub open spec fn color_word_hi(c: u32) -> int {
    widened_channel((c as int / 65536) % 256) + widened_channel((c as int / 16777216) % 256)
        * 65536
}

/// One offset word of the wire format: two consecutive 16-bit stop positions,
/// the earlier one in the low half.
pub open spec fn offset_word(lo: u16, hi: u16) -> int {
    lo + hi * 65536
}

/// The `k`-th offset word of the wire format, packing slots `2k` and `2k + 1`.
pub open spec fn offset_word_at(offsets: Seq<u16>, k: int) -> int {
    offset_word(offsets[2 * k], offsets[2 * k + 1])
}

/// The kind-independent tail of a flattened instance: position and scale,
/// border color, border radius, border width and the snap flag, in exactly
/// that order.
pub open spec fn quad_words(q: Quad) -> Seq<u32> {
    seq![
        q.position@[0],
        q.position@[1],
        q.scale@[0],
        q.scale@[1],
        q.border_color@[0],
        q.border_color@[1],
        q.border_color@[2],
        q.border_color@[3],
        q.border_radius@[0],
        q.border_radius@[1],
        q.border_radius@[2],
        q.border_radius@[3],
        q.border_width,
        q.snap,
    ]
}

/// Appends the two wire words of one stop color.
fn push_color_words(r: &mut Vec<u32>, c: u32)
    ensures
        final(r)@.len() == old(r)@.len() + 2,
        final(r)@ == old(r)@.push((color_word_lo(c) as u32)).push((color_word_hi(c) as u32)),
        color_word_lo(c) == final(r)@[old(r)@.len() as int],
        color_word_hi(c) == final(r)@[old(r)@.len() as int + 1],
{
    let lo: u32 = (c % 256) * 257 + ((c / 256) % 256) * 257 * 65536;
    let hi: u32 = ((c / 65536) % 256) * 257 + ((c / 16777216) % 256) * 257 * 65536;
    r.push(lo);
    r.push(hi);
}

/// Appends the kind-independent quad words.
fn push_quad_words(r: &mut Vec<u32>, q: &Quad)
    ensures
        final(r)@ == old(r)@ + quad_words(*q),
{
    r.push(q.position[0]);
    r.push(q.position[1]);
    r.push(q.scale[0]);
    r.push(q.scale[1]);
    r.push(q.border_color[0]);
    r.push(q.border_color[1]);
    r.push(q.border_color[2]);
    r.push(q.border_color[3]);
    r.push(q.border_radius[0]);
    r.push(q.border_radius[1]);
    r.push(q.border_radius[2]);
    r.push(q.border_radius[3]);
    r.push(q.border_width);
    r.push(q.snap);
    assert(r@ =~= old(r)@ + quad_words(*q));
}

/// Appends the shared ramp words: eight color pairs, then four offset words.
fn push_ramp_words(r: &mut Vec<u32>, colors: &[u32; 8], offsets: &[u16; 8])
    ensures
        final(r)@.len() == old(r)@.len() + 20,
        forall|k: int|
            0 <= k < 8 ==> final(r)@[old(r)@.len() + 2 * k] == color_word_lo(colors@[k])
                && final(r)@[old(r)@.len() + 2 * k + 1] == color_word_hi(colors@[k]),
        forall|k: int|
            0 <= k < 4 ==> final(r)@[old(r)@.len() + 16 + k] == offset_word_at(offsets@, k),
        final(r)@.take(old(r)@.len() as int) == old(r)@,
{
    let base = r.len();
    proof {
        assert(r@.take(base as int) =~= r@);
    }
    let mut i: usize = 0;
    while i < 8
        invariant
            i <= 8,
            base == old(r)@.len(),
            r@.len() == base + 2 * i,
            forall|k: int|
                0 <= k < i ==> r@[base + 2 * k] == color_word_lo(colors@[k]) && r@[base + 2 * k
                    + 1] == color_word_hi(colors@[k]),
            r@.take(base as int) == old(r)@,
        decreases 8 - i,
    {
        push_color_words(r, colors[i]);
        proof {
            assert(r@.take(base as int) =~= old(r)@);
        }
        i += 1;
    }
    let mut j: usize = 0;
    while j < 4
        invariant
            j <= 4,
            base == old(r)@.len(),
            r@.len() == base + 16 + j,
            forall|k: int|
                0 <= k < 8 ==> r@[base + 2 * k] == color_word_lo(colors@[k]) && r@[base + 2 * k
                    + 1] == color_word_hi(colors@[k]),
            forall|k: int| 0 <= k < j ==> r@[base + 16 + k] == offset_word_at(offsets@, k),
            r@.take(base as int) == old(r)@,
        decreases 4 - j,
    {
        let lo: u32 = offsets[2 * j] as u32;
        let hi: u32 = offsets[2 * j + 1] as u32;
        r.push(lo + hi * 65536);
        proof {
            assert(r@.take(base as int) =~= old(r)@);
        }
        j += 1;
    }
}

impl LinearGradient {
    /// Flattens the instance into its exact wire words: color pairs for the
    /// eight stop slots, four packed offset words, the ramp direction, then
    /// the quad words. This sequence, read as consecutive 32-bit words, is
    /// the byte layout the instance-stepped vertex buffer expects.
    pub fn to_words(&self) -> (r: Vec<u32>)
        ensures
            r@.len() == INSTANCE_WORDS,
            forall|k: int|
                0 <= k < 8 ==> r@[2 * k] == color_word_lo(self.gradient.colors@[k]) && r@[2 * k
                    + 1] == color_word_hi(self.gradient.colors@[k]),
            forall|k: int| 0 <= k < 4 ==> r@[16 + k] == offset_word_at(self.gradient.offsets@, k),
            forall|k: int| 0 <= k < 4 ==> r@[20 + k] == self.gradient.direction@[k],
            r@.subrange(24, 38) == quad_words(self.quad),
    {
        let mut r: Vec<u32> = Vec::new();
        push_ramp_words(&mut r, &self.gradient.colors, &self.gradient.offsets);
        r.push(self.gradient.direction[0]);
        r.push(self.gradient.direction[1]);
        r.push(self.gradient.direction[2]);
        r.push(self.gradient.direction[3]);
        push_quad_words(&mut r, &self.quad);
        proof {
            assert(r@.subrange(24, 38) =~= quad_words(self.quad));
        }
        r
    }
}

impl RadialGradient {
    /// Flattens the instance into its exact wire words: color pairs for the
    /// eight stop slots, four packed offset words, the center and radii, then
    /// the quad words. This sequence, read as consecutive 32-bit words, is
    /// the byte layout the instance-stepped vertex buffer expects.
    pub fn to_words(&self) -> (r: Vec<u32>)
        ensures
            r@.len() == INSTANCE_WORDS,
            forall|k: int|
                0 <= k < 8 ==> r@[2 * k] == color_word_lo(self.gradient.colors@[k]) && r@[2 * k
                    + 1] == color_word_hi(self.gradient.colors@[k]),
            forall|k: int| 0 <= k < 4 ==> r@[16 + k] == offset_word_at(self.gradient.offsets@, k),
            forall|k: int| 0 <= k < 4 ==> r@[20 + k] == self.gradient.center_and_radii@[k],
            r@.subrange(24, 38) == quad_words(self.quad),
    {
        let mut r: Vec<u32> = Vec::new();
        push_ramp_words(&mut r, &self.gradient.colors, &self.gradient.offsets);
        r.push(self.gradient.center_and_radii[0]);
        r.push(self.gradient.center_and_radii[1]);
        r.push(self.gradient.center_and_radii[2]);
        r.push(self.gradient.center_and_radii[3]);
        push_quad_words(&mut r, &self.quad);
        proof {
            assert(r@.subrange(24, 38) =~= quad_words(self.quad));
        }
        r
    }
}

/// Which per-kind buffers `prepare` wrote this frame, and whose contents must
/// therefore be staged to the device before any draw that references them.
#[derive(Debug, Clone, Copy, PartialEq, Eq, Structural)]
pub struct Transfers {
    /// The linear buffer was written and must be transferred.
    pub linear: bool,
    /// The radial buffer was written and must be transferred.
    pub radial: bool,
}

/// Owns the two per-kind instance buffers and fills them each frame from the
/// frame's ordered instance list.
#[derive(Debug)]
pub struct Layer {
    linear_instances: Buffer<LinearGradient>,
    radial_instances: Buffer<RadialGradient>,
    instance_count: usize,
}

impl Layer {
    /// Contents of the linear instance buffer.
    pub closed spec fn spec_linear(&self) -> Seq<LinearGradient> {
        self.linear_instances@
    }

    /// Contents of the radial instance buffer.
    pub closed spec fn spec_radial(&self) -> Seq<RadialGradient> {
        self.radial_instances@
    }

    /// Capacity of the linear instance buffer.
    pub closed spec fn spec_linear_capacity(&self) -> int {
        self.linear_instances.spec_capacity() as int
    }

    /// Capacity of the radial instance buffer.
    pub closed spec fn spec_radial_capacity(&self) -> int {
        self.radial_instances.spec_capacity() as int
    }

    /// Total instance count of the last prepared frame (bookkeeping only).
    pub closed spec fn spec_instance_count(&self) -> int {
        self.instance_count as int
    }

    /// Creates the layer with one empty buffer per kind, each starting at the
    /// initial instance capacity.
    pub fn new() -> (r: Self)
        ensures
            r.spec_linear() == Seq::<LinearGradient>::empty(),
            r.spec_radial() == Seq::<RadialGradient>::empty(),
            r.spec_linear_capacity() == INITIAL_INSTANCES as int,
            r.spec_radial_capacity() == INITIAL_INSTANCES as int,
            r.spec_instance_count() == 0,
    {
        let linear_instances = Buffer::new(INITIAL_INSTANCES);
        let radial_instances = Buffer::new(INITIAL_INSTANCES);
        Layer { radial_instances, linear_instances, instance_count: 0 }
    }

    /// The linear instance buffer, for the render step and the device glue.
    pub fn linear(&self) -> (r: &Buffer<LinearGradient>)
        ensures
            r@ == self.spec_linear(),
            r.spec_capacity() == self.spec_linear_capacity(),
    {
        &self.linear_instances
    }

    /// The radial instance buffer, for the render step and the device glue.
    pub fn radial(&self) -> (r: &Buffer<RadialGradient>)
        ensures
            r@ == self.spec_radial(),
            r.spec_capacity() == self.spec_radial_capacity(),
    {
        &self.radial_instances
    }

    /// Total instance count of the last prepared frame (bookkeeping only).
    pub fn instance_count(&self) -> (r: usize)
        ensures
            r as int == self.spec_instance_count(),
    {
        self.instance_count
    }

    /// Partitions the frame's ordered instance list into the two per-kind
    /// buffers in one stable pass. For each non-empty sub-sequence, its
    /// buffer is grown to fit (never shrunk, doubling to amortize) and then
    /// overwritten with the sub-sequence; an empty sub-sequence leaves its
    /// buffer completely untouched and triggers no transfer. Each buffer's
    /// new state is a function of its own old state and its own kind's
    /// sub-sequence alone.
    pub fn prepare(&mut self, instances: &Vec<Gradient>) -> (t: Transfers)
        ensures
            final(self).spec_instance_count() == instances@.len(),
            t.linear == (linear_part(instances@).len() > 0),
            t.radial == (radial_part(instances@).len() > 0),
            linear_part(instances@).len() == 0 ==> final(self).spec_linear() == old(
                self,
            ).spec_linear() && final(self).spec_linear_capacity() == old(
                self,
            ).spec_linear_capacity(),
            linear_part(instances@).len() > 0 ==> final(self).spec_linear() == linear_part(
                instances@,
            ) && final(self).spec_linear_capacity() == grown_capacity(
                old(self).spec_linear_capacity(),
                linear_part(instances@).len() as int,
            ),
            radial_part(instances@).len() == 0 ==> final(self).spec_radial() == old(
                self,
            ).spec_radial() && final(self).spec_radial_capacity() == old(
                self,
            ).spec_radial_capacity(),
            radial_part(instances@).len() > 0 ==> final(self).spec_radial() == radial_part(
                instances@,
            ) && final(self).spec_radial_capacity() == grown_capacity(
                old(self).spec_radial_capacity(),
                radial_part(instances@).len() as int,
            ),
            final(self).spec_linear_capacity() >= old(self).spec_linear_capacity(),
            final(self).spec_radial_capacity() >= old(self).spec_radial_capacity(),
            final(self).spec_linear_capacity() >= linear_part(instances@).len(),
            final(self).spec_radial_capacity() >= radial_part(instances@).len(),
    {
        let mut linear_batch: Vec<LinearGradient> = Vec::new();
        let mut radial_batch: Vec<RadialGradient> = Vec::new();
        let mut i: usize = 0;
        while i < instances.len()
            invariant
                i <= instances@.len(),
                linear_batch@ == linear_part(instances@.take(i as int)),
                radial_batch@ == radial_part(instances@.take(i as int)),
            decreases instances@.len() - i,
        {
            proof {
                assert(instances@.take(i + 1int).drop_last() =~= instances@.take(i as int));
                assert(instances@.take(i + 1int).last() == instances@[i as int]);
            }
            let g = &instances[i];
            match &g.gradient {
                Packed::Linear(l) => {
                    linear_batch.push(LinearGradient { gradient: *l, quad: g.quad });
                },
                Packed::Radial(r) => {
                    radial_batch.push(RadialGradient { gradient: *r, quad: g.quad });
                },
            }
            i += 1;
        }
        proof {
            assert(instances@.take(instances@.len() as int) =~= instances@);
        }

        let t = Transfers { linear: linear_batch.len() > 0, radial: radial_batch.len() > 0 };

        if linear_batch.len() > 0 {
            let _ = self.linear_instances.resize(linear_batch.len());
            self.linear_instances.write(linear_batch);
        }

        if radial_batch.len() > 0 {
            let _ = self.radial_instances.resize(radial_batch.len());
            self.radial_instances.write(radial_batch);
        }

        self.instance_count = instances.len();
        t
    }
}

/// Same-kind instances keep their relative order: two linear entries in input
/// order land at strictly increasing output positions, and likewise for two
/// radial entries.
pub proof fn lemma_partition_order(s: Seq<Gradient>, i: int, j: int)
    requires
        0 <= i < j <= s.len(),
    ensures
        is_linear(s[i]) ==> linear_count_before(s, i) < linear_count_before(s, j),
        is_radial(s[i]) ==> radial_count_before(s, i) < radial_count_before(s, j),
    decreases j,
{
    if j == i + 1 {
    } else {
        lemma_partition_order(s, i, j - 1);
    }
}

} // verus!
