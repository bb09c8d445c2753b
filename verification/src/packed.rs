use vstd::prelude::*;

verus! {

/// Maximum number of color stops a packed gradient can carry; extra stops are
/// truncated by the encoder.
pub const MAX_STOPS: usize = 8;

/// Fixed-point representation of the stop position `1.0`: positions are stored
/// as 16-bit words in units of `1 / 32768`, so the valid range `[0.0, 1.0]` is
/// `0 ..= OFFSET_ONE` and larger words still leave room above `1.0` for padding.
pub const OFFSET_ONE: u16 = 32768;

/// Padding value for unused offset slots. It is strictly greater than
/// `OFFSET_ONE`, so a shader tie-break of the form "first offset at or above
/// the sample position wins" can never select a padding slot.
pub const OFFSET_SENTINEL: u16 = 65535;

/// One color stop of a gradient ramp: a normalized position (fixed-point,
/// `OFFSET_ONE` = end of the ramp) and a color with 8-bit RGBA channels packed
/// into one 32-bit word.
#[derive(Debug, Clone, Copy, PartialEq, Eq, Structural)]
pub struct ColorStop {
    /// Position along the ramp in units of `1 / 32768`.
    pub offset: u16,
    /// RGBA color, 8 bits per channel, packed into one word.
    pub color: u32,
}

/// A stop position as the encoder stores it: clamped into `[0, OFFSET_ONE]`.
pub open spec fn clamp_offset(o: u16) -> u16 {
    if o > OFFSET_ONE {
        OFFSET_ONE
    } else {
        o
    }
}

/// Number of stops the encoder keeps: the input length, truncated at capacity.
pub open spec fn packed_stop_count(stops: Seq<ColorStop>) -> int {
    if stops.len() <= MAX_STOPS {
        stops.len() as int
    } else {
        MAX_STOPS as int
    }
}

/// The color words of the packed record: stop colors in order, zero-filled
/// beyond the kept stop count.
pub open spec fn packed_colors(stops: Seq<ColorStop>) -> Seq<u32> {
    Seq::new(
        MAX_STOPS as nat,
        |i: int|
            if i < packed_stop_count(stops) {
                stops[i].color
            } else {
                0u32
            },
    )
}

/// The offset words of the packed record: clamped stop positions in order,
/// sentinel-filled beyond the kept stop count.
pub open spec fn packed_offsets(stops: Seq<ColorStop>) -> Seq<u16> {
    Seq::new(
        MAX_STOPS as nat,
        |i: int|
            if i < packed_stop_count(stops) {
                clamp_offset(stops[i].offset)
            } else {
                OFFSET_SENTINEL
            },
    )
}

/// The stop list a packed record decodes to: the first `count` slots, read back
/// as (offset, color) pairs. Slots at or beyond `count` play no part.
pub open spec fn unpacked_stops(colors: Seq<u32>, offsets: Seq<u16>, count: int) -> Seq<ColorStop> {
    Seq::new(count as nat, |i: int| ColorStop { offset: offsets[i], color: colors[i] })
}

/// Fixed-capacity encoding of a linear gradient: the color ramp plus the
/// direction of the ramp in local quad space.
#[derive(Debug, Clone, Copy, PartialEq, Eq)]
pub struct LinearPacked {
    /// Stop colors in visual order; unused slots are zero.
    pub colors: [u32; 8],
    /// Stop positions in visual order; unused slots hold `OFFSET_SENTINEL`.
    pub offsets: [u16; 8],
    /// How many leading slots hold real stops.
    pub count: usize,
    /// Start and end point of the ramp, as four 32-bit float words
    /// `[start x, start y, end x, end y]`.
    pub direction: [u32; 4],
}

/// Fixed-capacity encoding of a radial gradient: the color ramp plus the
/// center point and radii pair.
#[derive(Debug, Clone, Copy, PartialEq, Eq)]
pub struct RadialPacked {
    /// Stop colors in visual order; unused slots are zero.
    pub colors: [u32; 8],
    /// Stop positions in visual order; unused slots hold `OFFSET_SENTINEL`.
    pub offsets: [u16; 8],
    /// How many leading slots hold real stops.
    pub count: usize,
    /// Center point and radii, as four 32-bit float words
    /// `[center x, center y, first radius, last radius]`.
    pub center_and_radii: [u32; 4],
}

/// A packed gradient of either kind.
#[derive(Debug, Clone, Copy, PartialEq, Eq)]
pub enum Packed {
    Linear(LinearPacked),
    Radial(RadialPacked),
}

impl LinearPacked {
    /// The stop slots describe at most the record's capacity.
    pub open spec fn wf(&self) -> bool {
        self.count <= MAX_STOPS
    }

    /// Decodes the record back into its stop list.
    pub fn stops(&self) -> (r: Vec<ColorStop>)
        requires
            self.wf(),
        ensures
            r@ == unpacked_stops(self.colors@, self.offsets@, self.count as int),
    {
        unpack_stops(&self.colors, &self.offsets, self.count)
    }
}

impl RadialPacked {
    /// The stop slots describe at most the record's capacity.
    pub open spec fn wf(&self) -> bool {
        self.count <= MAX_STOPS
    }

    /// Decodes the record back into its stop list.
    pub fn stops(&self) -> (r: Vec<ColorStop>)
        requires
            self.wf(),
        ensures
            r@ == unpacked_stops(self.colors@, self.offsets@, self.count as int),
    {
        unpack_stops(&self.colors, &self.offsets, self.count)
    }
}

/// Encodes a stop list into the fixed slot arrays: colors and clamped offsets
/// in stop order, truncated at capacity, padded with zero color words and
/// sentinel offsets. This stage never fails: capacity overflow truncates and
/// out-of-range positions clamp.
fn pack_stops(stops: &Vec<ColorStop>) -> (r: ([u32; 8], [u16; 8], usize))
    ensures
        r.0@ == packed_colors(stops@),
        r.1@ == packed_offsets(stops@),
        r.2 == packed_stop_count(stops@),
{
    let n: usize = if stops.len() < MAX_STOPS {
        stops.len()
    } else {
        MAX_STOPS
    };
    let mut colors: [u32; 8] = [0u32; 8];
    let mut offsets: [u16; 8] = [OFFSET_SENTINEL; 8];
    let mut i: usize = 0;
    while i < n
        invariant
            i <= n,
            n == packed_stop_count(stops@),
            n <= stops@.len(),
            forall|j: int| 0 <= j < i ==> colors@[j] == stops@[j].color,
            forall|j: int| i <= j < 8 ==> colors@[j] == 0u32,
            forall|j: int| 0 <= j < i ==> offsets@[j] == clamp_offset(stops@[j].offset),
            forall|j: int| i <= j < 8 ==> offsets@[j] == OFFSET_SENTINEL,
        decreases n - i,
    {
        colors[i] = stops[i].color;
        let o = stops[i].offset;
        offsets[i] = if o > OFFSET_ONE {
            OFFSET_ONE
        } else {
            o
        };
        i += 1;
    }
    assert(colors@ =~= packed_colors(stops@));
    assert(offsets@ =~= packed_offsets(stops@));
    (colors, offsets, n)
}

/// Encodes an ordered stop list and a ramp direction into a linear packed
/// gradient.
pub fn pack_linear(stops: &Vec<ColorStop>, direction: [u32; 4]) -> (r: LinearPacked)
    ensures
        r.colors@ == packed_colors(stops@),
        r.offsets@ == packed_offsets(stops@),
        r.count == packed_stop_count(stops@),
        r.direction == direction,
        r.wf(),
{
    let (colors, offsets, count) = pack_stops(stops);
    LinearPacked { colors, offsets, count, direction }
}

/// Encodes an ordered stop list, a center point and a radii pair into a radial
/// packed gradient.
pub fn pack_radial(stops: &Vec<ColorStop>, center_and_radii: [u32; 4]) -> (r: RadialPacked)
    ensures
        r.colors@ == packed_colors(stops@),
        r.offsets@ == packed_offsets(stops@),
        r.count == packed_stop_count(stops@),
        r.center_and_radii == center_and_radii,
        r.wf(),
{
    let (colors, offsets, count) = pack_stops(stops);
    RadialPacked { colors, offsets, count, center_and_radii }
}

/// Reads the first `count` slots of a packed ramp back as (offset, color)
/// pairs.
pub fn unpack_stops(colors: &[u32; 8], offsets: &[u16; 8], count: usize) -> (r: Vec<ColorStop>)
    requires
        count <= MAX_STOPS,
    ensures
        r@ == unpacked_stops(colors@, offsets@, count as int),
{
    let mut r: Vec<ColorStop> = Vec::new();
    let mut i: usize = 0;
    while i < count
        invariant
            i <= count,
            count <= MAX_STOPS,
            r@ == unpacked_stops(colors@, offsets@, count as int).take(i as int),
        decreases count - i,
    {
        r.push(ColorStop { offset: offsets[i], color: colors[i] });
        assert(r@ =~= unpacked_stops(colors@, offsets@, count as int).take(i + 1 as int));
        i += 1;
    }
    assert(r@ =~= unpacked_stops(colors@, offsets@, count as int));
    r
}

/// Round trip of the packed encoding: every stop list that fits the capacity
/// and keeps its positions inside the ramp decodes back to exactly the list
/// that was encoded, in the same order.
pub proof fn lemma_stop_round_trip(stops: Seq<ColorStop>)
    requires
        stops.len() <= MAX_STOPS,
        forall|i: int| 0 <= i < stops.len() ==> stops[i].offset <= OFFSET_ONE,
    ensures
        unpacked_stops(packed_colors(stops), packed_offsets(stops), packed_stop_count(stops))
            == stops,
{
    let decoded = unpacked_stops(
        packed_colors(stops),
        packed_offsets(stops),
        packed_stop_count(stops),
    );
    assert forall|i: int| 0 <= i < stops.len() implies decoded[i] == stops[i] by {
        assert(clamp_offset(stops[i].offset) == stops[i].offset);
    }
    assert(decoded =~= stops);
}

/// Padding slots never affect decoding: two packed ramps that agree on the
/// slots below the stop count decode to the same stop list, whatever their
/// remaining slots hold.
pub proof fn lemma_padding_ignored(
    c1: Seq<u32>,
    o1: Seq<u16>,
    c2: Seq<u32>,
    o2: Seq<u16>,
    count: int,
)
    requires
        0 <= count <= c1.len(),
        count <= c2.len(),
        count <= o1.len(),
        count <= o2.len(),
        forall|i: int| 0 <= i < count ==> c1[i] == c2[i],
        forall|i: int| 0 <= i < count ==> o1[i] == o2[i],
    ensures
        unpacked_stops(c1, o1, count) == unpacked_stops(c2, o2, count),
{
    assert(unpacked_stops(c1, o1, count) =~= unpacked_stops(c2, o2, count));
}

} // verus!
