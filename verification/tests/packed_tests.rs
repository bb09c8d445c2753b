use quad_gradient::packed::{
    pack_linear, pack_radial, unpack_stops, ColorStop, LinearPacked, MAX_STOPS, OFFSET_ONE,
    OFFSET_SENTINEL,
};

fn ramp(n: u32) -> Vec<ColorStop> {
    (0..n)
        .map(|i| ColorStop {
            offset: (i * 1000) as u16,
            color: 0xff00_0000 | i,
        })
        .collect()
}

#[test]
fn round_trip_linear() {
    let stops = ramp(3);
    let packed = pack_linear(&stops, [1, 2, 3, 4]);
    assert_eq!(packed.count, 3);
    assert_eq!(packed.direction, [1, 2, 3, 4]);
    assert_eq!(packed.stops(), stops);
}

#[test]
fn round_trip_radial() {
    let stops = ramp(MAX_STOPS as u32);
    let packed = pack_radial(&stops, [9, 8, 7, 6]);
    assert_eq!(packed.count, MAX_STOPS);
    assert_eq!(packed.center_and_radii, [9, 8, 7, 6]);
    assert_eq!(packed.stops(), stops);
}

#[test]
fn round_trip_empty() {
    let stops = ramp(0);
    let packed = pack_linear(&stops, [0, 0, 0, 0]);
    assert_eq!(packed.count, 0);
    assert_eq!(packed.stops(), stops);
    assert_eq!(packed.colors, [0u32; 8]);
    assert_eq!(packed.offsets, [OFFSET_SENTINEL; 8]);
}

#[test]
fn overflowing_stop_list_is_truncated() {
    let stops = ramp(10);
    let packed = pack_linear(&stops, [0, 0, 0, 0]);
    assert_eq!(packed.count, MAX_STOPS);
    assert_eq!(packed.stops(), stops[..MAX_STOPS].to_vec());
}

#[test]
fn out_of_range_offset_is_clamped() {
    let stops = vec![ColorStop { offset: 60000, color: 5 }];
    let packed = pack_linear(&stops, [0, 0, 0, 0]);
    assert_eq!(packed.offsets[0], OFFSET_ONE);
    assert_eq!(
        packed.stops(),
        vec![ColorStop { offset: OFFSET_ONE, color: 5 }]
    );
}

#[test]
fn two_stop_record_pads_with_sentinel() {
    // A single linear instance with two stops at the ends of the ramp: the
    // first two offset slots are exactly those positions, every other slot
    // holds the never-selected padding value above the end of the ramp.
    let stops = vec![
        ColorStop { offset: 0, color: 0xff0000ff },
        ColorStop { offset: OFFSET_ONE, color: 0xffff0000 },
    ];
    let packed = pack_linear(&stops, [0, 0, 0, 0]);
    assert_eq!(packed.offsets[0], 0);
    assert_eq!(packed.offsets[1], OFFSET_ONE);
    for slot in 2..MAX_STOPS {
        assert_eq!(packed.offsets[slot], OFFSET_SENTINEL);
        assert!(packed.offsets[slot] > OFFSET_ONE);
        assert_eq!(packed.colors[slot], 0);
    }
    assert_eq!(packed.colors[0], 0xff0000ff);
    assert_eq!(packed.colors[1], 0xffff0000);
}

#[test]
fn padding_slots_never_affect_decoding() {
    let real = ramp(2);
    let packed = pack_linear(&real, [0, 0, 0, 0]);
    let mut noisy = LinearPacked {
        colors: packed.colors,
        offsets: packed.offsets,
        count: packed.count,
        direction: packed.direction,
    };
    for slot in 2..MAX_STOPS {
        noisy.colors[slot] = 0xdead_beef;
        noisy.offsets[slot] = 123;
    }
    assert_eq!(noisy.stops(), packed.stops());
    assert_eq!(noisy.stops(), real);
}

#[test]
fn unpack_reads_exactly_count_slots() {
    let colors = [1, 2, 3, 4, 5, 6, 7, 8];
    let offsets = [10, 20, 30, 40, 50, 60, 70, 80];
    let stops = unpack_stops(&colors, &offsets, 4);
    assert_eq!(
        stops,
        vec![
            ColorStop { offset: 10, color: 1 },
            ColorStop { offset: 20, color: 2 },
            ColorStop { offset: 30, color: 3 },
            ColorStop { offset: 40, color: 4 },
        ]
    );
}
