use jp2k::err::Error;
use jp2k::image::Component;
use jp2k::pack::pack;
use jp2k::pack::select_layout;
use jp2k::pack::Layout;

fn comp(prec: u32, data: Vec<i32>) -> Component {
    Component { prec, factor: 0, data }
}

#[test]
fn the_packing_table_is_the_closed_set_of_four_strategies() {
    assert_eq!(select_layout(&vec![comp(8, vec![])]), Ok(Layout::Gray8));
    assert_eq!(select_layout(&vec![comp(16, vec![])]), Ok(Layout::Gray16));
    assert_eq!(
        select_layout(&vec![comp(8, vec![]), comp(8, vec![]), comp(8, vec![])]),
        Ok(Layout::Rgb8)
    );
    assert_eq!(
        select_layout(&vec![comp(8, vec![]), comp(8, vec![]), comp(8, vec![]), comp(8, vec![])]),
        Ok(Layout::Rgba8)
    );
}

#[test]
fn two_component_gray_alpha_at_16_bit_is_rejected_not_truncated() {
    let comps = vec![comp(16, vec![0; 4]), comp(16, vec![0; 4])];
    assert_eq!(
        select_layout(&comps),
        Err(Error::UnsupportedComponentLayout { components: 2, precision: 16 })
    );
    assert_eq!(
        pack(&comps, 2, 2),
        Err(Error::UnsupportedComponentLayout { components: 2, precision: 16 })
    );
}

#[test]
fn component_counts_outside_the_table_are_rejected() {
    assert_eq!(
        select_layout(&Vec::new()),
        Err(Error::UnsupportedComponentLayout { components: 0, precision: 0 })
    );
    let five = vec![
        comp(8, vec![]),
        comp(8, vec![]),
        comp(8, vec![]),
        comp(8, vec![]),
        comp(8, vec![]),
    ];
    assert_eq!(
        select_layout(&five),
        Err(Error::UnsupportedComponentLayout { components: 5, precision: 8 })
    );
}

#[test]
fn grayscale_precision_outside_8_and_16_is_rejected() {
    assert_eq!(
        select_layout(&vec![comp(12, vec![])]),
        Err(Error::UnsupportedComponentLayout { components: 1, precision: 12 })
    );
}

#[test]
fn mixed_precisions_across_rgb_components_are_rejected() {
    let comps = vec![comp(8, vec![]), comp(8, vec![]), comp(16, vec![])];
    assert_eq!(
        select_layout(&comps),
        Err(Error::UnsupportedComponentLayout { components: 3, precision: 8 })
    );
    let comps = vec![comp(8, vec![]), comp(12, vec![]), comp(8, vec![]), comp(8, vec![])];
    assert_eq!(
        select_layout(&comps),
        Err(Error::UnsupportedComponentLayout { components: 4, precision: 8 })
    );
}

#[test]
fn uniform_rgb_precision_other_than_8_is_rejected() {
    let comps = vec![comp(16, vec![]), comp(16, vec![]), comp(16, vec![])];
    assert_eq!(select_layout(&comps), Err(Error::UnsupportedPrecision { precision: 16 }));
    let comps = vec![comp(16, vec![]), comp(16, vec![]), comp(16, vec![]), comp(16, vec![])];
    assert_eq!(select_layout(&comps), Err(Error::UnsupportedPrecision { precision: 16 }));
}

#[test]
fn gray8_truncates_each_sample_to_its_low_byte() {
    let comps = vec![comp(8, vec![0, 127, 255, 256])];
    let out = pack(&comps, 2, 2).unwrap();
    assert_eq!(out.buffer, vec![0u8, 127, 255, 0]);
    assert_eq!(out.width, 2);
    assert_eq!(out.height, 2);
    assert_eq!(out.num_bands, 1);
    assert_eq!(out.precision, 8);
}

#[test]
fn gray16_emits_two_bytes_per_sample_low_byte_first() {
    let comps = vec![comp(16, vec![0x1234, -1, 300])];
    let out = pack(&comps, 3, 1).unwrap();
    assert_eq!(out.buffer, vec![0x34u8, 0x12, 0xff, 0xff, 44, 1]);
    assert_eq!(out.num_bands, 1);
    assert_eq!(out.precision, 16);
    assert_eq!(out.buffer.len(), 3 * 1 * 1 * 2);
}

#[test]
fn rgb8_interleaves_the_three_planes_per_pixel() {
    let comps = vec![comp(8, vec![1, 258]), comp(8, vec![3, 4]), comp(8, vec![5, 6])];
    let out = pack(&comps, 2, 1).unwrap();
    assert_eq!(out.buffer, vec![1u8, 3, 5, 2, 4, 6]);
    assert_eq!(out.num_bands, 3);
    assert_eq!(out.precision, 8);
}

#[test]
fn rgba8_interleaves_the_four_planes_per_pixel() {
    let comps = vec![
        comp(8, vec![10, 11]),
        comp(8, vec![20, 21]),
        comp(8, vec![30, 31]),
        comp(8, vec![40, 41]),
    ];
    let out = pack(&comps, 1, 2).unwrap();
    assert_eq!(out.buffer, vec![10u8, 20, 30, 40, 11, 21, 31, 41]);
    assert_eq!(out.num_bands, 4);
    assert_eq!(out.precision, 8);
}

#[test]
fn a_packed_buffer_holds_width_height_bands_bytes() {
    for bands in [1usize, 3, 4] {
        let comps: Vec<Component> = (0..bands).map(|_| comp(8, vec![7; 6])).collect();
        let out = pack(&comps, 3, 2).unwrap();
        assert_eq!(out.buffer.len(), 3 * 2 * bands);
        assert_eq!(out.num_bands, bands);
    }
}
