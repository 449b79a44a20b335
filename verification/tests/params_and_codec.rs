use jp2k::codec::Codec;
use jp2k::codec::CodecFormat;
use jp2k::image::ColorSpace;
use jp2k::params::DecodeParams;
use jp2k::params::DecodingArea;

#[test]
fn default_params_leave_every_choice_to_the_engine() {
    let p = DecodeParams::default();
    assert_eq!(p.default_color_space, None);
    assert_eq!(p.reduce_factor, None);
    assert_eq!(p.decoding_area, None);
    assert_eq!(p.quality_layers, None);
    assert_eq!(p.num_threads, None);
}

#[test]
fn each_builder_sets_exactly_one_field() {
    let p = DecodeParams::default().with_reduce_factor(2);
    assert_eq!(p.reduce_factor, Some(2));
    assert_eq!(p.default_color_space, None);
    assert_eq!(p.decoding_area, None);
    assert_eq!(p.quality_layers, None);
    assert_eq!(p.num_threads, None);

    let p = p.with_quality_layers(1);
    assert_eq!(p.reduce_factor, Some(2));
    assert_eq!(p.quality_layers, Some(1));

    let p = p.with_num_threads(4);
    assert_eq!(p.num_threads, Some(4));

    let p = p.with_decoding_area(1, 2, 30, 40);
    assert_eq!(p.decoding_area, Some(DecodingArea { x0: 1, y0: 2, x1: 30, y1: 40 }));

    let p = p.with_default_color_space(ColorSpace::Srgb);
    assert_eq!(p.default_color_space, Some(ColorSpace::Srgb));
    assert_eq!(p.reduce_factor, Some(2));
    assert_eq!(p.quality_layers, Some(1));
    assert_eq!(p.num_threads, Some(4));
}

#[test]
fn repeated_builder_calls_overwrite_silently() {
    let p = DecodeParams::default().with_reduce_factor(1).with_reduce_factor(5);
    assert_eq!(p.reduce_factor, Some(5));
}

#[test]
fn discard_level_divides_exactly_on_even_dimensions() {
    assert_eq!(DecodeParams::value_for_discard_level(512, 1), 256);
    assert_eq!(DecodeParams::value_for_discard_level(512, 0), 512);
    assert_eq!(DecodeParams::value_for_discard_level(1024, 3), 128);
    assert_eq!(DecodeParams::value_for_discard_level(0, 7), 0);
}

#[test]
fn discard_level_rounds_up_on_a_remainder() {
    assert_eq!(DecodeParams::value_for_discard_level(513, 1), 257);
    assert_eq!(DecodeParams::value_for_discard_level(1000, 3), 125);
    assert_eq!(DecodeParams::value_for_discard_level(1001, 3), 126);
    assert_eq!(DecodeParams::value_for_discard_level(1, 5), 1);
}

#[test]
fn codec_constructors_fix_the_container_format() {
    assert_eq!(Codec::j2k().format, CodecFormat::J2k);
    assert_eq!(Codec::jpt().format, CodecFormat::Jpt);
    assert_eq!(Codec::jp2().format, CodecFormat::Jp2);
    assert_eq!(Codec::jpp().format, CodecFormat::Jpp);
    assert_eq!(Codec::jpx().format, CodecFormat::Jpx);
}
