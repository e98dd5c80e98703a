use effect_recipes::hue::{generate_hue_neighbourhood, HueDistribution};
use effect_recipes::lum::{distributed_stack, looping_stack, rem_full_turn, LumStrategyKind};
use effect_recipes::media::{ImageKind, SizeConstraint};
use effect_recipes::resource::{
    constrain_result, resize_image_with_max_dim, ImageParser, ImageResource, ImageResult,
};
use effect_recipes::value::{passes, Chance, ValueProperty};
use effect_recipes::weighted::{pick_index, sum_weights, Weighted};

fn png_bytes(w: u32, h: u32) -> Vec<u8> {
    let img = image::DynamicImage::new_rgb8(w, h);
    let mut out = std::io::Cursor::new(Vec::new());
    img.write_to(&mut out, image::ImageOutputFormat::Png).unwrap();
    out.into_inner()
}

#[test]
fn single_stack_takes_the_midpoint() {
    assert_eq!(distributed_stack(20_000, 60_000, 1, 5), vec![(40_000, 5)]);
    assert_eq!(distributed_stack(0, 100_000, 0, 5), vec![]);
    assert_eq!(distributed_stack(0, 90_000, 4, 1), vec![(0, 1), (30_000, 1), (60_000, 1), (90_000, 1)]);
}

#[test]
fn every_hue_keeps_its_pairs() {
    let kind = LumStrategyKind::Random { stacks: Some(ValueProperty::Fixed(2)) };
    let pairs = kind.generate(&vec![10, 20, 30], 0, 100_000);
    assert_eq!(pairs.len(), 6);
    assert_eq!(pairs.iter().map(|p| p.1).collect::<Vec<_>>(), vec![10, 10, 20, 20, 30, 30]);
    assert!(pairs.iter().all(|p| (0..100_000).contains(&p.0)));
    let exact = LumStrategyKind::Exact { exact: ValueProperty::Fixed(42_000) };
    assert_eq!(exact.generate(&vec![1, 2], 0, 100_000), vec![(42_000, 1), (42_000, 2)]);
}

#[test]
fn looping_preference_folds_distance() {
    // Focus and hue coincide: the wave is at its peak.
    assert_eq!(looping_stack(0, 2, 0, 10, 0, 1000, 0), vec![(100_000, 0)]);
    // A quarter turn away with two segments: the wave is at its trough.
    assert_eq!(looping_stack(0, 2, 0, 10, 0, 1000, 180_000), vec![(0, 180_000)]);
    // A collapsed spread range emits no extra samples.
    assert_eq!(looping_stack(0, 2, 3, 0, 0, 1000, 0), vec![(100_000, 0)]);
    let spread = looping_stack(0, 4, 5, 100, 0, 1000, 45_000);
    assert_eq!(spread.len(), 6);
    assert_eq!(spread[0], (50_000, 45_000));
    assert!(spread[1..].iter().all(|p| (40_000..60_000).contains(&p.0)));
    assert_eq!(rem_full_turn(400_000), 40_000);
    assert_eq!(rem_full_turn(-400_000), -40_000);
}

#[test]
fn neighbourhoods() {
    assert_eq!(
        generate_hue_neighbourhood(100_000, 20_000, 5, HueDistribution::Linear),
        vec![80_000, 90_000, 100_000, 110_000, 120_000]
    );
    assert_eq!(generate_hue_neighbourhood(100_000, 20_000, 1, HueDistribution::Linear), vec![100_000]);
    let random = generate_hue_neighbourhood(100_000, 20_000, 50, HueDistribution::Random);
    assert!(random.iter().all(|h| (80_000..120_000).contains(h)));
    assert_eq!(generate_hue_neighbourhood(100_000, 0, 2, HueDistribution::Random), vec![100_000, 100_000]);
}

#[test]
fn degenerate_ranges_and_gates() {
    let v: ValueProperty<usize> = ValueProperty::Range(5, 5);
    assert_eq!(v.generate(), 5);
    assert!(passes(1000, 999));
    assert!(passes(1, 0));
    assert!(!passes(0, 0));
    assert!(!passes(500, 500));
    let open = Chance::new(ValueProperty::Fixed(1000));
    assert!((0..100).all(|_| open.roll()));
    let half = Chance::new(ValueProperty::Fixed(500));
    let hits = (0..10_000).filter(|_| half.roll()).count();
    assert!((4_500..5_500).contains(&hits), "hits {hits}");
}

#[test]
fn weighted_scan_and_fallback() {
    let ws = vec![(1000u64, "a"), (2000u64, "b")];
    assert_eq!(sum_weights(&ws), 3000);
    assert_eq!(pick_index(&ws, 1000), 0);
    assert_eq!(pick_index(&ws, 1001), 1);
    assert_eq!(pick_index(&ws, 99_999), 1);
    let exact = Weighted::Exact(7u8);
    assert_eq!(*exact.select(), 7);
}

#[test]
fn decoding_and_resizing() {
    let bytes = png_bytes(40, 20);
    let decoded = ImageParser::parse_bytes(&bytes, ImageKind::Image).unwrap();
    assert_eq!(decoded.get_dimensions(), (40, 20));
    assert!(ImageParser::parse_bytes(&bytes, ImageKind::Anim).is_none());
    assert!(ImageParser::parse_bytes(&[1, 2, 3], ImageKind::Image).is_none());
    let image = match decoded {
        ImageResult::Image(img) => img,
        _ => panic!("expected a still image"),
    };
    let resource = ImageResource { image: image.clone() }.constrain(&SizeConstraint::MaxDim(10));
    assert_eq!(resource.get_dimensions(), (10, 5));
    let same = ImageResource { image: image.clone() }.constrain(&SizeConstraint::MaxPixels(1000));
    assert_eq!(same.get_dimensions(), (40, 20));
    let smaller = resize_image_with_max_dim(&image, 20);
    assert_eq!(image::GenericImageView::dimensions(&smaller), (20, 10));
    let result = ImageResult::Image(image);
    assert!(result.into_gif().is_err());
}

#[test]
fn decoding_gifs() {
    let mut bytes = Vec::new();
    {
        let mut encoder = image::codecs::gif::GifEncoder::new(&mut bytes);
        let frame = || image::Frame::new(image::RgbaImage::new(6, 4));
        encoder.encode_frames(vec![frame(), frame(), frame()].into_iter()).unwrap();
    }
    let decoded = ImageParser::parse_bytes(&bytes, ImageKind::Gif).unwrap();
    assert_eq!(decoded.get_dimensions(), (0, 0));
    match decoded {
        ImageResult::Gif(frames) => assert_eq!(frames.len(), 3),
        _ => panic!("expected gif frames"),
    }
    assert!(ImageParser::parse_bytes(&bytes[..10], ImageKind::Gif).is_none());
}

#[test]
fn constraint_applies_to_still_images_only() {
    let img = image::DynamicImage::new_rgb8(40, 20);
    let constrained = constrain_result(ImageResult::Image(img.clone()), &Some(SizeConstraint::MaxDim(10)));
    assert_eq!(constrained.get_dimensions(), (10, 5));
    let untouched = constrain_result(ImageResult::Image(img), &None);
    assert_eq!(untouched.get_dimensions(), (40, 20));
    let frames = constrain_result(ImageResult::Gif(vec![]), &Some(SizeConstraint::MaxDim(10)));
    assert!(matches!(frames, ImageResult::Gif(v) if v.is_empty()));
}
