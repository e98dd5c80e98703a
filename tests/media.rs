use effect_recipes::media::{isqrt, FfmpegPathUtil, ImageKind, SizeConstraint, Source, SourceKind};
use effect_recipes::resource::ImageParser;
use effect_recipes::text::text_eq;

#[test]
fn kinds_from_paths() {
    assert_eq!(ImageKind::from_path("a/b.gif"), Some(ImageKind::Gif));
    assert_eq!(ImageKind::from_path("photo.final.jpg"), Some(ImageKind::Image));
    assert_eq!(ImageKind::from_path("clip.mp4"), Some(ImageKind::Anim));
    assert_eq!(ImageKind::from_path("noextension"), None);
    assert_eq!(ImageKind::from_extension("bmp"), Some(ImageKind::Image));
    assert_eq!(ImageKind::from_extension("txt"), None);
    assert_eq!(ImageParser::parse_localkind("x.png"), Some(ImageKind::Image));
    let file = SourceKind::File("in/clip.mov".to_string());
    assert_eq!(ImageParser::parse_kind(&file), Some(ImageKind::Anim));
    assert_eq!(file.get_image_kind(), Some(ImageKind::Anim));
    assert_eq!(file.get_path(), "in/clip.mov");
}

#[test]
fn kinds_from_mime() {
    assert_eq!(ImageKind::from_mime("image", "gif"), Some(ImageKind::Gif));
    assert_eq!(ImageKind::from_mime("image", "png"), Some(ImageKind::Image));
    assert_eq!(ImageKind::from_mime("video", "mp4"), Some(ImageKind::Anim));
    assert_eq!(ImageKind::from_mime("text", "plain"), None);
    assert_eq!(ImageKind::from_content_type("image/gif"), Some(ImageKind::Gif));
    assert_eq!(ImageKind::from_content_type("video/webm; codecs=vp9"), Some(ImageKind::Anim));
    assert_eq!(ImageKind::from_content_type("not a mime"), None);
}

#[test]
fn constraint_descriptions() {
    assert_eq!(SizeConstraint::MaxDim(512).as_string(), "max-dim: 512");
    assert_eq!(SizeConstraint::MaxPixels(10000).as_string(), "max-pixels: 10000");
    let none = Source { kind: SourceKind::File("a.png".to_string()), constraint: None };
    assert_eq!(none.constraint_str(), "None");
    let some = Source { kind: SourceKind::File("a.png".to_string()), constraint: Some(SizeConstraint::MaxDim(0)) };
    assert_eq!(some.constraint_str(), "max-dim: 0");
}

#[test]
fn constraint_dimensions() {
    assert_eq!(SizeConstraint::MaxDim(100).target_dimensions(400, 200), Some((100, 50)));
    assert_eq!(SizeConstraint::MaxDim(500).target_dimensions(400, 200), None);
    assert_eq!(SizeConstraint::MaxDim(400).target_dimensions(400, 200), None);
    assert_eq!(SizeConstraint::MaxPixels(20_000).target_dimensions(400, 200), Some((200, 100)));
    assert_eq!(SizeConstraint::MaxPixels(80_000).target_dimensions(400, 200), None);
    assert_eq!(SizeConstraint::MaxPixels(0).target_dimensions(0, 10), None);
}

#[test]
fn integer_square_roots() {
    assert_eq!(isqrt(0), 0);
    assert_eq!(isqrt(15), 3);
    assert_eq!(isqrt(16), 4);
    assert_eq!(isqrt(u128::MAX), u64::MAX);
}

#[test]
fn frame_paths() {
    let temp = FfmpegPathUtil { temp: true, prefix: "source".to_string() };
    assert_eq!(temp.dir(), "temp/source");
    assert_eq!(temp.frame_path(), "temp/source/frame-%04d.png");
    assert_eq!(temp.frame_path_rs(7), "temp/source/frame-0007.png");
    assert_eq!(temp.frame_path_rs(12345), "temp/source/frame-12345.png");
    assert_eq!(temp.frame_path_rs(-3), "temp/source/frame--003.png");
    assert_eq!(temp.audio_path(), "temp/source/audio.mp3");
    let here = FfmpegPathUtil { temp: false, prefix: "p".to_string() };
    assert_eq!(here.dir(), "./p");
}

#[test]
fn text_equality() {
    assert!(text_eq("abc", "abc"));
    assert!(!text_eq("abc", "abd"));
    assert!(!text_eq("abc", "ab"));
}
