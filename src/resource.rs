use vstd::prelude::*;

use crate::media::{Empty, ImageKind, SizeConstraint, SourceKind, kind_of_extension, extension_of};

verus! {

#[verifier::external_type_specification]
#[verifier::external_body]
pub struct ExDynamicImage(image::DynamicImage);

#[verifier::external_type_specification]
#[verifier::external_body]
pub struct ExFrame(image::Frame);

/// Relies on `image::GenericImageView::dimensions`: the width and height.
#[verifier::external_body]
fn dimensions_of(img: &image::DynamicImage) -> (r: (u32, u32)) {
    image::GenericImageView::dimensions(img)
}

/// Relies on `image::DynamicImage::resize` with the nearest-neighbour
/// filter.
#[verifier::external_body]
fn resize_nearest(img: &image::DynamicImage, width: u32, height: u32) -> (r: image::DynamicImage) {
    img.resize(width, height, image::imageops::FilterType::Nearest)
}

/// Relies on `Clone` of `image::DynamicImage`.
#[verifier::external_body]
fn copy_image(img: &image::DynamicImage) -> (r: image::DynamicImage) {
    img.clone()
}

/// Relies on `image::Frame::top`: the frame's vertical offset.
#[verifier::external_body]
fn frame_top(f: &image::Frame) -> (r: u32) {
    f.top()
}

/// Relies on `image::Frame::left`: the frame's horizontal offset.
#[verifier::external_body]
fn frame_left(f: &image::Frame) -> (r: u32) {
    f.left()
}

/// Relies on `image::load_from_memory`: the decoded image, or `None` when
/// decoding fails.
#[verifier::external_body]
fn decode_image(bytes: &[u8]) -> (r: Option<image::DynamicImage>) {
    image::load_from_memory(bytes).ok()
}

/// Relies on `image::codecs::gif::GifDecoder` and
/// `image::AnimationDecoder::into_frames`: the decoded frames, or `None`
/// when decoding fails.
#[verifier::external_body]
fn decode_gif(bytes: &[u8]) -> (r: Option<Vec<image::Frame>>) {
    let decoder = image::codecs::gif::GifDecoder::new(std::io::Cursor::new(bytes)).ok()?;
    image::AnimationDecoder::into_frames(decoder).collect_frames().ok()
}

/// Decoded media.
pub enum ImageResult {
    Image(image::DynamicImage),
    Anim(Vec<image::DynamicImage>),
    Gif(Vec<image::Frame>),
}

impl ImageResult {
    /// Media whose first image or frame exists.
    pub open spec fn has_first(&self) -> bool {
        match self {
            ImageResult::Image(_) => true,
            ImageResult::Anim(v) => v.len() > 0,
            ImageResult::Gif(v) => v.len() > 0,
        }
    }

    pub fn into_image(self) -> (r: Result<image::DynamicImage, Empty>)
        ensures
            match self {
                ImageResult::Image(i) => r == Ok::<image::DynamicImage, Empty>(i),
                _ => r == Err::<image::DynamicImage, Empty>(Empty),
            },
    {
        match self {
            ImageResult::Image(i) => Ok(i),
            _ => Err(Empty),
        }
    }

    pub fn into_gif(self) -> (r: Result<Vec<image::Frame>, Empty>)
        ensures
            match self {
                ImageResult::Gif(g) => r == Ok::<Vec<image::Frame>, Empty>(g),
                _ => r == Err::<Vec<image::Frame>, Empty>(Empty),
            },
    {
        match self {
            ImageResult::Gif(g) => Ok(g),
            _ => Err(Empty),
        }
    }

    pub fn into_anim(self) -> (r: Result<Vec<image::DynamicImage>, Empty>)
        ensures
            match self {
                ImageResult::Anim(a) => r == Ok::<Vec<image::DynamicImage>, Empty>(a),
                _ => r == Err::<Vec<image::DynamicImage>, Empty>(Empty),
            },
    {
        match self {
            ImageResult::Anim(a) => Ok(a),
            _ => Err(Empty),
        }
    }

    /// The dimensions of the image or of the first animation frame; for a
    /// gif, the first frame's offsets `(top, left)`.
    pub fn get_dimensions(&self) -> (r: (u32, u32))
        requires
            self.has_first(),
    {
        match self {
            ImageResult::Image(img) => dimensions_of(img),
            ImageResult::Anim(v) => dimensions_of(&v[0]),
            ImageResult::Gif(g) => {
                let top = frame_top(&g[0]);
                let left = frame_left(&g[0]);
                (top, left)
            },
        }
    }
}

impl SizeConstraint {
    /// The image resized to fit this constraint, or unchanged when it fits.
    pub fn constrain(&self, image: image::DynamicImage) -> (r: image::DynamicImage) {
        let (x, y) = dimensions_of(&image);
        match self.target_dimensions(x, y) {
            Some((w, h)) => resize_nearest(&image, w, h),
            None => image,
        }
    }
}

/// Decoded media after the source's size constraint: a still image is
/// constrained when there is a constraint; gif frames, video and an
/// unconstrained source are left as they are.
pub fn constrain_result(result: ImageResult, constraint: &Option<SizeConstraint>) -> (r: ImageResult)
    ensures
        match (result, *constraint) {
            (ImageResult::Image(_), Some(_)) => r is Image,
            _ => r == result,
        },
{
    match constraint {
        Some(c) => match result {
            ImageResult::Image(img) => ImageResult::Image(c.constrain(img)),
            other => other,
        },
        None => result,
    }
}

/// The image scaled so that its longest side is at most `maxdim`, or a copy
/// when it already fits.
pub fn resize_image_with_max_dim(image: &image::DynamicImage, maxdim: usize) -> (r: image::DynamicImage) {
    let (x, y) = dimensions_of(image);
    match SizeConstraint::MaxDim(maxdim).target_dimensions(x, y) {
        Some((w, h)) => resize_nearest(image, w, h),
        None => copy_image(image),
    }
}

/// A still image being worked on.
pub struct ImageResource {
    pub image: image::DynamicImage,
}

impl ImageResource {
    pub fn constrain(self, constraint: &SizeConstraint) -> (r: ImageResource) {
        ImageResource { image: constraint.constrain(self.image) }
    }

    pub fn get_dimensions(&self) -> (r: (u32, u32)) {
        dimensions_of(&self.image)
    }
}

/// Decoding of sources into media.
pub struct ImageParser {}

impl ImageParser {
    /// The kind of a source (see [`SourceKind::get_image_kind`]).
    pub fn parse_kind(source: &SourceKind) -> (r: Option<ImageKind>)
        ensures
            r == match source {
                SourceKind::File(p) => kind_of_extension(extension_of(p@)),
                SourceKind::Url(_) => None,
            },
    {
        source.get_image_kind()
    }

    /// The kind of a local file, from its extension.
    pub fn parse_localkind(path: &str) -> (r: Option<ImageKind>)
        ensures
            r == kind_of_extension(extension_of(path@)),
    {
        ImageKind::from_path(path)
    }

    /// Decodes `bytes` as media of `image_kind`: a still image or the frames
    /// of a gif. Other video is not decoded here, and gives `None`, as does
    /// data that fails to decode.
    pub fn parse_bytes(bytes: &[u8], image_kind: ImageKind) -> (r: Option<ImageResult>)
        ensures
            image_kind == ImageKind::Anim ==> r is None,
            r matches Some(m) ==> match (image_kind, m) {
                (ImageKind::Image, ImageResult::Image(_)) => true,
                (ImageKind::Gif, ImageResult::Gif(_)) => true,
                _ => false,
            },
    {
        match image_kind {
            ImageKind::Gif => match decode_gif(bytes) {
                Some(frames) => Some(ImageResult::Gif(frames)),
                None => None,
            },
            ImageKind::Image => match decode_image(bytes) {
                Some(img) => Some(ImageResult::Image(img)),
                None => None,
            },
            ImageKind::Anim => None,
        }
    }
}

} // verus!
