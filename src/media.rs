use vstd::prelude::*;
use vstd::string::*;

use crate::config::{
    as_count, as_str, count_of, field, get, malformed_field, text_field, text_field_exec, text_of,
    unsupported_field, ConfigError, ConfigNode,
};
use crate::text::{decimal, decimal_string, join2, padded4, padded4_string, text_eq};

verus! {

/// The kind of media a source holds.
#[derive(Debug, Clone, Copy, PartialEq, Eq, Structural)]
pub enum ImageKind {
    Image,
    Gif,
    Anim,
}

/// The kind of media a source was declared to hold.
#[derive(Debug, Clone, Copy, PartialEq, Eq, Structural)]
pub enum MediaType {
    Image,
    Gif,
}

/// The error of asking a media result for a kind it does not hold.
#[derive(Debug, Clone, Copy, PartialEq, Eq, Structural)]
pub struct Empty;

/// The index of the last `.` among the first `n` characters of `s`, or -1.
pub open spec fn last_dot_before(s: Seq<char>, n: int) -> int
    decreases n,
{
    if n <= 0 {
        -1
    } else if s[n - 1] == '.' {
        n - 1
    } else {
        last_dot_before(s, n - 1)
    }
}

/// The text after the last `.` of `s`, or all of `s` when it has none.
pub open spec fn extension_of(s: Seq<char>) -> Seq<char> {
    s.subrange(last_dot_before(s, s.len() as int) + 1, s.len() as int)
}

/// The media kind of a file extension.
pub open spec fn kind_of_extension(e: Seq<char>) -> Option<ImageKind> {
    if e == "gif"@ {
        Some(ImageKind::Gif)
    } else if e == "png"@ || e == "jpeg"@ || e == "jpg"@ || e == "tiff"@ || e == "bmp"@ {
        Some(ImageKind::Image)
    } else if e == "mp4"@ || e == "mov"@ || e == "avi"@ {
        Some(ImageKind::Anim)
    } else {
        None
    }
}

/// The media kind of a MIME type and subtype.
pub open spec fn kind_of_mime(top: Seq<char>, sub: Seq<char>) -> Option<ImageKind> {
    if top == "image"@ && sub == "gif"@ {
        Some(ImageKind::Gif)
    } else if top == "video"@ {
        Some(ImageKind::Anim)
    } else if top == "image"@ {
        Some(ImageKind::Image)
    } else {
        None
    }
}

/// The type and subtype that the `mime` crate parses from a content type,
/// or `None` when it rejects the text.
pub uninterp spec fn mime_parts(s: Seq<char>) -> Option<(Seq<char>, Seq<char>)>;

/// Relies on `mime::Mime`'s `FromStr` with `Mime::type_` and
/// `Mime::subtype`: the parsed type and subtype of a content type.
#[verifier::external_body]
fn parse_mime(s: &str) -> (r: Option<(String, String)>)
    ensures
        match r {
            Some((t, st)) => mime_parts(s@) == Some((t@, st@)),
            None => mime_parts(s@) is None,
        },
{
    s.parse::<mime::Mime>().ok().map(
        |m| (m.type_().as_str().to_string(), m.subtype().as_str().to_string()),
    )
}

/// The position of the last `.` in `s`, if any.
fn last_dot(s: &str) -> (r: Option<usize>)
    ensures
        match r {
            Some(k) => k as int == last_dot_before(s@, s@.len() as int) && k < s@.len(),
            None => last_dot_before(s@, s@.len() as int) == -1,
        },
{
    let n = s.unicode_len();
    let mut last: Option<usize> = None;
    let mut i: usize = 0;
    while i < n
        invariant
            0 <= i <= n,
            n == s@.len(),
            match last {
                Some(k) => k as int == last_dot_before(s@, i as int) && k < i,
                None => last_dot_before(s@, i as int) == -1,
            },
        decreases n - i,
    {
        if s.get_char(i) == '.' {
            last = Some(i);
        }
        i = i + 1;
    }
    last
}

impl ImageKind {
    /// The kind of a path, from the text after its last `.`; `None` for an
    /// extension that is not supported.
    pub fn from_path(path: &str) -> (r: Option<ImageKind>)
        ensures
            r == kind_of_extension(extension_of(path@)),
    {
        let n = path.unicode_len();
        let start: usize = match last_dot(path) {
            Some(k) => k + 1,
            None => 0,
        };
        let ext = path.substring_char(start, n);
        Self::from_extension(ext)
    }

    /// The kind of a file extension; `None` for one that is not supported.
    pub fn from_extension(ext: &str) -> (r: Option<ImageKind>)
        ensures
            r == kind_of_extension(ext@),
    {
        if text_eq(ext, "gif") {
            Some(ImageKind::Gif)
        } else if text_eq(ext, "png") || text_eq(ext, "jpeg") || text_eq(ext, "jpg") || text_eq(
            ext,
            "tiff",
        ) || text_eq(ext, "bmp") {
            Some(ImageKind::Image)
        } else if text_eq(ext, "mp4") || text_eq(ext, "mov") || text_eq(ext, "avi") {
            Some(ImageKind::Anim)
        } else {
            None
        }
    }

    /// The kind of a MIME type and subtype; `None` for one that is not
    /// supported.
    pub fn from_mime(top: &str, sub: &str) -> (r: Option<ImageKind>)
        ensures
            r == kind_of_mime(top@, sub@),
    {
        if text_eq(top, "image") && text_eq(sub, "gif") {
            Some(ImageKind::Gif)
        } else if text_eq(top, "video") {
            Some(ImageKind::Anim)
        } else if text_eq(top, "image") {
            Some(ImageKind::Image)
        } else {
            None
        }
    }

    /// The kind of a `Content-Type` header value; `None` when it does not
    /// parse or names an unsupported type.
    pub fn from_content_type(content_type: &str) -> (r: Option<ImageKind>)
        ensures
            r == match mime_parts(content_type@) {
                Some((t, st)) => kind_of_mime(t, st),
                None => None,
            },
    {
        match parse_mime(content_type) {
            Some((t, st)) => Self::from_mime(t.as_str(), st.as_str()),
            None => None,
        }
    }
}

/// Where a source image comes from.
#[derive(Debug, Clone)]
pub enum SourceKind {
    Url(String),
    File(String),
}

impl SourceKind {
    pub open spec fn path_of(&self) -> Seq<char> {
        match self {
            SourceKind::File(p) => p@,
            SourceKind::Url(p) => p@,
        }
    }

    /// The file path or the URL.
    pub fn get_path(&self) -> (r: String)
        ensures
            r@ == self.path_of(),
    {
        match self {
            SourceKind::File(p) => p.clone(),
            SourceKind::Url(p) => p.clone(),
        }
    }

    /// The media kind of a file source, from its extension. A URL's kind
    /// comes from its response's content type (see
    /// [`ImageKind::from_content_type`]), so it is `None` here.
    pub fn get_image_kind(&self) -> (r: Option<ImageKind>)
        ensures
            r == match self {
                SourceKind::File(p) => kind_of_extension(extension_of(p@)),
                SourceKind::Url(_) => None,
            },
    {
        match self {
            SourceKind::File(p) => ImageKind::from_path(p.as_str()),
            SourceKind::Url(_) => None,
        }
    }
}

/// A limit on the size of a source image.
#[derive(Debug, Clone, Copy, PartialEq, Eq, Structural)]
pub enum SizeConstraint {
    MaxDim(usize),
    MaxPixels(usize),
}

/// The integer square root.
pub open spec fn is_isqrt(n: int, r: int) -> bool {
    r >= 0 && r * r <= n < (r + 1) * (r + 1)
}

/// The integer square root of `n >= 0`.
pub open spec fn isqrt_of(n: int) -> int {
    choose|r: int| #[trigger] is_isqrt(n, r)
}

/// The integer square root of `n`.
pub fn isqrt(n: u128) -> (r: u64)
    ensures
        is_isqrt(n as int, r as int),
{
    let mut lo: u128 = 0;
    let mut hi: u128 = 0x1_0000_0000_0000_0000;
    assert(hi * hi > n) by (nonlinear_arith)
        requires
            hi == 0x1_0000_0000_0000_0000u128,
            n <= u128::MAX,
    ;
    while hi - lo > 1
        invariant
            lo < hi <= 0x1_0000_0000_0000_0000u128,
            lo * lo <= n,
            n < hi * hi,
        decreases hi - lo,
    {
        let mid = lo + (hi - lo) / 2;
        assert(mid * mid < 0x1_0000_0000_0000_0000_0000_0000_0000_0000int) by (nonlinear_arith)
            requires
                mid < 0x1_0000_0000_0000_0000u128,
        ;
        if mid * mid <= n {
            lo = mid;
        } else {
            hi = mid;
        }
    }
    assert(hi == lo + 1);
    lo as u64
}

/// The dimensions an image of `x` by `y` pixels is resized to under `c`, or
/// `None` when it already fits. A maximum dimension scales both sides by
/// `max / max(x, y)`; a maximum pixel count scales both by
/// `sqrt(max / (x * y))`; each side is rounded down.
pub open spec fn constrained_dims(c: SizeConstraint, x: int, y: int) -> Option<(int, int)> {
    match c {
        SizeConstraint::MaxDim(m) => {
            let longest = if x >= y {
                x
            } else {
                y
            };
            if m < longest {
                Some(((x * m) / longest, (y * m) / longest))
            } else {
                None
            }
        },
        SizeConstraint::MaxPixels(p) => if x * y > p {
            Some(
                (
                    isqrt_of((x * p) / y),
                    isqrt_of((y * p) / x),
                ),
            )
        } else {
            None
        },
    }
}

pub proof fn lemma_isqrt_unique(n: int, a: int, b: int)
    requires
        is_isqrt(n, a),
        is_isqrt(n, b),
    ensures
        a == b,
{
    if a < b {
        assert((a + 1) * (a + 1) <= b * b) by (nonlinear_arith)
            requires
                0 <= a < b,
        ;
    }
    if b < a {
        assert((b + 1) * (b + 1) <= a * a) by (nonlinear_arith)
            requires
                0 <= b < a,
        ;
    }
}

impl SizeConstraint {
    pub open spec fn text(&self) -> Seq<char> {
        match self {
            SizeConstraint::MaxDim(n) => "max-dim: "@ + decimal(*n as nat),
            SizeConstraint::MaxPixels(n) => "max-pixels: "@ + decimal(*n as nat),
        }
    }

    /// A short description, such as `max-dim: 512`.
    pub fn as_string(&self) -> (r: String)
        ensures
            r@ == self.text(),
    {
        match self {
            SizeConstraint::MaxDim(n) => {
                let d = decimal_string(*n as u64);
                join2("max-dim: ", d.as_str())
            },
            SizeConstraint::MaxPixels(n) => {
                let d = decimal_string(*n as u64);
                join2("max-pixels: ", d.as_str())
            },
        }
    }

    /// The dimensions an image of `x` by `y` pixels is resized to, or `None`
    /// when it already fits.
    pub fn target_dimensions(&self, x: u32, y: u32) -> (r: Option<(u32, u32)>)
        ensures
            match (r, constrained_dims(*self, x as int, y as int)) {
                (Some((a, b)), Some((c, d))) => a == c && b == d,
                (None, None) => true,
                _ => false,
            },
    {
        match *self {
            SizeConstraint::MaxDim(m) => {
                let longest: u32 = if x >= y {
                    x
                } else {
                    y
                };
                if (m as u128) < (longest as u128) {
                    proof {
                        assert((x * m) / longest as int <= x) by (nonlinear_arith)
                            requires
                                m < longest,
                                x <= longest,
                                longest > 0,
                        ;
                        assert((y * m) / longest as int <= y) by (nonlinear_arith)
                            requires
                                m < longest,
                                y <= longest,
                                longest > 0,
                        ;
                        assert(x * m <= u128::MAX) by (nonlinear_arith)
                            requires
                                x <= u32::MAX,
                                m < longest,
                                longest <= u32::MAX,
                        ;
                        assert(y * m <= u128::MAX) by (nonlinear_arith)
                            requires
                                y <= u32::MAX,
                                m < longest,
                                longest <= u32::MAX,
                        ;
                    }
                    let a = (x as u128 * m as u128) / longest as u128;
                    let b = (y as u128 * m as u128) / longest as u128;
                    Some((a as u32, b as u32))
                } else {
                    None
                }
            },
            SizeConstraint::MaxPixels(p) => {
                assert(x * y <= u128::MAX) by (nonlinear_arith)
                    requires
                        x <= u32::MAX,
                        y <= u32::MAX,
                ;
                let pixels: u128 = x as u128 * y as u128;
                if pixels > p as u128 {
                    proof {
                        assert(x > 0 && y > 0) by (nonlinear_arith)
                            requires
                                x * y > p,
                                p >= 0,
                                x >= 0,
                                y >= 0,
                        ;
                        assert(x * p <= u128::MAX && y * p <= u128::MAX) by (nonlinear_arith)
                            requires
                                x <= u32::MAX,
                                y <= u32::MAX,
                                p <= u64::MAX,
                        ;
                    }
                    let a = isqrt((x as u128 * p as u128) / y as u128);
                    let b = isqrt((y as u128 * p as u128) / x as u128);
                    proof {
                        assert((x * p) / y as int <= x * x) by (nonlinear_arith)
                            requires
                                x * y > p,
                                y > 0,
                                x > 0,
                        ;
                        assert((y * p) / x as int <= y * y) by (nonlinear_arith)
                            requires
                                x * y > p,
                                y > 0,
                                x > 0,
                        ;
                        assert(a <= x) by (nonlinear_arith)
                            requires
                                a * a <= (x * p) / y as int,
                                (x * p) / y as int <= x * x,
                                a >= 0,
                                x >= 0,
                        ;
                        assert(b <= y) by (nonlinear_arith)
                            requires
                                b * b <= (y * p) / x as int,
                                (y * p) / x as int <= y * y,
                                b >= 0,
                                y >= 0,
                        ;
                        assert(is_isqrt((x * p) / y as int, a as int));
                        assert(is_isqrt((y * p) / x as int, b as int));
                        lemma_isqrt_unique((x * p) / y as int, a as int, isqrt_of((x * p) / y as int));
                        lemma_isqrt_unique((y * p) / x as int, b as int, isqrt_of((y * p) / x as int));
                    }
                    Some((a as u32, b as u32))
                } else {
                    None
                }
            },
        }
    }
}

/// A source image and the limit on its size.
#[derive(Debug, Clone)]
pub struct Source {
    pub kind: SourceKind,
    pub constraint: Option<SizeConstraint>,
}

impl Source {
    /// The constraint's description, or `None`.
    pub fn constraint_str(&self) -> (r: String)
        ensures
            r@ == match self.constraint {
                Some(c) => c.text(),
                None => "None"@,
            },
    {
        match &self.constraint {
            Some(c) => c.as_string(),
            None => String::from_str("None"),
        }
    }
}

/// Where results are written and how many are produced.
#[derive(Debug, Clone)]
pub struct Output {
    pub path: String,
    pub n: usize,
}

/// The paths used while splitting media into frames.
#[derive(Debug, Clone)]
pub struct FfmpegPathUtil {
    pub temp: bool,
    pub prefix: String,
}

impl FfmpegPathUtil {
    pub open spec fn base_dir(&self) -> Seq<char> {
        if self.temp {
            "temp"@
        } else {
            "."@
        }
    }

    pub open spec fn dir_text(&self) -> Seq<char> {
        self.base_dir() + "/"@ + self.prefix@
    }

    /// `temp` for temporary work, `.` otherwise.
    fn _dir(&self) -> (r: String)
        ensures
            r@ == self.base_dir(),
    {
        if self.temp {
            String::from_str("temp")
        } else {
            String::from_str(".")
        }
    }

    /// The working directory: the base directory and the prefix.
    pub fn dir(&self) -> (r: String)
        ensures
            r@ == self.dir_text(),
    {
        let base = self._dir();
        let with_slash = join2(base.as_str(), "/");
        join2(with_slash.as_str(), self.prefix.as_str())
    }

    /// The frame file pattern in the form an ffmpeg command line expects.
    pub fn frame_path(&self) -> (r: String)
        ensures
            r@ == self.dir_text() + "/frame-%04d.png"@,
    {
        let d = self.dir();
        join2(d.as_str(), "/frame-%04d.png")
    }

    /// The file of frame `i`, numbered with at least four digits.
    pub fn frame_path_rs(&self, i: i64) -> (r: String)
        ensures
            r@ == self.dir_text() + "/frame-"@ + padded4(i as int) + ".png"@,
    {
        let d = self.dir();
        let head = join2(d.as_str(), "/frame-");
        let num = padded4_string(i);
        let body = join2(head.as_str(), num.as_str());
        join2(body.as_str(), ".png")
    }

    /// The file of the extracted audio track.
    pub fn audio_path(&self) -> (r: String)
        ensures
            r@ == self.base_dir() + "/source/audio.mp3"@,
    {
        let base = self._dir();
        join2(base.as_str(), "/source/audio.mp3")
    }
}

} // verus!

verus! {

/// What `regex::Regex::replace_all` leaves of `text` when every match of
/// `pattern` is replaced by nothing.
pub uninterp spec fn matches_removed(pattern: Seq<char>, text: Seq<char>) -> Seq<char>;

/// Relies on `regex::Regex::new` and `regex::Regex::replace_all` with an
/// empty replacement: the text without the matches of the pattern, or `None`
/// when the pattern does not compile.
#[verifier::external_body]
fn remove_matches(pattern: &str, text: &str) -> (r: Option<String>)
    ensures
        r matches Some(s) ==> s@ == matches_removed(pattern@, text@),
{
    regex::Regex::new(pattern).ok().map(|re| re.replace_all(text, "").into_owned())
}

/// The query parameter that sets a requested width.
pub const WIDTH_PARAM: &'static str = "&width=[0-9]+";

/// The query parameter that sets a requested height.
pub const HEIGHT_PARAM: &'static str = "&height=[0-9]+";

impl SourceKind {
    /// `node` names exactly one of `file` and `url`, as a string.
    pub open spec fn accepts(node: ConfigNode) -> bool {
        match (field(node, "file"@), field(node, "url"@)) {
            (Some(f), None) => text_of(f) is Some,
            (None, Some(u)) => text_of(u) is Some,
            _ => false,
        }
    }

    /// The source under `file` or `url`; a URL loses its `&width=` and
    /// `&height=` parameters.
    pub fn from_value(value: &ConfigNode) -> (r: Result<SourceKind, ConfigError>)
        ensures
            r is Ok ==> Self::accepts(*value),
            Self::accepts(*value) && field(*value, "file"@) is Some ==> r is Ok,
            r matches Ok(k) ==> match k {
                SourceKind::File(p) => field(*value, "file"@) matches Some(f) && text_of(f) == Some(
                    p@,
                ),
                SourceKind::Url(u) => field(*value, "url"@) matches Some(n) && (text_of(n) matches Some(
                    t,
                ) && u@ == matches_removed(HEIGHT_PARAM@, matches_removed(WIDTH_PARAM@, t))),
            },
    {
        let file = get(value, "file");
        let url = get(value, "url");
        match (file, url) {
            (Some(f), None) => match as_str(f) {
                Some(p) => Ok(SourceKind::File(String::from_str(p))),
                None => Err(malformed_field("source.file")),
            },
            (None, Some(u)) => {
                let text = match as_str(u) {
                    Some(t) => t,
                    None => return Err(malformed_field("source.url")),
                };
                let without_width = match remove_matches(WIDTH_PARAM, text) {
                    Some(s) => s,
                    None => return Err(unsupported_field("source.url")),
                };
                let without_both = match remove_matches(HEIGHT_PARAM, without_width.as_str()) {
                    Some(s) => s,
                    None => return Err(unsupported_field("source.url")),
                };
                Ok(SourceKind::Url(without_both))
            },
            _ => Err(malformed_field("source")),
        }
    }
}

/// `c` is the size constraint that `node` gives: `max-dim`, else
/// `max-pixels`, else none.
pub open spec fn constraint_of(node: ConfigNode, c: Option<SizeConstraint>) -> bool {
    match (field(node, "max-dim"@), field(node, "max-pixels"@)) {
        (Some(d), _) => count_of(d) matches Some(n) && c == Some(SizeConstraint::MaxDim(n)),
        (None, Some(p)) => count_of(p) matches Some(n) && c == Some(SizeConstraint::MaxPixels(n)),
        (None, None) => c is None,
    }
}

pub open spec fn constraint_ok(node: ConfigNode) -> bool {
    match (field(node, "max-dim"@), field(node, "max-pixels"@)) {
        (Some(d), _) => count_of(d) is Some,
        (None, Some(p)) => count_of(p) is Some,
        (None, None) => true,
    }
}

impl SizeConstraint {
    /// The optional size constraint of a source node.
    pub fn from_value(value: &ConfigNode) -> (r: Result<Option<SizeConstraint>, ConfigError>)
        ensures
            r is Ok <==> constraint_ok(*value),
            r matches Ok(c) ==> constraint_of(*value, c),
    {
        match get(value, "max-dim") {
            Some(d) => match as_count(d) {
                Some(n) => Ok(Some(SizeConstraint::MaxDim(n))),
                None => Err(malformed_field("max-dim")),
            },
            None => match get(value, "max-pixels") {
                Some(p) => match as_count(p) {
                    Some(n) => Ok(Some(SizeConstraint::MaxPixels(n))),
                    None => Err(malformed_field("max-pixels")),
                },
                None => Ok(None),
            },
        }
    }
}

impl Source {
    /// `node` has a `source` naming one of `file` and `url`, with a valid
    /// optional size constraint.
    pub open spec fn accepts(node: ConfigNode) -> bool {
        field(node, "source"@) matches Some(s) && SourceKind::accepts(s) && constraint_ok(s)
    }

    /// The source is a local file.
    pub open spec fn is_file(node: ConfigNode) -> bool {
        field(node, "source"@) matches Some(s) && field(s, "file"@) is Some
    }

    /// The source under field `source`.
    pub fn from_value(value: &ConfigNode) -> (r: Result<Source, ConfigError>)
        ensures
            r is Ok ==> (field(*value, "source"@) matches Some(s) && SourceKind::accepts(s)
                && constraint_ok(s)),
            (field(*value, "source"@) matches Some(s) && SourceKind::accepts(s) && constraint_ok(s)
                && field(s, "file"@) is Some) ==> r is Ok,
            r matches Ok(src) ==> (field(*value, "source"@) matches Some(s) && constraint_of(
                s,
                src.constraint,
            )),
    {
        let s = match get(value, "source") {
            Some(s) => s,
            None => return Err(malformed_field("source")),
        };
        let kind = SourceKind::from_value(s)?;
        let constraint = SizeConstraint::from_value(s)?;
        Ok(Source { kind, constraint })
    }
}

impl Output {
    /// `node` has an `output` mapping with a string `path` and a count `n`.
    pub open spec fn accepts(node: ConfigNode) -> bool {
        field(node, "output"@) matches Some(o) && (text_field(o, "path"@) is Some && (field(
            o,
            "n"@,
        ) matches Some(n) && count_of(n) is Some))
    }

    /// Where and how many results go, under field `output`.
    pub fn from_value(value: &ConfigNode) -> (r: Result<Output, ConfigError>)
        ensures
            r is Ok <==> Self::accepts(*value),
            r matches Ok(out) ==> (field(*value, "output"@) matches Some(o) && text_field(o, "path"@)
                == Some(out.path@) && (field(o, "n"@) matches Some(n) && count_of(n) == Some(out.n))),
    {
        let o = match get(value, "output") {
            Some(o) => o,
            None => return Err(malformed_field("output")),
        };
        let path = match text_field_exec(o, "path") {
            Some(p) => p,
            None => return Err(malformed_field("output.path")),
        };
        let n = match get(o, "n") {
            Some(n) => match as_count(n) {
                Some(n) => n,
                None => return Err(malformed_field("output.n")),
            },
            None => return Err(malformed_field("output.n")),
        };
        Ok(Output { path: String::from_str(path), n })
    }
}

} // verus!
