//! The JPEG decoder: an adapter from the decoder capability contract
//! onto the external `zune_jpeg` decode engine.
//!
//! The adapter owns the raw input bytes, asks the engine for a cheap
//! header-only parse at construction time, and defers the expensive full
//! decode to a terminal call. Caller-supplied `Limits` are enforced here,
//! against the header-declared dimensions, before any pixel-sized buffer
//! exists; the width and height bounds are additionally translated into
//! the engine's own caps. The engine exposes no allocation cap, and this
//! decoder does not enforce `max_alloc`: a known, documented limitation.

use vstd::prelude::*;

use zune_core::colorspace::ColorSpace;
use zune_core::options::DecoderOptions;
use zune_jpeg::errors::DecodeErrors;

use crate::color::ColorType;
use crate::error::DecodingDiagnostic;
use crate::error::ImageError;
use crate::error::LimitErrorKind;
use crate::limits::Limits;

verus! {

/// The output color space the engine reports for a parsed stream,
/// classified into the set this library can produce. Every engine color
/// space outside that set is `Other` and is coerced to RGB at decode
/// time.
#[derive(Clone, Copy, Debug, PartialEq, Eq)]
pub enum JpegColorSpace {
    /// Red, green, blue.
    Rgb,
    /// Red, green, blue, alpha.
    Rgba,
    /// Grayscale.
    Luma,
    /// Grayscale with alpha.
    LumaA,
    /// Any color space the library does not produce directly.
    Other,
}

/// The header facts a cheap header-only parse yields.
#[derive(Clone, Copy, Debug, PartialEq, Eq)]
pub struct JpegHeader {
    /// Declared width in pixels.
    pub width: u16,
    /// Declared height in pixels.
    pub height: u16,
    /// The engine's reported output color space.
    pub color_space: JpegColorSpace,
}

/// A failure reported by the decode engine, carried across the adapter
/// boundary with the variant identity the error translation needs.
#[derive(Clone, Debug, PartialEq, Eq)]
pub enum EngineError {
    /// A recognized but unimplemented coding scheme; holds its
    /// description.
    Unsupported(String),
    /// The engine judged the declared dimensions too large.
    LargeDimensions(u64),
    /// Every other engine failure, with its diagnostic text.
    Other(String),
}

/// The outcome of the engine's header-only parse of `input`.
pub uninterp spec fn jpeg_header(input: Seq<u8>) -> Result<JpegHeader, EngineError>;

/// The outcome of the engine's full decode of `input` into pixels of
/// layout `target`, with the engine's width and height caps set to
/// `max_width` and `max_height` where given and left at the engine's
/// defaults where not.
pub uninterp spec fn jpeg_decode(
    input: Seq<u8>,
    target: ColorType,
    max_width: Option<u32>,
    max_height: Option<u32>,
) -> Result<Seq<u8>, EngineError>;

/// The ICC profile the engine assembles from the header metadata of
/// `input`, if the stream carries a usable one.
pub uninterp spec fn jpeg_icc(input: Seq<u8>) -> Option<Seq<u8>>;

/// Relies on `zune_jpeg::JpegDecoder::decode_headers` with default
/// options, and on `dimensions` and `get_output_colorspace`, which return
/// `Some` once the headers are decoded. The engine reports the four
/// color spaces this library produces directly; every other reported
/// space is classified as `Other`. Engine errors keep the variant
/// identity of `Unsupported` and `LargeDimensions` and carry every other
/// variant's diagnostic text.
#[verifier::external_body]
fn parse_jpeg_header(input: &Vec<u8>) -> (r: Result<JpegHeader, EngineError>)
    ensures
        r == jpeg_header(input@),
{
    let mut d = zune_jpeg::JpegDecoder::new(input.as_slice());
    if let Err(e) = d.decode_headers() {
        return Err(match e {
            DecodeErrors::Unsupported(s) => EngineError::Unsupported(format!("{s:?}")),
            DecodeErrors::LargeDimensions(n) => EngineError::LargeDimensions(n as u64),
            other => EngineError::Other(format!("{other:?}")),
        });
    }
    let (width, height) = d.dimensions().unwrap();
    let color_space = match d.get_output_colorspace().unwrap() {
        ColorSpace::RGB => JpegColorSpace::Rgb, ColorSpace::RGBA => JpegColorSpace::Rgba,
        ColorSpace::Luma => JpegColorSpace::Luma, ColorSpace::LumaA => JpegColorSpace::LumaA,
        _ => JpegColorSpace::Other,
    };
    Ok(JpegHeader { width, height, color_space })
}

/// Relies on `zune_jpeg::JpegDecoder::decode_into` with options built by
/// `zune_core::options::DecoderOptions::default`, `jpeg_set_out_colorspace`,
/// `set_max_width` and `set_max_height`. For a stream whose headers parse
/// to `h` and a buffer of exactly `h.width * h.height` pixels of the
/// layout the engine commits to for `h`, the engine's own output-size
/// check passes and the call fills the buffer with the decoded pixels or
/// fails without resizing it. Errors are carried as in the header parse.
#[verifier::external_body]
fn decode_into_buffer(input: &Vec<u8>, target: ColorType, max_width: Option<u32>, max_height: Option<u32>, buf: &mut Vec<u8>) -> (r: Result<(), EngineError>)
    requires
        jpeg_header(input@) matches Ok(h) && target == ColorType::spec_from_jpeg(h.color_space)
            && old(buf)@.len() == h.width * h.height * target.spec_bytes_per_pixel(),
    ensures
        final(buf)@.len() == old(buf)@.len(),
        r is Ok <==> jpeg_decode(input@, target, max_width, max_height) is Ok,
        r is Ok ==> final(buf)@ == jpeg_decode(input@, target, max_width, max_height)->Ok_0,
        r matches Err(e2) ==> jpeg_decode(input@, target, max_width, max_height) matches Err(e) && e2 == e,
{
    let mut opts = DecoderOptions::default().jpeg_set_out_colorspace(match target {
        ColorType::L8 => ColorSpace::Luma, ColorType::La8 => ColorSpace::LumaA,
        ColorType::Rgb8 => ColorSpace::RGB, ColorType::Rgba8 => ColorSpace::RGBA,
    });
    if let Some(w) = max_width { opts = opts.set_max_width(w as usize); }
    if let Some(h) = max_height { opts = opts.set_max_height(h as usize); }
    let mut d = zune_jpeg::JpegDecoder::new_with_options(opts, input.as_slice());
    match d.decode_into(buf.as_mut_slice()) {
        Ok(()) => Ok(()),
        Err(DecodeErrors::Unsupported(s)) => Err(EngineError::Unsupported(format!("{s:?}"))),
        Err(DecodeErrors::LargeDimensions(n)) => Err(EngineError::LargeDimensions(n as u64)),
        Err(e) => Err(EngineError::Other(format!("{e:?}"))),
    }
}

/// Relies on `zune_jpeg::JpegDecoder::decode`, configured exactly as in
/// `decode_into_buffer`. The engine checks its dimension caps during the
/// header parse, then allocates the output itself, so this call is safe
/// on inputs whose declared size is not yet known; its outcome coincides
/// with `decode_into` on a buffer of the advertised size, which `decode`
/// allocates and fills. Errors are carried as in the header parse.
#[verifier::external_body]
fn decode_to_vec(input: &Vec<u8>, target: ColorType, max_width: Option<u32>, max_height: Option<u32>) -> (r: Result<Vec<u8>, EngineError>)
    ensures
        r is Ok <==> jpeg_decode(input@, target, max_width, max_height) is Ok,
        r matches Ok(v) ==> v@ == jpeg_decode(input@, target, max_width, max_height)->Ok_0,
        r matches Err(e2) ==> jpeg_decode(input@, target, max_width, max_height) matches Err(e) && e2 == e,
        r matches Ok(v) ==> ((jpeg_header(input@) is Ok && target == ColorType::spec_from_jpeg(jpeg_header(input@)->Ok_0.color_space)) ==> v@.len() == jpeg_header(input@)->Ok_0.width * jpeg_header(input@)->Ok_0.height * target.spec_bytes_per_pixel()),
{
    let mut opts = DecoderOptions::default().jpeg_set_out_colorspace(match target {
        ColorType::L8 => ColorSpace::Luma, ColorType::La8 => ColorSpace::LumaA,
        ColorType::Rgb8 => ColorSpace::RGB, ColorType::Rgba8 => ColorSpace::RGBA,
    });
    if let Some(w) = max_width { opts = opts.set_max_width(w as usize); }
    if let Some(h) = max_height { opts = opts.set_max_height(h as usize); }
    let mut d = zune_jpeg::JpegDecoder::new_with_options(opts, input.as_slice());
    match d.decode() {
        Ok(v) => Ok(v),
        Err(DecodeErrors::Unsupported(s)) => Err(EngineError::Unsupported(format!("{s:?}"))),
        Err(DecodeErrors::LargeDimensions(n)) => Err(EngineError::LargeDimensions(n as u64)),
        Err(e) => Err(EngineError::Other(format!("{e:?}"))),
    }
}

/// Relies on `zune_jpeg::JpegDecoder::icc_profile`, which assembles the
/// ICC chunks recorded while decoding headers and returns `None` for a
/// missing or corrupt profile; a stream whose headers do not parse has
/// none.
#[verifier::external_body]
fn read_icc_profile(input: &Vec<u8>) -> (r: Option<Vec<u8>>)
    ensures
        r is Some <==> jpeg_icc(input@) is Some,
        r matches Some(v) ==> v@ == jpeg_icc(input@)->0,
{
    let mut d = zune_jpeg::JpegDecoder::new(input.as_slice());
    if d.decode_headers().is_err() {
        return None;
    }
    d.icc_profile()
}

/// The supported color space a native one is normalized to: the four
/// spaces the library produces stand for themselves, everything else is
/// coerced to RGB.
pub open spec fn spec_to_supported(orig: JpegColorSpace) -> JpegColorSpace {
    match orig {
        JpegColorSpace::Other => JpegColorSpace::Rgb,
        _ => orig,
    }
}

/// Normalizes a native color space to one the library produces.
fn to_supported_color_space(orig: JpegColorSpace) -> (r: JpegColorSpace)
    ensures
        r == spec_to_supported(orig),
{
    match orig {
        JpegColorSpace::Rgb => JpegColorSpace::Rgb,
        JpegColorSpace::Rgba => JpegColorSpace::Rgba,
        JpegColorSpace::Luma => JpegColorSpace::Luma,
        JpegColorSpace::LumaA => JpegColorSpace::LumaA,
        // everything else is converted to RGB during decoding
        JpegColorSpace::Other => JpegColorSpace::Rgb,
    }
}

impl ColorType {
    /// The output pixel layout committed to for a stream whose engine
    /// reports color space `colorspace`.
    pub open spec fn spec_from_jpeg(colorspace: JpegColorSpace) -> ColorType {
        match spec_to_supported(colorspace) {
            JpegColorSpace::Rgb => ColorType::Rgb8,
            JpegColorSpace::Rgba => ColorType::Rgba8,
            JpegColorSpace::Luma => ColorType::L8,
            JpegColorSpace::LumaA => ColorType::La8,
            JpegColorSpace::Other => ColorType::Rgb8,
        }
    }

    /// The output pixel layout for a stream with the given native color
    /// space. The engine output is always 8 bits per channel.
    pub fn from_jpeg(colorspace: JpegColorSpace) -> (r: ColorType)
        ensures
            r == ColorType::spec_from_jpeg(colorspace),
    {
        let colorspace = to_supported_color_space(colorspace);
        match colorspace {
            JpegColorSpace::Rgb => ColorType::Rgb8,
            JpegColorSpace::Rgba => ColorType::Rgba8,
            JpegColorSpace::Luma => ColorType::L8,
            JpegColorSpace::LumaA => ColorType::La8,
            // normalization never yields another variant; stay total anyway
            JpegColorSpace::Other => ColorType::Rgb8,
        }
    }
}

impl ImageError {
    /// The category an engine failure maps into: unimplemented schemes
    /// are `Unsupported`, oversized declared dimensions are a dimension
    /// `Limits` failure, everything else is `Decoding` with the engine's
    /// diagnostic.
    pub open spec fn spec_from_jpeg(err: EngineError) -> ImageError {
        match err {
            EngineError::Unsupported(desc) => ImageError::Unsupported(desc),
            EngineError::LargeDimensions(_) => ImageError::Limits(LimitErrorKind::DimensionError),
            EngineError::Other(diag) => ImageError::Decoding(DecodingDiagnostic::Engine(diag)),
        }
    }

    /// Translates an engine failure into the local taxonomy. The mapping
    /// is total: every engine failure lands in exactly one category.
    pub fn from_jpeg(err: EngineError) -> (r: ImageError)
        ensures
            r == ImageError::spec_from_jpeg(err),
    {
        match err {
            EngineError::Unsupported(desc) => ImageError::Unsupported(desc),
            EngineError::LargeDimensions(_) => ImageError::Limits(LimitErrorKind::DimensionError),
            EngineError::Other(diag) => ImageError::Decoding(DecodingDiagnostic::Engine(diag)),
        }
    }
}

/// JPEG decoder.
///
/// Owns the raw input bytes of one stream. Construction performs the
/// cheap header-only parse; the header facts are immutable from then on.
/// The instance is consumed by exactly one terminal decode operation,
/// `read_image` or `into_reader`.
#[derive(Debug)]
pub struct JpegDecoder {
    input: Vec<u8>,
    color_space: JpegColorSpace,
    width: u16,
    height: u16,
    limits: Limits,
}

impl JpegDecoder {
    #[verifier::type_invariant]
    spec fn header_parsed(self) -> bool {
        jpeg_header(self.input@) matches Ok(h) && h.width == self.width && h.height
            == self.height && h.color_space == self.color_space
    }

    /// The raw input bytes this decoder owns.
    pub closed spec fn spec_input(self) -> Seq<u8> {
        self.input@
    }

    /// The header-declared width.
    pub closed spec fn spec_width(self) -> u16 {
        self.width
    }

    /// The header-declared height.
    pub closed spec fn spec_height(self) -> u16 {
        self.height
    }

    /// The engine-reported native output color space.
    pub closed spec fn spec_color_space(self) -> JpegColorSpace {
        self.color_space
    }

    /// The currently installed limits.
    pub closed spec fn spec_limits(self) -> Limits {
        self.limits
    }

    /// The advertised output size in bytes: width times height times
    /// bytes per pixel of the committed output layout.
    pub open spec fn spec_advertised_size(self) -> int {
        self.spec_width() * self.spec_height() * ColorType::spec_from_jpeg(
            self.spec_color_space(),
        ).spec_bytes_per_pixel()
    }

    /// Whether the currently installed limits admit the header-declared
    /// dimensions.
    pub open spec fn spec_limits_admit(self) -> bool {
        self.spec_limits().spec_admits_dimensions(
            self.spec_width() as u32,
            self.spec_height() as u32,
        )
    }

    /// The outcome of the engine's full decode of this instance's input,
    /// with the committed output layout and the installed width and
    /// height bounds.
    pub open spec fn spec_decode_outcome(self) -> Result<Seq<u8>, EngineError> {
        jpeg_decode(
            self.spec_input(),
            ColorType::spec_from_jpeg(self.spec_color_space()),
            self.spec_limits().max_image_width,
            self.spec_limits().max_image_height,
        )
    }

    /// Create a new decoder that decodes the stream held in `input`.
    ///
    /// The whole input is owned up front and only its headers are
    /// parsed; a header that does not parse is reported immediately,
    /// before any pixel-sized buffer exists. Limits start out unset.
    pub fn new(input: Vec<u8>) -> (r: Result<JpegDecoder, ImageError>)
        ensures
            r is Ok <==> jpeg_header(input@) is Ok,
            r matches Ok(d) ==> (d.spec_width() == jpeg_header(input@)->Ok_0.width
                && d.spec_height() == jpeg_header(input@)->Ok_0.height && d.spec_color_space()
                == jpeg_header(input@)->Ok_0.color_space && d.spec_input() == input@
                && d.spec_limits() == Limits::spec_no_limits()),
            r matches Err(e) ==> (jpeg_header(input@) is Err && e == ImageError::spec_from_jpeg(
                jpeg_header(input@)->Err_0,
            )),
    {
        match parse_jpeg_header(&input) {
            Ok(h) => Ok(
                JpegDecoder {
                    input,
                    color_space: h.color_space,
                    width: h.width,
                    height: h.height,
                    limits: Limits::no_limits(),
                },
            ),
            Err(e) => Err(ImageError::from_jpeg(e)),
        }
    }

    /// Some decoders support scaling the image during decoding, but the
    /// wrapped engine does not, so this is a no-op that always returns
    /// the original dimensions unchanged.
    pub fn scale(&mut self, _requested_width: u16, _requested_height: u16) -> (r: Result<(u16, u16), ImageError>)
        ensures
            *final(self) == *old(self),
            r matches Ok(d) && d == (old(self).spec_width(), old(self).spec_height()),
    {
        Ok((self.width, self.height))
    }

    /// The header-declared width and height, available without the full
    /// decode.
    pub fn dimensions(&self) -> (r: (u32, u32))
        ensures
            r == (self.spec_width() as u32, self.spec_height() as u32),
    {
        (self.width as u32, self.height as u32)
    }

    /// The output pixel layout this decoder commits to producing. It may
    /// differ from the stream's native color space: an unsupported
    /// native space is normalized to RGB, and the engine is asked for
    /// that same coercion at decode time.
    pub fn color_type(&self) -> (r: ColorType)
        ensures
            r == ColorType::spec_from_jpeg(self.spec_color_space()),
    {
        ColorType::from_jpeg(self.color_space)
    }

    /// The advertised output size in bytes, computed from the header
    /// facts alone. Every buffer handed to `read_image` must hold
    /// exactly this many bytes.
    pub fn total_bytes(&self) -> (r: u64)
        ensures
            r == self.spec_advertised_size(),
    {
        let bpp = self.color_type().bytes_per_pixel();
        proof {
            assert((self.width as int) * (self.height as int) * (bpp as int) <= 0xFFFF * 0xFFFF
                * 4) by (nonlinear_arith)
                requires
                    self.width <= 0xFFFF,
                    self.height <= 0xFFFF,
                    0 <= bpp <= 4,
            ;
        }
        (self.width as u64) * (self.height as u64) * (bpp as u64)
    }

    /// Installs new limits, replacing the previous ones wholesale.
    ///
    /// This only stores the value: enforcement is deferred to the
    /// terminal decode call, which checks the header-declared dimensions
    /// against these bounds before any pixel-sized buffer exists. The
    /// engine exposes no allocation cap, so `max_alloc` is not enforced
    /// by this decoder; that is a documented limitation, not a checked
    /// bound.
    pub fn set_limits(&mut self, limits: Limits) -> (r: Result<(), ImageError>)
        ensures
            r is Ok,
            final(self).spec_limits() == limits,
            final(self).spec_input() == old(self).spec_input(),
            final(self).spec_width() == old(self).spec_width(),
            final(self).spec_height() == old(self).spec_height(),
            final(self).spec_color_space() == old(self).spec_color_space(),
    {
        proof {
            use_type_invariant(&*self);
        }
        self.limits = limits;
        Ok(())
    }

    /// Performs the full decode into a caller-provided buffer, which
    /// must hold exactly the advertised number of bytes.
    ///
    /// A wrongly sized buffer is a `Decoding` error carrying both
    /// lengths; dimensions the installed limits do not admit are a
    /// dimension `Limits` error, raised before the engine runs and
    /// before any pixel-sized allocation; every engine failure maps
    /// through the error translation. On success the buffer holds
    /// exactly the decoded pixels.
    pub fn read_image(self, buf: &mut Vec<u8>) -> (r: Result<(), ImageError>)
        ensures
            final(buf)@.len() == old(buf)@.len(),
            old(buf)@.len() != self.spec_advertised_size() ==> (r is Err && r->Err_0
                == ImageError::spec_length_mismatch(
                self.spec_advertised_size(),
                old(buf)@.len() as int,
            ) && final(buf)@ == old(buf)@),
            (old(buf)@.len() == self.spec_advertised_size() && !self.spec_limits_admit()) ==> (r
                is Err && r->Err_0 == ImageError::Limits(LimitErrorKind::DimensionError)
                && final(buf)@ == old(buf)@),
            (old(buf)@.len() == self.spec_advertised_size() && self.spec_limits_admit()) ==> (r
                is Ok <==> self.spec_decode_outcome() is Ok),
            (old(buf)@.len() == self.spec_advertised_size() && self.spec_limits_admit() && r is Ok)
                ==> final(buf)@ == self.spec_decode_outcome()->Ok_0,
            (old(buf)@.len() == self.spec_advertised_size() && self.spec_limits_admit() && r
                is Err) ==> (self.spec_decode_outcome() is Err && r->Err_0
                == ImageError::spec_from_jpeg(self.spec_decode_outcome()->Err_0)),
    {
        proof {
            use_type_invariant(&self);
        }
        let advertised: u64 = self.total_bytes();
        let actual: u64 = buf.len() as u64;
        if actual != advertised {
            return Err(
                ImageError::Decoding(
                    (DecodingDiagnostic::LengthMismatch { expected: advertised, actual }),
                ),
            );
        }
        if !self.limits.admits_dimensions(self.width as u32, self.height as u32) {
            return Err(ImageError::Limits(LimitErrorKind::DimensionError));
        }
        let target = ColorType::from_jpeg(self.color_space);
        match decode_into_buffer(
            &self.input,
            target,
            self.limits.max_image_width,
            self.limits.max_image_height,
            buf,
        ) {
            Ok(()) => Ok(()),
            Err(e) => Err(ImageError::from_jpeg(e)),
        }
    }

    /// The alternative terminal operation: performs the full decode and
    /// hands the pixel bytes back as a finite sequential reader.
    ///
    /// Limits are enforced exactly as in `read_image`; the output is
    /// allocated by the engine only after its own header checks pass.
    pub fn into_reader(self) -> (r: Result<JpegReader, ImageError>)
        ensures
            !self.spec_limits_admit() ==> (r is Err && r->Err_0 == ImageError::Limits(
                LimitErrorKind::DimensionError,
            )),
            self.spec_limits_admit() ==> (r is Ok <==> self.spec_decode_outcome() is Ok),
            (self.spec_limits_admit() && r is Ok) ==> (r->Ok_0.contents()
                == self.spec_decode_outcome()->Ok_0 && r->Ok_0.position() == 0
                && r->Ok_0.contents().len() == self.spec_advertised_size()),
            (self.spec_limits_admit() && r is Err) ==> (self.spec_decode_outcome() is Err
                && r->Err_0 == ImageError::spec_from_jpeg(self.spec_decode_outcome()->Err_0)),
    {
        proof {
            use_type_invariant(&self);
        }
        if !self.limits.admits_dimensions(self.width as u32, self.height as u32) {
            return Err(ImageError::Limits(LimitErrorKind::DimensionError));
        }
        let target = ColorType::from_jpeg(self.color_space);
        match decode_to_vec(
            &self.input,
            target,
            self.limits.max_image_width,
            self.limits.max_image_height,
        ) {
            Ok(data) => Ok(JpegReader { data, pos: 0 }),
            Err(e) => Err(ImageError::from_jpeg(e)),
        }
    }

    /// Re-parses the header-level metadata and returns the embedded ICC
    /// profile, if the stream carries a usable one. This does not
    /// consume the decoder and does not touch the main decode path.
    pub fn icc_profile(&self) -> (r: Option<Vec<u8>>)
        ensures
            r is Some <==> jpeg_icc(self.spec_input()) is Some,
            r matches Some(v) ==> v@ == jpeg_icc(self.spec_input())->0,
    {
        read_icc_profile(&self.input)
    }
}

/// The sequential reader a terminal `into_reader` decode yields: the
/// decoded pixel bytes, consumed front to back, finite and not
/// restartable.
#[derive(Debug)]
pub struct JpegReader {
    data: Vec<u8>,
    pos: usize,
}

impl JpegReader {
    #[verifier::type_invariant]
    spec fn cursor_in_bounds(self) -> bool {
        self.pos <= self.data@.len()
    }

    /// The full decoded contents this reader was created over.
    pub closed spec fn contents(self) -> Seq<u8> {
        self.data@
    }

    /// How many bytes have already been consumed.
    pub closed spec fn position(self) -> int {
        self.pos as int
    }

    /// How many bytes remain to be read.
    pub open spec fn spec_remaining(self) -> int {
        self.contents().len() - self.position()
    }

    /// Reads the next bytes into the front of `buf`, as many as fit and
    /// remain, leaving the rest of `buf` unchanged; returns how many
    /// were read.
    pub fn read(&mut self, buf: &mut Vec<u8>) -> (n: usize)
        ensures
            n as int == if old(buf)@.len() as int <= old(self).spec_remaining() {
                old(buf)@.len() as int
            } else {
                old(self).spec_remaining()
            },
            final(buf)@ == old(self).contents().subrange(
                old(self).position(),
                old(self).position() + n,
            ) + old(buf)@.skip(n as int),
            final(buf)@.len() == old(buf)@.len(),
            final(self).contents() == old(self).contents(),
            final(self).position() == old(self).position() + n,
    {
        proof {
            use_type_invariant(&*self);
        }
        let data_len: usize = self.data.len();
        let remaining: usize = data_len - self.pos;
        let k: usize = if buf.len() <= remaining {
            buf.len()
        } else {
            remaining
        };
        let mut out: Vec<u8> = Vec::new();
        for i in 0..k
            invariant
                out@.len() == i,
                data_len == self.data@.len(),
                self.pos + k <= data_len,
                out@ == self.data@.subrange(self.pos as int, self.pos + i),
        {
            out.push(self.data[self.pos + i]);
        }
        let total: usize = buf.len();
        for j in k..total
            invariant
                total == buf@.len(),
                k <= total,
                out@.len() == j,
                self.pos + k <= self.data@.len(),
                out@ == self.data@.subrange(self.pos as int, self.pos + k) + buf@.subrange(
                    k as int,
                    j as int,
                ),
        {
            out.push(buf[j]);
        }
        proof {
            assert(out@ =~= self.data@.subrange(self.pos as int, self.pos + k) + buf@.skip(
                k as int,
            ));
        }
        *buf = out;
        self.pos = self.pos + k;
        k
    }

    /// Appends everything that remains to `buf` and returns how many
    /// bytes that was; the reader is exhausted afterwards.
    pub fn read_to_end(&mut self, buf: &mut Vec<u8>) -> (n: usize)
        ensures
            n as int == old(self).spec_remaining(),
            final(buf)@ == old(buf)@ + old(self).contents().skip(old(self).position()),
            final(self).contents() == old(self).contents(),
            final(self).position() == final(self).contents().len(),
    {
        proof {
            use_type_invariant(&*self);
        }
        let data_len: usize = self.data.len();
        let n: usize = data_len - self.pos;
        for i in 0..n
            invariant
                data_len == self.data@.len(),
                self.pos + n == data_len,
                buf@ == old(buf)@ + self.data@.subrange(self.pos as int, self.pos + i),
        {
            buf.push(self.data[self.pos + i]);
        }
        self.pos = self.data.len();
        n
    }
}

} // verus!
