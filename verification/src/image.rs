//! The fixed-size picture that is transmitted, and the typed channel values
//! it is built from.
//!
//! Each of the six channel roles has a type of its own, so that a luma value
//! cannot be handed over where a chroma value is expected. All of them view
//! as the byte they carry.

use crate::rgb2yuv::{chroma_u, chroma_v, luma, u_rgb, v_rgb, y_rgb};
use vstd::prelude::*;

verus! {

/// Number of pixel columns of every picture.
pub const IMAGE_WIDTH: usize = 320;

/// Number of pixel rows of every picture.
pub const IMAGE_HEIGHT: usize = 240;

/// Number of pixels of every picture.
pub const IMAGE_SIZE: usize = 76_800;

/// Number of bytes of a picture held as consecutive R, G, B bytes.
pub const IMAGE_BYTES: usize = 230_400;

/// Why a picture could not be built. Each variant carries the value that was
/// found, then the value that was expected.
#[derive(Clone, Copy, Debug, PartialEq, Eq, Structural)]
pub enum ImageCreationError {
    /// The pixel buffer does not have the length of a whole picture.
    InvalidVectorSize(usize, usize),
    /// The decoded picture does not have 320 columns.
    InvalidWidth(usize, usize),
    /// The decoded picture does not have 240 rows.
    InvalidHeight(usize, usize),
}

/// A red channel value of a source pixel.
#[derive(Clone, Copy, Debug, PartialEq, Eq, Structural)]
pub struct R(u8);

impl View for R {
    type V = u8;

    closed spec fn view(&self) -> u8 {
        self.0
    }
}

impl From<u8> for R {
    fn from(value: u8) -> (channel: R)
        ensures
            channel@ == value,
    {
        R(value)
    }
}

impl vstd::std_specs::convert::FromSpecImpl<u8> for R {
    open spec fn obeys_from_spec() -> bool {
        true
    }

    closed spec fn from_spec(value: u8) -> R {
        R(value)
    }
}

impl From<&R> for u16 {
    fn from(channel: &R) -> (value: u16) {
        channel.0 as u16
    }
}

impl vstd::std_specs::convert::FromSpecImpl<&R> for u16 {
    open spec fn obeys_from_spec() -> bool {
        true
    }

    open spec fn from_spec(channel: &R) -> u16 {
        channel@ as u16
    }
}

/// A green channel value of a source pixel.
#[derive(Clone, Copy, Debug, PartialEq, Eq, Structural)]
pub struct G(u8);

impl View for G {
    type V = u8;

    closed spec fn view(&self) -> u8 {
        self.0
    }
}

impl From<u8> for G {
    fn from(value: u8) -> (channel: G)
        ensures
            channel@ == value,
    {
        G(value)
    }
}

impl vstd::std_specs::convert::FromSpecImpl<u8> for G {
    open spec fn obeys_from_spec() -> bool {
        true
    }

    closed spec fn from_spec(value: u8) -> G {
        G(value)
    }
}

impl From<&G> for u16 {
    fn from(channel: &G) -> (value: u16) {
        channel.0 as u16
    }
}

impl vstd::std_specs::convert::FromSpecImpl<&G> for u16 {
    open spec fn obeys_from_spec() -> bool {
        true
    }

    open spec fn from_spec(channel: &G) -> u16 {
        channel@ as u16
    }
}

/// A blue channel value of a source pixel.
#[derive(Clone, Copy, Debug, PartialEq, Eq, Structural)]
pub struct B(u8);

impl View for B {
    type V = u8;

    closed spec fn view(&self) -> u8 {
        self.0
    }
}

impl From<u8> for B {
    fn from(value: u8) -> (channel: B)
        ensures
            channel@ == value,
    {
        B(value)
    }
}

impl vstd::std_specs::convert::FromSpecImpl<u8> for B {
    open spec fn obeys_from_spec() -> bool {
        true
    }

    closed spec fn from_spec(value: u8) -> B {
        B(value)
    }
}

impl From<&B> for u16 {
    fn from(channel: &B) -> (value: u16) {
        channel.0 as u16
    }
}

impl vstd::std_specs::convert::FromSpecImpl<&B> for u16 {
    open spec fn obeys_from_spec() -> bool {
        true
    }

    open spec fn from_spec(channel: &B) -> u16 {
        channel@ as u16
    }
}

/// A luma channel value of a stored pixel.
#[derive(Clone, Copy, Debug, PartialEq, Eq, Structural)]
pub struct Y(u8);

impl View for Y {
    type V = u8;

    closed spec fn view(&self) -> u8 {
        self.0
    }
}

impl From<u8> for Y {
    fn from(value: u8) -> (channel: Y)
        ensures
            channel@ == value,
    {
        Y(value)
    }
}

impl vstd::std_specs::convert::FromSpecImpl<u8> for Y {
    open spec fn obeys_from_spec() -> bool {
        true
    }

    closed spec fn from_spec(value: u8) -> Y {
        Y(value)
    }
}

impl From<&Y> for u16 {
    fn from(channel: &Y) -> (value: u16) {
        channel.0 as u16
    }
}

impl vstd::std_specs::convert::FromSpecImpl<&Y> for u16 {
    open spec fn obeys_from_spec() -> bool {
        true
    }

    open spec fn from_spec(channel: &Y) -> u16 {
        channel@ as u16
    }
}

/// A blue-difference chroma channel value of a stored pixel.
#[derive(Clone, Copy, Debug, PartialEq, Eq, Structural)]
pub struct U(u8);

impl View for U {
    type V = u8;

    closed spec fn view(&self) -> u8 {
        self.0
    }
}

impl From<u8> for U {
    fn from(value: u8) -> (channel: U)
        ensures
            channel@ == value,
    {
        U(value)
    }
}

impl vstd::std_specs::convert::FromSpecImpl<u8> for U {
    open spec fn obeys_from_spec() -> bool {
        true
    }

    closed spec fn from_spec(value: u8) -> U {
        U(value)
    }
}

impl From<&U> for u16 {
    fn from(channel: &U) -> (value: u16) {
        channel.0 as u16
    }
}

impl vstd::std_specs::convert::FromSpecImpl<&U> for u16 {
    open spec fn obeys_from_spec() -> bool {
        true
    }

    open spec fn from_spec(channel: &U) -> u16 {
        channel@ as u16
    }
}

/// A red-difference chroma channel value of a stored pixel.
#[derive(Clone, Copy, Debug, PartialEq, Eq, Structural)]
pub struct V(u8);

impl View for V {
    type V = u8;

    closed spec fn view(&self) -> u8 {
        self.0
    }
}

impl From<u8> for V {
    fn from(value: u8) -> (channel: V)
        ensures
            channel@ == value,
    {
        V(value)
    }
}

impl vstd::std_specs::convert::FromSpecImpl<u8> for V {
    open spec fn obeys_from_spec() -> bool {
        true
    }

    closed spec fn from_spec(value: u8) -> V {
        V(value)
    }
}

impl From<&V> for u16 {
    fn from(channel: &V) -> (value: u16) {
        channel.0 as u16
    }
}

impl vstd::std_specs::convert::FromSpecImpl<&V> for u16 {
    open spec fn obeys_from_spec() -> bool {
        true
    }

    open spec fn from_spec(channel: &V) -> u16 {
        channel@ as u16
    }
}

/// A picture as plain values: its rows from top to bottom, each a sequence
/// of the (Y, U, V) bytes of its pixels from left to right.
pub type Picture = Seq<Seq<(u8, u8, u8)>>;

/// The (Y, U, V) bytes that the colour transform gives for an RGB triple.
pub open spec fn yuv_of(rgb: (u8, u8, u8)) -> (u8, u8, u8) {
    (
        luma(rgb.0, rgb.1, rgb.2) as u8,
        chroma_u(rgb.0, rgb.1, rgb.2) as u8,
        chroma_v(rgb.0, rgb.1, rgb.2) as u8,
    )
}

/// The bytes that a typed RGB triple carries.
pub open spec fn rgb_bytes(rgb: (R, G, B)) -> (u8, u8, u8) {
    (rgb.0@, rgb.1@, rgb.2@)
}

/// The bytes that a typed YUV triple carries.
pub open spec fn yuv_bytes(yuv: (Y, U, V)) -> (u8, u8, u8) {
    (yuv.0@, yuv.1@, yuv.2@)
}

/// The RGB triple number `index` of a buffer of consecutive R, G, B bytes.
pub open spec fn triple_at(bytes: Seq<u8>, index: int) -> (u8, u8, u8) {
    (bytes[3 * index], bytes[3 * index + 1], bytes[3 * index + 2])
}

/// The RGB triples that a buffer of consecutive R, G, B bytes holds.
pub open spec fn triples_of(bytes: Seq<u8>) -> Seq<(u8, u8, u8)> {
    Seq::new((bytes.len() / 3) as nat, |index: int| triple_at(bytes, index))
}

/// The picture that `IMAGE_SIZE` row-major RGB triples describe: 240 rows of
/// 320 transformed pixels, where the pixel in column `x` of row `y` comes
/// from triple number `320 y + x`.
pub open spec fn picture_of(pixels: Seq<(u8, u8, u8)>) -> Picture {
    Seq::new(
        IMAGE_HEIGHT as nat,
        |y: int| Seq::new(IMAGE_WIDTH as nat, |x: int| yuv_of(pixels[y * IMAGE_WIDTH + x])),
    )
}

fn to_yuv(rgb: &(R, G, B)) -> (yuv: (Y, U, V))
    ensures
        yuv_bytes(yuv) == yuv_of(rgb_bytes(*rgb)),
{
    (
        Y::from(y_rgb(rgb.0.0, rgb.1.0, rgb.2.0)),
        U::from(u_rgb(rgb.0.0, rgb.1.0, rgb.2.0)),
        V::from(v_rgb(rgb.0.0, rgb.1.0, rgb.2.0)),
    )
}

/// A decoded picture of any size: its dimensions and its pixels as
/// consecutive R, G, B bytes in row-major order. The buffer always holds
/// exactly three bytes for each of its `width * height` pixels.
pub struct DecodedImage {
    width: u32,
    height: u32,
    rgb8: Vec<u8>,
}

impl DecodedImage {
    #[verifier::type_invariant]
    closed spec fn well_formed(&self) -> bool {
        self.rgb8@.len() == 3 * self.width * self.height
    }

    /// The number of pixel columns.
    pub closed spec fn columns(&self) -> u32 {
        self.width
    }

    /// The number of pixel rows.
    pub closed spec fn rows(&self) -> u32 {
        self.height
    }

    /// The pixels as consecutive R, G, B bytes.
    pub closed spec fn bytes(&self) -> Seq<u8> {
        self.rgb8@
    }

    /// Puts a decoded picture together. The buffer has to hold three bytes
    /// for each pixel, no more and no fewer; any other length gives `None`.
    pub fn new(width: u32, height: u32, rgb8: Vec<u8>) -> (result: Option<DecodedImage>)
        ensures
            result is Some <==> rgb8@.len() == 3 * width * height,
            result matches Some(decoded) ==> decoded.columns() == width && decoded.rows()
                == height && decoded.bytes() == rgb8@,
    {
        assert(width * height <= 0xffff_ffff * 0xffff_ffff) by (nonlinear_arith)
            requires
                0 <= width <= 0xffff_ffff,
                0 <= height <= 0xffff_ffff,
        ;
        let pixels: u64 = (width as u64) * (height as u64);
        if rgb8.len() as u128 == 3 * (pixels as u128) {
            assert(3 * width * height == 3 * (width * height)) by (nonlinear_arith);
            Some(DecodedImage { width, height, rgb8 })
        } else {
            assert(3 * width * height == 3 * (width * height)) by (nonlinear_arith);
            None
        }
    }

    /// The number of pixel columns.
    pub fn width(&self) -> (width: u32)
        ensures
            width == self.columns(),
    {
        self.width
    }

    /// The number of pixel rows.
    pub fn height(&self) -> (height: u32)
        ensures
            height == self.rows(),
    {
        self.height
    }
}

/// A picture ready to be encoded: always 240 rows of 320 (Y, U, V) pixels.
///
/// It views as its rows, top to bottom, each a sequence of the pixels' bytes
/// from left to right.
pub struct Robot36Image {
    data: Vec<Vec<(Y, U, V)>>,
}

impl View for Robot36Image {
    type V = Picture;

    closed spec fn view(&self) -> Picture {
        Seq::new(
            self.data@.len(),
            |y: int| Seq::new(self.data@[y]@.len(), |x: int| yuv_bytes(self.data@[y]@[x])),
        )
    }
}

impl Robot36Image {
    #[verifier::type_invariant]
    closed spec fn well_formed(&self) -> bool {
        &&& self.data@.len() == IMAGE_HEIGHT
        &&& forall|y: int| 0 <= y < IMAGE_HEIGHT ==> (#[trigger] self.data@[y])@.len() == IMAGE_WIDTH
    }

    /// Builds a picture from its pixels as typed RGB triples in row-major
    /// order. Anything but exactly `IMAGE_SIZE` triples is rejected.
    pub fn from_rgb8_vec(vec: Vec<(R, G, B)>) -> (result: Result<Self, ImageCreationError>)
        ensures
            vec@.len() != IMAGE_SIZE ==> result == Err::<Self, ImageCreationError>(
                ImageCreationError::InvalidVectorSize(vec.len(), IMAGE_SIZE),
            ),
            vec@.len() == IMAGE_SIZE ==> result is Ok && result->Ok_0@ == picture_of(
                vec@.map_values(|rgb: (R, G, B)| rgb_bytes(rgb)),
            ),
    {
        if vec.len() != IMAGE_SIZE {
            return Err(ImageCreationError::InvalidVectorSize(vec.len(), IMAGE_SIZE));
        }
        let ghost pixels = vec@.map_values(|rgb: (R, G, B)| rgb_bytes(rgb));
        let mut data: Vec<Vec<(Y, U, V)>> = Vec::new();
        let mut y: usize = 0;
        while y < IMAGE_HEIGHT
            invariant
                y <= IMAGE_HEIGHT,
                vec@.len() == IMAGE_SIZE,
                pixels == vec@.map_values(|rgb: (R, G, B)| rgb_bytes(rgb)),
                data@.len() == y,
                forall|j: int| 0 <= j < y ==> (#[trigger] data@[j])@.len() == IMAGE_WIDTH,
                forall|j: int, i: int|
                    0 <= j < y && 0 <= i < IMAGE_WIDTH ==> yuv_bytes(#[trigger] data@[j]@[i])
                        == yuv_of(pixels[j * IMAGE_WIDTH + i]),
            decreases IMAGE_HEIGHT - y,
        {
            let mut row: Vec<(Y, U, V)> = Vec::new();
            let mut x: usize = 0;
            while x < IMAGE_WIDTH
                invariant
                    x <= IMAGE_WIDTH,
                    y < IMAGE_HEIGHT,
                    vec@.len() == IMAGE_SIZE,
                    pixels == vec@.map_values(|rgb: (R, G, B)| rgb_bytes(rgb)),
                    row@.len() == x,
                    forall|i: int|
                        0 <= i < x ==> yuv_bytes(#[trigger] row@[i]) == yuv_of(
                            pixels[y * IMAGE_WIDTH + i],
                        ),
                decreases IMAGE_WIDTH - x,
            {
                row.push(to_yuv(&vec[y * IMAGE_WIDTH + x]));
                x += 1;
            }
            data.push(row);
            y += 1;
        }
        let image = Robot36Image { data };
        assert(image@ =~~= picture_of(pixels));
        Ok(image)
    }

    /// Builds a picture from its pixels as consecutive R, G, B bytes in
    /// row-major order. Anything but exactly `IMAGE_BYTES` bytes is rejected.
    pub fn from_rgb8_bytes(bytes: Vec<u8>) -> (result: Result<Self, ImageCreationError>)
        ensures
            bytes@.len() != IMAGE_BYTES ==> result == Err::<Self, ImageCreationError>(
                ImageCreationError::InvalidVectorSize(bytes.len(), IMAGE_BYTES),
            ),
            bytes@.len() == IMAGE_BYTES ==> result is Ok && result->Ok_0@ == picture_of(
                triples_of(bytes@),
            ),
    {
        if bytes.len() != IMAGE_BYTES {
            return Err(ImageCreationError::InvalidVectorSize(bytes.len(), IMAGE_BYTES));
        }
        let mut pixels: Vec<(R, G, B)> = Vec::new();
        let mut i: usize = 0;
        while i < bytes.len()
            invariant
                bytes@.len() == IMAGE_BYTES,
                i <= IMAGE_BYTES,
                i == 3 * pixels@.len(),
                forall|k: int|
                    0 <= k < pixels@.len() ==> rgb_bytes(#[trigger] pixels@[k]) == triple_at(
                        bytes@,
                        k,
                    ),
            decreases IMAGE_BYTES - i,
        {
            pixels.push((R::from(bytes[i]), G::from(bytes[i + 1]), B::from(bytes[i + 2])));
            i += 3;
        }
        assert(pixels@.map_values(|rgb: (R, G, B)| rgb_bytes(rgb)) =~= triples_of(bytes@));
        Robot36Image::from_rgb8_vec(pixels)
    }

    /// Builds a picture from a decoded one, which has to be 320 pixels wide
    /// and 240 pixels high already: the width is looked at first, then the
    /// height, and a picture of any other size is rejected, not resized.
    pub fn from_image(image: DecodedImage) -> (result: Result<Robot36Image, ImageCreationError>)
        ensures
            image.columns() != IMAGE_WIDTH ==> result == Err::<Self, ImageCreationError>(
                ImageCreationError::InvalidWidth(image.columns() as usize, IMAGE_WIDTH),
            ),
            image.columns() == IMAGE_WIDTH && image.rows() != IMAGE_HEIGHT ==> result == Err::<
                Self,
                ImageCreationError,
            >(ImageCreationError::InvalidHeight(image.rows() as usize, IMAGE_HEIGHT)),
            image.columns() == IMAGE_WIDTH && image.rows() == IMAGE_HEIGHT ==> result is Ok
                && result->Ok_0@ == picture_of(triples_of(image.bytes())),
    {
        proof {
            use_type_invariant(&image);
        }
        if image.width() != IMAGE_WIDTH as u32 {
            return Err(ImageCreationError::InvalidWidth(image.width() as usize, IMAGE_WIDTH));
        }
        if image.height() != IMAGE_HEIGHT as u32 {
            return Err(ImageCreationError::InvalidHeight(image.height() as usize, IMAGE_HEIGHT));
        }
        assert(3 * image.width * image.height == IMAGE_BYTES) by (nonlinear_arith)
            requires
                image.width == 320,
                image.height == 240,
        ;
        Robot36Image::from_rgb8_bytes(image.rgb8)
    }

    /// The number of rows, which is the same for every picture.
    pub fn get_height(&self) -> (height: usize)
        ensures
            height == IMAGE_HEIGHT,
            height == self@.len(),
    {
        proof {
            use_type_invariant(self);
        }
        IMAGE_HEIGHT
    }

    /// The number of columns, which is the same for every picture and for
    /// every row of it.
    pub fn get_width(&self) -> (width: usize)
        ensures
            width == IMAGE_WIDTH,
            forall|y: int| 0 <= y < self@.len() ==> (#[trigger] self@[y]).len() == width,
    {
        proof {
            use_type_invariant(self);
        }
        IMAGE_WIDTH
    }

    /// The luma of the pixel in column `x` of row `y`.
    pub fn get_y(&self, x: usize, y: usize) -> (channel: &Y)
        requires
            x < IMAGE_WIDTH,
            y < IMAGE_HEIGHT,
        ensures
            channel@ == self@[y as int][x as int].0,
    {
        proof {
            use_type_invariant(self);
        }
        &self.data[y][x].0
    }

    /// The blue-difference chroma of the pixel in column `x` of row `y`.
    pub fn get_u(&self, x: usize, y: usize) -> (channel: &U)
        requires
            x < IMAGE_WIDTH,
            y < IMAGE_HEIGHT,
        ensures
            channel@ == self@[y as int][x as int].1,
    {
        proof {
            use_type_invariant(self);
        }
        &self.data[y][x].1
    }

    /// The red-difference chroma of the pixel in column `x` of row `y`.
    pub fn get_v(&self, x: usize, y: usize) -> (channel: &V)
        requires
            x < IMAGE_WIDTH,
            y < IMAGE_HEIGHT,
        ensures
            channel@ == self@[y as int][x as int].2,
    {
        proof {
            use_type_invariant(self);
        }
        &self.data[y][x].2
    }
}

} // verus!
