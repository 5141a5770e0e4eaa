use vstd::prelude::*;

verus! {

/// The error of the `image` crate. The library hands it on to the caller
/// inside `TextureError::Decode` and reads nothing of it.
#[verifier::external_type_specification]
#[verifier::external_body]
pub struct ExImageError(image::ImageError);

/// A decoded image as rows of four-byte pixels, top row first.
pub struct RgbaImage {
    pub width: u32,
    pub height: u32,
    pub pixels: Vec<u8>,
}

/// What a decoded image holds.
pub struct Pixels {
    pub width: u32,
    pub height: u32,
    pub data: Seq<u8>,
}

impl View for RgbaImage {
    type V = Pixels;

    open spec fn view(&self) -> Pixels {
        Pixels { width: self.width, height: self.height, data: self.pixels@ }
    }
}

/// Why an image cannot become a texture.
#[derive(Debug)]
pub enum TextureError {
    /// The decoder refused the bytes; its own error says why.
    Decode(image::ImageError),
    /// The pixel data is not four bytes for every pixel.
    PixelCount,
    /// A row of pixels takes more bytes than a row pitch can say.
    RowTooLong,
}

/// The kinds of `TextureError`.
#[derive(Clone, Copy, Debug, PartialEq, Eq, Structural)]
pub enum TextureErrorKind {
    Decode,
    PixelCount,
    RowTooLong,
}

impl TextureError {
    /// The kind of the error.
    pub open spec fn spec_kind(self) -> TextureErrorKind {
        match self {
            TextureError::Decode(_) => TextureErrorKind::Decode,
            TextureError::PixelCount => TextureErrorKind::PixelCount,
            TextureError::RowTooLong => TextureErrorKind::RowTooLong,
        }
    }

    /// The kind of the error.
    pub fn kind(&self) -> (k: TextureErrorKind)
        ensures
            k == self.spec_kind(),
    {
        match self {
            TextureError::Decode(_) => TextureErrorKind::Decode,
            TextureError::PixelCount => TextureErrorKind::PixelCount,
            TextureError::RowTooLong => TextureErrorKind::RowTooLong,
        }
    }
}

/// A two-dimensional texture ready for upload: its extent, the layout of
/// the staging data, and the data.
pub struct Texture {
    pub width: u32,
    pub height: u32,
    pub depth: u32,
    pub bytes_per_row: u32,
    pub rows_per_image: u32,
    pub data: Vec<u8>,
}

/// What a texture holds.
pub struct TextureLayout {
    pub width: u32,
    pub height: u32,
    pub depth: u32,
    pub bytes_per_row: u32,
    pub rows_per_image: u32,
    pub data: Seq<u8>,
}

impl View for Texture {
    type V = TextureLayout;

    open spec fn view(&self) -> TextureLayout {
        TextureLayout {
            width: self.width,
            height: self.height,
            depth: self.depth,
            bytes_per_row: self.bytes_per_row,
            rows_per_image: self.rows_per_image,
            data: self.data@,
        }
    }
}

impl Texture {
    /// The texture that `img` uploads as: the extent of the image, one
    /// layer deep, rows of four bytes a pixel with no padding, one image of
    /// `height` rows, and the pixels of the image. There is none where the
    /// pixel count is wrong or a row is too long.
    pub open spec fn spec_from_image(img: Pixels) -> Result<TextureLayout, TextureErrorKind> {
        if img.data.len() != 4 * img.width * img.height {
            Err(TextureErrorKind::PixelCount)
        } else if 4 * img.width > u32::MAX {
            Err(TextureErrorKind::RowTooLong)
        } else {
            Ok(
                TextureLayout {
                    width: img.width,
                    height: img.height,
                    depth: 1,
                    bytes_per_row: (4 * img.width) as u32,
                    rows_per_image: img.height,
                    data: img.data,
                },
            )
        }
    }

    /// The staging data is one tight image of the texture's extent.
    pub open spec fn wf(self) -> bool {
        &&& self.depth == 1
        &&& self.bytes_per_row == 4 * self.width
        &&& self.rows_per_image == self.height
        &&& self.data@.len() == self.bytes_per_row * self.rows_per_image
    }

    /// Plans the upload of a decoded image.
    pub fn from_image(img: RgbaImage) -> (r: Result<Texture, TextureError>)
        ensures
            match r {
                Ok(t) => Self::spec_from_image(img@) == Ok::<TextureLayout, TextureErrorKind>(t@)
                    && t.wf(),
                Err(e) => Self::spec_from_image(img@) == Err::<TextureLayout, TextureErrorKind>(
                    e.spec_kind(),
                ) && e.spec_kind() != TextureErrorKind::Decode,
            },
    {
        assert(4 * img.width * img.height <= 4 * 0xFFFF_FFFF * 0xFFFF_FFFF) by (nonlinear_arith)
            requires
                img.width <= 0xFFFF_FFFF,
                img.height <= 0xFFFF_FFFF,
        ;
        let expected: u128 = 4 * (img.width as u128) * (img.height as u128);
        if img.pixels.len() as u128 != expected {
            return Err(TextureError::PixelCount);
        }
        if img.width > u32::MAX / 4 {
            return Err(TextureError::RowTooLong);
        }
        Ok(
            Texture {
                width: img.width,
                height: img.height,
                depth: 1,
                bytes_per_row: 4 * img.width,
                rows_per_image: img.height,
                data: img.pixels,
            },
        )
    }

    /// Plans the upload of what a decoder made of an encoded image: the
    /// texture of the image where it decoded one, and the decoder's own
    /// error, untouched, where it refused the bytes.
    pub fn from_decoded(decoded: Result<RgbaImage, image::ImageError>) -> (r: Result<
        Texture,
        TextureError,
    >)
        ensures
            decoded matches Ok(img) ==> (match r {
                Ok(t) => Self::spec_from_image(img@) == Ok::<TextureLayout, TextureErrorKind>(t@)
                    && t.wf(),
                Err(e) => Self::spec_from_image(img@) == Err::<TextureLayout, TextureErrorKind>(
                    e.spec_kind(),
                ),
            }),
            decoded matches Err(refusal) ==> r matches Err(e) && e == TextureError::Decode(
                refusal,
            ),
    {
        match decoded {
            Ok(img) => Self::from_image(img),
            Err(refusal) => Err(TextureError::Decode(refusal)),
        }
    }
}

} // verus!
