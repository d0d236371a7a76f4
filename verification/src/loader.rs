//! Loading of the terrain maps: decoding PNG images and accepting them only
//! in the expected format and size.
use vstd::prelude::*;

use crate::text::{decimal, push_decimal};

verus! {

/// Color type of a PNG image (as the png crate names it).
#[derive(Clone, Copy, Debug, PartialEq, Eq, Structural)]
pub enum PngColorType {
    Grayscale,
    Rgb,
    Indexed,
    GrayscaleAlpha,
    Rgba,
}

/// Bits per sample of a PNG image (as the png crate names it).
#[derive(Clone, Copy, Debug, PartialEq, Eq, Structural)]
pub enum PngBitDepth {
    One,
    Two,
    Four,
    Eight,
    Sixteen,
}

/// Format and size of a decoded PNG image.
#[derive(Clone, Copy, Debug)]
pub struct PngInfo {
    pub color_type: PngColorType,
    pub bit_depth: PngBitDepth,
    pub width: u32,
    pub height: u32,
}

impl PngColorType {
    /// The name of the variant.
    pub open spec fn spec_name(self) -> Seq<char> {
        match self {
            PngColorType::Grayscale => "Grayscale"@,
            PngColorType::Rgb => "Rgb"@,
            PngColorType::Indexed => "Indexed"@,
            PngColorType::GrayscaleAlpha => "GrayscaleAlpha"@,
            PngColorType::Rgba => "Rgba"@,
        }
    }

    pub fn name(&self) -> (res: &'static str)
        ensures
            res@ == self.spec_name(),
    {
        match self {
            PngColorType::Grayscale => "Grayscale",
            PngColorType::Rgb => "Rgb",
            PngColorType::Indexed => "Indexed",
            PngColorType::GrayscaleAlpha => "GrayscaleAlpha",
            PngColorType::Rgba => "Rgba",
        }
    }
}

impl PngBitDepth {
    /// The name of the variant.
    pub open spec fn spec_name(self) -> Seq<char> {
        match self {
            PngBitDepth::One => "One"@,
            PngBitDepth::Two => "Two"@,
            PngBitDepth::Four => "Four"@,
            PngBitDepth::Eight => "Eight"@,
            PngBitDepth::Sixteen => "Sixteen"@,
        }
    }

    pub fn name(&self) -> (res: &'static str)
        ensures
            res@ == self.spec_name(),
    {
        match self {
            PngBitDepth::One => "One",
            PngBitDepth::Two => "Two",
            PngBitDepth::Four => "Four",
            PngBitDepth::Eight => "Eight",
            PngBitDepth::Sixteen => "Sixteen",
        }
    }
}

/// Message for an image of the wrong format.
pub open spec fn wrong_format_msg(filepath: Seq<char>, colortype: PngColorType, bitdepth: PngBitDepth, info: PngInfo) -> Seq<char> {
    "file "@ + filepath + ": format must be "@ + bitdepth.spec_name() + "-Bit "@ + colortype.spec_name()
        + ". found "@ + info.bit_depth.spec_name() + "-Bit "@ + info.color_type.spec_name()
}

/// Message for an image of the wrong size.
pub open spec fn wrong_size_msg(filepath: Seq<char>, resolution: u32, info: PngInfo) -> Seq<char> {
    "file "@ + filepath + ": expected width x height to be "@ + decimal(resolution as nat) + " x "@
        + decimal(resolution as nat) + ". found: "@ + decimal(info.width as nat) + " x "@ + decimal(info.height as nat)
}

/// Accepts decoded image data only if the image has the expected color type,
/// bit depth and a square size of `resolution`; the format is checked first.
pub fn check_png_data(
    colortype: PngColorType,
    bitdepth: PngBitDepth,
    resolution: u32,
    filepath: &str,
    info: PngInfo,
    img_data: Vec<u8>,
) -> (res: Result<Vec<u8>, String>)
    ensures
        info.color_type != colortype || info.bit_depth != bitdepth ==>
            (res matches Err(e) && e@ == wrong_format_msg(filepath@, colortype, bitdepth, info)),
        info.color_type == colortype && info.bit_depth == bitdepth
            && (info.width != resolution || info.height != resolution) ==>
            (res matches Err(e) && e@ == wrong_size_msg(filepath@, resolution, info)),
        info.color_type == colortype && info.bit_depth == bitdepth && info.width == resolution
            && info.height == resolution ==> res == Ok::<Vec<u8>, String>(img_data),
        loaded_view(res) == checked_png(colortype, bitdepth, resolution, filepath@, info, img_data@),
{
    if info.color_type != colortype || info.bit_depth != bitdepth {
        let mut msg = String::from_str("file ");
        msg.append(filepath);
        msg.append(": format must be ");
        msg.append(bitdepth.name());
        msg.append("-Bit ");
        msg.append(colortype.name());
        msg.append(". found ");
        msg.append(info.bit_depth.name());
        msg.append("-Bit ");
        msg.append(info.color_type.name());
        assert(msg@ =~= wrong_format_msg(filepath@, colortype, bitdepth, info));
        return Err(msg);
    }
    if info.width != resolution || info.height != resolution {
        let mut msg = String::from_str("file ");
        msg.append(filepath);
        msg.append(": expected width x height to be ");
        push_decimal(&mut msg, resolution as u128);
        msg.append(" x ");
        push_decimal(&mut msg, resolution as u128);
        msg.append(". found: ");
        push_decimal(&mut msg, info.width as u128);
        msg.append(" x ");
        push_decimal(&mut msg, info.height as u128);
        assert(msg@ =~= wrong_size_msg(filepath@, resolution, info));
        return Err(msg);
    }
    Ok(img_data)
}

/// The outcome of `check_png_data` as plain values.
pub open spec fn checked_png(
    colortype: PngColorType,
    bitdepth: PngBitDepth,
    resolution: u32,
    filepath: Seq<char>,
    info: PngInfo,
    img_data: Seq<u8>,
) -> Result<Seq<u8>, Seq<char>> {
    if info.color_type != colortype || info.bit_depth != bitdepth {
        Err(wrong_format_msg(filepath, colortype, bitdepth, info))
    } else if info.width != resolution || info.height != resolution {
        Err(wrong_size_msg(filepath, resolution, info))
    } else {
        Ok(img_data)
    }
}

/// A loading result as plain values: the data or the error text.
pub open spec fn loaded_view(res: Result<Vec<u8>, String>) -> Result<Seq<u8>, Seq<char>> {
    match res {
        Ok(data) => Ok(data@),
        Err(e) => Err(e@),
    }
}

/// What a PNG decoder gives for the bytes of an image file: its color type
/// and bit depth (by the numbers of the PNG format), width, height and the
/// image data; or, on failure, whether reading the header failed (`true`) or
/// reading the image data (`false`), with the decoder's error text.
pub uninterp spec fn png_decoded(bytes: Seq<u8>) -> Result<(u8, u8, u32, u32, Seq<u8>), (bool, Seq<char>)>;

/// The numbers that the PNG format gives its color types.
pub open spec fn valid_color_code(code: u8) -> bool {
    code == 0 || code == 2 || code == 3 || code == 4 || code == 6
}

/// The numbers that the PNG format gives its bit depths.
pub open spec fn valid_depth_code(code: u8) -> bool {
    code == 1 || code == 2 || code == 4 || code == 8 || code == 16
}

/// Decodes a PNG image held in memory with the png crate (`Decoder::new`,
/// no transformations, `read_info`, then `next_frame` into a buffer of
/// `output_buffer_size` bytes). The contract claims only that the outcome is
/// a function of the bytes, named `png_decoded`, and that the color type and
/// bit depth are among those of the png crate's `ColorType` and `BitDepth`
/// (given by their `u8` representation); what the decoder accepts and the
/// texts of its errors are left unsaid.
#[verifier::external_body]
fn decode_png(bytes: &[u8]) -> (res: Result<(u8, u8, u32, u32, Vec<u8>), (bool, String)>)
    ensures
        match res {
            Ok((c, b, w, h, data)) => png_decoded(bytes@) == Ok::<(u8, u8, u32, u32, Seq<u8>), (bool, Seq<char>)>((c, b, w, h, data@))
                && valid_color_code(c) && valid_depth_code(b),
            Err((header, msg)) => png_decoded(bytes@) == Err::<(u8, u8, u32, u32, Seq<u8>), (bool, Seq<char>)>((header, msg@)),
        },
{
    let mut decoder = png::Decoder::new(bytes);
    decoder.set_transformations(png::Transformations::IDENTITY);
    let mut reader = match decoder.read_info() {
        Ok(reader) => reader,
        Err(e) => return Err((true, e.to_string())),
    };
    let mut data = vec![0u8; reader.output_buffer_size()];
    match reader.next_frame(&mut data) {
        Ok(info) => Ok((info.color_type as u8, info.bit_depth as u8, info.width, info.height, data)),
        Err(e) => Err((false, e.to_string())),
    }
}

impl PngColorType {
    /// The color type with the given number of the PNG format.
    pub open spec fn spec_from_code(code: u8) -> PngColorType {
        if code == 0 {
            PngColorType::Grayscale
        } else if code == 2 {
            PngColorType::Rgb
        } else if code == 3 {
            PngColorType::Indexed
        } else if code == 4 {
            PngColorType::GrayscaleAlpha
        } else {
            PngColorType::Rgba
        }
    }

    pub fn from_code(code: u8) -> (res: PngColorType)
        requires
            valid_color_code(code),
        ensures
            res == Self::spec_from_code(code),
    {
        if code == 0 {
            PngColorType::Grayscale
        } else if code == 2 {
            PngColorType::Rgb
        } else if code == 3 {
            PngColorType::Indexed
        } else if code == 4 {
            PngColorType::GrayscaleAlpha
        } else {
            PngColorType::Rgba
        }
    }
}

impl PngBitDepth {
    /// The bit depth with the given number of the PNG format.
    pub open spec fn spec_from_code(code: u8) -> PngBitDepth {
        if code == 1 {
            PngBitDepth::One
        } else if code == 2 {
            PngBitDepth::Two
        } else if code == 4 {
            PngBitDepth::Four
        } else if code == 8 {
            PngBitDepth::Eight
        } else {
            PngBitDepth::Sixteen
        }
    }

    pub fn from_code(code: u8) -> (res: PngBitDepth)
        requires
            valid_depth_code(code),
        ensures
            res == Self::spec_from_code(code),
    {
        if code == 1 {
            PngBitDepth::One
        } else if code == 2 {
            PngBitDepth::Two
        } else if code == 4 {
            PngBitDepth::Four
        } else if code == 8 {
            PngBitDepth::Eight
        } else {
            PngBitDepth::Sixteen
        }
    }
}

/// A decoding outcome with the format given as `PngInfo`.
pub open spec fn decoded_info(decoded: Result<(u8, u8, u32, u32, Seq<u8>), (bool, Seq<char>)>) -> Result<(PngInfo, Seq<u8>), (bool, Seq<char>)> {
    match decoded {
        Ok((c, b, w, h, data)) => Ok((
            PngInfo {
                color_type: PngColorType::spec_from_code(c),
                bit_depth: PngBitDepth::spec_from_code(b),
                width: w,
                height: h,
            },
            data,
        )),
        Err(e) => Err(e),
    }
}

/// A decoding outcome as plain values.
pub open spec fn decoded_view(decoded: Result<(PngInfo, Vec<u8>), (bool, String)>) -> Result<(PngInfo, Seq<u8>), (bool, Seq<char>)> {
    match decoded {
        Ok((info, data)) => Ok((info, data@)),
        Err((header, msg)) => Err((header, msg@)),
    }
}

/// Message for a file that could not be decoded: the header (`true`) or the
/// image data (`false`) could not be read.
pub open spec fn decode_failure_msg(header: bool, filepath: Seq<char>, msg: Seq<char>) -> Seq<char> {
    if header {
        "failed to decode png file "@ + filepath + ": "@ + msg
    } else {
        "failed to read image format info for: "@ + filepath + ": "@ + msg
    }
}

/// What loading a PNG image gives for a decoding outcome.
pub open spec fn loaded_png(
    colortype: PngColorType,
    bitdepth: PngBitDepth,
    resolution: u32,
    filepath: Seq<char>,
    decoded: Result<(PngInfo, Seq<u8>), (bool, Seq<char>)>,
) -> Result<Seq<u8>, Seq<char>> {
    match decoded {
        Ok((info, data)) => checked_png(colortype, bitdepth, resolution, filepath, info, data),
        Err((header, msg)) => Err(decode_failure_msg(header, filepath, msg)),
    }
}

/// Turns the outcome of decoding the file `filepath` into the image data,
/// which must have the expected format and size, or into the error message.
pub fn check_decoded_png(
    colortype: PngColorType,
    bitdepth: PngBitDepth,
    resolution: u32,
    filepath: &str,
    decoded: Result<(PngInfo, Vec<u8>), (bool, String)>,
) -> (res: Result<Vec<u8>, String>)
    ensures
        loaded_view(res) == loaded_png(colortype, bitdepth, resolution, filepath@, decoded_view(decoded)),
{
    match decoded {
        Ok((info, data)) => check_png_data(colortype, bitdepth, resolution, filepath, info, data),
        Err((header, e)) => {
            let mut msg = if header {
                String::from_str("failed to decode png file ")
            } else {
                String::from_str("failed to read image format info for: ")
            };
            msg.append(filepath);
            msg.append(": ");
            msg.append(e.as_str());
            proof {
                reveal_strlit("failed to decode png file ");
                reveal_strlit("failed to read image format info for: ");
            }
            assert(msg@ =~= decode_failure_msg(header, filepath@, e@));
            Err(msg)
        },
    }
}

/// Reading of the terrain maps: PNG images of a given format and size.
pub struct LoaderPlugin;

impl LoaderPlugin {
    /// Decodes the PNG image `bytes`, read from the file `filepath`, and returns
    /// its data if it has the expected color type, bit depth and the square size
    /// `resolution`; otherwise the error message.
    pub fn load_png_data(
        colortype: PngColorType,
        bitdepth: PngBitDepth,
        resolution: u32,
        filepath: &str,
        bytes: &[u8],
    ) -> (res: Result<Vec<u8>, String>)
        ensures
            loaded_view(res) == loaded_png(colortype, bitdepth, resolution, filepath@, decoded_info(png_decoded(bytes@))),
    {
        let decoded = match decode_png(bytes) {
            Ok((c, b, width, height, data)) => {
                let info = PngInfo {
                    color_type: PngColorType::from_code(c),
                    bit_depth: PngBitDepth::from_code(b),
                    width,
                    height,
                };
                Ok((info, data))
            },
            Err((header, msg)) => Err((header, msg)),
        };
        check_decoded_png(colortype, bitdepth, resolution, filepath, decoded)
    }
}

} // verus!
