//! DMA-BUF images: which formats a screenshot can be made of, and how their
//! pixels are turned into 8-bit RGBA.

use crate::text;
use crate::text::{append_hex, append_signed, decimal_text};
use crate::wire;
use vstd::prelude::*;
use vstd::string::*;

verus! {

pub const VK_SUCCESS: i32 = 0;

pub const VK_FORMAT_R8G8B8A8_UNORM: u32 = 37;

pub const VK_FORMAT_B8G8R8A8_UNORM: u32 = 44;

pub const VK_FORMAT_A2R10G10B10_UNORM_PACK32: u32 = 58;

pub const VK_FORMAT_A2B10G10R10_UNORM_PACK32: u32 = 64;

pub const VK_FORMAT_R16G16B16A16_SFLOAT: u32 = 97;

pub const VK_QUEUE_GRAPHICS_BIT: u32 = 1;

/// `XR24`
pub const DRM_FORMAT_XRGB8888: u32 = 0x3432_5258;

/// `XB24`
pub const DRM_FORMAT_XBGR8888: u32 = 0x3432_4258;

/// `AR24`
pub const DRM_FORMAT_ARGB8888: u32 = 0x3432_5241;

/// `AB24`
pub const DRM_FORMAT_ABGR8888: u32 = 0x3432_4241;

/// `XR30`
pub const DRM_FORMAT_XRGB2101010: u32 = 0x3033_5258;

/// `XB30`
pub const DRM_FORMAT_XBGR2101010: u32 = 0x3033_4258;

/// `AR30`
pub const DRM_FORMAT_ARGB2101010: u32 = 0x3033_5241;

/// `AB30`
pub const DRM_FORMAT_ABGR2101010: u32 = 0x3033_4241;

/// `XB4H`
pub const DRM_FORMAT_XBGR16161616F: u32 = 0x4834_4258;

/// `AB4H`
pub const DRM_FORMAT_ABGR16161616F: u32 = 0x4834_4241;

/// A format code: the number that four characters spell, first one lowest.
pub fn fourcc_code(a: u8, b: u8, c: u8, d: u8) -> (code: u32)
    ensures
        code == wire::little_word_at(seq![a, b, c, d], 0),
{
    a as u32 + 0x100 * (b as u32) + 0x1_0000 * (c as u32) + 0x100_0000 * (d as u32)
}

/// The Vulkan format that a DRM format is imported as.
pub open spec fn vk_format(format: u32) -> Option<u32> {
    if format == DRM_FORMAT_XRGB8888 || format == DRM_FORMAT_ARGB8888 {
        Some(VK_FORMAT_B8G8R8A8_UNORM)
    } else if format == DRM_FORMAT_XBGR8888 || format == DRM_FORMAT_ABGR8888 {
        Some(VK_FORMAT_R8G8B8A8_UNORM)
    } else if format == DRM_FORMAT_XRGB2101010 || format == DRM_FORMAT_ARGB2101010 {
        Some(VK_FORMAT_A2R10G10B10_UNORM_PACK32)
    } else if format == DRM_FORMAT_XBGR2101010 || format == DRM_FORMAT_ABGR2101010 {
        Some(VK_FORMAT_A2B10G10R10_UNORM_PACK32)
    } else if format == DRM_FORMAT_XBGR16161616F || format == DRM_FORMAT_ABGR16161616F {
        Some(VK_FORMAT_R16G16B16A16_SFLOAT)
    } else {
        None
    }
}

/// Looks up the Vulkan format that a DRM format is imported as.
pub fn vk_format_for_drm_format(format: u32) -> (found: Option<u32>)
    ensures
        found == vk_format(format),
{
    if format == DRM_FORMAT_XRGB8888 || format == DRM_FORMAT_ARGB8888 {
        Some(VK_FORMAT_B8G8R8A8_UNORM)
    } else if format == DRM_FORMAT_XBGR8888 || format == DRM_FORMAT_ABGR8888 {
        Some(VK_FORMAT_R8G8B8A8_UNORM)
    } else if format == DRM_FORMAT_XRGB2101010 || format == DRM_FORMAT_ARGB2101010 {
        Some(VK_FORMAT_A2R10G10B10_UNORM_PACK32)
    } else if format == DRM_FORMAT_XBGR2101010 || format == DRM_FORMAT_ABGR2101010 {
        Some(VK_FORMAT_A2B10G10R10_UNORM_PACK32)
    } else if format == DRM_FORMAT_XBGR16161616F || format == DRM_FORMAT_ABGR16161616F {
        Some(VK_FORMAT_R16G16B16A16_SFLOAT)
    } else {
        None
    }
}

/// Whether images of a DRM format can be imported.
pub fn supports_drm_format(format: u32) -> (supported: bool)
    ensures
        supported == (vk_format(format) is Some),
{
    vk_format_for_drm_format(format).is_some()
}

/// Whether a screenshot can be made of a DRM format. A format of which none
/// can be made is not advertised to clients.
pub fn supports_screenshot_drm_format(format: u32) -> (supported: bool)
    ensures
        supported == (vk_format(format) is Some),
{
    supports_drm_format(format)
}

/// One character of a format code: the character itself where it is a visible
/// ASCII character or a space, and a dot otherwise.
pub open spec fn code_char(byte: u8) -> char {
    if 0x20 <= byte <= 0x7e {
        byte as char
    } else {
        '.'
    }
}

/// The four characters that a format code spells.
pub open spec fn code_text(format: u32) -> Seq<char> {
    let bytes = wire::little_word_bytes(format);
    seq![code_char(bytes[0]), code_char(bytes[1]), code_char(bytes[2]), code_char(bytes[3])]
}

/// Why no screenshot can be made of a DRM format, if none can.
pub open spec fn format_error(format: u32) -> Option<Seq<char>> {
    if vk_format(format) is Some {
        None
    } else {
        Some(
            "DMA-BUF DRM format 0x"@ + text::hex(format as nat, 8, true) + " ("@ + code_text(format)
                + ") is not supported for screenshots and is not advertised by this MCP"@,
        )
    }
}

fn append_code_char(message: &mut String, byte: u8)
    ensures
        final(message)@ == old(message)@.push(code_char(byte)),
{
    if 0x20 <= byte && byte <= 0x7e {
        message.push(byte as char);
    } else {
        message.push('.');
    }
}

/// Says why no screenshot can be made of a DRM format, if none can.
pub fn screenshot_support_error(format: u32) -> (error: Option<String>)
    ensures
        text::optional(error) == format_error(format),
{
    if supports_screenshot_drm_format(format) {
        return None;
    }
    let mut message = "DMA-BUF DRM format 0x".to_owned();
    append_hex(&mut message, format as u64, 8, true);
    message.append(" (");
    let ghost before = message@;
    append_code_char(&mut message, (format % 0x100) as u8);
    append_code_char(&mut message, (format / 0x100 % 0x100) as u8);
    append_code_char(&mut message, (format / 0x1_0000 % 0x100) as u8);
    append_code_char(&mut message, (format / 0x100_0000) as u8);
    assert(message@ =~= before + code_text(format));
    message.append(") is not supported for screenshots and is not advertised by this MCP");
    Some(message)
}

/// Turns the result of a Vulkan call into an error that names the call.
pub fn check_vk(result: i32, operation: &str) -> (checked: Result<(), String>)
    ensures
        text::outcome(checked) == (if result == VK_SUCCESS {
            Ok::<(), Seq<char>>(())
        } else {
            Err(operation@ + " failed with VkResult "@ + text::signed_decimal(result as int))
        }),
{
    if result == VK_SUCCESS {
        return Ok(());
    }
    let mut message = operation.to_owned();
    message.append(" failed with VkResult ");
    append_signed(&mut message, result as i64);
    Err(message)
}

/// How many bytes a pixel of a Vulkan format takes, where it is known.
pub open spec fn pixel_size(format: u32) -> Option<usize> {
    if format == VK_FORMAT_B8G8R8A8_UNORM || format == VK_FORMAT_R8G8B8A8_UNORM || format
        == VK_FORMAT_A2R10G10B10_UNORM_PACK32 || format == VK_FORMAT_A2B10G10R10_UNORM_PACK32 {
        Some(4)
    } else if format == VK_FORMAT_R16G16B16A16_SFLOAT {
        Some(8)
    } else {
        None
    }
}

/// How many bytes a pixel of a Vulkan format takes.
pub fn bytes_per_pixel(format: u32) -> (size: Result<usize, String>)
    ensures
        text::outcome(size) == (match pixel_size(format) {
            Some(bytes) => Ok::<usize, Seq<char>>(bytes),
            None => Err("unsupported Vulkan format "@ + text::decimal(format as nat)),
        }),
{
    if format == VK_FORMAT_B8G8R8A8_UNORM || format == VK_FORMAT_R8G8B8A8_UNORM || format
        == VK_FORMAT_A2R10G10B10_UNORM_PACK32 || format == VK_FORMAT_A2B10G10R10_UNORM_PACK32 {
        Ok(4)
    } else if format == VK_FORMAT_R16G16B16A16_SFLOAT {
        Ok(8)
    } else {
        let mut message = "unsupported Vulkan format ".to_owned();
        message.append(decimal_text(format as u64).as_str());
        Err(message)
    }
}

/// A channel of ten bits, scaled to eight and rounded.
pub open spec fn unorm10(value: int) -> u8 {
    ((value * 255 + 511) / 1023) as u8
}

/// Scales a channel of ten bits to eight.
pub fn unorm10_to_u8(value: u32) -> (channel: u8)
    requires
        value * 255 + 511 <= u32::MAX,
    ensures
        channel == unorm10(value as int),
{
    ((value * 255 + 511) / 1023) as u8
}

/// The value of a half-precision number that is not negative and less than
/// two, in units of 2^-24.
pub open spec fn half_units(bits: u16) -> nat {
    let exponent = bits / 0x400 % 0x20;
    let mantissa = (bits % 0x400) as nat;
    if exponent == 0 {
        mantissa
    } else {
        (0x400 + mantissa) * vstd::arithmetic::power2::pow2((exponent - 1) as nat)
    }
}

/// A half-precision channel, clamped to the range from zero to one, scaled to
/// eight bits and rounded to the nearest, halves up. What is not a number
/// counts as zero.
pub open spec fn half_channel(bits: u16) -> u8 {
    let exponent = bits / 0x400 % 0x20;
    if bits >= 0x8000 {
        0
    } else if exponent == 0x1f && bits % 0x400 != 0 {
        0
    } else if exponent >= 15 {
        255
    } else {
        ((half_units(bits) * 510 + 0x100_0000) / 0x200_0000) as u8
    }
}

/// Turns a half-precision channel into eight bits.
pub fn f16_channel_to_u8(bits: u16) -> (channel: u8)
    ensures
        channel == half_channel(bits),
{
    let exponent: u16 = bits / 0x400 % 0x20;
    let mantissa: u64 = (bits % 0x400) as u64;
    if bits >= 0x8000 {
        return 0;
    }
    if exponent == 0x1f && mantissa != 0 {
        return 0;
    }
    if exponent >= 15 {
        return 255;
    }
    let mut units: u64 = mantissa;
    if exponent != 0 {
        units = 0x400 + mantissa;
        let mut power: u16 = 1;
        proof {
            vstd::arithmetic::power2::lemma2_to64();
            let one = vstd::arithmetic::power2::pow2((power - 1) as nat);
            assert((0x400 + mantissa) * one == 0x400 + mantissa) by (nonlinear_arith)
                requires
                    one == 1,
            ;
        }
        while power < exponent
            invariant
                1 <= power <= exponent < 15,
                mantissa < 0x400,
                units == (0x400 + mantissa) * vstd::arithmetic::power2::pow2((power - 1) as nat),
                units <= 0x800 * vstd::arithmetic::power2::pow2((power - 1) as nat),
            decreases exponent - power,
        {
            proof {
                vstd::arithmetic::power2::lemma2_to64();
                vstd::arithmetic::power2::lemma_pow2_unfold(power as nat);
                if power < 14 {
                    vstd::arithmetic::power2::lemma_pow2_strictly_increases((power - 1) as nat, 13);
                }
                let before = vstd::arithmetic::power2::pow2((power - 1) as nat);
                assert((0x400 + mantissa) * (2 * before) == 2 * ((0x400 + mantissa) * before))
                    by (nonlinear_arith);
            }
            units = units * 2;
            power = power + 1;
        }
        proof {
            vstd::arithmetic::power2::lemma2_to64();
            if power < 14 {
                vstd::arithmetic::power2::lemma_pow2_strictly_increases((power - 1) as nat, 13);
            }
        }
    }
    proof {
        vstd::arithmetic::power2::lemma2_to64();
    }
    assert(units <= 0x800 * 0x2000);
    ((units * 510 + 0x100_0000) / 0x200_0000) as u8
}

/// The half-precision number in two bytes at `at`.
pub open spec fn half_at(raw: Seq<u8>, at: int) -> u16 {
    (raw[at] + 0x100 * raw[at + 1]) as u16
}

/// The pixel at `at`, as red, green, blue and alpha of eight bits each.
#[verifier::opaque]
pub open spec fn pixel_rgba(raw: Seq<u8>, at: int, format: u32) -> Seq<u8> {
    let packed = wire::little_word_at(raw, at) as int;
    if format == VK_FORMAT_B8G8R8A8_UNORM {
        seq![raw[at + 2], raw[at + 1], raw[at], raw[at + 3]]
    } else if format == VK_FORMAT_R8G8B8A8_UNORM {
        seq![raw[at], raw[at + 1], raw[at + 2], raw[at + 3]]
    } else if format == VK_FORMAT_A2R10G10B10_UNORM_PACK32 {
        seq![
            unorm10(packed / 0x10_0000 % 0x400),
            unorm10(packed / 0x400 % 0x400),
            unorm10(packed % 0x400),
            255,
        ]
    } else if format == VK_FORMAT_A2B10G10R10_UNORM_PACK32 {
        seq![
            unorm10(packed % 0x400),
            unorm10(packed / 0x400 % 0x400),
            unorm10(packed / 0x10_0000 % 0x400),
            255,
        ]
    } else if format == VK_FORMAT_R16G16B16A16_SFLOAT {
        seq![
            half_channel(half_at(raw, at)),
            half_channel(half_at(raw, at + 2)),
            half_channel(half_at(raw, at + 4)),
            255,
        ]
    } else {
        seq![0, 0, 0, 0]
    }
}

/// The first `count` pixels of an image, one after the other.
pub open spec fn pixels_rgba(raw: Seq<u8>, count: nat, format: u32) -> Seq<u8>
    decreases count,
{
    let size = match pixel_size(format) {
        Some(bytes) => bytes as int,
        None => 0,
    };
    if count == 0 {
        Seq::empty()
    } else {
        pixels_rgba(raw, (count - 1) as nat, format) + pixel_rgba(raw, (count - 1) * size, format)
    }
}

fn push_pixel(rgba: &mut Vec<u8>, red: u8, green: u8, blue: u8, alpha: u8)
    ensures
        final(rgba)@ == old(rgba)@ + seq![red, green, blue, alpha],
{
    rgba.push(red);
    rgba.push(green);
    rgba.push(blue);
    rgba.push(alpha);
    assert(rgba@ =~= old(rgba)@ + seq![red, green, blue, alpha]);
}

fn half_channel_at(raw: &[u8], at: usize) -> (channel: u8)
    requires
        at + 2 <= raw@.len(),
    ensures
        channel == half_channel(half_at(raw@, at as int)),
{
    f16_channel_to_u8(raw[at] as u16 + 0x100 * (raw[at + 1] as u16))
}

fn append_pixel(rgba: &mut Vec<u8>, raw: &[u8], at: usize, format: u32)
    requires
        match pixel_size(format) {
            Some(bytes) => at + bytes <= raw@.len(),
            None => true,
        },
    ensures
        final(rgba)@ == old(rgba)@ + pixel_rgba(raw@, at as int, format),
{
    proof {
        reveal(pixel_rgba);
        assert(raw@.len() == raw.len());
    }
    if format == VK_FORMAT_B8G8R8A8_UNORM {
        push_pixel(rgba, raw[at + 2], raw[at + 1], raw[at], raw[at + 3]);
    } else if format == VK_FORMAT_R8G8B8A8_UNORM {
        push_pixel(rgba, raw[at], raw[at + 1], raw[at + 2], raw[at + 3]);
    } else if format == VK_FORMAT_A2R10G10B10_UNORM_PACK32 {
        let packed: u32 = fourcc_code(raw[at], raw[at + 1], raw[at + 2], raw[at + 3]);
        push_pixel(
            rgba,
            unorm10_to_u8(packed / 0x10_0000 % 0x400),
            unorm10_to_u8(packed / 0x400 % 0x400),
            unorm10_to_u8(packed % 0x400),
            255,
        );
    } else if format == VK_FORMAT_A2B10G10R10_UNORM_PACK32 {
        let packed: u32 = fourcc_code(raw[at], raw[at + 1], raw[at + 2], raw[at + 3]);
        push_pixel(
            rgba,
            unorm10_to_u8(packed % 0x400),
            unorm10_to_u8(packed / 0x400 % 0x400),
            unorm10_to_u8(packed / 0x10_0000 % 0x400),
            255,
        );
    } else if format == VK_FORMAT_R16G16B16A16_SFLOAT {
        push_pixel(
            rgba,
            half_channel_at(raw, at),
            half_channel_at(raw, at + 2),
            half_channel_at(raw, at + 4),
            255,
        );
    } else {
        push_pixel(rgba, 0, 0, 0, 0);
    }
}

/// Turns the pixels of an image of `width` by `height`, copied out without
/// gaps between the rows, into RGBA. Of a format that is not known all pixels
/// are transparent black.
pub fn copied_pixels_to_rgba(raw: &[u8], width: usize, height: usize, format: u32) -> (rgba: Vec<
    u8,
>)
    requires
        width * height * 4 <= usize::MAX,
        match pixel_size(format) {
            Some(bytes) => width * height * bytes <= raw@.len(),
            None => true,
        },
    ensures
        rgba@ == pixels_rgba(raw@, (width * height) as nat, format),
{
    let mut rgba: Vec<u8> = Vec::new();
    let size: usize = match bytes_per_pixel(format) {
        Ok(size) => size,
        Err(_) => 0,
    };
    assert(width * height <= width * height * 4) by (nonlinear_arith);
    let count: usize = width * height;
    let mut index: usize = 0;
    let mut at: usize = 0;
    while index < count
        invariant
            index <= count,
            count == width * height,
            at == index * size,
            size == (match pixel_size(format) {
                Some(bytes) => bytes,
                None => 0,
            }),
            count * size <= raw@.len(),
            rgba@ == pixels_rgba(raw@, index as nat, format),
        decreases count - index,
    {
        proof {
            assert(raw@.len() == raw.len());
            assert((index + 1) * size == index * size + size) by (nonlinear_arith);
            assert((index + 1) * size <= count * size) by (nonlinear_arith)
                requires
                    index < count,
            ;
        }
        append_pixel(&mut rgba, raw, at, format);
        at = at + size;
        index = index + 1;
    }
    rgba
}

/// An image has four bytes for each of its pixels.
pub proof fn rgba_has_four_bytes_per_pixel(raw: Seq<u8>, count: nat, format: u32)
    ensures
        pixels_rgba(raw, count, format).len() == 4 * count,
    decreases count,
{
    reveal(pixel_rgba);
    if count > 0 {
        rgba_has_four_bytes_per_pixel(raw, (count - 1) as nat, format);
    }
}

/// How many bytes the pixels of an image take when they are copied out.
pub fn copied_byte_len(width: u32, height: u32, format: u32) -> (len: Result<u64, String>)
    requires
        width * height * 8 <= u64::MAX,
    ensures
        text::outcome(len) == (match pixel_size(format) {
            Some(bytes) => Ok::<u64, Seq<char>>((width * height * bytes) as u64),
            None => Err("unsupported Vulkan format "@ + text::decimal(format as nat)),
        }),
{
    match bytes_per_pixel(format) {
        Ok(size) => {
            assert(width * height * size <= width * height * 8) by (nonlinear_arith)
                requires
                    size <= 8,
            ;
            assert(width * height <= width * height * 8) by (nonlinear_arith);
            Ok(width as u64 * height as u64 * size as u64)
        },
        Err(message) => Err(message),
    }
}

/// One plane of an image: how its rows lie in memory.
#[derive(Debug, Clone, Copy, PartialEq, Eq, Structural)]
pub struct PlaneLayout {
    pub offset: u64,
    pub size: u64,
    pub row_pitch: u64,
}

/// How the rows of a plane with this offset and stride lie in memory.
pub fn plane_layout(offset: u32, stride: u32, height: u32) -> (layout: PlaneLayout)
    ensures
        layout == (PlaneLayout {
            offset: offset as u64,
            size: (stride * height) as u64,
            row_pitch: stride as u64,
        }),
{
    assert(stride * height <= 0xffff_ffff * 0xffff_ffff) by (nonlinear_arith)
        requires
            stride <= 0xffff_ffff,
            height <= 0xffff_ffff,
    ;
    PlaneLayout {
        offset: offset as u64,
        size: stride as u64 * height as u64,
        row_pitch: stride as u64,
    }
}

/// The queues of one family: their kinds and how many there are.
#[derive(Debug, Clone, Copy, PartialEq, Eq, Structural)]
pub struct QueueFamily {
    pub queue_flags: u32,
    pub queue_count: u32,
}

/// Whether a family has a queue that draws.
pub open spec fn draws(family: QueueFamily) -> bool {
    family.queue_count > 0 && family.queue_flags & VK_QUEUE_GRAPHICS_BIT != 0
}

/// The first queue family that has a queue that draws.
pub fn graphics_queue_family(families: &[QueueFamily]) -> (index: Option<u32>)
    requires
        families@.len() <= u32::MAX,
    ensures
        match index {
            Some(found) => found < families@.len() && draws(families@[found as int]) && forall|i: int|
                0 <= i < found ==> !draws(#[trigger] families@[i]),
            None => forall|i: int| 0 <= i < families@.len() ==> !draws(#[trigger] families@[i]),
        },
{
    let mut index: usize = 0;
    while index < families.len()
        invariant
            index <= families@.len() <= u32::MAX,
            forall|i: int| 0 <= i < index ==> !draws(#[trigger] families@[i]),
        decreases families@.len() - index,
    {
        let family = families[index];
        if family.queue_count > 0 && family.queue_flags & VK_QUEUE_GRAPHICS_BIT != 0 {
            return Some(index as u32);
        }
        index = index + 1;
    }
    None
}

/// Whether memory of a type, with these properties, may be used: the type is
/// among the allowed ones and has all properties that are required.
pub open spec fn memory_fits(
    properties: Seq<u32>,
    index: int,
    type_bits: u32,
    required_flags: u32,
) -> bool {
    index < 32 && type_bits & (1u32 << index as u32) != 0 && properties[index] & required_flags
        == required_flags
}

/// The first memory type that may be used, of those whose properties are listed.
pub fn memory_type_index(properties: &[u32], type_bits: u32, required_flags: u32) -> (index: Option<
    u32,
>)
    requires
        properties@.len() <= u32::MAX,
    ensures
        match index {
            Some(found) => found < properties@.len() && memory_fits(
                properties@,
                found as int,
                type_bits,
                required_flags,
            ) && forall|i: int|
                0 <= i < found ==> !#[trigger] memory_fits(
                    properties@,
                    i,
                    type_bits,
                    required_flags,
                ),
            None => forall|i: int|
                0 <= i < properties@.len() ==> !#[trigger] memory_fits(
                    properties@,
                    i,
                    type_bits,
                    required_flags,
                ),
        },
{
    let mut index: usize = 0;
    while index < properties.len() && index < 32
        invariant
            index <= properties@.len() <= u32::MAX,
            index <= 32,
            forall|i: int|
                0 <= i < index ==> !#[trigger] memory_fits(
                    properties@,
                    i,
                    type_bits,
                    required_flags,
                ),
        decreases properties@.len() - index,
    {
        let bit: u32 = 1u32 << index as u32;
        if type_bits & bit != 0 && properties[index] & required_flags == required_flags {
            return Some(index as u32);
        }
        index = index + 1;
    }
    None
}

} // verus!
