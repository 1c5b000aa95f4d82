//! What the pixels of an image become: which byte of the image each byte of the
//! picture is, and how far a channel may be off.

use crate::dmabuf;
use crate::dmabuf::{
    DRM_FORMAT_ABGR16161616F, DRM_FORMAT_ABGR2101010, DRM_FORMAT_ABGR8888,
    DRM_FORMAT_ARGB2101010, DRM_FORMAT_ARGB8888, DRM_FORMAT_XBGR16161616F,
    DRM_FORMAT_XBGR2101010, DRM_FORMAT_XBGR8888, DRM_FORMAT_XRGB2101010, DRM_FORMAT_XRGB8888,
    VK_FORMAT_B8G8R8A8_UNORM, VK_FORMAT_R8G8B8A8_UNORM,
};
use crate::surface;
use crate::surface::{BufferView, SourceView, SurfaceView, TrackedShmBuffer};
use crate::wire;
use vstd::prelude::*;

verus! {

proof fn digits_are_one_way(a: u8, b: u8, c: u8, d: u8, e: u8, f: u8, g: u8, h: u8)
    requires
        a + 0x100 * b + 0x1_0000 * c + 0x100_0000 * d == e + 0x100 * f + 0x1_0000 * g + 0x100_0000
            * h,
    ensures
        a == e,
        b == f,
        c == g,
        d == h,
{
    let low = 0x100 * (f - b) + 0x1_0000 * (g - c) + 0x100_0000 * (h - d);
    assert(a - e == low);
    assert(f - b + 0x100 * (g - c) + 0x1_0000 * (h - d) == 0);
    assert(g - c + 0x100 * (h - d) == 0);
}

proof fn pixel_stands_in_its_place(raw: Seq<u8>, count: nat, format: u32, size: int, i: int)
    requires
        0 <= i < count,
        size == (match dmabuf::pixel_size(format) {
            Some(bytes) => bytes as int,
            None => 0,
        }),
    ensures
        ({
            let rgba = dmabuf::pixels_rgba(raw, count, format);
            let pixel = dmabuf::pixel_rgba(raw, i * size, format);
            &&& rgba.len() == 4 * count
            &&& pixel.len() == 4
            &&& rgba[4 * i] == pixel[0]
            &&& rgba[4 * i + 1] == pixel[1]
            &&& rgba[4 * i + 2] == pixel[2]
            &&& rgba[4 * i + 3] == pixel[3]
        }),
    decreases count,
{
    let before = (count - 1) as nat;
    dmabuf::rgba_has_four_bytes_per_pixel(raw, count, format);
    dmabuf::rgba_has_four_bytes_per_pixel(raw, before, format);
    reveal(dmabuf::pixel_rgba);
    if i < before {
        pixel_stands_in_its_place(raw, before, format, size, i);
    }
}

/// A picture of eight-bit pixels has the image's colours: where the image has blue
/// first, blue and red change places in each pixel and the rest stays; where it has
/// red first, the picture is the image.
pub proof fn eight_bit_colors_are_kept(raw: Seq<u8>, width: nat, height: nat, i: int)
    requires
        width * height * 4 <= raw.len(),
        0 <= i < width * height,
    ensures
        ({
            let rgba = dmabuf::pixels_rgba(raw, width * height, VK_FORMAT_B8G8R8A8_UNORM);
            &&& rgba.len() == 4 * (width * height)
            &&& rgba[4 * i] == raw[4 * i + 2]
            &&& rgba[4 * i + 1] == raw[4 * i + 1]
            &&& rgba[4 * i + 2] == raw[4 * i]
            &&& rgba[4 * i + 3] == raw[4 * i + 3]
        }),
        ({
            let rgba = dmabuf::pixels_rgba(raw, width * height, VK_FORMAT_R8G8B8A8_UNORM);
            &&& rgba.len() == 4 * (width * height)
            &&& rgba[4 * i] == raw[4 * i]
            &&& rgba[4 * i + 1] == raw[4 * i + 1]
            &&& rgba[4 * i + 2] == raw[4 * i + 2]
            &&& rgba[4 * i + 3] == raw[4 * i + 3]
        }),
{
    reveal(dmabuf::pixel_rgba);
    pixel_stands_in_its_place(raw, width * height, VK_FORMAT_B8G8R8A8_UNORM, 4, i);
    pixel_stands_in_its_place(raw, width * height, VK_FORMAT_R8G8B8A8_UNORM, 4, i);
}

/// An image with red first is its own picture.
pub proof fn red_first_is_copied(raw: Seq<u8>, count: nat)
    requires
        4 * count <= raw.len(),
    ensures
        dmabuf::pixels_rgba(raw, count, VK_FORMAT_R8G8B8A8_UNORM) == raw.take(4 * count as int),
    decreases count,
{
    reveal(dmabuf::pixel_rgba);
    let picture = dmabuf::pixels_rgba(raw, count, VK_FORMAT_R8G8B8A8_UNORM);
    if count > 0 {
        let last = count - 1;
        red_first_is_copied(raw, last as nat);
        assert(last * 4 == 4 * last);
        assert(picture =~= raw.take(4 * last) + seq![
            raw[4 * last],
            raw[4 * last + 1],
            raw[4 * last + 2],
            raw[4 * last + 3],
        ]);
    }
    assert(picture =~= raw.take(4 * count as int));
}

/// Whether two pixels are alike but for red and blue, which have changed places.
pub open spec fn is_exchanged(raw: Seq<u8>, other: Seq<u8>, at: int) -> bool {
    &&& other[at] == raw[at + 2]
    &&& other[at + 1] == raw[at + 1]
    &&& other[at + 2] == raw[at]
    &&& other[at + 3] == raw[at + 3]
}

/// Two images give one picture where one has blue first and the other red first, and
/// all else in them is alike.
pub proof fn order_makes_no_color(raw: Seq<u8>, other: Seq<u8>, count: nat)
    requires
        4 * count <= raw.len(),
        4 * count <= other.len(),
        forall|i: int| 0 <= i < count ==> #[trigger] is_exchanged(raw, other, 4 * i),
    ensures
        dmabuf::pixels_rgba(raw, count, VK_FORMAT_B8G8R8A8_UNORM) == dmabuf::pixels_rgba(
            other,
            count,
            VK_FORMAT_R8G8B8A8_UNORM,
        ),
    decreases count,
{
    reveal(dmabuf::pixel_rgba);
    if count > 0 {
        let last = count - 1;
        assert forall|i: int| 0 <= i < last implies #[trigger] is_exchanged(raw, other, 4 * i) by {}
        order_makes_no_color(raw, other, last as nat);
        assert(is_exchanged(raw, other, 4 * last));
        assert(last * 4 == 4 * last);
        assert(dmabuf::pixel_rgba(raw, last * 4, VK_FORMAT_B8G8R8A8_UNORM) =~= dmabuf::pixel_rgba(
            other,
            last * 4,
            VK_FORMAT_R8G8B8A8_UNORM,
        ));
    }
}

/// The picture of an image that a client hands over in a DRM format.
pub open spec fn drm_picture(raw: Seq<u8>, count: nat, format: u32) -> Seq<u8> {
    dmabuf::pixels_rgba(raw, count, dmabuf::vk_format(format).unwrap())
}

/// A DRM format of eight bits a channel names the channels of a little-endian word,
/// the highest first: these are the pixel's alpha, red, green and blue.
pub proof fn drm_word_gives_its_channels(
    raw: Seq<u8>,
    count: nat,
    i: int,
    top: u8,
    high: u8,
    middle: u8,
    low: u8,
)
    requires
        4 * count <= raw.len(),
        0 <= i < count,
        wire::little_word_at(raw, 4 * i) == top * 0x100_0000 + high * 0x1_0000 + middle * 0x100
            + low,
    ensures
        forall|format: u32|
            #![trigger drm_picture(raw, count, format)]
            format == DRM_FORMAT_XRGB8888 || format == DRM_FORMAT_ARGB8888 ==> {
                let rgba = drm_picture(raw, count, format);
                &&& rgba[4 * i] == high
                &&& rgba[4 * i + 1] == middle
                &&& rgba[4 * i + 2] == low
                &&& rgba[4 * i + 3] == top
            },
        forall|format: u32|
            #![trigger drm_picture(raw, count, format)]
            format == DRM_FORMAT_XBGR8888 || format == DRM_FORMAT_ABGR8888 ==> {
                let rgba = drm_picture(raw, count, format);
                &&& rgba[4 * i] == low
                &&& rgba[4 * i + 1] == middle
                &&& rgba[4 * i + 2] == high
                &&& rgba[4 * i + 3] == top
            },
{
    reveal(dmabuf::pixel_rgba);
    pixel_stands_in_its_place(raw, count, VK_FORMAT_B8G8R8A8_UNORM, 4, i);
    pixel_stands_in_its_place(raw, count, VK_FORMAT_R8G8B8A8_UNORM, 4, i);
    let at = 4 * i;
    digits_are_one_way(raw[at], raw[at + 1], raw[at + 2], raw[at + 3], low, middle, high, top);
    assert(raw[at] == low && raw[at + 1] == middle && raw[at + 2] == high && raw[at + 3] == top);
    assert(i * 4 == at);
}

/// Whether a channel of eight bits is the nearest one to a channel of ten.
pub open spec fn nearest_to_ten_bits(channel: u8, value: int) -> bool {
    -1023 < 2 * (1023 * channel - 255 * value) < 1023
}

/// The channel that is made of ten bits is the nearest one, so that nothing stays
/// nothing and all stays all.
pub proof fn ten_bits_are_rounded(value: int)
    requires
        0 <= value < 0x400,
    ensures
        nearest_to_ten_bits(dmabuf::unorm10(value), value),
        value == 0 ==> dmabuf::unorm10(value) == 0,
        value == 1023 ==> dmabuf::unorm10(value) == 255,
{
}

proof fn ten_bits_are_found(packed: int, top: int, high: int, middle: int, low: int)
    requires
        0 <= top < 4,
        0 <= high < 0x400,
        0 <= middle < 0x400,
        0 <= low < 0x400,
        packed == top * 0x4000_0000 + high * 0x10_0000 + middle * 0x400 + low,
    ensures
        packed / 0x10_0000 % 0x400 == high,
        packed / 0x400 % 0x400 == middle,
        packed % 0x400 == low,
{
    assert(packed / 0x10_0000 == top * 0x400 + high);
    assert(packed / 0x400 == top * 0x10_0000 + high * 0x400 + middle);
}

/// A DRM format of ten bits a channel names the channels of a little-endian word, the
/// highest first after the two bits of alpha, which are left out: the picture has the
/// nearest colours, and is opaque.
pub proof fn drm_word_gives_nearest_channels(
    raw: Seq<u8>,
    count: nat,
    i: int,
    top: int,
    high: int,
    middle: int,
    low: int,
)
    requires
        4 * count <= raw.len(),
        0 <= i < count,
        0 <= top < 4,
        0 <= high < 0x400,
        0 <= middle < 0x400,
        0 <= low < 0x400,
        wire::little_word_at(raw, 4 * i) == top * 0x4000_0000 + high * 0x10_0000 + middle * 0x400
            + low,
    ensures
        forall|format: u32|
            #![trigger drm_picture(raw, count, format)]
            format == DRM_FORMAT_XRGB2101010 || format == DRM_FORMAT_ARGB2101010 ==> {
                let rgba = drm_picture(raw, count, format);
                &&& nearest_to_ten_bits(rgba[4 * i], high)
                &&& nearest_to_ten_bits(rgba[4 * i + 1], middle)
                &&& nearest_to_ten_bits(rgba[4 * i + 2], low)
                &&& rgba[4 * i + 3] == 255
            },
        forall|format: u32|
            #![trigger drm_picture(raw, count, format)]
            format == DRM_FORMAT_XBGR2101010 || format == DRM_FORMAT_ABGR2101010 ==> {
                let rgba = drm_picture(raw, count, format);
                &&& nearest_to_ten_bits(rgba[4 * i], low)
                &&& nearest_to_ten_bits(rgba[4 * i + 1], middle)
                &&& nearest_to_ten_bits(rgba[4 * i + 2], high)
                &&& rgba[4 * i + 3] == 255
            },
{
    let red_first = dmabuf::VK_FORMAT_A2R10G10B10_UNORM_PACK32;
    let blue_first = dmabuf::VK_FORMAT_A2B10G10R10_UNORM_PACK32;
    reveal(dmabuf::pixel_rgba);
    pixel_stands_in_its_place(raw, count, red_first, 4, i);
    pixel_stands_in_its_place(raw, count, blue_first, 4, i);
    ten_bits_are_rounded(high);
    ten_bits_are_rounded(middle);
    ten_bits_are_rounded(low);
    ten_bits_are_found(wire::little_word_at(raw, 4 * i) as int, top, high, middle, low);
    assert(i * 4 == 4 * i);
}

/// The formats of half-precision channels have red first, then green and blue, each in
/// two bytes with the low one first; what follows is left out, and the picture is
/// opaque.
pub proof fn half_channels_stand_in_line(
    raw: Seq<u8>,
    count: nat,
    i: int,
    red: u16,
    green: u16,
    blue: u16,
)
    requires
        8 * count <= raw.len(),
        0 <= i < count,
        raw[8 * i] + 0x100 * raw[8 * i + 1] == red,
        raw[8 * i + 2] + 0x100 * raw[8 * i + 3] == green,
        raw[8 * i + 4] + 0x100 * raw[8 * i + 5] == blue,
    ensures
        forall|format: u32|
            #![trigger drm_picture(raw, count, format)]
            format == DRM_FORMAT_XBGR16161616F || format == DRM_FORMAT_ABGR16161616F ==> {
                let rgba = drm_picture(raw, count, format);
                &&& rgba[4 * i] == dmabuf::half_channel(red)
                &&& rgba[4 * i + 1] == dmabuf::half_channel(green)
                &&& rgba[4 * i + 2] == dmabuf::half_channel(blue)
                &&& rgba[4 * i + 3] == 255
            },
{
    reveal(dmabuf::pixel_rgba);
    pixel_stands_in_its_place(raw, count, dmabuf::VK_FORMAT_R16G16B16A16_SFLOAT, 8, i);
    assert(i * 8 == 8 * i);
}

/// Half-precision numbers are counted in their smallest unit: the lowest numbers count
/// themselves up to the first normal ones, and one more in the exponent is twice the
/// number.
pub proof fn half_numbers_are_counted(bits: u16)
    requires
        bits < 0x3c00,
    ensures
        bits < 0x800 ==> dmabuf::half_units(bits) == bits,
        0x400 <= bits < 0x3800 ==> dmabuf::half_units((bits + 0x400) as u16) == 2
            * dmabuf::half_units(bits),
        dmabuf::half_units(bits) < 0x100_0000,
{
    vstd::arithmetic::power2::lemma2_to64();
    let exponent = bits / 0x400 % 0x20;
    let mantissa = (bits % 0x400) as nat;
    if exponent > 0 {
        let power = vstd::arithmetic::power2::pow2((exponent - 1) as nat);
        vstd::arithmetic::power2::lemma_pow2_unfold(exponent as nat);
        assert((0x400 + mantissa) * (2 * power) == 2 * ((0x400 + mantissa) * power))
            by (nonlinear_arith);
        if exponent == 1 {
            assert((0x400 + mantissa) * power == 0x400 + mantissa) by (nonlinear_arith)
                requires
                    power == 1,
            ;
        }
        if exponent < 14 {
            vstd::arithmetic::power2::lemma_pow2_strictly_increases((exponent - 1) as nat, 13);
        }
        assert((0x400 + mantissa) * power < 0x800 * 0x2000) by (nonlinear_arith)
            requires
                mantissa < 0x400,
                0 < power <= 0x2000,
        ;
        if bits < 0x3800 {
            let above = (bits + 0x400) as u16;
            assert(above / 0x400 % 0x20 == exponent + 1);
            assert(above % 0x400 == mantissa);
        }
    }
}

/// A half-precision channel below one becomes the nearest of eight bits, halves up; one
/// and above become the highest, and what is below zero or no number the lowest.
pub proof fn half_channels_are_rounded(bits: u16)
    ensures
        bits < 0x3c00 ==> -0x100_0000 < 2 * (dmabuf::half_units(bits) * 255 - 0x100_0000
            * dmabuf::half_channel(bits)) + 1 <= 0x100_0000,
        0x3c00 <= bits <= 0x7c00 ==> dmabuf::half_channel(bits) == 255,
        0x7c00 < bits ==> dmabuf::half_channel(bits) == 0,
{
    if bits < 0x3c00 {
        half_numbers_are_counted(bits);
        let units = dmabuf::half_units(bits) as int;
        assert(0 <= (units * 510 + 0x100_0000) / 0x200_0000 < 256);
    }
}

/// The codes of the DRM formats spell their names.
pub proof fn codes_spell_their_names()
    ensures
        dmabuf::code_text(DRM_FORMAT_XRGB8888) == "XR24"@,
        dmabuf::code_text(DRM_FORMAT_ARGB8888) == "AR24"@,
        dmabuf::code_text(DRM_FORMAT_XBGR8888) == "XB24"@,
        dmabuf::code_text(DRM_FORMAT_ABGR8888) == "AB24"@,
        dmabuf::code_text(DRM_FORMAT_XRGB2101010) == "XR30"@,
        dmabuf::code_text(DRM_FORMAT_ARGB2101010) == "AR30"@,
        dmabuf::code_text(DRM_FORMAT_XBGR2101010) == "XB30"@,
        dmabuf::code_text(DRM_FORMAT_ABGR2101010) == "AB30"@,
        dmabuf::code_text(DRM_FORMAT_XBGR16161616F) == "XB4H"@,
        dmabuf::code_text(DRM_FORMAT_ABGR16161616F) == "AB4H"@,
{
    reveal_strlit("XR24");
    reveal_strlit("AR24");
    reveal_strlit("XB24");
    reveal_strlit("AB24");
    reveal_strlit("XR30");
    reveal_strlit("AR30");
    reveal_strlit("XB30");
    reveal_strlit("AB30");
    reveal_strlit("XB4H");
    reveal_strlit("AB4H");
}

/// A code is spelt by the characters that it was made of.
pub proof fn code_is_spelt(code: u32, a: u8, b: u8, c: u8, d: u8)
    requires
        code == a + 0x100 * b + 0x1_0000 * c + 0x100_0000 * d,
        0x20 <= a <= 0x7e,
        0x20 <= b <= 0x7e,
        0x20 <= c <= 0x7e,
        0x20 <= d <= 0x7e,
    ensures
        dmabuf::code_text(code) == seq![a as char, b as char, c as char, d as char],
{
    let bytes = wire::little_word_bytes(code);
    assert(bytes[0] == a && bytes[1] == b && bytes[2] == c && bytes[3] == d) by {
        assert(code % 0x100 == a);
        assert(code / 0x100 == b + 0x100 * c + 0x1_0000 * d);
        assert(code / 0x1_0000 == c + 0x100 * d);
        assert(code / 0x100_0000 == d);
    }
    assert(dmabuf::code_text(code) =~= seq![a as char, b as char, c as char, d as char]);
}

/// A screenshot can be made of ten formats, and no format is imported as one whose
/// pixels have another size.
pub proof fn formats_are_known_by_size(format: u32)
    ensures
        dmabuf::vk_format(format) is Some <==> (format == DRM_FORMAT_XRGB8888 || format
            == DRM_FORMAT_ARGB8888 || format == DRM_FORMAT_XBGR8888 || format
            == DRM_FORMAT_ABGR8888 || format == DRM_FORMAT_XRGB2101010 || format
            == DRM_FORMAT_ARGB2101010 || format == DRM_FORMAT_XBGR2101010 || format
            == DRM_FORMAT_ABGR2101010 || format == DRM_FORMAT_XBGR16161616F || format
            == DRM_FORMAT_ABGR16161616F),
        dmabuf::vk_format(format) matches Some(imported) ==> dmabuf::pixel_size(imported) == Some(
            if format == DRM_FORMAT_XBGR16161616F || format == DRM_FORMAT_ABGR16161616F {
                8usize
            } else {
                4usize
            },
        ),
{
}

proof fn column_stands_in_its_row(
    file: Seq<u8>,
    buffer: TrackedShmBuffer,
    row: int,
    columns: nat,
    column: int,
)
    ensures
        surface::shm_row(file, buffer, row, columns).len() == 4 * columns,
        0 <= column < columns ==> ({
            let pixels = surface::shm_row(file, buffer, row, columns);
            let pixel = surface::shm_pixel(
                file,
                surface::shm_pixel_at(buffer, row, column),
                buffer.format,
            );
            &&& pixels[4 * column] == pixel[0]
            &&& pixels[4 * column + 1] == pixel[1]
            &&& pixels[4 * column + 2] == pixel[2]
            &&& pixels[4 * column + 3] == pixel[3]
        }),
    decreases columns,
{
    if columns > 0 {
        column_stands_in_its_row(file, buffer, row, (columns - 1) as nat, column);
    }
}

proof fn row_stands_in_its_picture(
    file: Seq<u8>,
    buffer: TrackedShmBuffer,
    rows: nat,
    row: int,
    column: int,
)
    ensures
        surface::shm_rows(file, buffer, rows).len() == 4 * (rows * buffer.width),
        0 <= row < rows && 0 <= column < buffer.width ==> ({
            let picture = surface::shm_rows(file, buffer, rows);
            let pixels = surface::shm_row(file, buffer, row, buffer.width as nat);
            let at = 4 * (row * buffer.width + column);
            &&& 0 <= at
            &&& at + 4 <= picture.len()
            &&& picture[at] == pixels[4 * column]
            &&& picture[at + 1] == pixels[4 * column + 1]
            &&& picture[at + 2] == pixels[4 * column + 2]
            &&& picture[at + 3] == pixels[4 * column + 3]
        }),
    decreases rows,
{
    let width = buffer.width as int;
    if rows > 0 {
        let before = (rows - 1) as nat;
        row_stands_in_its_picture(file, buffer, before, row, column);
        column_stands_in_its_row(file, buffer, before as int, buffer.width as nat, 0);
        assert(rows * width == before * width + width) by (nonlinear_arith)
            requires
                rows == before + 1,
        ;
        if 0 <= row < before && 0 <= column < width {
            assert(row * width + column < before * width) by (nonlinear_arith)
                requires
                    0 <= row < before,
                    0 <= column < width,
            ;
        }
        if 0 <= row < rows {
            assert(0 <= row * width) by (nonlinear_arith)
                requires
                    0 <= row,
                    0 <= width,
            ;
        }
    }
}

/// Each pixel of a buffer in shared memory is where its row and its column say, both
/// in the pool's file, whose rows lie a stride apart, and in the picture, whose rows
/// follow each other. The file has blue first, then green and red; the fourth byte is
/// the alpha of the one format, and of no meaning in the other, which is opaque.
#[verifier::spinoff_prover]
pub proof fn shared_pixels_are_found(
    file: Seq<u8>,
    buffer: TrackedShmBuffer,
    row: int,
    column: int,
)
    requires
        surface::shm_read(file, buffer) is Ok,
        0 <= row < buffer.height,
        0 <= column < buffer.width,
    ensures
        ({
            let rgba = surface::shm_read(file, buffer)->Ok_0;
            let from = buffer.offset + row * buffer.stride + 4 * column;
            let to = 4 * (row * buffer.width + column);
            &&& rgba.len() == 4 * (buffer.width * buffer.height)
            &&& from + 4 <= file.len()
            &&& rgba[to] == file[from + 2]
            &&& rgba[to + 1] == file[from + 1]
            &&& rgba[to + 2] == file[from]
            &&& buffer.format == 0 ==> rgba[to + 3] == file[from + 3]
            &&& buffer.format == 1 ==> rgba[to + 3] == 255
        }),
{
    let rows = buffer.height as nat;
    row_stands_in_its_picture(file, buffer, rows, row, column);
    column_stands_in_its_row(file, buffer, row, buffer.width as nat, column);
    rows_are_all_there(file, buffer, 0);
    assert(surface::row_is_there(file, buffer, row));
    assert(buffer.height * buffer.width == buffer.width * buffer.height) by (nonlinear_arith);
}

proof fn rows_are_all_there(file: Seq<u8>, buffer: TrackedShmBuffer, start: u32)
    ensures
        surface::first_short_row(file, buffer, start) is None <==> forall|row: int|
            start <= row < buffer.height ==> #[trigger] surface::row_is_there(file, buffer, row),
        surface::first_short_row(file, buffer, start) matches Some(short) ==> start <= short
            < buffer.height && !surface::row_is_there(file, buffer, short as int) && forall|row: int|
            start <= row < short ==> #[trigger] surface::row_is_there(file, buffer, row),
    decreases buffer.height - start,
{
    if start < buffer.height {
        rows_are_all_there(file, buffer, (start + 1) as u32);
        assert(surface::row_is_there(file, buffer, start as int)
            == surface::row_is_there(file, buffer, start as int));
    }
}

/// A buffer in shared memory is read exactly where the machine has the low byte first,
/// the format is one of the two that are known, no row is longer than the stride, the
/// picture can be counted, and the file holds every row that has pixels.
pub proof fn shared_memory_is_read_where_it_can(file: Seq<u8>, buffer: TrackedShmBuffer)
    requires
        4 * (buffer.width * buffer.height) <= usize::MAX,
        4 * buffer.width <= u32::MAX,
    ensures
        surface::shm_read(file, buffer) is Ok <==> (wire::low_byte_first() && buffer.format <= 1
            && 4 * buffer.width <= buffer.stride && (buffer.width > 0 ==> forall|row: int|
            #![trigger row * buffer.stride]
            0 <= row < buffer.height ==> buffer.offset + row * buffer.stride + 4 * buffer.width
                <= file.len())),
{
    rows_are_all_there(file, buffer, 0);
    let width = buffer.width as int;
    let height = buffer.height as int;
    assert(4 * width * height == 4 * (width * height)) by (nonlinear_arith);
    assert forall|row: int|
        #![trigger row * buffer.stride]
        0 <= row < height && surface::row_is_there(file, buffer, row) && width > 0 implies
        buffer.offset + row * buffer.stride + 4 * width <= file.len() by {}
    if surface::first_short_row(file, buffer, 0) is None {
        assert forall|row: int|
            #![trigger row * buffer.stride]
            0 <= row < height && width > 0 implies buffer.offset + row * buffer.stride + 4 * width
            <= file.len() by {
            assert(surface::row_is_there(file, buffer, row));
        }
    }
    if let Some(short) = surface::first_short_row(file, buffer, 0) {
        let row = short as int;
        assert(width > 0 && buffer.offset + row * buffer.stride + 4 * width > file.len());
    }
}

/// A buffer can be read exactly where there is nothing to say against it.
pub proof fn readable_means_no_error(buffer: BufferView)
    ensures
        buffer.readable() <==> buffer.error() is None,
        buffer.source matches SourceView::Dmabuf(image) ==> buffer.readable() == (
        dmabuf::vk_format(image.format) is Some),
        buffer.source is Unknown ==> buffer.readable() == (buffer.rgba is Some),
{
}

/// Of two surfaces of a window the one with a buffer is shown before one without, then
/// the larger, then the one that was committed last, and no two beat each other.
pub proof fn one_surface_is_shown(a: SurfaceView, b: SurfaceView, c: SurfaceView)
    ensures
        !(a.beats(b) && b.beats(a)),
        a.beats(b) && b.beats(c) ==> a.beats(c),
        a.has_committed_buffer && !b.has_committed_buffer ==> a.beats(b),
        a.has_committed_buffer == b.has_committed_buffer && a.width * a.height > b.width
            * b.height ==> a.beats(b),
        a.has_committed_buffer == b.has_committed_buffer && a.width * a.height == b.width
            * b.height && a.commit_serial > b.commit_serial ==> a.beats(b),
{
}

/// A memory type may be used exactly where its bit is among the allowed ones and it has
/// every property that is required.
pub proof fn memory_is_used_where_it_fits(
    properties: Seq<u32>,
    index: int,
    type_bits: u32,
    required_flags: u32,
    flag: u32,
)
    requires
        0 <= index < 32,
        flag < 32,
        dmabuf::memory_fits(properties, index, type_bits, required_flags),
    ensures
        (type_bits >> (index as u32)) & 1 == 1,
        (required_flags >> flag) & 1 == 1 ==> (properties[index] >> flag) & 1 == 1,
{
    let place = index as u32;
    let property = properties[index];
    assert((type_bits >> place) & 1 == 1) by (bit_vector)
        requires
            place < 32,
            type_bits & (1u32 << place) != 0,
    ;
    assert((required_flags >> flag) & 1 == 1 ==> (property >> flag) & 1 == 1) by (bit_vector)
        requires
            property & required_flags == required_flags,
    ;
}

/// A family of queues draws exactly where it has a queue and the lowest of its flags
/// is set.
pub proof fn drawing_is_the_lowest_flag(family: dmabuf::QueueFamily)
    ensures
        dmabuf::draws(family) <==> family.queue_count > 0 && family.queue_flags % 2 == 1,
{
    let flags = family.queue_flags;
    assert(flags & 1 != 0 <==> flags % 2 == 1) by (bit_vector);
}

} // verus!
