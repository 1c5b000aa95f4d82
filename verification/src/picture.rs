//! Pictures of windows: PNG files with a note on their colors, previews of a
//! bounded size, and the text form in which a picture is handed over.

use crate::text;
use crate::text::str_eq;
use base64::Engine;
use vstd::prelude::*;
use vstd::string::*;

verus! {

/// The largest width of an embedded preview.
pub const MAX_PREVIEW_WIDTH: u32 = 1600;

/// The largest height of an embedded preview.
pub const MAX_PREVIEW_HEIGHT: u32 = 1000;

/// The keyword of the note on the colors of a picture.
pub open spec fn color_keyword() -> Seq<char> {
    "wayland-mcp-color"@
}

/// Whether all characters of a text are in Latin-1.
pub open spec fn is_latin1(text: Seq<char>) -> bool {
    forall|i: int| 0 <= i < text.len() ==> (#[trigger] text[i]) as u32 <= 0xff
}

/// Whether a keyword is one that a PNG file can hold.
pub open spec fn is_keyword(keyword: Seq<char>) -> bool {
    1 <= keyword.len() <= 79 && is_latin1(keyword)
}

/// Whether a keyword and a text of its own can stand in a PNG file.
pub open spec fn can_be_noted(keyword: Seq<char>, note: Option<Seq<char>>) -> bool {
    match note {
        Some(text) => is_keyword(keyword) && is_latin1(text),
        None => true,
    }
}

/// Whether pixels can be written as a PNG file: there is at least one, each has
/// four bytes, and the note can stand beside them.
pub open spec fn is_encodable(
    width: u32,
    height: u32,
    rgba: Seq<u8>,
    keyword: Seq<char>,
    note: Option<Seq<char>>,
) -> bool {
    &&& width > 0
    &&& height > 0
    &&& rgba.len() == 4 * width * height
    &&& can_be_noted(keyword, note)
}

/// The notes of a PNG file that was made with one note or none.
pub open spec fn only_note(keyword: Seq<char>, note: Option<Seq<char>>) -> Seq<
    (Seq<char>, Seq<char>),
> {
    match note {
        Some(text) => seq![(keyword, text)],
        None => Seq::empty(),
    }
}

/// A picture of a size that a reader of PNG files takes without running into its
/// limits.
pub open spec fn is_moderate(width: u32, height: u32, note: Option<Seq<char>>) -> bool {
    &&& width <= 65_536
    &&& height <= 65_536
    &&& 4 * width * height <= 0x400_0000
    &&& match note {
        Some(text) => text.len() <= 0x10_0000,
        None => true,
    }
}

/// What `png` makes of pixels: a file, or the message of its error.
pub uninterp spec fn png_of(
    width: u32,
    height: u32,
    rgba: Seq<u8>,
    keyword: Seq<char>,
    note: Option<Seq<char>>,
) -> Result<Seq<u8>, Seq<char>>;

/// What `png` finds in a file: the keyword and the text of each of its
/// uncompressed Latin-1 notes in front of the pixels, or the message of its error.
pub uninterp spec fn png_notes(bytes: Seq<u8>) -> Result<Seq<(Seq<char>, Seq<char>)>, Seq<char>>;

/// What `image` finds in a file: the width and the height of the image, or the
/// message of its error.
pub uninterp spec fn image_size(bytes: Seq<u8>) -> Result<(u32, u32), Seq<char>>;

/// What `image` finds in a file that it can read: the bytes and the samples of one
/// pixel.
pub uninterp spec fn image_depth(bytes: Seq<u8>) -> Option<(u8, u8)>;

/// The largest width of a picture of wide samples that is made smaller.
pub const MAX_WIDE_WIDTH: u32 = 320_000;

/// The largest height of a picture of wide samples that is made smaller.
pub const MAX_WIDE_HEIGHT: u32 = 200_000;

/// Whether samples of a picture can be added up for a preview. Where a sample has more
/// than a byte, the part of the picture that one pixel of the preview stands for must
/// not be too large.
pub open spec fn is_reducible(
    size: Result<(u32, u32), Seq<char>>,
    depth: Option<(u8, u8)>,
) -> bool {
    match (size, depth) {
        (Ok((width, height)), Some((pixel_bytes, samples))) => pixel_bytes <= samples || (width
            <= MAX_WIDE_WIDTH && height <= MAX_WIDE_HEIGHT),
        _ => true,
    }
}

/// What `image` makes of a file: a PNG file of the image in a size that fits into
/// a box, with its width and its height, or nothing where the file cannot be read
/// or written.
pub uninterp spec fn thumbnail_of(bytes: Seq<u8>, width: u32, height: u32) -> Option<
    (Seq<u8>, u32, u32),
>;

/// Whether a file is read as a picture of a size with one note or none.
pub open spec fn reads_back(
    bytes: Seq<u8>,
    width: u32,
    height: u32,
    keyword: Seq<char>,
    note: Option<Seq<char>>,
) -> bool {
    &&& png_notes(bytes) == Ok::<Seq<(Seq<char>, Seq<char>)>, Seq<char>>(only_note(keyword, note))
    &&& image_size(bytes) == Ok::<(u32, u32), Seq<char>>((width, height))
}

/// The values of keywords and texts.
pub open spec fn note_values(notes: Seq<(String, String)>) -> Seq<(Seq<char>, Seq<char>)> {
    Seq::new(notes.len(), |i: int| (notes[i].0@, notes[i].1@))
}

/// The value of a preview.
pub open spec fn sized_value(sized: Option<(Vec<u8>, u32, u32)>) -> Option<(Seq<u8>, u32, u32)> {
    match sized {
        Some((bytes, width, height)) => Some((bytes@, width, height)),
        None => None,
    }
}

/// `png::Encoder` with 8-bit RGBA pixels and the perceptual sRGB intent, a note by
/// `add_text_chunk` where there is one, then `write_header` and
/// `write_image_data`.
///
/// Claimed: the file, or the text of the error, depends on the arguments alone;
/// it fails exactly on an empty size, on pixels that are not four bytes for each
/// place, and on a note that Latin-1 cannot hold or whose keyword is empty or
/// too long; `png::Decoder` finds the note again, and `image::load_from_memory`
/// the size, in the file of a picture of moderate size whose keyword holds no NUL.
#[verifier::external_body]
fn write_png(
    width: u32,
    height: u32,
    rgba: &Vec<u8>,
    keyword: &str,
    note: &Option<String>,
) -> (file: Result<Vec<u8>, String>)
    requires
        (4 * width + 1) * height <= usize::MAX,
    ensures
        text::outcome(file) == png_of(width, height, rgba@, keyword@, text::optional(*note)),
        file is Ok == is_encodable(width, height, rgba@, keyword@, text::optional(*note)),
        file matches Ok(bytes) ==> is_moderate(width, height, text::optional(*note))
            && !keyword@.contains('\0') ==> reads_back(
            bytes@,
            width,
            height,
            keyword@,
            text::optional(*note),
        ),
{
    let mut bytes = Vec::new();
    let mut encoder = png::Encoder::new(&mut bytes, width, height);
    encoder.set_color(png::ColorType::Rgba);
    encoder.set_depth(png::BitDepth::Eight);
    encoder.set_source_srgb(png::SrgbRenderingIntent::Perceptual);
    if let Some(text) = note {
        let added = encoder.add_text_chunk(keyword.to_owned(), text.clone());
        added.map_err(|err| err.to_string())?;
    }
    let mut writer = encoder.write_header().map_err(|err| err.to_string())?;
    writer.write_image_data(rgba).map_err(|err| err.to_string())?;
    drop(writer);
    Ok(bytes)
}

/// `png::Decoder::read_info`, and of what it finds the keyword and the text of each
/// entry of `uncompressed_latin1_text`.
///
/// Claimed: they, or the text of the error, depend on the bytes alone.
#[verifier::external_body]
fn read_notes(bytes: &Vec<u8>) -> (notes: Result<Vec<(String, String)>, String>)
    ensures
        match notes {
            Ok(found) => png_notes(bytes@) == Ok::<Seq<(Seq<char>, Seq<char>)>, Seq<char>>(
                note_values(found@),
            ),
            Err(message) => png_notes(bytes@) == Err::<Seq<(Seq<char>, Seq<char>)>, Seq<char>>(
                message@,
            ),
        },
{
    let decoder = png::Decoder::new(std::io::Cursor::new(bytes.as_slice()));
    let reader = decoder.read_info().map_err(|err| err.to_string())?;
    let chunks = reader.info().uncompressed_latin1_text.iter();
    Ok(chunks.map(|chunk| (chunk.keyword.clone(), chunk.text.clone())).collect())
}

/// `image::load_from_memory`, and of the image `width` and `height`.
///
/// Claimed: they, or the text of the error, depend on the bytes alone.
#[verifier::external_body]
fn load_size(bytes: &Vec<u8>) -> (size: Result<(u32, u32), String>)
    ensures
        text::outcome(size) == image_size(bytes@),
{
    let image = image::load_from_memory(bytes).map_err(|err| err.to_string())?;
    Ok((image.width(), image.height()))
}

/// `image::load_from_memory`, and of the image's `color` the `bytes_per_pixel` and the
/// `channel_count`.
///
/// Claimed: they depend on the bytes alone.
#[verifier::external_body]
fn load_depth(bytes: &Vec<u8>) -> (depth: Option<(u8, u8)>)
    ensures
        depth == image_depth(bytes@),
{
    let color = image::load_from_memory(bytes).ok()?.color();
    Some((color.bytes_per_pixel(), color.channel_count()))
}

/// `image::load_from_memory`, then `DynamicImage::thumbnail`, then
/// `DynamicImage::write_to` as PNG.
///
/// Claimed: the file, its width and its height depend on the arguments alone, and
/// the image fits into the box. The samples that make up one pixel are added up in 32
/// bits: of samples of a byte there are never too many within what
/// `load_from_memory` takes, and of samples of two bytes not within the sizes that
/// are asked for.
#[verifier::external_body]
fn write_thumbnail(bytes: &Vec<u8>, width: u32, height: u32) -> (small: Option<
    (Vec<u8>, u32, u32),
>)
    requires
        width == MAX_PREVIEW_WIDTH,
        height == MAX_PREVIEW_HEIGHT,
        is_reducible(image_size(bytes@), image_depth(bytes@)),
    ensures
        sized_value(small) == thumbnail_of(bytes@, width, height),
        small matches Some((_, small_width, small_height)) ==> 1 <= small_width <= width && 1
            <= small_height <= height,
{
    let image = image::load_from_memory(bytes).ok()?.thumbnail(width, height);
    let mut encoded = std::io::Cursor::new(Vec::new());
    image.write_to(&mut encoded, image::ImageFormat::Png).ok()?;
    Some((encoded.into_inner(), image.width(), image.height()))
}

/// The character that stands for six bits in base64.
pub open spec fn base64_char(bits: int) -> char {
    if bits < 26 {
        ('A' as int + bits) as char
    } else if bits < 52 {
        ('a' as int + bits - 26) as char
    } else if bits < 62 {
        ('0' as int + bits - 52) as char
    } else if bits == 62 {
        '+'
    } else {
        '/'
    }
}

/// Bytes in base64: four characters for three bytes, with `=` in the place of what
/// the last bytes do not fill.
pub open spec fn base64_text(bytes: Seq<u8>) -> Seq<char>
    decreases bytes.len(),
{
    if bytes.len() == 0 {
        Seq::empty()
    } else {
        let a = bytes[0] as int;
        let b = if bytes.len() > 1 { bytes[1] as int } else { 0 };
        let c = if bytes.len() > 2 { bytes[2] as int } else { 0 };
        seq![
            base64_char(a / 4),
            base64_char(a % 4 * 16 + b / 16),
            if bytes.len() > 1 { base64_char(b % 16 * 4 + c / 64) } else { '=' },
            if bytes.len() > 2 { base64_char(c % 64) } else { '=' },
        ] + if bytes.len() > 3 {
            base64_text(bytes.skip(3))
        } else {
            Seq::empty()
        }
    }
}

/// `Engine::encode` of `base64::engine::general_purpose::STANDARD`: the standard
/// alphabet, padded.
#[verifier::external_body]
fn encode_base64(bytes: &Vec<u8>) -> (encoded: String)
    requires
        (bytes@.len() + 2) / 3 * 4 <= isize::MAX,
    ensures
        encoded@ == base64_text(bytes@),
{
    base64::engine::general_purpose::STANDARD.encode(bytes)
}

/// The text of the first note with a keyword.
pub open spec fn first_note(notes: Seq<(Seq<char>, Seq<char>)>, keyword: Seq<char>) -> Option<
    Seq<char>,
>
    decreases notes.len(),
{
    if notes.len() == 0 {
        None
    } else if notes[0].0 == keyword {
        Some(notes[0].1)
    } else {
        first_note(notes.skip(1), keyword)
    }
}

/// The note on the colors of a picture that is in a PNG file.
pub open spec fn color_note(bytes: Seq<u8>) -> Result<Option<Seq<char>>, Seq<char>> {
    match png_notes(bytes) {
        Ok(notes) => Ok(first_note(notes, color_keyword())),
        Err(message) => Err(message),
    }
}

/// The value of a note that may be absent or unreadable.
pub open spec fn note_value(note: Result<Option<String>, String>) -> Result<
    Option<Seq<char>>,
    Seq<char>,
> {
    match note {
        Ok(found) => Ok(text::optional(found)),
        Err(message) => Err(message@),
    }
}

/// Writes pixels, four bytes for each place, as a PNG file with a note on their
/// colors. What is noted in a file of moderate size is found again in it.
pub fn encode_rgba_png(width: u32, height: u32, rgba: &Vec<u8>, note: &Option<String>) -> (file:
    Result<Vec<u8>, String>)
    requires
        (4 * width + 1) * height <= usize::MAX,
    ensures
        text::outcome(file) == png_of(
            width,
            height,
            rgba@,
            color_keyword(),
            text::optional(*note),
        ),
        file is Ok == is_encodable(width, height, rgba@, color_keyword(), text::optional(*note)),
        file is Ok == (width > 0 && height > 0 && rgba@.len() == 4 * width * height && (match note {
            Some(content) => is_latin1(content@),
            None => true,
        })),
        file matches Ok(bytes) ==> is_moderate(width, height, text::optional(*note)) ==> color_note(
            bytes@,
        ) == Ok::<Option<Seq<char>>, Seq<char>>(text::optional(*note)) && image_size(bytes@) == Ok::<
            (u32, u32),
            Seq<char>,
        >((width, height)),
{
    proof {
        reveal_strlit("wayland-mcp-color");
        assert(is_keyword(color_keyword()));
        assert(!color_keyword().contains('\0'));
        if let Some(content) = text::optional(*note) {
            assert(only_note(color_keyword(), Some(content))[0] == (color_keyword(), content));
        }
        assert(first_note(only_note(color_keyword(), text::optional(*note)), color_keyword())
            == text::optional(*note));
    }
    write_png(width, height, rgba, "wayland-mcp-color", note)
}

/// Picks the note on the colors of a picture out of its notes.
pub fn pick_color_note(notes: &Vec<(String, String)>) -> (note: Option<String>)
    ensures
        text::optional(note) == first_note(note_values(notes@), color_keyword()),
{
    let ghost all = note_values(notes@);
    let mut index: usize = 0;
    proof {
        assert(all.skip(0) =~= all);
    }
    while index < notes.len()
        invariant
            index <= notes@.len(),
            all == note_values(notes@),
            first_note(all, color_keyword()) == first_note(all.skip(index as int), color_keyword()),
        decreases notes@.len() - index,
    {
        let note = &notes[index];
        proof {
            assert(all.skip(index as int)[0] == (note.0@, note.1@));
            assert(all.skip(index as int).skip(1) =~= all.skip(index + 1));
        }
        if str_eq(note.0.as_str(), "wayland-mcp-color") {
            return Some(note.1.clone());
        }
        index = index + 1;
    }
    None
}

/// Finds the note on the colors of a picture that is in a PNG file.
pub fn find_color_note(bytes: &Vec<u8>) -> (note: Result<Option<String>, String>)
    ensures
        note_value(note) == color_note(bytes@),
{
    match read_notes(bytes) {
        Ok(notes) => Ok(pick_color_note(&notes)),
        Err(message) => Err(message),
    }
}

/// Whether a picture of a size is handed over as it is.
pub open spec fn fits_preview(width: u32, height: u32) -> bool {
    width <= MAX_PREVIEW_WIDTH && height <= MAX_PREVIEW_HEIGHT
}

/// Whether a picture needs a preview, given its size: not if it cannot be read.
pub fn needs_preview(size: &Result<(u32, u32), String>) -> (needed: bool)
    ensures
        needed == (size matches Ok((width, height)) && !fits_preview(*width, *height)),
{
    match size {
        Ok((width, height)) => !(*width <= MAX_PREVIEW_WIDTH && *height <= MAX_PREVIEW_HEIGHT),
        Err(_) => false,
    }
}

/// A preview with the size of the picture and its own.
pub open spec fn preview_of(bytes: Seq<u8>) -> Option<(Seq<u8>, u32, u32, u32, u32)> {
    match image_size(bytes) {
        Err(_) => None,
        Ok((width, height)) => if fits_preview(width, height) {
            None
        } else {
            match thumbnail_of(bytes, MAX_PREVIEW_WIDTH, MAX_PREVIEW_HEIGHT) {
                None => None,
                Some((small, small_width, small_height)) => Some(
                    (small, width, height, small_width, small_height),
                ),
            }
        },
    }
}

/// Makes a preview of a picture that is too large to be embedded: the file, the
/// size of the picture and the size of the preview.
pub fn bounded_png_preview(bytes: &Vec<u8>) -> (preview: Option<(Vec<u8>, u32, u32, u32, u32)>)
    requires
        is_reducible(image_size(bytes@), image_depth(bytes@)),
    ensures
        match preview {
            Some((small, width, height, small_width, small_height)) => preview_of(bytes@) == Some(
                (small@, width, height, small_width, small_height),
            ) && 1 <= small_width <= MAX_PREVIEW_WIDTH && 1 <= small_height <= MAX_PREVIEW_HEIGHT,
            None => preview_of(bytes@) is None,
        },
{
    let size = load_size(bytes);
    if !needs_preview(&size) {
        return None;
    }
    let (width, height): (u32, u32) = match size {
        Ok(size) => size,
        Err(_) => return None,
    };
    match write_thumbnail(bytes, MAX_PREVIEW_WIDTH, MAX_PREVIEW_HEIGHT) {
        Some((small, small_width, small_height)) => Some(
            (small, width, height, small_width, small_height),
        ),
        None => None,
    }
}

/// Says whether a picture can be made smaller, given its size and its depth.
pub fn can_be_reduced(size: &Result<(u32, u32), String>, depth: Option<(u8, u8)>) -> (reducible:
    bool)
    ensures
        reducible == is_reducible(text::outcome(*size), depth),
{
    match (size, depth) {
        (Ok((width, height)), Some((pixel_bytes, samples))) => pixel_bytes <= samples || (*width
            <= MAX_WIDE_WIDTH && *height <= MAX_WIDE_HEIGHT),
        _ => true,
    }
}

/// A preview where the picture can be made smaller, and none where it cannot.
pub open spec fn possible_preview(bytes: Seq<u8>) -> Option<(Seq<u8>, u32, u32, u32, u32)> {
    if is_reducible(image_size(bytes), image_depth(bytes)) {
        preview_of(bytes)
    } else {
        None
    }
}

/// A picture as it is handed over: in base64, with the size of the whole picture
/// and of what is handed over.
#[derive(Debug, PartialEq, Eq)]
pub struct EmbeddedImage {
    pub data: String,
    pub full_width: u32,
    pub full_height: u32,
    pub width: u32,
    pub height: u32,
    pub reduced: bool,
}

/// The value of a picture that is handed over.
#[verifier::ext_equal]
pub struct EmbeddedView {
    pub data: Seq<char>,
    pub full_width: u32,
    pub full_height: u32,
    pub width: u32,
    pub height: u32,
    pub reduced: bool,
}

impl View for EmbeddedImage {
    type V = EmbeddedView;

    open spec fn view(&self) -> EmbeddedView {
        EmbeddedView {
            data: self.data@,
            full_width: self.full_width,
            full_height: self.full_height,
            width: self.width,
            height: self.height,
            reduced: self.reduced,
        }
    }
}

/// A picture that is handed over whole or, where its file is that of a preview,
/// reduced.
pub open spec fn embedded(
    bytes: Seq<u8>,
    preview: Option<(Seq<u8>, u32, u32, u32, u32)>,
    size: Result<(u32, u32), Seq<char>>,
) -> EmbeddedView {
    match preview {
        Some((small, full_width, full_height, width, height)) => EmbeddedView {
            data: base64_text(small),
            full_width,
            full_height,
            width,
            height,
            reduced: true,
        },
        None => {
            let (width, height) = match size {
                Ok(found) => found,
                Err(_) => (0, 0),
            };
            EmbeddedView {
                data: base64_text(bytes),
                full_width: width,
                full_height: height,
                width,
                height,
                reduced: false,
            }
        },
    }
}

/// Whether bytes are few enough to be written in base64.
pub open spec fn fits_base64(bytes: Seq<u8>) -> bool {
    (bytes.len() + 2) / 3 * 4 <= isize::MAX
}

/// Hands a picture over, given its preview and its size. Nothing comes where the
/// text would be longer than memory can hold.
pub fn embed(
    bytes: &Vec<u8>,
    preview: Option<(Vec<u8>, u32, u32, u32, u32)>,
    size: Result<(u32, u32), String>,
) -> (image: Option<EmbeddedImage>)
    ensures
        ({
            let (chosen, small) = match preview {
                Some((file, full_width, full_height, width, height)) => (
                    file@,
                    Some((file@, full_width, full_height, width, height)),
                ),
                None => (bytes@, None),
            };
            match image {
                Some(made) => fits_base64(chosen) && made@ == embedded(
                    bytes@,
                    small,
                    text::outcome(size),
                ),
                None => !fits_base64(chosen),
            }
        }),
{
    match preview {
        Some((small, full_width, full_height, width, height)) => {
            if (small.len() as u128 + 2) / 3 * 4 > isize::MAX as u128 {
                return None;
            }
            Some(
                EmbeddedImage {
                    data: encode_base64(&small),
                    full_width,
                    full_height,
                    width,
                    height,
                    reduced: true,
                },
            )
        },
        None => {
            if (bytes.len() as u128 + 2) / 3 * 4 > isize::MAX as u128 {
                return None;
            }
            let (width, height): (u32, u32) = match size {
                Ok(found) => found,
                Err(_) => (0, 0),
            };
            Some(
                EmbeddedImage {
                    data: encode_base64(bytes),
                    full_width: width,
                    full_height: height,
                    width,
                    height,
                    reduced: false,
                },
            )
        },
    }
}

/// Hands a picture over, as a preview where it is too large. One that cannot be made
/// smaller is handed over whole.
pub fn embedded_image(bytes: &Vec<u8>) -> (image: Option<EmbeddedImage>)
    ensures
        match image {
            Some(made) => made@ == embedded(bytes@, possible_preview(bytes@), image_size(bytes@)),
            None => !fits_base64(
                match possible_preview(bytes@) {
                    Some(preview) => preview.0,
                    None => bytes@,
                },
            ),
        },
{
    let size = load_size(bytes);
    let preview = if can_be_reduced(&size, load_depth(bytes)) {
        bounded_png_preview(bytes)
    } else {
        None
    };
    embed(bytes, preview, size)
}

/// Reads the size of a picture.
pub fn picture_size(bytes: &Vec<u8>) -> (size: Result<(u32, u32), String>)
    ensures
        text::outcome(size) == image_size(bytes@),
{
    load_size(bytes)
}

/// What a caller is told of the coordinates in a picture.
pub open spec fn coordinate_text(reduced: bool) -> Seq<char> {
    if reduced {
        "All Wayland input x/y values use full screenshot pixels. Multiply preview coordinates by preview_to_full_scale."@
    } else {
        "All Wayland input x/y values use full screenshot pixels."@
    }
}

/// Says what a caller is told of the coordinates in a picture.
pub fn coordinate_space(reduced: bool) -> (explanation: String)
    ensures
        explanation@ == coordinate_text(reduced),
{
    if reduced {
        "All Wayland input x/y values use full screenshot pixels. Multiply preview coordinates by preview_to_full_scale.".to_owned()
    } else {
        "All Wayland input x/y values use full screenshot pixels.".to_owned()
    }
}

/// Replaces each pixel by what a conversion gives for it. Bytes behind the last
/// whole pixel stay, and so does everything where there is no conversion.
pub fn convert_rgba8_colors<F: Fn(u8, u8, u8, u8) -> (u8, u8, u8, u8)>(
    rgba: &mut Vec<u8>,
    conversion: &Option<F>,
)
    requires
        conversion matches Some(convert) ==> forall|r: u8, g: u8, b: u8, a: u8|
            call_requires(convert, (r, g, b, a)),
    ensures
        final(rgba)@.len() == old(rgba)@.len(),
        match conversion {
            None => final(rgba)@ == old(rgba)@,
            Some(convert) => {
                &&& forall|pixel: int|
                    0 <= pixel < old(rgba)@.len() / 4 ==> #[trigger] is_converted(
                        *convert,
                        old(rgba)@,
                        final(rgba)@,
                        pixel,
                    )
                &&& forall|i: int|
                    old(rgba)@.len() / 4 * 4 <= i < old(rgba)@.len() ==> final(rgba)@[i] == old(
                        rgba,
                    )@[i]
            },
        },
{
    if let Some(convert) = conversion {
        let ghost before = rgba@;
        assert(before.len() == rgba.len());
        let pixels: usize = rgba.len() / 4;
        let mut pixel: usize = 0;
        while pixel < pixels
            invariant
                pixel <= pixels,
                pixels == before.len() / 4,
                rgba@.len() == before.len(),
                before.len() <= usize::MAX,
                forall|r: u8, g: u8, b: u8, a: u8| call_requires(convert, (r, g, b, a)),
                forall|done: int|
                    0 <= done < pixel ==> #[trigger] is_converted(*convert, before, rgba@, done),
                forall|i: int| 4 * pixel <= i < before.len() ==> rgba@[i] == before[i],
            decreases pixels - pixel,
        {
            let at: usize = 4 * pixel;
            let (r, g, b, a) = convert(rgba[at], rgba[at + 1], rgba[at + 2], rgba[at + 3]);
            let ghost earlier = rgba@;
            rgba.set(at, r);
            rgba.set(at + 1, g);
            rgba.set(at + 2, b);
            rgba.set(at + 3, a);
            proof {
                assert forall|done: int| 0 <= done < pixel + 1 implies #[trigger] is_converted(
                    *convert,
                    before,
                    rgba@,
                    done,
                ) by {
                    if done < pixel {
                        assert(is_converted(*convert, before, earlier, done));
                    }
                }
            }
            pixel = pixel + 1;
        }
    }
}

/// Whether a pixel is what a conversion gives for it.
pub open spec fn is_converted<F: Fn(u8, u8, u8, u8) -> (u8, u8, u8, u8)>(
    convert: F,
    before: Seq<u8>,
    after: Seq<u8>,
    pixel: int,
) -> bool {
    call_ensures(
        convert,
        (before[4 * pixel], before[4 * pixel + 1], before[4 * pixel + 2], before[4 * pixel + 3]),
        (after[4 * pixel], after[4 * pixel + 1], after[4 * pixel + 2], after[4 * pixel + 3]),
    )
}

} // verus!
