//! The Wayland wire format: words, strings and arrays in a message with a
//! header. Words are in the byte order of the machine.

use crate::text;
use crate::text::append_decimal;
use vstd::prelude::*;
use vstd::string::*;

verus! {

/// What kind of argument a message carries.
#[derive(Debug, Clone, Copy, PartialEq, Eq, Structural)]
pub enum GeneratedArgKind {
    Int,
    Uint,
    Fixed,
    Object,
    NewId,
    String,
    Array,
    Fd,
}

/// One argument of a message: its name, its kind and, where the argument makes
/// or names an object of one interface, that interface.
#[derive(Debug, Clone, Copy, PartialEq, Eq)]
pub struct GeneratedArgSpec {
    pub name: &'static str,
    pub kind: GeneratedArgKind,
    pub interface: Option<&'static str>,
}

/// One argument as it was read from a message. A file descriptor takes no
/// bytes: it travels beside the message.
#[derive(Debug, PartialEq, Eq)]
pub enum DecodedWaylandArg {
    Int(i32),
    Uint(u32),
    Fixed(i32),
    String(Option<String>),
    Object(Option<u32>),
    NewId(u32),
    Array(Vec<u8>),
    Fd,
}

/// The value of an argument.
#[verifier::ext_equal]
pub enum ArgView {
    Int(i32),
    Uint(u32),
    Fixed(i32),
    String(Option<Seq<char>>),
    Object(Option<u32>),
    NewId(u32),
    Array(Seq<u8>),
    Fd,
}

impl View for DecodedWaylandArg {
    type V = ArgView;

    open spec fn view(&self) -> ArgView {
        match self {
            DecodedWaylandArg::Int(value) => ArgView::Int(*value),
            DecodedWaylandArg::Uint(value) => ArgView::Uint(*value),
            DecodedWaylandArg::Fixed(value) => ArgView::Fixed(*value),
            DecodedWaylandArg::String(value) => ArgView::String(text::optional(*value)),
            DecodedWaylandArg::Object(value) => ArgView::Object(*value),
            DecodedWaylandArg::NewId(value) => ArgView::NewId(*value),
            DecodedWaylandArg::Array(value) => ArgView::Array(value@),
            DecodedWaylandArg::Fd => ArgView::Fd,
        }
    }
}

/// The values of a list of arguments.
pub open spec fn arg_values(args: Seq<DecodedWaylandArg>) -> Seq<ArgView> {
    args.map_values(|arg: DecodedWaylandArg| arg@)
}

/// The kinds of a list of arguments.
pub open spec fn arg_kinds(specs: Seq<GeneratedArgSpec>) -> Seq<GeneratedArgKind> {
    specs.map_values(|spec: GeneratedArgSpec| spec.kind)
}

/// The kind of an argument's value.
pub open spec fn kind_of(arg: ArgView) -> GeneratedArgKind {
    match arg {
        ArgView::Int(_) => GeneratedArgKind::Int,
        ArgView::Uint(_) => GeneratedArgKind::Uint,
        ArgView::Fixed(_) => GeneratedArgKind::Fixed,
        ArgView::String(_) => GeneratedArgKind::String,
        ArgView::Object(_) => GeneratedArgKind::Object,
        ArgView::NewId(_) => GeneratedArgKind::NewId,
        ArgView::Array(_) => GeneratedArgKind::Array,
        ArgView::Fd => GeneratedArgKind::Fd,
    }
}

/// The object, the size in bytes and the opcode that a message starts with.
#[derive(Debug, Clone, Copy, PartialEq, Eq, Structural)]
pub struct WaylandMessageHeader {
    pub object_id: u32,
    pub size: u16,
    pub opcode: u16,
}

impl View for WaylandMessageHeader {
    type V = WaylandMessageHeader;

    open spec fn view(&self) -> WaylandMessageHeader {
        *self
    }
}

/// Whether this machine keeps the low byte of a number first: the byte order of the
/// hardware, of which nothing else is known.
pub open spec fn low_byte_first() -> bool {
    vstd::endian::endianness() is Little
}

/// The word that four bytes at `at` hold, the low byte first.
pub open spec fn little_word_at(bytes: Seq<u8>, at: int) -> u32 {
    (bytes[at] + 0x100 * bytes[at + 1] + 0x1_0000 * bytes[at + 2] + 0x100_0000 * bytes[at
        + 3]) as u32
}

/// The four bytes that hold a word, the low byte first.
pub open spec fn little_word_bytes(word: u32) -> Seq<u8> {
    seq![
        (word % 0x100) as u8,
        (word / 0x100 % 0x100) as u8,
        (word / 0x1_0000 % 0x100) as u8,
        (word / 0x100_0000) as u8,
    ]
}

/// The word that four bytes at `at` hold on this machine.
pub open spec fn word_at(bytes: Seq<u8>, at: int) -> u32 {
    if low_byte_first() {
        little_word_at(bytes, at)
    } else {
        (0x100_0000 * bytes[at] + 0x1_0000 * bytes[at + 1] + 0x100 * bytes[at + 2] + bytes[at
            + 3]) as u32
    }
}

/// The four bytes that hold a word on this machine.
pub open spec fn word_bytes(word: u32) -> Seq<u8> {
    if low_byte_first() {
        little_word_bytes(word)
    } else {
        seq![
            (word / 0x100_0000) as u8,
            (word / 0x1_0000 % 0x100) as u8,
            (word / 0x100 % 0x100) as u8,
            (word % 0x100) as u8,
        ]
    }
}

/// `u32::from_ne_bytes`: the number whose memory representation the bytes are, in the
/// byte order of the machine.
#[verifier::external_body]
fn word_from_memory(bytes: [u8; 4]) -> (word: u32)
    ensures
        word == word_at(bytes@, 0),
{
    u32::from_ne_bytes(bytes)
}

/// `u32::to_ne_bytes`: the memory representation of the number, in the byte order of
/// the machine.
#[verifier::external_body]
fn word_in_memory(word: u32) -> (bytes: [u8; 4])
    ensures
        bytes@ == word_bytes(word),
{
    word.to_ne_bytes()
}

/// Says whether this machine keeps the low byte of a number first.
pub fn is_low_byte_first() -> (little: bool)
    ensures
        little == low_byte_first(),
{
    word_from_memory([1, 0, 0, 0]) == 1
}

/// Four bytes give back the word that they were written from.
pub proof fn word_survives(word: u32)
    ensures
        word_at(word_bytes(word), 0) == word,
{
    let bytes = word_bytes(word);
    if low_byte_first() {
        assert(bytes[0] + 0x100 * bytes[1] + 0x1_0000 * bytes[2] + 0x100_0000 * bytes[3] == word);
    } else {
        assert(0x100_0000 * bytes[0] + 0x1_0000 * bytes[1] + 0x100 * bytes[2] + bytes[3] == word);
    }
}

/// Reads the word at `at`.
pub fn read_word(bytes: &[u8], at: usize) -> (word: u32)
    requires
        at + 4 <= bytes@.len(),
    ensures
        word == word_at(bytes@, at as int),
{
    word_from_memory([bytes[at], bytes[at + 1], bytes[at + 2], bytes[at + 3]])
}

/// Appends the four bytes of a word.
pub fn write_word(bytes: &mut Vec<u8>, word: u32)
    ensures
        final(bytes)@ == old(bytes)@ + word_bytes(word),
{
    let parts: [u8; 4] = word_in_memory(word);
    bytes.push(parts[0]);
    bytes.push(parts[1]);
    bytes.push(parts[2]);
    bytes.push(parts[3]);
    assert(bytes@ =~= old(bytes)@ + word_bytes(word));
}

/// `len` rounded up to a multiple of four.
pub open spec fn padded(len: int) -> int {
    (len + 3) / 4 * 4
}

/// The bytes that `len` bytes take in a message: words are whole.
pub fn pad_to_4(len: usize) -> (rounded: usize)
    requires
        len + 3 <= usize::MAX,
    ensures
        rounded == padded(len as int),
{
    (len + 3) / 4 * 4
}

/// The header of a message, or why the bytes hold none.
pub open spec fn header_of(bytes: Seq<u8>) -> Result<WaylandMessageHeader, Seq<char>> {
    let word = word_at(bytes, 4);
    let size = word / 0x1_0000;
    if bytes.len() < 8 {
        Err("Wayland message shorter than header"@)
    } else if size < 8 {
        Err("invalid Wayland message size "@ + text::decimal(size as nat))
    } else if size > bytes.len() {
        Err(
            "Wayland message size "@ + text::decimal(size as nat) + " exceeds provided bytes "@
                + text::decimal(bytes.len()),
        )
    } else {
        Ok(
            WaylandMessageHeader {
                object_id: word_at(bytes, 0),
                size: size as u16,
                opcode: (word % 0x1_0000) as u16,
            },
        )
    }
}

/// Reads the header of a message.
pub fn decode_wayland_header(bytes: &[u8]) -> (header: Result<WaylandMessageHeader, String>)
    ensures
        text::outcome(header) == header_of(bytes@),
{
    if bytes.len() < 8 {
        return Err("Wayland message shorter than header".to_owned());
    }
    let object_id: u32 = read_word(bytes, 0);
    let word: u32 = read_word(bytes, 4);
    let size: u32 = word / 0x1_0000;
    let opcode: u32 = word % 0x1_0000;
    if size < 8 {
        let mut message = "invalid Wayland message size ".to_owned();
        append_decimal(&mut message, size as u64);
        return Err(message);
    }
    if size as usize > bytes.len() {
        let mut message = "Wayland message size ".to_owned();
        append_decimal(&mut message, size as u64);
        message.append(" exceeds provided bytes ");
        append_decimal(&mut message, bytes.len() as u64);
        return Err(message);
    }
    Ok(WaylandMessageHeader { object_id, size: size as u16, opcode: opcode as u16 })
}

/// The size in bytes that a message announces in its header.
pub open spec fn announced_size(header: Seq<u8>) -> Result<usize, Seq<char>> {
    let size = word_at(header, 4) / 0x1_0000;
    if size < 8 {
        Err("invalid Wayland message size "@ + text::decimal(size as nat))
    } else {
        Ok(size as usize)
    }
}

/// Reads from a message's first eight bytes how long the message is, so that a
/// reader knows how much more to take from its stream.
pub fn wayland_message_size(header: &[u8]) -> (size: Result<usize, String>)
    requires
        header@.len() >= 8,
    ensures
        text::outcome(size) == announced_size(header@),
{
    let size: u32 = read_word(header, 4) / 0x1_0000;
    if size < 8 {
        let mut message = "invalid Wayland message size ".to_owned();
        append_decimal(&mut message, size as u64);
        return Err(message);
    }
    Ok(size as usize)
}

/// The first message of a stream, or why there is none.
pub open spec fn first_message(stream: Seq<u8>) -> Result<Seq<u8>, Seq<char>> {
    if stream.len() < 8 {
        Err("failed to read Wayland header: failed to fill whole buffer"@)
    } else {
        match announced_size(stream) {
            Err(message) => Err(message),
            Ok(size) => if size > stream.len() {
                Err("failed to read Wayland payload: failed to fill whole buffer"@)
            } else {
                Ok(stream.subrange(0, size as int))
            },
        }
    }
}

/// Takes the first message from the bytes that a stream still holds.
pub fn read_wayland_message(stream: &[u8]) -> (message: Result<Vec<u8>, String>)
    ensures
        text::outcome(message) == first_message(stream@),
{
    if stream.len() < 8 {
        return Err("failed to read Wayland header: failed to fill whole buffer".to_owned());
    }
    match wayland_message_size(stream) {
        Err(message) => Err(message),
        Ok(size) => {
            if size > stream.len() {
                return Err(
                    "failed to read Wayland payload: failed to fill whole buffer".to_owned(),
                );
            }
            Ok(vstd::slice::slice_to_vec(vstd::slice::slice_subrange(stream, 0, size)))
        },
    }
}

/// Whether `count` bytes from `offset` on lie within the message.
pub open spec fn within(bytes: Seq<u8>, size: u16, offset: int, count: int) -> bool {
    offset + count <= size && offset + count <= bytes.len()
}

/// The word argument at `offset`.
pub open spec fn u32_arg(bytes: Seq<u8>, size: u16, offset: int) -> Result<u32, Seq<char>> {
    if within(bytes, size, offset, 4) {
        Ok(word_at(bytes, offset))
    } else {
        Err("Wayland message ended while decoding u32 argument"@)
    }
}

/// Reads a word argument and moves past it.
pub fn read_u32_arg(bytes: &[u8], size: u16, offset: &mut usize) -> (value: Result<u32, String>)
    requires
        *old(offset) + 4 <= usize::MAX,
    ensures
        text::outcome(value) == u32_arg(bytes@, size, *old(offset) as int),
        *final(offset) == *old(offset) + (if value is Ok { 4int } else { 0int }),
{
    if *offset + 4 > size as usize || *offset + 4 > bytes.len() {
        return Err("Wayland message ended while decoding u32 argument".to_owned());
    }
    let value: u32 = read_word(bytes, *offset);
    *offset = *offset + 4;
    Ok(value)
}

/// What `std::str::from_utf8` says of bytes that are not UTF-8.
pub uninterp spec fn utf8_error(bytes: Seq<u8>) -> Seq<char>;

/// `std::str::from_utf8`: the text that the bytes encode where they are UTF-8,
/// and otherwise the error's own text, which is left unstated.
#[verifier::external_body]
pub(crate) fn utf8_text(bytes: &[u8]) -> (decoded: Result<String, String>)
    ensures
        match decoded {
            Ok(decoded_text) => vstd::utf8::valid_utf8(bytes@) && decoded_text@
                == vstd::utf8::decode_utf8(bytes@),
            Err(message) => !vstd::utf8::valid_utf8(bytes@) && message@ == utf8_error(bytes@),
        },
{
    match std::str::from_utf8(bytes) {
        Ok(decoded_text) => Ok(decoded_text.to_owned()),
        Err(error) => Err(error.to_string()),
    }
}

/// The bytes of a string argument without the NUL that ends it.
pub open spec fn without_nul(raw: Seq<u8>) -> Seq<u8> {
    if raw.len() > 0 && raw.last() == 0 {
        raw.drop_last()
    } else {
        raw
    }
}

/// Where reading stops at an argument that has a length, and whose content cannot
/// be read.
pub open spec fn after_length(bytes: Seq<u8>, size: u16, offset: int) -> int {
    if u32_arg(bytes, size, offset) is Ok {
        offset + 4
    } else {
        offset
    }
}

/// The string argument at `offset`: its value and where the next argument starts.
pub open spec fn string_arg(bytes: Seq<u8>, size: u16, offset: int) -> Result<
    (Option<Seq<char>>, int),
    Seq<char>,
> {
    match u32_arg(bytes, size, offset) {
        Err(message) => Err(message),
        Ok(len) => {
            let content = without_nul(bytes.subrange(offset + 4, offset + 4 + len));
            if len == 0 {
                Ok((None, offset + 4))
            } else if !within(bytes, size, offset + 4, len as int) {
                Err("Wayland message ended while decoding string argument"@)
            } else if !vstd::utf8::valid_utf8(content) {
                Err("invalid utf-8 string argument: "@ + utf8_error(content))
            } else {
                Ok((Some(vstd::utf8::decode_utf8(content)), offset + 4 + padded(len as int)))
            }
        },
    }
}

/// Reads a string argument and moves past it. An absent string has length zero.
pub fn read_string_arg(bytes: &[u8], size: u16, offset: &mut usize) -> (value: Result<
    Option<String>,
    String,
>)
    requires
        *old(offset) + 4 <= usize::MAX,
    ensures
        match string_arg(bytes@, size, *old(offset) as int) {
            Ok((content, next)) => value matches Ok(string) && text::optional(string) == content
                && *final(offset) == next,
            Err(message) => value matches Err(error) && error@ == message && *final(offset)
                == after_length(bytes@, size, *old(offset) as int),
        },
        value is Ok ==> *final(offset) <= 0x1_0003,
{
    let start: usize = *offset;
    let len: u32 = match read_u32_arg(bytes, size, offset) {
        Ok(len) => len,
        Err(message) => return Err(message),
    };
    if len == 0 {
        return Ok(None);
    }
    if *offset as u64 + len as u64 > size as u64 || *offset as u64 + len as u64
        > bytes.len() as u64 {
        return Err("Wayland message ended while decoding string argument".to_owned());
    }
    let end: usize = *offset + len as usize;
    let raw = vstd::slice::slice_subrange(bytes, *offset, end);
    let content = if raw[raw.len() - 1] == 0 {
        vstd::slice::slice_subrange(raw, 0, raw.len() - 1)
    } else {
        raw
    };
    proof {
        assert(raw@ == bytes@.subrange(start + 4, start + 4 + len));
        assert(content@ =~= without_nul(raw@));
    }
    match utf8_text(content) {
        Ok(value) => {
            *offset = *offset + pad_to_4(len as usize);
            Ok(Some(value))
        },
        Err(error) => {
            let mut message = "invalid utf-8 string argument: ".to_owned();
            message.append(error.as_str());
            Err(message)
        },
    }
}

/// The array argument at `offset`: its value and where the next argument starts.
pub open spec fn array_arg(bytes: Seq<u8>, size: u16, offset: int) -> Result<
    (Seq<u8>, int),
    Seq<char>,
> {
    match u32_arg(bytes, size, offset) {
        Err(message) => Err(message),
        Ok(len) => if !within(bytes, size, offset + 4, len as int) {
            Err("Wayland message ended while decoding array argument"@)
        } else {
            Ok(
                (
                    bytes.subrange(offset + 4, offset + 4 + len),
                    offset + 4 + padded(len as int),
                ),
            )
        },
    }
}

/// Reads an array argument and moves past it.
pub fn read_array_arg(bytes: &[u8], size: u16, offset: &mut usize) -> (value: Result<
    Vec<u8>,
    String,
>)
    requires
        *old(offset) + 4 <= usize::MAX,
    ensures
        match array_arg(bytes@, size, *old(offset) as int) {
            Ok((content, next)) => value matches Ok(array) && array@ == content && *final(offset)
                == next,
            Err(message) => value matches Err(error) && error@ == message && *final(offset)
                == after_length(bytes@, size, *old(offset) as int),
        },
        value is Ok ==> *final(offset) <= 0x1_0003,
{
    let len: u32 = match read_u32_arg(bytes, size, offset) {
        Ok(len) => len,
        Err(message) => return Err(message),
    };
    if *offset as u64 + len as u64 > size as u64 || *offset as u64 + len as u64
        > bytes.len() as u64 {
        return Err("Wayland message ended while decoding array argument".to_owned());
    }
    let end: usize = *offset + len as usize;
    let value = vstd::slice::slice_to_vec(vstd::slice::slice_subrange(bytes, *offset, end));
    *offset = *offset + pad_to_4(len as usize);
    Ok(value)
}

/// The argument of one kind at `offset`: its value and where the next starts.
pub open spec fn arg_at(kind: GeneratedArgKind, bytes: Seq<u8>, size: u16, offset: int) -> Result<
    (ArgView, int),
    Seq<char>,
> {
    match kind {
        GeneratedArgKind::Fd => Ok((ArgView::Fd, offset)),
        GeneratedArgKind::String => match string_arg(bytes, size, offset) {
            Ok((content, next)) => Ok((ArgView::String(content), next)),
            Err(message) => Err(message),
        },
        GeneratedArgKind::Array => match array_arg(bytes, size, offset) {
            Ok((content, next)) => Ok((ArgView::Array(content), next)),
            Err(message) => Err(message),
        },
        _ => match u32_arg(bytes, size, offset) {
            Ok(word) => Ok(
                (
                    match kind {
                        GeneratedArgKind::Int => ArgView::Int(word as i32),
                        GeneratedArgKind::Fixed => ArgView::Fixed(word as i32),
                        GeneratedArgKind::Uint => ArgView::Uint(word),
                        GeneratedArgKind::NewId => ArgView::NewId(word),
                        _ => ArgView::Object(
                            if word == 0 {
                                None
                            } else {
                                Some(word)
                            },
                        ),
                    },
                    offset + 4,
                ),
            ),
            Err(message) => Err(message),
        },
    }
}

/// The arguments of the given kinds, one after the other from `offset` on.
pub open spec fn args_at(
    kinds: Seq<GeneratedArgKind>,
    bytes: Seq<u8>,
    size: u16,
    offset: int,
) -> Result<Seq<ArgView>, Seq<char>>
    decreases kinds.len(),
{
    if kinds.len() == 0 {
        Ok(Seq::empty())
    } else {
        match arg_at(kinds[0], bytes, size, offset) {
            Err(message) => Err(message),
            Ok((arg, next)) => match args_at(kinds.drop_first(), bytes, size, next) {
                Err(message) => Err(message),
                Ok(rest) => Ok(seq![arg] + rest),
            },
        }
    }
}

/// Reads one argument and moves past it.
fn decode_wayland_arg(kind: GeneratedArgKind, bytes: &[u8], size: u16, offset: &mut usize) -> (arg:
    Result<DecodedWaylandArg, String>)
    requires
        *old(offset) <= 0x2_0000,
    ensures
        match arg_at(kind, bytes@, size, *old(offset) as int) {
            Ok((value, next)) => arg matches Ok(decoded) && decoded@ == value && *final(offset)
                == next,
            Err(message) => arg matches Err(error) && error@ == message,
        },
        arg is Ok ==> *final(offset) <= 0x2_0000,
{
    match kind {
        GeneratedArgKind::Fd => {
            return Ok(DecodedWaylandArg::Fd);
        },
        GeneratedArgKind::String => {
            return match read_string_arg(bytes, size, offset) {
                Ok(value) => Ok(DecodedWaylandArg::String(value)),
                Err(message) => Err(message),
            };
        },
        GeneratedArgKind::Array => {
            return match read_array_arg(bytes, size, offset) {
                Ok(value) => Ok(DecodedWaylandArg::Array(value)),
                Err(message) => Err(message),
            };
        },
        _ => {},
    }
    let word: u32 = match read_u32_arg(bytes, size, offset) {
        Ok(word) => word,
        Err(message) => return Err(message),
    };
    Ok(
        match kind {
            GeneratedArgKind::Int => DecodedWaylandArg::Int(word as i32),
            GeneratedArgKind::Fixed => DecodedWaylandArg::Fixed(word as i32),
            GeneratedArgKind::Uint => DecodedWaylandArg::Uint(word),
            GeneratedArgKind::NewId => DecodedWaylandArg::NewId(word),
            _ => DecodedWaylandArg::Object(
                if word == 0 {
                    None
                } else {
                    Some(word)
                },
            ),
        },
    )
}

/// The arguments of a message of `size` bytes.
pub open spec fn message_args(bytes: Seq<u8>, size: u16, specs: Seq<GeneratedArgSpec>) -> Result<
    Seq<ArgView>,
    Seq<char>,
> {
    args_at(arg_kinds(specs), bytes, size, 8)
}

/// Reads the arguments of a message, each as its specification says.
pub fn decode_wayland_args(bytes: &[u8], size: u16, args_spec: &[GeneratedArgSpec]) -> (args:
    Result<Vec<DecodedWaylandArg>, String>)
    ensures
        match message_args(bytes@, size, args_spec@) {
            Ok(values) => args matches Ok(decoded) && arg_values(decoded@) == values,
            Err(message) => args matches Err(error) && error@ == message,
        },
{
    let ghost kinds = arg_kinds(args_spec@);
    let mut offset: usize = 8;
    let mut args: Vec<DecodedWaylandArg> = Vec::new();
    let mut index: usize = 0;
    proof {
        assert(kinds.skip(0) =~= kinds);
    }
    while index < args_spec.len()
        invariant
            index <= args_spec@.len(),
            offset <= 0x2_0000,
            kinds == arg_kinds(args_spec@),
            match args_at(kinds.skip(index as int), bytes@, size, offset as int) {
                Ok(rest) => args_at(kinds, bytes@, size, 8) == Ok::<Seq<ArgView>, Seq<char>>(
                    arg_values(args@) + rest,
                ),
                Err(message) => args_at(kinds, bytes@, size, 8) == Err::<Seq<ArgView>, Seq<char>>(
                    message,
                ),
            },
        decreases args_spec@.len() - index,
    {
        let ghost before = args@;
        proof {
            assert(kinds.skip(index as int)[0] == kinds[index as int]);
            assert(kinds.skip(index as int).drop_first() =~= kinds.skip(index + 1));
        }
        match decode_wayland_arg(args_spec[index].kind, bytes, size, &mut offset) {
            Ok(arg) => {
                args.push(arg);
                proof {
                    assert(arg_values(args@) =~= arg_values(before).push(arg@));
                    match args_at(kinds.skip(index + 1), bytes@, size, offset as int) {
                        Ok(rest) => {
                            assert(arg_values(before) + (seq![arg@] + rest) =~= arg_values(args@)
                                + rest);
                        },
                        Err(_) => {},
                    }
                }
            },
            Err(message) => return Err(message),
        }
        index = index + 1;
    }
    proof {
        assert(arg_values(args@) + Seq::<ArgView>::empty() =~= arg_values(args@));
    }
    Ok(args)
}

/// `count` zero bytes.
pub open spec fn zeros(count: int) -> Seq<u8> {
    Seq::new(count as nat, |i: int| 0u8)
}

/// Counted bytes: their number, the bytes, and zeros up to a whole word.
pub open spec fn counted_bytes(content: Seq<u8>) -> Seq<u8> {
    word_bytes(content.len() as u32) + content + zeros(padded(content.len() as int) - content.len())
}

/// The bytes that an argument takes in a message.
pub open spec fn arg_bytes(arg: ArgView) -> Seq<u8> {
    match arg {
        ArgView::Int(value) => word_bytes(value as u32),
        ArgView::Uint(value) => word_bytes(value),
        ArgView::Fixed(value) => word_bytes(value as u32),
        ArgView::String(None) => word_bytes(0),
        ArgView::String(Some(content)) => counted_bytes(vstd::utf8::encode_utf8(content).push(0)),
        ArgView::Object(None) => word_bytes(0),
        ArgView::Object(Some(value)) => word_bytes(value),
        ArgView::NewId(value) => word_bytes(value),
        ArgView::Array(content) => counted_bytes(content),
        ArgView::Fd => Seq::empty(),
    }
}

/// The bytes that a list of arguments takes in a message.
pub open spec fn args_bytes(args: Seq<ArgView>) -> Seq<u8>
    decreases args.len(),
{
    if args.len() == 0 {
        Seq::empty()
    } else {
        args_bytes(args.drop_last()) + arg_bytes(args.last())
    }
}

/// A whole message.
pub open spec fn message_bytes(object_id: u32, opcode: u16, args: Seq<ArgView>) -> Seq<u8> {
    let payload = args_bytes(args);
    word_bytes(object_id) + word_bytes(((8 + payload.len()) * 0x1_0000 + opcode) as u32) + payload
}

/// Whether a message with these arguments fits the sixteen bits that the
/// header has for its size.
pub open spec fn fits(args: Seq<ArgView>) -> bool {
    8 + args_bytes(args).len() <= 0xffff
}

fn write_counted(bytes: &mut Vec<u8>, content: &[u8])
    requires
        content@.len() <= 0xffff_ffff,
    ensures
        final(bytes)@ == old(bytes)@ + counted_bytes(content@),
{
    write_word(bytes, content.len() as u32);
    bytes.extend_from_slice(content);
    let mut count: usize = 0;
    let ghost start = bytes@;
    while (content.len() % 4 + count) % 4 != 0
        invariant
            bytes@ == start + zeros(count as int),
            count <= padded(content@.len() as int) - content@.len(),
            content@.len() <= 0xffff_ffff,
        decreases 4 - count,
    {
        bytes.push(0);
        count = count + 1;
        assert(zeros(count as int) =~= zeros(count - 1).push(0));
        assert(bytes@ =~= start + zeros(count as int));
    }
    assert(count == padded(content@.len() as int) - content@.len());
    assert(bytes@ =~= old(bytes)@ + counted_bytes(content@));
}

/// Arguments that follow only add bytes.
proof fn more_args_are_longer(args: Seq<ArgView>, count: int)
    requires
        0 <= count <= args.len(),
    ensures
        args_bytes(args.take(count)).len() <= args_bytes(args).len(),
    decreases args.len(),
{
    if count == args.len() {
        assert(args.take(count) =~= args);
    } else {
        more_args_are_longer(args.drop_last(), count);
        assert(args.drop_last().take(count) =~= args.take(count));
    }
}

fn write_arg(bytes: &mut Vec<u8>, arg: &DecodedWaylandArg) -> (written: bool)
    requires
        old(bytes)@.len() <= 0xffff,
    ensures
        written == (old(bytes)@.len() + arg_bytes(arg@).len() <= 0xffff),
        written ==> final(bytes)@ == old(bytes)@ + arg_bytes(arg@),
{
    let ghost before = bytes@;
    match arg {
        DecodedWaylandArg::Int(value) => write_word(bytes, *value as u32),
        DecodedWaylandArg::Uint(value) => write_word(bytes, *value),
        DecodedWaylandArg::Fixed(value) => write_word(bytes, *value as u32),
        DecodedWaylandArg::NewId(value) => write_word(bytes, *value),
        DecodedWaylandArg::Object(value) => {
            match value {
                Some(id) => write_word(bytes, *id),
                None => write_word(bytes, 0),
            }
        },
        DecodedWaylandArg::String(value) => {
            match value {
                None => write_word(bytes, 0),
                Some(content) => {
                    let encoded = content.as_str().as_bytes();
                    if encoded.len() > 0xffff {
                        return false;
                    }
                    let mut counted = vstd::slice::slice_to_vec(encoded);
                    counted.push(0);
                    write_counted(bytes, counted.as_slice());
                },
            }
        },
        DecodedWaylandArg::Array(value) => {
            if value.len() > 0xffff {
                return false;
            }
            write_counted(bytes, value.as_slice());
        },
        DecodedWaylandArg::Fd => {
            assert(bytes@ =~= before + Seq::<u8>::empty());
        },
    }
    bytes.len() <= 0xffff
}

/// Writes a message. A message that is longer than its header can say is
/// refused.
pub fn encode_wayland_message(object_id: u32, opcode: u16, args: &[DecodedWaylandArg]) -> (message:
    Result<Vec<u8>, String>)
    ensures
        match message {
            Ok(bytes) => fits(arg_values(args@)) && bytes@ == message_bytes(
                object_id,
                opcode,
                arg_values(args@),
            ),
            Err(error) => !fits(arg_values(args@)) && error@
                == "Wayland message exceeds the wire limit of 65535 bytes"@,
        },
{
    let ghost values = arg_values(args@);
    let mut payload: Vec<u8> = Vec::new();
    let mut index: usize = 0;
    proof {
        assert(values.take(0) =~= Seq::<ArgView>::empty());
    }
    while index < args.len()
        invariant
            index <= args@.len(),
            values == arg_values(args@),
            payload@ == args_bytes(values.take(index as int)),
            payload@.len() <= 0xffff,
        decreases args@.len() - index,
    {
        proof {
            assert(values.take(index + 1).drop_last() =~= values.take(index as int));
            assert(values.take(index + 1).last() == args@[index as int]@);
            more_args_are_longer(values, index + 1);
        }
        if !write_arg(&mut payload, &args[index]) {
            return Err("Wayland message exceeds the wire limit of 65535 bytes".to_owned());
        }
        index = index + 1;
    }
    proof {
        assert(values.take(index as int) =~= values);
    }
    if payload.len() + 8 > 0xffff {
        return Err("Wayland message exceeds the wire limit of 65535 bytes".to_owned());
    }
    let mut bytes: Vec<u8> = Vec::new();
    write_word(&mut bytes, object_id);
    write_word(&mut bytes, (payload.len() as u32 + 8) * 0x1_0000 + opcode as u32);
    bytes.append(&mut payload);
    assert(bytes@ =~= message_bytes(object_id, opcode, values));
    Ok(bytes)
}

/// The message that carries words only. Of a length beyond the limit of the wire,
/// the header shows the low bits.
pub open spec fn u32_message(object_id: u32, opcode: u16, args: Seq<u32>) -> Seq<u8> {
    word_bytes(object_id) + word_bytes(
        ((8 + 4 * args.len()) % 0x1_0000 * 0x1_0000 + opcode) as u32,
    ) + args_bytes(args.map_values(|arg: u32| ArgView::Uint(arg)))
}

/// Writes a message whose arguments are words.
pub fn encode_u32_message(object_id: u32, opcode: u16, args: &[u32]) -> (bytes: Vec<u8>)
    requires
        8 + args@.len() * 4 <= usize::MAX,
    ensures
        bytes@ == u32_message(object_id, opcode, args@),
{
    let ghost values = args@.map_values(|arg: u32| ArgView::Uint(arg));
    let size: u32 = ((8 + args.len() * 4) % 0x1_0000) as u32;
    let mut bytes: Vec<u8> = Vec::new();
    write_word(&mut bytes, object_id);
    write_word(&mut bytes, size * 0x1_0000 + opcode as u32);
    let ghost head = bytes@;
    let mut index: usize = 0;
    proof {
        assert(values.take(0) =~= Seq::<ArgView>::empty());
        assert(bytes@ =~= head + args_bytes(values.take(0)));
    }
    while index < args.len()
        invariant
            index <= args@.len(),
            values == args@.map_values(|arg: u32| ArgView::Uint(arg)),
            bytes@ == head + args_bytes(values.take(index as int)),
        decreases args@.len() - index,
    {
        write_word(&mut bytes, args[index]);
        proof {
            assert(values.take(index + 1).drop_last() =~= values.take(index as int));
            assert(values.take(index + 1).last() == ArgView::Uint(args@[index as int]));
            assert(bytes@ =~= head + args_bytes(values.take(index + 1)));
        }
        index = index + 1;
    }
    proof {
        assert(values.take(index as int) =~= values);
        assert(bytes@ =~= u32_message(object_id, opcode, args@));
    }
    bytes
}

/// Whether an argument can be told from its bytes: an object that is there has
/// a number other than zero.
pub open spec fn readable(arg: ArgView) -> bool {
    arg != ArgView::Object(Some(0u32))
}

proof fn first_arg_comes_first(args: Seq<ArgView>)
    requires
        args.len() > 0,
    ensures
        args_bytes(args) == arg_bytes(args[0]) + args_bytes(args.drop_first()),
    decreases args.len(),
{
    if args.len() == 1 {
        assert(args.drop_last() =~= Seq::<ArgView>::empty());
        assert(args.drop_first() =~= Seq::<ArgView>::empty());
        assert(args_bytes(args) =~= arg_bytes(args[0]) + args_bytes(args.drop_first()));
    } else {
        first_arg_comes_first(args.drop_last());
        assert(args.drop_last().drop_first() =~= args.drop_first().drop_last());
        assert(args_bytes(args) =~= arg_bytes(args[0]) + args_bytes(args.drop_first()));
    }
}

/// Four bytes of a word are read as the word, wherever they stand.
pub proof fn word_is_read_in_place(bytes: Seq<u8>, at: int, word: u32)
    requires
        0 <= at,
        at + 4 <= bytes.len(),
        bytes.subrange(at, at + 4) == word_bytes(word),
    ensures
        word_at(bytes, at) == word,
{
    let part = bytes.subrange(at, at + 4);
    assert(part[0] == bytes[at] && part[1] == bytes[at + 1] && part[2] == bytes[at + 2] && part[3]
        == bytes[at + 3]);
    word_survives(word);
}

proof fn arg_is_read_back(arg: ArgView, bytes: Seq<u8>, size: u16, offset: int)
    requires
        readable(arg),
        0 <= offset,
        offset + arg_bytes(arg).len() <= bytes.len(),
        bytes.len() == size,
        bytes.subrange(offset, offset + arg_bytes(arg).len()) == arg_bytes(arg),
    ensures
        arg_at(kind_of(arg), bytes, size, offset) == Ok::<(ArgView, int), Seq<char>>(
            (arg, offset + arg_bytes(arg).len()),
        ),
{
    let part = arg_bytes(arg);
    if arg !is Fd {
        assert(bytes.subrange(offset, offset + 4) =~= bytes.subrange(
            offset,
            offset + part.len(),
        ).subrange(0, 4));
        assert(part.subrange(0, 4) =~= match arg {
            ArgView::Int(value) => word_bytes(value as u32),
            ArgView::Uint(value) => word_bytes(value),
            ArgView::Fixed(value) => word_bytes(value as u32),
            ArgView::String(None) => word_bytes(0),
            ArgView::String(Some(content)) => word_bytes(
                vstd::utf8::encode_utf8(content).push(0).len() as u32,
            ),
            ArgView::Object(None) => word_bytes(0),
            ArgView::Object(Some(value)) => word_bytes(value),
            ArgView::NewId(value) => word_bytes(value),
            ArgView::Array(content) => word_bytes(content.len() as u32),
            ArgView::Fd => Seq::empty(),
        });
    }
    match arg {
        ArgView::Int(value) => {
            word_is_read_in_place(bytes, offset, value as u32);
            assert((value as u32) as i32 == value) by (bit_vector);
        },
        ArgView::Fixed(value) => {
            word_is_read_in_place(bytes, offset, value as u32);
            assert((value as u32) as i32 == value) by (bit_vector);
        },
        ArgView::Uint(value) => word_is_read_in_place(bytes, offset, value),
        ArgView::NewId(value) => word_is_read_in_place(bytes, offset, value),
        ArgView::Object(None) => word_is_read_in_place(bytes, offset, 0),
        ArgView::Object(Some(value)) => word_is_read_in_place(bytes, offset, value),
        ArgView::String(None) => word_is_read_in_place(bytes, offset, 0),
        ArgView::String(Some(content)) => {
            let encoded = vstd::utf8::encode_utf8(content);
            let raw = encoded.push(0);
            word_is_read_in_place(bytes, offset, raw.len() as u32);
            assert(bytes.subrange(offset + 4, offset + 4 + raw.len()) =~= bytes.subrange(
                offset,
                offset + part.len(),
            ).subrange(4, 4 + raw.len() as int));
            assert(part.subrange(4, 4 + raw.len() as int) =~= raw);
            assert(without_nul(raw) =~= encoded);
            vstd::utf8::encode_utf8_valid_utf8(content);
            vstd::utf8::encode_utf8_decode_utf8(content);
        },
        ArgView::Array(content) => {
            word_is_read_in_place(bytes, offset, content.len() as u32);
            assert(bytes.subrange(offset + 4, offset + 4 + content.len()) =~= bytes.subrange(
                offset,
                offset + part.len(),
            ).subrange(4, 4 + content.len() as int));
            assert(part.subrange(4, 4 + content.len() as int) =~= content);
        },
        ArgView::Fd => {},
    }
}

proof fn args_are_read_back(args: Seq<ArgView>, bytes: Seq<u8>, size: u16, offset: int)
    requires
        forall|i: int| 0 <= i < args.len() ==> readable(#[trigger] args[i]),
        0 <= offset <= bytes.len(),
        bytes.len() == size,
        bytes.skip(offset) == args_bytes(args),
    ensures
        args_at(args.map_values(|arg: ArgView| kind_of(arg)), bytes, size, offset) == Ok::<
            Seq<ArgView>,
            Seq<char>,
        >(args),
    decreases args.len(),
{
    let kinds = args.map_values(|arg: ArgView| kind_of(arg));
    if args.len() == 0 {
        assert(args =~= Seq::<ArgView>::empty());
    } else {
        let part = arg_bytes(args[0]);
        let rest = args.drop_first();
        first_arg_comes_first(args);
        assert(bytes.skip(offset).len() == part.len() + args_bytes(rest).len());
        assert(bytes.subrange(offset, offset + part.len()) =~= bytes.skip(offset).subrange(
            0,
            part.len() as int,
        ));
        assert(args_bytes(args).subrange(0, part.len() as int) =~= part);
        arg_is_read_back(args[0], bytes, size, offset);
        assert(bytes.skip(offset + part.len()) =~= bytes.skip(offset).skip(part.len() as int));
        assert(args_bytes(args).skip(part.len() as int) =~= args_bytes(rest));
        args_are_read_back(rest, bytes, size, offset + part.len());
        assert(kinds.drop_first() =~= rest.map_values(|arg: ArgView| kind_of(arg)));
        assert(seq![args[0]] + rest =~= args);
    }
}

/// What is written is read back: the header of a written message names the
/// object, the opcode and the message's own length, and its arguments are the
/// ones that were written.
pub proof fn written_message_is_read_back(object_id: u32, opcode: u16, args: Seq<ArgView>)
    requires
        fits(args),
        forall|i: int| 0 <= i < args.len() ==> readable(#[trigger] args[i]),
    ensures
        ({
            let bytes = message_bytes(object_id, opcode, args);
            let size = bytes.len() as u16;
            &&& header_of(bytes) == Ok::<WaylandMessageHeader, Seq<char>>(
                (WaylandMessageHeader { object_id, size, opcode }),
            )
            &&& args_at(args.map_values(|arg: ArgView| kind_of(arg)), bytes, size, 8) == Ok::<
                Seq<ArgView>,
                Seq<char>,
            >(args)
        }),
{
    let bytes = message_bytes(object_id, opcode, args);
    let payload = args_bytes(args);
    let size = bytes.len() as u16;
    let word = ((8 + payload.len()) * 0x1_0000 + opcode) as u32;
    assert(bytes.subrange(0, 4) =~= word_bytes(object_id));
    assert(bytes.subrange(4, 8) =~= word_bytes(word));
    word_is_read_in_place(bytes, 0, object_id);
    word_is_read_in_place(bytes, 4, word);
    assert(bytes.skip(8) =~= payload);
    args_are_read_back(args, bytes, size, 8);
}

/// Words stand one after the other, four bytes each.
pub proof fn words_stand_in_line(words: Seq<u32>, index: int)
    requires
        0 <= index < words.len(),
    ensures
        args_bytes(words.map_values(|word: u32| ArgView::Uint(word))).len() == 4 * words.len(),
        args_bytes(words.map_values(|word: u32| ArgView::Uint(word))).subrange(
            4 * index,
            4 * index + 4,
        ) == word_bytes(words[index]),
    decreases words.len(),
{
    let values = words.map_values(|word: u32| ArgView::Uint(word));
    let rest = words.drop_last();
    let before = args_bytes(values.drop_last());
    assert(rest.map_values(|word: u32| ArgView::Uint(word)) =~= values.drop_last());
    if rest.len() > 0 {
        words_stand_in_line(
            rest,
            if index < rest.len() {
                index
            } else {
                0
            },
        );
    } else {
        assert(before =~= Seq::<u8>::empty());
    }
    let all = args_bytes(values);
    assert(all == before + word_bytes(words.last()));
    if index < rest.len() {
        assert(all.subrange(4 * index, 4 * index + 4) =~= before.subrange(
            4 * index,
            4 * index + 4,
        ));
    } else {
        assert(all.subrange(4 * index, 4 * index + 4) =~= word_bytes(words.last()));
    }
}

/// Of two words and a payload the words are found in front.
pub proof fn parts_are_found(first: Seq<u8>, second: Seq<u8>, payload: Seq<u8>)
    requires
        first.len() == 4,
        second.len() == 4,
    ensures
        (first + second + payload).len() == 8 + payload.len(),
        (first + second + payload).subrange(0, 4) == first,
        (first + second + payload).subrange(4, 8) == second,
{
    assert((first + second + payload).subrange(0, 4) =~= first);
    assert((first + second + payload).subrange(4, 8) =~= second);
}

/// Four bytes of a payload are found behind the two words in front of it.
pub proof fn part_is_found(first: Seq<u8>, second: Seq<u8>, payload: Seq<u8>, at: int)
    requires
        first.len() == 4,
        second.len() == 4,
        0 <= at,
        at + 4 <= payload.len(),
    ensures
        (first + second + payload).subrange(8 + at, 8 + at + 4) == payload.subrange(at, at + 4),
{
    assert((first + second + payload).subrange(8 + at, 8 + at + 4) =~= payload.subrange(
        at,
        at + 4,
    ));
}

proof fn words_are_headed(object_id: u32, opcode: u16, words: Seq<u32>)
    requires
        8 + 4 * words.len() <= 0xffff,
    ensures
        u32_message(object_id, opcode, words).len() == 8 + 4 * words.len(),
        word_at(u32_message(object_id, opcode, words), 0) == object_id,
        word_at(u32_message(object_id, opcode, words), 4) == (8 + 4 * words.len()) * 0x1_0000
            + opcode,
{
    let bytes = u32_message(object_id, opcode, words);
    let payload = args_bytes(words.map_values(|word: u32| ArgView::Uint(word)));
    let word = ((8 + 4 * words.len()) % 0x1_0000 * 0x1_0000 + opcode) as u32;
    if words.len() > 0 {
        words_stand_in_line(words, 0);
    }
    parts_are_found(word_bytes(object_id), word_bytes(word), payload);
    word_is_read_in_place(bytes, 0, object_id);
    word_is_read_in_place(bytes, 4, word);
}

proof fn word_is_carried(object_id: u32, opcode: u16, words: Seq<u32>, index: int)
    requires
        0 <= index < words.len(),
    ensures
        8 + 4 * index + 4 <= u32_message(object_id, opcode, words).len(),
        word_at(u32_message(object_id, opcode, words), 8 + 4 * index) == words[index],
{
    let bytes = u32_message(object_id, opcode, words);
    let payload = args_bytes(words.map_values(|word: u32| ArgView::Uint(word)));
    let word = ((8 + 4 * words.len()) % 0x1_0000 * 0x1_0000 + opcode) as u32;
    words_stand_in_line(words, index);
    parts_are_found(word_bytes(object_id), word_bytes(word), payload);
    part_is_found(word_bytes(object_id), word_bytes(word), payload, 4 * index);
    word_is_read_in_place(bytes, 8 + 4 * index, words[index]);
}

/// A message made of words is read back: its header names the object, the opcode and
/// the message's own length, and the words follow in their order.
pub proof fn words_are_read_back(object_id: u32, opcode: u16, words: Seq<u32>)
    requires
        8 + 4 * words.len() <= 0xffff,
    ensures
        ({
            let bytes = u32_message(object_id, opcode, words);
            let size = (8 + 4 * words.len()) as u16;
            &&& bytes.len() == size
            &&& header_of(bytes) == Ok::<WaylandMessageHeader, Seq<char>>(
                (WaylandMessageHeader { object_id, size, opcode }),
            )
            &&& forall|i: int|
                0 <= i < words.len() ==> u32_arg(bytes, size, 8 + 4 * i) == Ok::<u32, Seq<char>>(
                    #[trigger] words[i],
                )
        }),
{
    let bytes = u32_message(object_id, opcode, words);
    let size = (8 + 4 * words.len()) as u16;
    if words.len() > 0 {
        words_stand_in_line(words, 0);
    }
    words_are_headed(object_id, opcode, words);
    assert forall|i: int| 0 <= i < words.len() implies u32_arg(bytes, size, 8 + 4 * i) == Ok::<
        u32,
        Seq<char>,
    >(#[trigger] words[i]) by {
        word_is_carried(object_id, opcode, words, i);
    }
}

/// Messages that follow each other in a stream are told apart: the first one
/// taken is the first one written, whatever follows it.
pub proof fn written_message_is_framed(
    object_id: u32,
    opcode: u16,
    args: Seq<ArgView>,
    following: Seq<u8>,
)
    requires
        fits(args),
    ensures
        first_message(message_bytes(object_id, opcode, args) + following) == Ok::<
            Seq<u8>,
            Seq<char>,
        >(message_bytes(object_id, opcode, args)),
{
    let bytes = message_bytes(object_id, opcode, args);
    let stream = bytes + following;
    let word = ((8 + args_bytes(args).len()) * 0x1_0000 + opcode) as u32;
    assert(stream.subrange(4, 8) =~= word_bytes(word));
    word_is_read_in_place(stream, 4, word);
    assert(stream.subrange(0, bytes.len() as int) =~= bytes);
}

} // verus!
