//! Events whose contents come in a file: the keyboard's key map, and the table
//! of graphics formats, from which the formats are taken out of which no
//! screenshot can be made.

use crate::decode::{DecodedEventView, DecodedWaylandEvent, WaylandWireMessage, WireView};
use crate::dmabuf;
use crate::dmabuf::supports_screenshot_drm_format;
use crate::messages;
use crate::messages::{EventView, GeneratedEvent, encode_generated_event};
use crate::session::{SessionView, WaylandClientSession};
use crate::text;
use crate::text::append_decimal;
use crate::wire;
use crate::wire::{read_word, utf8_text};
use vstd::prelude::*;
use vstd::string::*;

verus! {

/// The largest key map that is read.
pub const MAX_KEYMAP_SIZE: usize = 16_777_216;

/// A part of a file that is to be read: its first `size` bytes.
#[derive(Debug, Clone, Copy, PartialEq, Eq, Structural)]
pub struct FileRead {
    pub fd: u64,
    pub size: usize,
}

impl View for FileRead {
    type V = FileRead;

    open spec fn view(&self) -> FileRead {
        *self
    }
}

/// What was read of a file, or what went wrong.
pub open spec fn contents_value(contents: Result<Vec<u8>, String>) -> Result<Seq<u8>, Seq<char>> {
    match contents {
        Ok(bytes) => Ok(bytes@),
        Err(message) => Err(message@),
    }
}

/// What has to be read for a key map.
pub open spec fn keymap_read(format: u32, size: u32, fds: Seq<u64>) -> Result<
    FileRead,
    Seq<char>,
> {
    if format != 1 {
        Err(
            "wl_keyboard.keymap used unsupported format "@ + text::decimal(format as nat)
                + "; expected XKB V1"@,
        )
    } else if size == 0 || size > MAX_KEYMAP_SIZE {
        Err(
            "wl_keyboard.keymap size "@ + text::decimal(size as nat)
                + " is outside the supported 1..="@ + text::decimal(MAX_KEYMAP_SIZE as nat)
                + " range"@,
        )
    } else if fds.len() == 0 {
        Err("wl_keyboard.keymap was missing its file descriptor"@)
    } else {
        Ok(FileRead { fd: fds[0], size: size as usize })
    }
}

/// What has to be read for a table of formats.
pub open spec fn table_read(size: u32, fds: Seq<u64>) -> Result<FileRead, Seq<char>> {
    if fds.len() == 0 {
        Err("zwp_linux_dmabuf_feedback_v1.format_table was missing its fd"@)
    } else if size % 16 != 0 {
        Err(
            "DMA-BUF feedback format table size "@ + text::decimal(size as nat)
                + " is not a multiple of 16"@,
        )
    } else {
        Ok(FileRead { fd: fds[0], size: size as usize })
    }
}

/// What has to be read for an event.
pub open spec fn read_for(event: EventView, fds: Seq<u64>) -> Result<
    Option<FileRead>,
    Seq<char>,
> {
    match event {
        EventView::WlKeyboardKeymap { format, size, .. } => match keymap_read(format, size, fds) {
            Ok(read) => Ok(Some(read)),
            Err(message) => Err(message),
        },
        EventView::ZwpLinuxDmabufFeedbackV1FormatTable { size, .. } => match table_read(size, fds) {
            Ok(read) => Ok(Some(read)),
            Err(message) => Err(message),
        },
        _ => Ok(None),
    }
}

fn plan_keymap_read(format: u32, size: u32, fds: &[u64]) -> (read: Result<FileRead, String>)
    ensures
        text::outcome(read) == keymap_read(format, size, fds@),
{
    if format != 1 {
        let mut message = "wl_keyboard.keymap used unsupported format ".to_owned();
        append_decimal(&mut message, format as u64);
        message.append("; expected XKB V1");
        return Err(message);
    }
    if size == 0 || size as usize > MAX_KEYMAP_SIZE {
        let mut message = "wl_keyboard.keymap size ".to_owned();
        append_decimal(&mut message, size as u64);
        message.append(" is outside the supported 1..=");
        append_decimal(&mut message, MAX_KEYMAP_SIZE as u64);
        message.append(" range");
        return Err(message);
    }
    if fds.len() == 0 {
        return Err("wl_keyboard.keymap was missing its file descriptor".to_owned());
    }
    Ok(FileRead { fd: fds[0], size: size as usize })
}

fn plan_table_read(size: u32, fds: &[u64]) -> (read: Result<FileRead, String>)
    ensures
        text::outcome(read) == table_read(size, fds@),
{
    if fds.len() == 0 {
        return Err("zwp_linux_dmabuf_feedback_v1.format_table was missing its fd".to_owned());
    }
    if size % 16 != 0 {
        let mut message = "DMA-BUF feedback format table size ".to_owned();
        append_decimal(&mut message, size as u64);
        message.append(" is not a multiple of 16");
        return Err(message);
    }
    Ok(FileRead { fd: fds[0], size: size as usize })
}

/// Says what has to be read for an event.
pub fn plan_read(event: &DecodedWaylandEvent, fds: &[u64]) -> (read: Result<
    Option<FileRead>,
    String,
>)
    ensures
        text::outcome(read) == read_for(event@.generated_event, fds@),
{
    match &event.generated_event {
        GeneratedEvent::WlKeyboardKeymap { format, fd: _, size } => {
            match plan_keymap_read(*format, *size, fds) {
                Ok(read) => Ok(Some(read)),
                Err(message) => Err(message),
            }
        },
        GeneratedEvent::ZwpLinuxDmabufFeedbackV1FormatTable { fd: _, size } => {
            match plan_table_read(*size, fds) {
                Ok(read) => Ok(Some(read)),
                Err(message) => Err(message),
            }
        },
        _ => Ok(None),
    }
}

/// Bytes without the zeros at their end.
pub open spec fn without_nuls(bytes: Seq<u8>) -> Seq<u8>
    decreases bytes.len(),
{
    if bytes.len() > 0 && bytes.last() == 0 {
        without_nuls(bytes.drop_last())
    } else {
        bytes
    }
}

/// The text of a key map of `size` bytes.
pub open spec fn keymap_of(contents: Result<Seq<u8>, Seq<char>>, size: u32) -> Result<
    Seq<char>,
    Seq<char>,
> {
    match contents {
        Err(message) => Err("failed to read wl_keyboard.keymap: "@ + message),
        Ok(bytes) => if bytes.len() != size {
            Err(
                "short wl_keyboard.keymap read: "@ + text::decimal(bytes.len()) + " of "@
                    + text::decimal(size as nat) + " bytes"@,
            )
        } else {
            let kept = without_nuls(bytes);
            if vstd::utf8::valid_utf8(kept) {
                Ok(vstd::utf8::decode_utf8(kept))
            } else {
                Err("wl_keyboard.keymap was not valid UTF-8: "@ + wire::utf8_error(kept))
            }
        },
    }
}

fn read_keymap(contents: Result<Vec<u8>, String>, size: u32) -> (keymap: Result<String, String>)
    ensures
        text::outcome(keymap) == keymap_of(contents_value(contents), size),
{
    let mut bytes = match contents {
        Ok(bytes) => bytes,
        Err(error) => {
            let mut message = "failed to read wl_keyboard.keymap: ".to_owned();
            message.append(error.as_str());
            return Err(message);
        },
    };
    if bytes.len() != size as usize {
        let mut message = "short wl_keyboard.keymap read: ".to_owned();
        append_decimal(&mut message, bytes.len() as u64);
        message.append(" of ");
        append_decimal(&mut message, size as u64);
        message.append(" bytes");
        return Err(message);
    }
    let ghost all = bytes@;
    while bytes.len() > 0 && bytes[bytes.len() - 1] == 0
        invariant
            without_nuls(bytes@) == without_nuls(all),
        decreases bytes@.len(),
    {
        let ghost before = bytes@;
        let _ = bytes.pop();
        proof {
            assert(bytes@ =~= before.drop_last());
        }
    }
    match utf8_text(bytes.as_slice()) {
        Ok(keymap) => Ok(keymap),
        Err(error) => {
            let mut message = "wl_keyboard.keymap was not valid UTF-8: ".to_owned();
            message.append(error.as_str());
            Err(message)
        },
    }
}

/// An entry of a table of formats.
pub open spec fn entry(table: Seq<u8>, index: int) -> Seq<u8> {
    table.subrange(16 * index, 16 * index + 16)
}

/// Whether a screenshot can be made of the format of an entry.
pub open spec fn is_kept(table: Seq<u8>, index: int) -> bool {
    dmabuf::vk_format(wire::word_at(table, 16 * index)) is Some
}

/// The entries that are kept of the first `count`.
pub open spec fn kept_entries(table: Seq<u8>, count: nat) -> Seq<u8>
    decreases count,
{
    if count == 0 {
        Seq::empty()
    } else {
        let before = kept_entries(table, (count - 1) as nat);
        if is_kept(table, count - 1) {
            before + entry(table, count - 1)
        } else {
            before
        }
    }
}

/// Where each of the first `count` entries stands among those that are kept.
pub open spec fn kept_places(table: Seq<u8>, count: nat) -> Seq<Option<u16>>
    decreases count,
{
    if count == 0 {
        Seq::empty()
    } else {
        let before = (count - 1) as nat;
        kept_places(table, before).push(
            if is_kept(table, count - 1) {
                Some((kept_entries(table, before).len() / 16) as u16)
            } else {
                None
            },
        )
    }
}

/// Whether the places of the entries that are kept of the first `count` fit
/// into the indices that clients use.
pub open spec fn places_fit(table: Seq<u8>, count: nat) -> bool {
    kept_entries(table, count).len() / 16 <= 0x1_0000
}

/// A table of formats without those of which no screenshot can be made, and
/// where each entry of the whole table stands in it.
pub open spec fn filtered_table(table: Seq<u8>) -> Result<
    (Seq<u8>, Seq<Option<u16>>),
    Seq<char>,
> {
    let count = table.len() / 16;
    if places_fit(table, count) {
        Ok((kept_entries(table, count), kept_places(table, count)))
    } else {
        Err("filtered DMA-BUF format table exceeds u16 indices"@)
    }
}

proof fn kept_entries_are_whole(table: Seq<u8>, count: nat)
    requires
        16 * count <= table.len(),
    ensures
        kept_entries(table, count).len() % 16 == 0,
        kept_entries(table, count).len() <= 16 * count,
        kept_places(table, count).len() == count,
    decreases count,
{
    if count > 0 {
        kept_entries_are_whole(table, (count - 1) as nat);
        assert(entry(table, count - 1).len() == 16);
    }
}

proof fn kept_entries_grow(table: Seq<u8>, some: nat, count: nat)
    requires
        some <= count,
        16 * count <= table.len(),
    ensures
        kept_entries(table, some).is_prefix_of(kept_entries(table, count)),
        kept_places(table, some).is_prefix_of(kept_places(table, count)),
    decreases count,
{
    if some < count {
        let before = (count - 1) as nat;
        kept_entries_grow(table, some, before);
        kept_entries_are_whole(table, before);
        kept_entries_are_whole(table, count);
        let shorter = kept_entries(table, before);
        let longer = kept_entries(table, count);
        assert(longer.take(shorter.len() as int) =~= shorter);
        assert(shorter.is_prefix_of(longer));
        assert(kept_entries(table, some) =~= longer.take(kept_entries(table, some).len() as int));
        let fewer = kept_places(table, before);
        let more = kept_places(table, count);
        assert(more.take(fewer.len() as int) =~= fewer);
        assert(kept_places(table, some) =~= more.take(kept_places(table, some).len() as int));
    } else {
        assert(kept_entries(table, some) =~= kept_entries(table, count).take(
            kept_entries(table, some).len() as int,
        ));
        assert(kept_places(table, some) =~= kept_places(table, count).take(
            kept_places(table, some).len() as int,
        ));
    }
}

/// The table that clients get holds formats of which a screenshot can be made
/// and no others, and an entry that is kept is found, unchanged, at the place
/// that is noted for it.
pub proof fn kept_format_is_found_at_its_place(table: Seq<u8>, index: nat)
    requires
        table.len() % 16 == 0,
        index < table.len() / 16,
    ensures
        filtered_table(table) matches Ok((kept, places)) ==> {
            &&& places.len() == table.len() / 16
            &&& kept.len() % 16 == 0
            &&& match places[index as int] {
                Some(place) => {
                    &&& is_kept(table, index as int)
                    &&& 16 * place + 16 <= kept.len()
                    &&& entry(kept, place as int) == entry(table, index as int)
                },
                None => !is_kept(table, index as int),
            }
        },
{
    let count = table.len() / 16;
    kept_entries_are_whole(table, count);
    kept_entries_are_whole(table, index);
    kept_entries_are_whole(table, index + 1);
    kept_entries_grow(table, index, count);
    kept_entries_grow(table, index + 1, count);
    if places_fit(table, count) {
        let kept = kept_entries(table, count);
        let places = kept_places(table, count);
        let upto = kept_entries(table, index + 1);
        let places_upto = kept_places(table, index + 1);
        assert(places.take(places_upto.len() as int) == places_upto);
        assert(places[index as int] == places_upto[index as int]);
        if is_kept(table, index as int) {
            let start = kept_entries(table, index).len();
            assert(upto.len() == start + 16);
            assert(kept.take(upto.len() as int) == upto);
            assert(start / 16 < 0x1_0000);
            let place = (start / 16) as u16;
            assert(16 * place == start);
            let found = entry(kept, place as int);
            let meant = entry(table, index as int);
            assert forall|i: int| 0 <= i < 16 implies found[i] == meant[i] by {
                assert(kept[start + i] == kept.take(upto.len() as int)[start + i]);
                assert(upto[start + i] == meant[i]);
            }
            assert(found =~= meant);
        }
    }
}

fn filter_table(table: &[u8]) -> (filtered: Result<(Vec<u8>, Vec<Option<u16>>), String>)
    ensures
        match filtered_table(table@) {
            Ok((kept, places)) => filtered matches Ok((bytes, map)) && bytes@ == kept && map@
                == places && bytes@.len() <= table@.len(),
            Err(message) => filtered matches Err(error) && error@ == message,
        },
{
    let count: usize = table.len() / 16;
    let mut kept: Vec<u8> = Vec::new();
    let mut places: Vec<Option<u16>> = Vec::new();
    let mut index: usize = 0;
    while index < count
        invariant
            index <= count,
            count == table@.len() / 16,
            kept@ == kept_entries(table@, index as nat),
            places@ == kept_places(table@, index as nat),
            places_fit(table@, index as nat),
        decreases count - index,
    {
        proof {
            kept_entries_are_whole(table@, index as nat);
        }
        proof {
            assert(table@.len() == table.len());
        }
        let start: usize = 16 * index;
        if supports_screenshot_drm_format(read_word(table, start)) {
            let place: usize = kept.len() / 16;
            if place > 0xffff {
                proof {
                    kept_entries_are_whole(table@, (index + 1) as nat);
                    kept_entries_are_whole(table@, count as nat);
                    kept_entries_grow(table@, (index + 1) as nat, count as nat);
                    assert(kept_entries(table@, (index + 1) as nat).len() == kept@.len() + 16);
                }
                return Err("filtered DMA-BUF format table exceeds u16 indices".to_owned());
            }
            places.push(Some(place as u16));
            let mut bytes = vstd::slice::slice_to_vec(
                vstd::slice::slice_subrange(table, start, start + 16),
            );
            kept.append(&mut bytes);
        } else {
            places.push(None);
        }
        index = index + 1;
        proof {
            assert(kept@ =~= kept_entries(table@, index as nat));
            assert(places@ =~= kept_places(table@, index as nat));
            kept_entries_are_whole(table@, index as nat);
        }
    }
    proof {
        kept_entries_are_whole(table@, count as nat);
    }
    Ok((kept, places))
}

/// The index that two bytes at `at` hold on this machine.
pub open spec fn index_at(bytes: Seq<u8>, at: int) -> u16 {
    if wire::low_byte_first() {
        (bytes[at] + 0x100 * bytes[at + 1]) as u16
    } else {
        (0x100 * bytes[at] + bytes[at + 1]) as u16
    }
}

/// The two bytes that hold an index on this machine.
pub open spec fn index_bytes(index: u16) -> Seq<u8> {
    if wire::low_byte_first() {
        seq![(index % 0x100) as u8, (index / 0x100) as u8]
    } else {
        seq![(index / 0x100) as u8, (index % 0x100) as u8]
    }
}

/// `u16::from_ne_bytes`: the number whose memory representation the bytes are, in the
/// byte order of the machine.
#[verifier::external_body]
fn index_from_memory(bytes: [u8; 2]) -> (index: u16)
    ensures
        index == index_at(bytes@, 0),
{
    u16::from_ne_bytes(bytes)
}

/// `u16::to_ne_bytes`: the memory representation of the number, in the byte order of
/// the machine.
#[verifier::external_body]
fn index_in_memory(index: u16) -> (bytes: [u8; 2])
    ensures
        bytes@ == index_bytes(index),
{
    index.to_ne_bytes()
}

/// The first `count` indices of a tranche, as they are in the table that
/// clients get: those of entries that are not kept are left out.
pub open spec fn tranche_indices(
    places: Seq<Option<u16>>,
    indices: Seq<u8>,
    count: nat,
) -> Result<Seq<u8>, Seq<char>>
    decreases count,
{
    if count == 0 {
        Ok(Seq::empty())
    } else {
        match tranche_indices(places, indices, (count - 1) as nat) {
            Err(message) => Err(message),
            Ok(before) => {
                let index = index_at(indices, 2 * (count - 1));
                if index >= places.len() {
                    Err(
                        "DMA-BUF feedback tranche index "@ + text::decimal(index as nat)
                            + " exceeds format table"@,
                    )
                } else {
                    match places[index as int] {
                        Some(place) => Ok(before + index_bytes(place)),
                        None => Ok(before),
                    }
                }
            },
        }
    }
}

/// The indices of a tranche, as they are in the table that clients get.
pub open spec fn filtered_tranche(places: Seq<Option<u16>>, indices: Seq<u8>) -> Result<
    Seq<u8>,
    Seq<char>,
> {
    if indices.len() % 2 != 0 {
        Err("DMA-BUF feedback tranche index array has odd byte length"@)
    } else {
        tranche_indices(places, indices, indices.len() / 2)
    }
}

proof fn failed_indices_stay(places: Seq<Option<u16>>, indices: Seq<u8>, at: nat, count: nat)
    requires
        at <= count,
        tranche_indices(places, indices, at) is Err,
    ensures
        tranche_indices(places, indices, count) == tranche_indices(places, indices, at),
    decreases count,
{
    if at < count {
        failed_indices_stay(places, indices, at, (count - 1) as nat);
    }
}

/// Every index of a tranche that clients get is the place of an entry of the
/// table that they got.
pub proof fn tranche_stays_within_the_table(table: Seq<u8>, indices: Seq<u8>, count: nat, at: int)
    requires
        table.len() % 16 == 0,
        2 * count <= indices.len(),
    ensures
        filtered_table(table) matches Ok((kept, places)) ==> (tranche_indices(
            places,
            indices,
            count,
        ) matches Ok(filtered) ==> {
            &&& filtered.len() % 2 == 0
            &&& 0 <= at && 2 * at + 2 <= filtered.len() ==> 16 * index_at(filtered, 2 * at) + 16
                <= kept.len()
        }),
    decreases count,
{
    if let Ok((kept, places)) = filtered_table(table) {
        if count > 0 {
            let before = (count - 1) as nat;
            tranche_stays_within_the_table(table, indices, before, at);
            if let Ok(filtered) = tranche_indices(places, indices, before) {
                let index = index_at(indices, 2 * (count - 1));
                kept_entries_are_whole(table, table.len() / 16);
                if index < places.len() {
                    kept_format_is_found_at_its_place(table, index as nat);
                    if let Some(place) = places[index as int] {
                        let longer = filtered + index_bytes(place);
                        if 0 <= at && 2 * at + 2 <= filtered.len() {
                            assert(longer[2 * at] == filtered[2 * at]);
                            assert(longer[2 * at + 1] == filtered[2 * at + 1]);
                        } else if 0 <= at && 2 * at + 2 <= longer.len() {
                            assert(2 * at == filtered.len());
                            assert(longer[2 * at] == index_bytes(place)[0]);
                            assert(longer[2 * at + 1] == index_bytes(place)[1]);
                            assert(index_at(longer, 2 * at) == place);
                        }
                    }
                }
            }
        }
    }
}

fn filter_tranche(places: &Vec<Option<u16>>, indices: &Vec<u8>) -> (filtered: Result<
    Vec<u8>,
    String,
>)
    ensures
        text::outcome(filtered) == filtered_tranche(places@, indices@),
{
    if indices.len() % 2 != 0 {
        return Err("DMA-BUF feedback tranche index array has odd byte length".to_owned());
    }
    let count: usize = indices.len() / 2;
    let mut filtered: Vec<u8> = Vec::new();
    let mut at: usize = 0;
    while at < count
        invariant
            at <= count,
            count == indices@.len() / 2,
            indices@.len() % 2 == 0,
            tranche_indices(places@, indices@, at as nat) == Ok::<Seq<u8>, Seq<char>>(filtered@),
        decreases count - at,
    {
        let ghost before = filtered@;
        proof {
            assert(indices@.len() == indices.len());
        }
        let index: u16 = index_from_memory([indices[2 * at], indices[2 * at + 1]]);
        if index as usize >= places.len() {
            let mut message = "DMA-BUF feedback tranche index ".to_owned();
            append_decimal(&mut message, index as u64);
            message.append(" exceeds format table");
            proof {
                assert(tranche_indices(places@, indices@, (at + 1) as nat) == Err::<
                    Seq<u8>,
                    Seq<char>,
                >(message@));
                failed_indices_stay(places@, indices@, (at + 1) as nat, count as nat);
            }
            return Err(message);
        }
        if let Some(place) = places[index as usize] {
            let parts: [u8; 2] = index_in_memory(place);
            filtered.push(parts[0]);
            filtered.push(parts[1]);
            proof {
                assert(filtered@ =~= before + index_bytes(place));
            }
        }
        at = at + 1;
    }
    Ok(filtered)
}

/// An event after it was adapted: its message, and the table of formats that
/// its file has to hold, if it has one.
#[verifier::ext_equal]
pub struct AdaptedView {
    pub message: WireView,
    pub table: Option<Seq<u8>>,
}

/// What is wrong with what was read of a table of formats, or the table.
pub open spec fn whole_table(contents: Result<Seq<u8>, Seq<char>>, size: u32) -> Result<
    Seq<u8>,
    Seq<char>,
> {
    match contents {
        Err(message) => Err("failed to read DMA-BUF feedback format table: "@ + message),
        Ok(bytes) => if bytes.len() != size {
            Err(
                "short DMA-BUF feedback format table read: "@ + text::decimal(bytes.len())
                    + " of "@ + text::decimal(size as nat) + " bytes"@,
            )
        } else {
            Ok(bytes)
        },
    }
}

impl SessionView {
    /// After a key map was read.
    pub open spec fn keymap_noted(
        self,
        event: DecodedEventView,
        contents: Result<Seq<u8>, Seq<char>>,
    ) -> Result<SessionView, Seq<char>> {
        match event.generated_event {
            EventView::WlKeyboardKeymap { size, .. } => match keymap_of(contents, size) {
                Ok(keymap) => Ok(SessionView { keymap: Some(keymap), ..self }),
                Err(message) => Err(message),
            },
            _ => Ok(self),
        }
    }

    /// An event of the formats that the compositor takes, adapted to the
    /// formats of which a screenshot can be made. The file of the new table is
    /// kept under the number `table_fd`.
    pub open spec fn formats_adapted(
        self,
        event: DecodedEventView,
        message: WireView,
        contents: Result<Seq<u8>, Seq<char>>,
        table_fd: u64,
    ) -> Result<(SessionView, AdaptedView), Seq<char>> {
        match event.generated_event {
            EventView::ZwpLinuxDmabufFeedbackV1FormatTable { size, .. } => match whole_table(
                contents,
                size,
            ) {
                Err(error) => Err(error),
                Ok(table) => match filtered_table(table) {
                    Err(error) => Err(error),
                    Ok((kept, places)) => match messages::event_message(
                        event.object_id,
                        EventView::ZwpLinuxDmabufFeedbackV1FormatTable {
                            fd: true,
                            size: kept.len() as u32,
                        },
                    ) {
                        Err(error) => Err(error),
                        Ok(bytes) => Ok(
                            (
                                SessionView {
                                    index_maps: self.index_maps.insert(event.object_id, places),
                                    ..self
                                },
                                AdaptedView {
                                    message: WireView { bytes, fds: seq![table_fd] },
                                    table: Some(kept),
                                },
                            ),
                        ),
                    },
                },
            },
            EventView::ZwpLinuxDmabufFeedbackV1TrancheFormats { indices } =>
                if !self.index_maps.contains_key(event.object_id) {
                    Err(
                        "DMA-BUF feedback object "@ + text::decimal(event.object_id as nat)
                            + " sent tranche formats before a format table"@,
                    )
                } else {
                    match filtered_tranche(self.index_maps[event.object_id], indices) {
                        Err(error) => Err(error),
                        Ok(filtered) => match messages::event_message(
                            event.object_id,
                            EventView::ZwpLinuxDmabufFeedbackV1TrancheFormats { indices: filtered },
                        ) {
                            Err(error) => Err(error),
                            Ok(bytes) => Ok(
                                (
                                    self,
                                    AdaptedView {
                                        message: WireView { bytes, ..message },
                                        table: None,
                                    },
                                ),
                            ),
                        },
                    }
                },
            _ => Ok((self, AdaptedView { message, table: None })),
        }
    }
}

/// Notes the key map that an event brings.
pub fn track_keyboard_keymap(
    session: &mut WaylandClientSession,
    event: &DecodedWaylandEvent,
    contents: Result<Vec<u8>, String>,
) -> (result: Result<(), String>)
    ensures
        match old(session)@.keymap_noted(event@, contents_value(contents)) {
            Ok(next) => result is Ok && final(session)@ =~= next,
            Err(message) => (result matches Err(error) && error@ == message) && final(session)@
                == old(session)@,
        },
{
    match &event.generated_event {
        GeneratedEvent::WlKeyboardKeymap { format: _, fd: _, size } => match read_keymap(
            contents,
            *size,
        ) {
            Ok(keymap) => {
                session.keyboard_keymap_text = Some(keymap);
                Ok(())
            },
            Err(message) => Err(message),
        },
        _ => Ok(()),
    }
}

fn read_table(contents: Result<Vec<u8>, String>, size: u32) -> (table: Result<Vec<u8>, String>)
    ensures
        text::outcome(table) == whole_table(contents_value(contents), size),
{
    let table = match contents {
        Ok(bytes) => bytes,
        Err(error) => {
            let mut message = "failed to read DMA-BUF feedback format table: ".to_owned();
            message.append(error.as_str());
            return Err(message);
        },
    };
    if table.len() != size as usize {
        let mut message = "short DMA-BUF feedback format table read: ".to_owned();
        append_decimal(&mut message, table.len() as u64);
        message.append(" of ");
        append_decimal(&mut message, size as u64);
        message.append(" bytes");
        return Err(message);
    }
    Ok(table)
}

/// The value of a table of formats that may be missing.
pub open spec fn optional_table(table: Option<Vec<u8>>) -> Option<Seq<u8>> {
    match table {
        Some(bytes) => Some(bytes@),
        None => None,
    }
}

/// Adapts an event of the formats that the compositor takes. The table that
/// comes back has to stand in the file that is kept under `table_fd`.
pub fn rewrite_dmabuf_feedback_event(
    session: &mut WaylandClientSession,
    event: &DecodedWaylandEvent,
    message: &mut WaylandWireMessage,
    contents: Result<Vec<u8>, String>,
    table_fd: u64,
) -> (table: Result<Option<Vec<u8>>, String>)
    ensures
        match old(session)@.formats_adapted(
            event@,
            old(message)@,
            contents_value(contents),
            table_fd,
        ) {
            Ok((next, adapted)) => (table matches Ok(filtered) && optional_table(filtered)
                == adapted.table) && final(session)@ =~= next && final(message)@
                =~= adapted.message,
            Err(text) => (table matches Err(error) && error@ == text) && final(session)@ == old(
                session,
            )@ && final(message)@ == old(message)@,
        },
{
    match &event.generated_event {
        GeneratedEvent::ZwpLinuxDmabufFeedbackV1FormatTable { fd: _, size } => {
            let table = match read_table(contents, *size) {
                Ok(table) => table,
                Err(error) => return Err(error),
            };
            let (kept, places): (Vec<u8>, Vec<Option<u16>>) = match filter_table(table.as_slice()) {
                Ok(filtered) => filtered,
                Err(error) => return Err(error),
            };
            let bytes = match encode_generated_event(
                event.object_id,
                &GeneratedEvent::ZwpLinuxDmabufFeedbackV1FormatTable {
                    fd: true,
                    size: kept.len() as u32,
                },
            ) {
                Ok(bytes) => bytes,
                Err(error) => return Err(error),
            };
            session.dmabuf_feedback_index_maps.insert(event.object_id, places);
            message.bytes = bytes;
            let mut fds: Vec<u64> = Vec::new();
            fds.push(table_fd);
            message.fds = fds;
            proof {
                assert(message.fds@ =~= seq![table_fd]);
            }
            Ok(Some(kept))
        },
        GeneratedEvent::ZwpLinuxDmabufFeedbackV1TrancheFormats { indices } => {
            let filtered = match session.dmabuf_feedback_index_maps.get(event.object_id) {
                Some(places) => match filter_tranche(places, indices) {
                    Ok(filtered) => filtered,
                    Err(error) => return Err(error),
                },
                None => {
                    let mut text = "DMA-BUF feedback object ".to_owned();
                    append_decimal(&mut text, event.object_id as u64);
                    text.append(" sent tranche formats before a format table");
                    return Err(text);
                },
            };
            match encode_generated_event(
                event.object_id,
                &GeneratedEvent::ZwpLinuxDmabufFeedbackV1TrancheFormats { indices: filtered },
            ) {
                Ok(bytes) => {
                    message.bytes = bytes;
                    Ok(None)
                },
                Err(error) => Err(error),
            }
        },
        _ => Ok(None),
    }
}

} // verus!
