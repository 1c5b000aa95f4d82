//! What clients and callers get to know of the formats and the key map that the
//! compositor tells.

use crate::decode::{DecodedEventView, WireView};
use crate::dmabuf;
use crate::feedback;
use crate::layout;
use crate::messages;
use crate::messages::EventView;
use crate::session::SessionView;
use crate::wire;
use vstd::prelude::*;

verus! {

/// The entries of a format table that indices name, one after the other.
pub open spec fn named_entries(table: Seq<u8>, indices: Seq<u8>, count: nat) -> Seq<Seq<u8>>
    decreases count,
{
    if count == 0 {
        Seq::empty()
    } else {
        let index = feedback::index_at(indices, 2 * (count - 1));
        named_entries(table, indices, (count - 1) as nat).push(
            table.subrange(16 * index, 16 * index + 16),
        )
    }
}

/// Whether a screenshot can be made of the format of an entry, which is its first word.
pub open spec fn is_usable(entry: Seq<u8>) -> bool {
    dmabuf::vk_format(wire::word_at(entry, 0)) is Some
}

/// Those of the entries of which a screenshot can be made.
pub open spec fn usable(entries: Seq<Seq<u8>>) -> Seq<Seq<u8>>
    decreases entries.len(),
{
    if entries.len() == 0 {
        entries
    } else if is_usable(entries.last()) {
        usable(entries.drop_last()).push(entries.last())
    } else {
        usable(entries.drop_last())
    }
}

proof fn index_is_read_back(front: Seq<u8>, index: u16)
    ensures
        feedback::index_bytes(index).len() == 2,
        feedback::index_at(front + feedback::index_bytes(index), front.len() as int) == index,
{
    let whole = front + feedback::index_bytes(index);
    assert(whole[front.len() as int] == feedback::index_bytes(index)[0]);
    assert(whole[front.len() as int + 1] == feedback::index_bytes(index)[1]);
}

proof fn earlier_entries_stay(table: Seq<u8>, indices: Seq<u8>, more: Seq<u8>, count: nat)
    requires
        2 * count <= indices.len(),
    ensures
        named_entries(table, indices + more, count) == named_entries(table, indices, count),
    decreases count,
{
    if count > 0 {
        earlier_entries_stay(table, indices, more, (count - 1) as nat);
        let at = 2 * (count - 1);
        assert((indices + more)[at] == indices[at]);
        assert((indices + more)[at + 1] == indices[at + 1]);
    }
}

/// A client is offered, in each tranche, just those of the compositor's formats of
/// which a screenshot can be made, in the compositor's order: read in the table that
/// the client gets, the indices that it gets name what the compositor's name in its own
/// table, less what cannot be captured.
pub proof fn tranche_offers_what_can_be_captured(table: Seq<u8>, indices: Seq<u8>, count: nat)
    requires
        table.len() % 16 == 0,
        2 * count <= indices.len(),
    ensures
        feedback::filtered_table(table) matches Ok((kept, places)) ==> (feedback::tranche_indices(
            places,
            indices,
            count,
        ) matches Ok(filtered) ==> filtered.len() % 2 == 0 && named_entries(
            kept,
            filtered,
            filtered.len() / 2,
        ) == usable(named_entries(table, indices, count))),
    decreases count,
{
    if let Ok((kept, places)) = feedback::filtered_table(table) {
        if count > 0 && feedback::tranche_indices(places, indices, count) is Ok {
            let before = (count - 1) as nat;
            tranche_offers_what_can_be_captured(table, indices, before);
            let index = feedback::index_at(indices, 2 * (count - 1));
            let earlier = feedback::tranche_indices(places, indices, before)->Ok_0;
            let filtered = feedback::tranche_indices(places, indices, count)->Ok_0;
            let all = named_entries(table, indices, count);
            let entry = table.subrange(16 * index, 16 * index + 16);
            assert(all.drop_last() =~= named_entries(table, indices, before));
            assert(all.last() == entry);
            kept_places_are_all(table, table.len() / 16);
            feedback::kept_format_is_found_at_its_place(table, index as nat);
            entry_has_its_word(table, index as int);
            if let Some(place) = places[index as int] {
                index_is_read_back(earlier, place);
                earlier_entries_stay(
                    kept,
                    earlier,
                    feedback::index_bytes(place),
                    earlier.len() / 2,
                );
                assert(2 * (filtered.len() / 2 - 1) == earlier.len());
            }
        }
    }
}

proof fn kept_places_are_all(table: Seq<u8>, count: nat)
    ensures
        feedback::kept_places(table, count).len() == count,
    decreases count,
{
    if count > 0 {
        kept_places_are_all(table, (count - 1) as nat);
    }
}

proof fn entry_has_its_word(table: Seq<u8>, index: int)
    requires
        0 <= index,
        16 * index + 16 <= table.len(),
    ensures
        wire::word_at(table.subrange(16 * index, 16 * index + 16), 0) == wire::word_at(
            table,
            16 * index,
        ),
{
    let entry = table.subrange(16 * index, 16 * index + 16);
    assert(entry[0] == table[16 * index]);
    assert(entry[1] == table[16 * index + 1]);
    assert(entry[2] == table[16 * index + 2]);
    assert(entry[3] == table[16 * index + 3]);
}

/// The entries of a format table, one after the other.
pub open spec fn all_entries(table: Seq<u8>, count: nat) -> Seq<Seq<u8>> {
    Seq::new(count, |i: int| table.subrange(16 * i, 16 * i + 16))
}

/// The table that a client gets has just those of the compositor's formats of which a
/// screenshot can be made, in the compositor's order.
pub proof fn table_offers_what_can_be_captured(table: Seq<u8>, count: nat)
    requires
        16 * count <= table.len(),
    ensures
        feedback::kept_entries(table, count).len() % 16 == 0,
        all_entries(
            feedback::kept_entries(table, count),
            feedback::kept_entries(table, count).len() / 16,
        ) == usable(all_entries(table, count)),
    decreases count,
{
    let kept = feedback::kept_entries(table, count);
    let all = all_entries(table, count);
    if count == 0 {
        assert(all_entries(kept, kept.len() / 16) =~= usable(all));
    } else {
        let before = (count - 1) as nat;
        let earlier = feedback::kept_entries(table, before);
        let entry = table.subrange(16 * (count - 1), 16 * (count - 1) + 16);
        table_offers_what_can_be_captured(table, before);
        entry_has_its_word(table, count - 1);
        assert(all.drop_last() =~= all_entries(table, before));
        assert(all.last() == entry);
        if feedback::is_kept(table, count - 1) {
            let listed = all_entries(earlier, earlier.len() / 16);
            assert forall|i: int| 0 <= i < listed.len() implies kept.subrange(16 * i, 16 * i + 16)
                == #[trigger] listed[i] by {
                assert(kept.subrange(16 * i, 16 * i + 16) =~= earlier.subrange(16 * i, 16 * i + 16));
            }
            let last = earlier.len() as int;
            assert(kept.subrange(last, last + 16) =~= entry);
            assert(16 * (earlier.len() / 16) == last);
            assert(all_entries(kept, kept.len() / 16) =~= listed.push(entry));
        }
    }
}

/// The compositor's table reaches the client as a table of what is left of it: the
/// message says how long the new table is, and carries its descriptor.
pub proof fn table_is_passed_on(
    client: SessionView,
    event: DecodedEventView,
    message: WireView,
    contents: Result<Seq<u8>, Seq<char>>,
    table_fd: u64,
    fd: bool,
    size: u32,
)
    requires
        event.generated_event == (EventView::ZwpLinuxDmabufFeedbackV1FormatTable { fd, size }),
        client.formats_adapted(event, message, contents, table_fd) is Ok,
        size % 16 == 0,
    ensures
        ({
            let (after, told) = client.formats_adapted(event, message, contents, table_fd)->Ok_0;
            let kept = told.table.unwrap();
            &&& contents matches Ok(table) && table.len() == size && feedback::filtered_table(table)
                == Ok::<(Seq<u8>, Seq<Option<u16>>), Seq<char>>(
                (kept, after.index_maps[event.object_id]),
            )
            &&& told.table is Some
            &&& told.message.fds == seq![table_fd]
            &&& layout::reads_as(told.message.bytes, event.object_id, 1, seq![kept.len() as u32])
            &&& after.index_maps.contains_key(event.object_id)
        }),
{
    let kept = client.formats_adapted(event, message, contents, table_fd)->Ok_0.1.table.unwrap();
    let told = EventView::ZwpLinuxDmabufFeedbackV1FormatTable { fd: true, size: kept.len() as u32 };
    let args = messages::event_args(told);
    let words = seq![kept.len() as u32];
    let listed = layout::word_args(words);
    assert(args.len() == 2);
    assert(args.drop_last().drop_last() =~= Seq::<wire::ArgView>::empty());
    assert(listed.drop_last() =~= Seq::<wire::ArgView>::empty());
    reveal_with_fuel(wire::args_bytes, 3);
    assert(wire::args_bytes(args) =~= wire::args_bytes(listed));
    layout::words_are_laid_out(event.object_id, messages::event_opcode(told), args, words);
}

/// What is left of bytes without the zeros that follow them.
proof fn zeros_are_left_out(bytes: Seq<u8>)
    ensures
        ({
            let kept = feedback::without_nuls(bytes);
            &&& kept.len() <= bytes.len()
            &&& kept == bytes.take(kept.len() as int)
            &&& kept.len() > 0 ==> kept.last() != 0
            &&& forall|i: int| kept.len() <= i < bytes.len() ==> #[trigger] bytes[i] == 0
        }),
    decreases bytes.len(),
{
    if bytes.len() > 0 && bytes.last() == 0 {
        let rest = bytes.drop_last();
        zeros_are_left_out(rest);
        assert forall|i: int|
            feedback::without_nuls(bytes).len() <= i < bytes.len() implies #[trigger] bytes[i]
            == 0 by {
            if i < rest.len() {
                assert(rest[i] == 0);
            }
        }
    }
}

/// A client's key map is the text that the compositor's file holds, as long as the
/// compositor says, without the zeros that follow it.
pub proof fn keymap_is_the_text_of_its_file(
    client: SessionView,
    event: DecodedEventView,
    contents: Result<Seq<u8>, Seq<char>>,
    format: u32,
    fd: bool,
    size: u32,
)
    requires
        event.generated_event == (EventView::WlKeyboardKeymap { format, fd, size }),
    ensures
        client.keymap_noted(event, contents) matches Ok(after) ==> {
            let bytes = contents->Ok_0;
            let written = vstd::utf8::encode_utf8(after.keymap.unwrap());
            &&& contents is Ok
            &&& bytes.len() == size
            &&& after.keymap is Some
            &&& written.len() <= size
            &&& written == bytes.take(written.len() as int)
            &&& forall|i: int| written.len() <= i < size ==> #[trigger] bytes[i] == 0
            &&& after.layout_group == client.layout_group
            &&& after.tracker == client.tracker
        },
{
    if let Ok(bytes) = contents {
        zeros_are_left_out(bytes);
        if vstd::utf8::valid_utf8(feedback::without_nuls(bytes)) {
            vstd::utf8::decode_utf8_encode_utf8(feedback::without_nuls(bytes));
        }
    }
}

/// A key map is read from the first descriptor of its message, as far as the message
/// says, where it is one of the known kind and of a size that is allowed; and so is a
/// format table, whose entries are whole.
pub proof fn files_are_read_as_told(fds: Seq<u64>, format: u32, fd: bool, size: u32)
    ensures
        ({
            let read = feedback::read_for(EventView::WlKeyboardKeymap { format, fd, size }, fds);
            &&& read is Ok <==> format == 1 && 1 <= size <= 0x100_0000 && fds.len() > 0
            &&& read matches Ok(found) ==> (found matches Some(file) && file.fd == fds[0]
                && file.size == size)
        }),
        ({
            let read = feedback::read_for(
                EventView::ZwpLinuxDmabufFeedbackV1FormatTable { fd, size },
                fds,
            );
            &&& read is Ok <==> size % 16 == 0 && fds.len() > 0
            &&& read matches Ok(found) ==> (found matches Some(file) && file.fd == fds[0]
                && file.size == size)
        }),
{
}

} // verus!
