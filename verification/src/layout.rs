//! How messages lie in memory, word by word.

use crate::wire;
use crate::wire::ArgView;
use vstd::prelude::*;

verus! {

/// Whether bytes are a message as the protocol lays it out: the object's number, then
/// the length of the message above its opcode in one word, then the words that it
/// carries.
pub open spec fn reads_as(message: Seq<u8>, object_id: u32, opcode: u16, words: Seq<u32>) -> bool {
    &&& message.len() == 8 + 4 * words.len()
    &&& wire::word_at(message, 0) == object_id
    &&& wire::word_at(message, 4) == message.len() * 0x1_0000 + opcode
    &&& forall|i: int| 0 <= i < words.len() ==> wire::word_at(message, 8 + 4 * i) == #[trigger] words[i]
}

/// The arguments that words are.
pub open spec fn word_args(words: Seq<u32>) -> Seq<ArgView> {
    words.map_values(|word: u32| ArgView::Uint(word))
}

/// A message whose arguments take the bytes of words is laid out as the protocol says.
pub proof fn words_are_laid_out(object_id: u32, opcode: u16, args: Seq<ArgView>, words: Seq<u32>)
    requires
        wire::args_bytes(args) == wire::args_bytes(word_args(words)),
        8 + 4 * words.len() <= 0xffff,
    ensures
        wire::fits(args),
        reads_as(wire::message_bytes(object_id, opcode, args), object_id, opcode, words),
{
    let bytes = wire::message_bytes(object_id, opcode, args);
    let payload = wire::args_bytes(word_args(words));
    if words.len() > 0 {
        wire::words_stand_in_line(words, 0);
    }
    let word = ((8 + payload.len()) * 0x1_0000 + opcode) as u32;
    wire::parts_are_found(wire::word_bytes(object_id), wire::word_bytes(word), payload);
    wire::word_is_read_in_place(bytes, 0, object_id);
    wire::word_is_read_in_place(bytes, 4, word);
    assert forall|i: int| 0 <= i < words.len() implies wire::word_at(bytes, 8 + 4 * i)
        == #[trigger] words[i] by {
        wire::words_stand_in_line(words, i);
        wire::part_is_found(
            wire::word_bytes(object_id),
            wire::word_bytes(word),
            payload,
            4 * i,
        );
        wire::word_is_read_in_place(bytes, 8 + 4 * i, words[i]);
    }
}

/// Arguments that take one word each take the bytes of these words.
pub proof fn one_word_each(args: Seq<ArgView>, words: Seq<u32>)
    requires
        args.len() == words.len(),
        forall|i: int| 0 <= i < args.len() ==> wire::arg_bytes(#[trigger] args[i]) == wire::word_bytes(words[i]),
    ensures
        wire::args_bytes(args) == wire::args_bytes(word_args(words)),
    decreases args.len(),
{
    if args.len() > 0 {
        assert(word_args(words).drop_last() =~= word_args(words.drop_last()));
        assert(args[args.len() - 1] == args.last());
        one_word_each(args.drop_last(), words.drop_last());
    }
}

/// Arguments take the bytes of the first and then those of the rest.
pub proof fn args_follow_each_other(a: Seq<ArgView>, b: Seq<ArgView>)
    ensures
        wire::args_bytes(a + b) == wire::args_bytes(a) + wire::args_bytes(b),
    decreases b.len(),
{
    if b.len() == 0 {
        assert(a + b =~= a);
        assert(wire::args_bytes(a) + wire::args_bytes(b) =~= wire::args_bytes(a));
    } else {
        assert((a + b).drop_last() =~= a + b.drop_last());
        args_follow_each_other(a, b.drop_last());
        assert(wire::args_bytes(a + b) =~= wire::args_bytes(a) + wire::args_bytes(b));
    }
}

/// Words take four bytes each.
pub proof fn words_take_four_bytes(words: Seq<u32>)
    ensures
        wire::args_bytes(word_args(words)).len() == 4 * words.len(),
{
    if words.len() > 0 {
        wire::words_stand_in_line(words, 0);
    }
}

/// A word is read in the byte order of the machine: what one machine has lowest, and
/// first in memory, another has lowest and last.
pub proof fn words_have_the_order_of_the_machine(bytes: Seq<u8>, at: int)
    ensures
        ({
            let word = wire::word_at(bytes, at) as int;
            match vstd::endian::endianness() {
                vstd::endian::Endian::Little => word % 256 == bytes[at] && word / 256 % 256
                    == bytes[at + 1] && word / 65536 % 256 == bytes[at + 2] && word / 16777216
                    == bytes[at + 3],
                vstd::endian::Endian::Big => word % 256 == bytes[at + 3] && word / 256 % 256
                    == bytes[at + 2] && word / 65536 % 256 == bytes[at + 1] && word / 16777216
                    == bytes[at],
            }
        }),
{
    digits_are_found(bytes[at], bytes[at + 1], bytes[at + 2], bytes[at + 3]);
    digits_are_found(bytes[at + 3], bytes[at + 2], bytes[at + 1], bytes[at]);
}

proof fn digits_are_found(a: u8, b: u8, c: u8, d: u8)
    ensures
        ({
            let word = a + 0x100 * b + 0x1_0000 * c + 0x100_0000 * d;
            &&& 0 <= word <= 0xffff_ffff
            &&& word % 256 == a
            &&& word / 256 % 256 == b
            &&& word / 65536 % 256 == c
            &&& word / 16777216 == d
        }),
{
    let word = a + 0x100 * b + 0x1_0000 * c + 0x100_0000 * d;
    assert(word / 256 == b + 0x100 * c + 0x1_0000 * d);
    assert(word / 65536 == c + 0x100 * d);
    assert(word / 16777216 == d);
}

/// Bytes in a message stand behind a word with their number, and are followed by as
/// many zeros as make the next word start at a multiple of four.
pub proof fn counted_bytes_are_laid_out(content: Seq<u8>)
    requires
        content.len() <= u32::MAX,
    ensures
        ({
            let bytes = wire::arg_bytes(ArgView::Array(content));
            &&& bytes.len() % 4 == 0
            &&& 4 + content.len() <= bytes.len() < 8 + content.len()
            &&& wire::word_at(bytes, 0) == content.len()
            &&& bytes.subrange(4, 4 + content.len() as int) == content
            &&& forall|i: int| 4 + content.len() <= i < bytes.len() ==> #[trigger] bytes[i] == 0
        }),
{
    let bytes = wire::arg_bytes(ArgView::Array(content));
    let length = content.len() as u32;
    assert(wire::word_bytes(length).len() == 4);
    assert(bytes.subrange(0, 4) =~= wire::word_bytes(length));
    wire::word_is_read_in_place(bytes, 0, length);
    assert(bytes.subrange(4, 4 + content.len() as int) =~= content);
}

/// A text in a message stands as its bytes in UTF-8 with a zero behind them; a text that
/// is absent, and an object that is absent, are a word of zero; a descriptor takes no
/// room.
pub proof fn texts_are_laid_out(content: Seq<char>)
    ensures
        wire::arg_bytes(ArgView::String(Some(content))) == wire::arg_bytes(
            ArgView::Array(vstd::utf8::encode_utf8(content).push(0)),
        ),
        wire::arg_bytes(ArgView::String(None)) == wire::arg_bytes(ArgView::Uint(0)),
        wire::arg_bytes(ArgView::Object(None)) == wire::arg_bytes(ArgView::Uint(0)),
        wire::arg_bytes(ArgView::Fd).len() == 0,
{
}

} // verus!
