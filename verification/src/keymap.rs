//! Which keys a text is typed with, by the key map of the client that it is
//! typed into. The key map stands here as the table of what each key gives.

use crate::text;
use crate::text::{append_decimal, chars_of, text_of};
use vstd::prelude::*;
use vstd::string::*;

verus! {

/// A key with the modifiers that are held with it.
#[derive(Debug, Clone, Copy, PartialEq, Eq, Structural)]
pub struct TextStroke {
    pub key: u32,
    pub modifiers: u32,
}

/// What a text is typed with.
#[derive(Debug, PartialEq, Eq)]
pub struct TextPlan {
    pub strokes: Vec<TextStroke>,
    pub shift_modifier: Option<u32>,
    pub control_modifier: Option<u32>,
    pub alt_modifier: Option<u32>,
    pub logo_modifier: Option<u32>,
}

/// The value of what a text is typed with.
#[verifier::ext_equal]
pub struct TextPlanView {
    pub strokes: Seq<TextStroke>,
    pub shift_modifier: Option<u32>,
    pub control_modifier: Option<u32>,
    pub alt_modifier: Option<u32>,
    pub logo_modifier: Option<u32>,
}

impl View for TextPlan {
    type V = TextPlanView;

    open spec fn view(&self) -> TextPlanView {
        TextPlanView {
            strokes: self.strokes@,
            shift_modifier: self.shift_modifier,
            control_modifier: self.control_modifier,
            alt_modifier: self.alt_modifier,
            logo_modifier: self.logo_modifier,
        }
    }
}

/// One level of a key: the symbols that it gives, and the modifiers that reach
/// it.
pub struct XkbLevel {
    pub keysyms: Vec<u32>,
    pub masks: Vec<u32>,
}

/// A key: its code, and its levels in each layout.
pub struct XkbKey {
    pub keycode: u32,
    pub layouts: Vec<Vec<XkbLevel>>,
}

/// A key map: its keys, and the places of the modifiers.
pub struct XkbTable {
    pub keys: Vec<XkbKey>,
    pub shift_index: u32,
    pub control_index: u32,
    pub alt_index: u32,
    pub logo_index: u32,
}

/// How many bits of a number are set.
pub open spec fn ones(bits: u32) -> nat
    decreases bits,
{
    if bits == 0 {
        0
    } else {
        ones(bits / 2) + (bits % 2) as nat
    }
}

fn count_ones(bits: u32) -> (count: u32)
    ensures
        count == ones(bits),
        count <= 32,
{
    let mut left: u32 = bits;
    let mut count: u32 = 0;
    let mut room: u32 = 32;
    let ghost mut limit: int = 0x1_0000_0000;
    proof {
        vstd::arithmetic::power2::lemma2_to64();
    }
    while left > 0
        invariant
            count + ones(left) == ones(bits),
            count + room <= 32,
            left < limit,
            limit == vstd::arithmetic::power2::pow2(room as nat),
        decreases left,
    {
        proof {
            if room == 0 {
                vstd::arithmetic::power2::lemma2_to64();
            }
            vstd::arithmetic::power2::lemma_pow2_unfold(room as nat);
        }
        count = count + left % 2;
        left = left / 2;
        room = room - 1;
        proof {
            limit = limit / 2;
        }
    }
    count
}

/// Whether a stroke is simpler than another: fewer modifiers, or as many and a
/// lower key.
pub open spec fn simpler(a: TextStroke, b: TextStroke) -> bool {
    ones(a.modifiers) < ones(b.modifiers) || (ones(a.modifiers) == ones(b.modifiers) && a.key
        < b.key)
}

/// The simpler of the best stroke so far and another one.
pub open spec fn better(best: Option<TextStroke>, candidate: TextStroke) -> Option<TextStroke> {
    match best {
        Some(current) => if simpler(candidate, current) {
            Some(candidate)
        } else {
            best
        },
        None => Some(candidate),
    }
}

/// The best stroke after the first `count` ways to reach a level.
pub open spec fn after_masks(
    best: Option<TextStroke>,
    key: u32,
    masks: Seq<u32>,
    count: nat,
) -> Option<TextStroke>
    decreases count,
{
    if count == 0 {
        best
    } else {
        better(
            after_masks(best, key, masks, (count - 1) as nat),
            TextStroke { key, modifiers: masks[count - 1] },
        )
    }
}

/// The best stroke after the first `count` levels of a key.
pub open spec fn after_levels(
    best: Option<TextStroke>,
    key: u32,
    levels: Seq<XkbLevel>,
    keysym: u32,
    count: nat,
) -> Option<TextStroke>
    decreases count,
{
    if count == 0 {
        best
    } else {
        let before = after_levels(best, key, levels, keysym, (count - 1) as nat);
        let level = levels[count - 1];
        if level.keysyms@.contains(keysym) {
            after_masks(before, key, level.masks@, level.masks@.len())
        } else {
            before
        }
    }
}

/// The levels of a key in a layout group; the groups of a key repeat.
pub open spec fn levels_in(key: XkbKey, group: u32) -> Seq<XkbLevel> {
    key.layouts@[group as int % key.layouts@.len() as int]@
}

/// Whether a key can be used for typing: codes below eight name no key, and a
/// key without a layout gives nothing.
pub open spec fn usable(key: XkbKey) -> bool {
    key.keycode >= 8 && key.layouts@.len() > 0
}

/// The best stroke after the first `count` keys.
pub open spec fn after_keys(
    keys: Seq<XkbKey>,
    group: u32,
    keysym: u32,
    count: nat,
) -> Option<TextStroke>
    decreases count,
{
    if count == 0 {
        None
    } else {
        let before = after_keys(keys, group, keysym, (count - 1) as nat);
        let key = keys[count - 1];
        if usable(key) {
            let levels = levels_in(key, group);
            after_levels(before, (key.keycode - 8) as u32, levels, keysym, levels.len())
        } else {
            before
        }
    }
}

/// The stroke that gives a symbol. The symbol zero stands for none.
pub open spec fn stroke_for(keys: Seq<XkbKey>, group: u32, keysym: u32) -> Option<TextStroke> {
    if keysym == 0 {
        None
    } else {
        after_keys(keys, group, keysym, keys.len())
    }
}

/// Whether a stroke gives a symbol.
pub open spec fn gives(keys: Seq<XkbKey>, group: u32, keysym: u32, stroke: TextStroke) -> bool {
    exists|k: int, l: int, m: int| gives_at(keys, group, keysym, stroke, k, l, m)
}

/// Whether a stroke gives a symbol by a key, a level and a way to reach it.
pub open spec fn gives_at(
    keys: Seq<XkbKey>,
    group: u32,
    keysym: u32,
    stroke: TextStroke,
    k: int,
    l: int,
    m: int,
) -> bool {
    &&& 0 <= k < keys.len()
    &&& usable(keys[k])
    &&& 0 <= l < levels_in(keys[k], group).len()
    &&& levels_in(keys[k], group)[l].keysyms@.contains(keysym)
    &&& 0 <= m < levels_in(keys[k], group)[l].masks@.len()
    &&& stroke == TextStroke {
        key: (keys[k].keycode - 8) as u32,
        modifiers: levels_in(keys[k], group)[l].masks@[m],
    }
}

/// Whether nothing that counts is simpler than the best stroke.
spec fn holds_against(best: Option<TextStroke>, stroke: TextStroke) -> bool {
    best matches Some(current) && !simpler(stroke, current)
}

proof fn masks_hold(best: Option<TextStroke>, key: u32, masks: Seq<u32>, count: nat)
    requires
        count <= masks.len(),
    ensures
        ({
            let after = after_masks(best, key, masks, count);
            &&& after == best || (exists|m: int|
                0 <= m < count && after == Some(TextStroke { key, modifiers: #[trigger] masks[m] }))
            &&& forall|m: int|
                0 <= m < count ==> holds_against(
                    after,
                    TextStroke { key, modifiers: #[trigger] masks[m] },
                )
            &&& forall|stroke: TextStroke| #[trigger]
                holds_against(best, stroke) ==> holds_against(after, stroke)
        }),
    decreases count,
{
    if count > 0 {
        masks_hold(best, key, masks, (count - 1) as nat);
        let candidate = TextStroke { key, modifiers: masks[count - 1] };
        assert(candidate.modifiers == masks[count - 1]);
    }
}

proof fn levels_hold(
    best: Option<TextStroke>,
    key: u32,
    levels: Seq<XkbLevel>,
    keysym: u32,
    count: nat,
)
    requires
        count <= levels.len(),
    ensures
        ({
            let after = after_levels(best, key, levels, keysym, count);
            &&& after == best || (exists|l: int, m: int|
                0 <= l < count && levels[l].keysyms@.contains(keysym) && 0 <= m
                    < levels[l].masks@.len() && after == Some(
                    TextStroke { key, modifiers: #[trigger] levels[l].masks@[m] },
                ))
            &&& forall|l: int, m: int|
                0 <= l < count && levels[l].keysyms@.contains(keysym) && 0 <= m
                    < levels[l].masks@.len() ==> holds_against(
                    after,
                    TextStroke { key, modifiers: #[trigger] levels[l].masks@[m] },
                )
            &&& forall|stroke: TextStroke| #[trigger]
                holds_against(best, stroke) ==> holds_against(after, stroke)
        }),
    decreases count,
{
    if count > 0 {
        levels_hold(best, key, levels, keysym, (count - 1) as nat);
        let before = after_levels(best, key, levels, keysym, (count - 1) as nat);
        let level = levels[count - 1];
        if level.keysyms@.contains(keysym) {
            masks_hold(before, key, level.masks@, level.masks@.len());
        }
    }
}

proof fn keys_hold(keys: Seq<XkbKey>, group: u32, keysym: u32, count: nat)
    requires
        count <= keys.len(),
    ensures
        ({
            let after = after_keys(keys, group, keysym, count);
            &&& after matches Some(stroke) ==> gives(keys, group, keysym, stroke)
            &&& forall|stroke: TextStroke, k: int, l: int, m: int|
                k < count && #[trigger] gives_at(keys, group, keysym, stroke, k, l, m)
                    ==> holds_against(after, stroke)
        }),
    decreases count,
{
    if count > 0 {
        keys_hold(keys, group, keysym, (count - 1) as nat);
        let before = after_keys(keys, group, keysym, (count - 1) as nat);
        let after = after_keys(keys, group, keysym, count);
        let key = keys[count - 1];
        if usable(key) {
            let levels = levels_in(key, group);
            let code = (key.keycode - 8) as u32;
            levels_hold(before, code, levels, keysym, levels.len());
            if after != before {
                let (l, m) = choose|l: int, m: int|
                    0 <= l < levels.len() && levels[l].keysyms@.contains(keysym) && 0 <= m
                        < levels[l].masks@.len() && after == Some(
                        TextStroke { key: code, modifiers: #[trigger] levels[l].masks@[m] },
                    );
                assert(gives_at(keys, group, keysym, after->0, count - 1, l, m));
            }
            assert forall|stroke: TextStroke, k: int, l: int, m: int|
                k < count && #[trigger] gives_at(
                    keys,
                    group,
                    keysym,
                    stroke,
                    k,
                    l,
                    m,
                ) implies holds_against(after, stroke) by {
                if k == count - 1 {
                    assert(levels[l].masks@[m] == stroke.modifiers);
                } else {
                    assert(holds_against(before, stroke));
                }
            }
        }
    }
}

/// The stroke that is chosen for a symbol gives it, no stroke that gives it is
/// simpler, and one is chosen wherever there is one.
pub proof fn chosen_stroke_is_simplest(
    keys: Seq<XkbKey>,
    group: u32,
    keysym: u32,
    other: TextStroke,
)
    requires
        keysym != 0,
    ensures
        stroke_for(keys, group, keysym) matches Some(stroke) ==> gives(
            keys,
            group,
            keysym,
            stroke,
        ),
        gives(keys, group, keysym, other) ==> (stroke_for(keys, group, keysym) matches Some(stroke)
            && !simpler(other, stroke)),
{
    keys_hold(keys, group, keysym, keys.len());
    if gives(keys, group, keysym, other) {
        let (k, l, m) = choose|k: int, l: int, m: int|
            gives_at(keys, group, keysym, other, k, l, m);
        assert(gives_at(keys, group, keysym, other, k, l, m));
        assert(holds_against(stroke_for(keys, group, keysym), other));
    }
}

/// The symbol of a character: the keys for a new line and for a tab give
/// symbols of their own, and for any other character the symbol is looked up.
pub open spec fn keysym_of(character: char, looked_up: u32) -> u32 {
    if character == '\n' || character == '\r' {
        0xff0d
    } else if character == '\t' {
        0xff09
    } else {
        looked_up
    }
}

fn has_keysym(keysyms: &Vec<u32>, keysym: u32) -> (found: bool)
    ensures
        found == keysyms@.contains(keysym),
{
    let mut index: usize = 0;
    while index < keysyms.len()
        invariant
            index <= keysyms@.len(),
            forall|i: int| 0 <= i < index ==> keysyms@[i] != keysym,
        decreases keysyms@.len() - index,
    {
        if keysyms[index] == keysym {
            return true;
        }
        index = index + 1;
    }
    false
}

fn pick(best: Option<TextStroke>, candidate: TextStroke) -> (picked: Option<TextStroke>)
    ensures
        picked == better(best, candidate),
{
    match best {
        Some(current) => {
            let own: u32 = count_ones(candidate.modifiers);
            let other: u32 = count_ones(current.modifiers);
            if own < other || (own == other && candidate.key < current.key) {
                Some(candidate)
            } else {
                best
            }
        },
        None => Some(candidate),
    }
}

fn pick_mask(best: Option<TextStroke>, key: u32, masks: &Vec<u32>) -> (picked: Option<TextStroke>)
    ensures
        picked == after_masks(best, key, masks@, masks@.len()),
{
    let mut picked = best;
    let mut index: usize = 0;
    while index < masks.len()
        invariant
            index <= masks@.len(),
            picked == after_masks(best, key, masks@, index as nat),
        decreases masks@.len() - index,
    {
        picked = pick(picked, TextStroke { key, modifiers: masks[index] });
        index = index + 1;
    }
    picked
}

fn pick_level(
    best: Option<TextStroke>,
    key: u32,
    levels: &Vec<XkbLevel>,
    keysym: u32,
) -> (picked: Option<TextStroke>)
    ensures
        picked == after_levels(best, key, levels@, keysym, levels@.len()),
{
    let mut picked = best;
    let mut index: usize = 0;
    while index < levels.len()
        invariant
            index <= levels@.len(),
            picked == after_levels(best, key, levels@, keysym, index as nat),
        decreases levels@.len() - index,
    {
        if has_keysym(&levels[index].keysyms, keysym) {
            picked = pick_mask(picked, key, &levels[index].masks);
        }
        index = index + 1;
    }
    picked
}

/// Finds the stroke that gives a symbol.
pub fn find_stroke(table: &XkbTable, layout_group: u32, keysym: u32) -> (stroke: Option<TextStroke>)
    ensures
        stroke == stroke_for(table.keys@, layout_group, keysym),
{
    if keysym == 0 {
        return None;
    }
    let mut best: Option<TextStroke> = None;
    let mut index: usize = 0;
    while index < table.keys.len()
        invariant
            index <= table.keys@.len(),
            best == after_keys(table.keys@, layout_group, keysym, index as nat),
        decreases table.keys@.len() - index,
    {
        let key = &table.keys[index];
        if key.keycode >= 8 && key.layouts.len() > 0 {
            let layout: usize = layout_group as usize % key.layouts.len();
            best = pick_level(best, key.keycode - 8, &key.layouts[layout], keysym);
        }
        index = index + 1;
    }
    best
}

/// How the `Debug` form of a character looks.
pub uninterp spec fn char_debug(character: char) -> Seq<char>;

/// The `Debug` form of a character: the character in single quotes, with an
/// escape in place of one that cannot be shown. Which characters are escaped,
/// and how, is left unstated.
#[verifier::external_body]
fn debug_text(character: char) -> (shown: String)
    ensures
        shown@ == char_debug(character),
{
    format!("{character:?}")
}

/// A character as the caller is shown it.
pub open spec fn quoted(character: char) -> Seq<char> {
    if character == '\n' {
        "newline"@
    } else if character == '\r' {
        "carriage return"@
    } else if character == '\t' {
        "tab"@
    } else {
        char_debug(character)
    }
}

/// A character as the caller is shown it.
pub fn quoted_character(character: char) -> (shown: String)
    ensures
        shown@ == quoted(character),
{
    if character == '\n' {
        "newline".to_owned()
    } else if character == '\r' {
        "carriage return".to_owned()
    } else if character == '\t' {
        "tab".to_owned()
    } else {
        debug_text(character)
    }
}

/// The mask of a modifier by its place; one that the key map does not have has
/// none.
pub open spec fn mask_of(index: u32) -> Option<u32> {
    if index < 32 {
        Some(1u32 << index)
    } else {
        None
    }
}

/// The mask of a modifier by its place.
pub fn modifier_mask(index: u32) -> (mask: Option<u32>)
    ensures
        mask == mask_of(index),
{
    if index < 32 {
        Some(1u32 << index)
    } else {
        None
    }
}

/// What is said of a character that no key gives.
pub open spec fn unreachable_character(character: char, group: u32) -> Seq<char> {
    "character "@ + quoted(character)
        + " is not directly representable by the target client's active XKB layout group "@
        + text::decimal(group as nat)
}

/// The strokes for the first `count` characters. `looked_up` holds the symbols
/// of the characters.
pub open spec fn strokes_for(
    keys: Seq<XkbKey>,
    group: u32,
    characters: Seq<char>,
    looked_up: Seq<u32>,
    count: nat,
) -> Result<Seq<TextStroke>, Seq<char>>
    decreases count,
{
    if count == 0 {
        Ok(Seq::empty())
    } else {
        match strokes_for(keys, group, characters, looked_up, (count - 1) as nat) {
            Err(message) => Err(message),
            Ok(before) => match stroke_for(
                keys,
                group,
                keysym_of(characters[count - 1], looked_up[count - 1]),
            ) {
                Some(stroke) => Ok(before.push(stroke)),
                None => Err(unreachable_character(characters[count - 1], group)),
            },
        }
    }
}

/// What a text is typed with.
pub open spec fn plan_of(
    table: XkbTable,
    group: u32,
    characters: Seq<char>,
    looked_up: Seq<u32>,
) -> Result<TextPlanView, Seq<char>> {
    match strokes_for(table.keys@, group, characters, looked_up, characters.len()) {
        Err(message) => Err(message),
        Ok(strokes) => Ok(
            TextPlanView {
                strokes,
                shift_modifier: mask_of(table.shift_index),
                control_modifier: mask_of(table.control_index),
                alt_modifier: mask_of(table.alt_index),
                logo_modifier: mask_of(table.logo_index),
            },
        ),
    }
}

proof fn failed_character_stays(
    keys: Seq<XkbKey>,
    group: u32,
    characters: Seq<char>,
    looked_up: Seq<u32>,
    at: nat,
    count: nat,
)
    requires
        at <= count,
        strokes_for(keys, group, characters, looked_up, at) is Err,
    ensures
        strokes_for(keys, group, characters, looked_up, count) == strokes_for(
            keys,
            group,
            characters,
            looked_up,
            at,
        ),
    decreases count,
{
    if at < count {
        failed_character_stays(keys, group, characters, looked_up, at, (count - 1) as nat);
    }
}

/// Works out what a text is typed with. `keysyms` holds, for each character,
/// the symbol that the key map's library gives for it.
pub fn plan_text(table: &XkbTable, layout_group: u32, text: &str, keysyms: &Vec<u32>) -> (plan: Result<
    TextPlan,
    String,
>)
    requires
        keysyms@.len() == text@.len(),
    ensures
        text::outcome(plan) == plan_of(*table, layout_group, text@, keysyms@),
{
    let characters = chars_of(text);
    let mut strokes: Vec<TextStroke> = Vec::new();
    let mut index: usize = 0;
    while index < characters.len()
        invariant
            index <= characters@.len(),
            characters@ == text@,
            keysyms@.len() == text@.len(),
            strokes_for(table.keys@, layout_group, characters@, keysyms@, index as nat) == Ok::<
                Seq<TextStroke>,
                Seq<char>,
            >(strokes@),
        decreases characters@.len() - index,
    {
        let character: char = characters[index];
        let keysym: u32 = if character == '\n' || character == '\r' {
            0xff0d
        } else if character == '\t' {
            0xff09
        } else {
            keysyms[index]
        };
        match find_stroke(table, layout_group, keysym) {
            Some(stroke) => {
                strokes.push(stroke);
            },
            None => {
                let mut message = "character ".to_owned();
                message.append(quoted_character(character).as_str());
                message.append(
                    " is not directly representable by the target client's active XKB layout group ",
                );
                append_decimal(&mut message, layout_group as u64);
                proof {
                    failed_character_stays(
                        table.keys@,
                        layout_group,
                        characters@,
                        keysyms@,
                        (index + 1) as nat,
                        characters@.len(),
                    );
                }
                return Err(message);
            },
        }
        index = index + 1;
    }
    Ok(
        TextPlan {
            strokes,
            shift_modifier: modifier_mask(table.shift_index),
            control_modifier: modifier_mask(table.control_index),
            alt_modifier: modifier_mask(table.alt_index),
            logo_modifier: modifier_mask(table.logo_index),
        },
    )
}

/// A text without the NUL characters at its end.
pub open spec fn trimmed(characters: Seq<char>) -> Seq<char>
    decreases characters.len(),
{
    if characters.len() > 0 && characters.last() == '\0' {
        trimmed(characters.drop_last())
    } else {
        characters
    }
}

/// A key map as it is handed to the library that reads it: without the NUL
/// characters at its end, and refused where one stands elsewhere in it.
pub open spec fn source_of(keymap: Seq<char>) -> Result<Seq<char>, Seq<char>> {
    if trimmed(keymap).contains('\0') {
        Err("the client XKB keymap contains an interior NUL byte"@)
    } else {
        Ok(trimmed(keymap))
    }
}

/// Gets a key map ready for the library that reads it.
pub fn keymap_source(keymap_text: &str) -> (source: Result<String, String>)
    ensures
        text::outcome(source) == source_of(keymap_text@),
{
    let mut characters = chars_of(keymap_text);
    while characters.len() > 0 && characters[characters.len() - 1] == '\0'
        invariant
            trimmed(characters@) == trimmed(keymap_text@),
        decreases characters@.len(),
    {
        let ghost before = characters@;
        let _ = characters.pop();
        proof {
            assert(characters@ =~= before.drop_last());
        }
    }
    let mut index: usize = 0;
    while index < characters.len()
        invariant
            index <= characters@.len(),
            characters@ == trimmed(keymap_text@),
            forall|i: int| 0 <= i < index ==> characters@[i] != '\0',
        decreases characters@.len() - index,
    {
        if characters[index] == '\0' {
            return Err("the client XKB keymap contains an interior NUL byte".to_owned());
        }
        index = index + 1;
    }
    Ok(text_of(&characters))
}

/// Whether a key, in the group that is in force, gives a symbol with modifiers held:
/// codes are those of the key map less eight, and a key whose layouts are fewer than
/// the groups uses them in turn.
pub open spec fn key_gives(key: XkbKey, group: u32, keysym: u32, stroke: TextStroke) -> bool {
    &&& key.keycode == stroke.key + 8
    &&& key.layouts@.len() > 0
    &&& exists|l: int, m: int|
        0 <= l < key.layouts@[group as int % key.layouts@.len() as int]@.len() && 0 <= m
            < key.layouts@[group as int % key.layouts@.len() as int]@[l].masks@.len()
            && key.layouts@[group as int % key.layouts@.len() as int]@[l].keysyms@.contains(keysym)
            && #[trigger] key.layouts@[group as int
            % key.layouts@.len() as int]@[l].masks@[m] == stroke.modifiers
}

/// The symbol that a character is typed by, where the key map's library gives
/// `looked_up` for it.
pub open spec fn symbol_to_type(character: char, looked_up: u32) -> u32 {
    match character {
        '\n' => 0xff0d,
        '\r' => 0xff0d,
        '\t' => 0xff09,
        _ => looked_up,
    }
}

proof fn key_that_gives(keys: Seq<XkbKey>, group: u32, keysym: u32, stroke: TextStroke)
    ensures
        gives(keys, group, keysym, stroke) <==> exists|k: int|
            0 <= k < keys.len() && key_gives(#[trigger] keys[k], group, keysym, stroke),
{
    if gives(keys, group, keysym, stroke) {
        let (k, l, m) = choose|k: int, l: int, m: int|
            gives_at(keys, group, keysym, stroke, k, l, m);
        assert(keys[k].layouts@[group as int % keys[k].layouts@.len() as int]@[l].masks@[m]
            == stroke.modifiers);
        assert(key_gives(keys[k], group, keysym, stroke));
    }
    if exists|k: int| 0 <= k < keys.len() && key_gives(#[trigger] keys[k], group, keysym, stroke) {
        let k = choose|k: int|
            0 <= k < keys.len() && key_gives(#[trigger] keys[k], group, keysym, stroke);
        let levels = keys[k].layouts@[group as int % keys[k].layouts@.len() as int]@;
        let (l, m) = choose|l: int, m: int|
            0 <= l < levels.len() && 0 <= m < levels[l].masks@.len()
                && levels[l].keysyms@.contains(keysym) && #[trigger] levels[l].masks@[m]
                == stroke.modifiers;
        assert(gives_at(keys, group, keysym, stroke, k, l, m));
    }
}

proof fn strokes_answer_characters(
    keys: Seq<XkbKey>,
    group: u32,
    characters: Seq<char>,
    looked_up: Seq<u32>,
    count: nat,
    i: int,
)
    requires
        strokes_for(keys, group, characters, looked_up, count) is Ok,
        0 <= i < count,
    ensures
        ({
            let strokes = strokes_for(keys, group, characters, looked_up, count)->Ok_0;
            &&& strokes.len() == count
            &&& stroke_for(keys, group, keysym_of(characters[i], looked_up[i])) == Some(strokes[i])
        }),
    decreases count,
{
    if count == 1 {
        assert(strokes_for(keys, group, characters, looked_up, 0) == Ok::<
            Seq<TextStroke>,
            Seq<char>,
        >(Seq::empty()));
    } else {
        strokes_answer_characters(
            keys,
            group,
            characters,
            looked_up,
            (count - 1) as nat,
            if i < count - 1 {
                i
            } else {
                0
            },
        );
    }
}

/// A text is typed character by character: there are as many strokes as characters,
/// however they repeat, and each stroke gives the symbol of its own character and is
/// the simplest of those that do, by fewer modifiers and then by the lower key.
pub proof fn text_is_typed_in_order(
    table: XkbTable,
    group: u32,
    characters: Seq<char>,
    looked_up: Seq<u32>,
    i: int,
)
    requires
        characters.len() == looked_up.len(),
        plan_of(table, group, characters, looked_up) is Ok,
        0 <= i < characters.len(),
    ensures
        ({
            let strokes = plan_of(table, group, characters, looked_up)->Ok_0.strokes;
            let keysym = symbol_to_type(characters[i], looked_up[i]);
            &&& strokes.len() == characters.len()
            &&& keysym != 0
            &&& exists|k: int|
                0 <= k < table.keys@.len() && key_gives(
                    #[trigger] table.keys@[k],
                    group,
                    keysym,
                    strokes[i],
                )
            &&& forall|k: int, other: TextStroke|
                0 <= k < table.keys@.len() && #[trigger] key_gives(
                    table.keys@[k],
                    group,
                    keysym,
                    other,
                ) ==> ones(strokes[i].modifiers) < ones(other.modifiers) || (ones(
                    strokes[i].modifiers,
                ) == ones(other.modifiers) && strokes[i].key <= other.key)
        }),
{
    let keys = table.keys@;
    let strokes = plan_of(table, group, characters, looked_up)->Ok_0.strokes;
    let keysym = symbol_to_type(characters[i], looked_up[i]);
    strokes_answer_characters(keys, group, characters, looked_up, characters.len(), i);
    chosen_stroke_is_simplest(keys, group, keysym, strokes[i]);
    key_that_gives(keys, group, keysym, strokes[i]);
    assert forall|k: int, other: TextStroke|
        0 <= k < table.keys@.len() && #[trigger] key_gives(
            table.keys@[k],
            group,
            keysym,
            other,
        ) implies ones(strokes[i].modifiers) < ones(other.modifiers) || (ones(strokes[i].modifiers)
        == ones(other.modifiers) && strokes[i].key <= other.key) by {
        key_that_gives(keys, group, keysym, other);
        chosen_stroke_is_simplest(keys, group, keysym, other);
    }
}

/// Whether a character of a text has a symbol that some key gives.
pub open spec fn can_be_typed(
    keys: Seq<XkbKey>,
    group: u32,
    character: char,
    looked_up: u32,
) -> bool {
    symbol_to_type(character, looked_up) != 0 && exists|k: int, stroke: TextStroke|
        0 <= k < keys.len() && #[trigger] key_gives(
            keys[k],
            group,
            symbol_to_type(character, looked_up),
            stroke,
        )
}

proof fn stroke_is_there(keys: Seq<XkbKey>, group: u32, character: char, looked_up: u32)
    ensures
        stroke_for(keys, group, keysym_of(character, looked_up)) is Some <==> can_be_typed(
            keys,
            group,
            character,
            looked_up,
        ),
{
    let keysym = symbol_to_type(character, looked_up);
    if keysym != 0 {
        if let Some(stroke) = stroke_for(keys, group, keysym) {
            chosen_stroke_is_simplest(keys, group, keysym, stroke);
            key_that_gives(keys, group, keysym, stroke);
            let k = choose|k: int|
                0 <= k < keys.len() && key_gives(#[trigger] keys[k], group, keysym, stroke);
            assert(key_gives(keys[k], group, keysym, stroke));
        }
        if can_be_typed(keys, group, character, looked_up) {
            let (k, stroke) = choose|k: int, stroke: TextStroke|
                0 <= k < keys.len() && #[trigger] key_gives(keys[k], group, keysym, stroke);
            key_that_gives(keys, group, keysym, stroke);
            chosen_stroke_is_simplest(keys, group, keysym, stroke);
        }
    }
}

proof fn first_failure_is_told(
    keys: Seq<XkbKey>,
    group: u32,
    characters: Seq<char>,
    looked_up: Seq<u32>,
    count: nat,
)
    ensures
        strokes_for(keys, group, characters, looked_up, count) is Ok <==> forall|i: int|
            0 <= i < count ==> can_be_typed(keys, group, #[trigger] characters[i], looked_up[i]),
        strokes_for(keys, group, characters, looked_up, count) matches Err(message) ==> exists|i: int|
            0 <= i < count && !can_be_typed(keys, group, #[trigger] characters[i], looked_up[i])
                && message == unreachable_character(characters[i], group) && forall|j: int|
                0 <= j < i ==> can_be_typed(keys, group, #[trigger] characters[j], looked_up[j]),
    decreases count,
{
    if count > 0 {
        first_failure_is_told(keys, group, characters, looked_up, (count - 1) as nat);
        stroke_is_there(keys, group, characters[count - 1], looked_up[count - 1]);
        assert(characters[count - 1] == characters[count - 1]);
    }
}

/// A text is refused exactly where it has a character that no key gives, and what is
/// said names the first of these and the group.
pub proof fn untypable_text_is_refused(
    table: XkbTable,
    group: u32,
    characters: Seq<char>,
    looked_up: Seq<u32>,
)
    requires
        characters.len() == looked_up.len(),
    ensures
        plan_of(table, group, characters, looked_up) is Ok <==> forall|i: int|
            0 <= i < characters.len() ==> can_be_typed(
                table.keys@,
                group,
                #[trigger] characters[i],
                looked_up[i],
            ),
        plan_of(table, group, characters, looked_up) matches Err(message) ==> exists|i: int|
            0 <= i < characters.len() && !can_be_typed(
                table.keys@,
                group,
                #[trigger] characters[i],
                looked_up[i],
            ) && message == unreachable_character(characters[i], group) && forall|j: int|
                0 <= j < i ==> can_be_typed(
                    table.keys@,
                    group,
                    #[trigger] characters[j],
                    looked_up[j],
                ),
{
    first_failure_is_told(table.keys@, group, characters, looked_up, characters.len());
}

/// A plan names each modifier by the bit at its own place in the key map, and by none
/// where the key map has no such place.
pub proof fn modifiers_stand_at_their_places(
    table: XkbTable,
    group: u32,
    characters: Seq<char>,
    looked_up: Seq<u32>,
)
    requires
        plan_of(table, group, characters, looked_up) is Ok,
    ensures
        ({
            let plan = plan_of(table, group, characters, looked_up)->Ok_0;
            &&& is_bit(plan.shift_modifier, table.shift_index)
            &&& is_bit(plan.control_modifier, table.control_index)
            &&& is_bit(plan.alt_modifier, table.alt_index)
            &&& is_bit(plan.logo_modifier, table.logo_index)
        }),
{
    bit_is_a_power(table.shift_index);
    bit_is_a_power(table.control_index);
    bit_is_a_power(table.alt_index);
    bit_is_a_power(table.logo_index);
}

/// Whether a mask is that of one bit.
pub open spec fn is_bit(mask: Option<u32>, index: u32) -> bool {
    match mask {
        Some(bit) => index < 32 && bit == vstd::arithmetic::power2::pow2(index as nat),
        None => index >= 32,
    }
}

proof fn bit_is_a_power(index: u32)
    ensures
        is_bit(mask_of(index), index),
{
    if index < 32 {
        vstd::bits::lemma_u32_pow2_no_overflow(index as nat);
        vstd::bits::lemma_u32_shl_is_mul(1, index);
    }
}

/// No bit is set in zero, and each bit that is set counts one.
pub proof fn bits_are_counted(bits: u32, place: nat)
    requires
        bits + vstd::arithmetic::power2::pow2(place) <= u32::MAX,
        (bits as nat / vstd::arithmetic::power2::pow2(place)) % 2 == 0,
    ensures
        ones(0) == 0,
        ones((bits + vstd::arithmetic::power2::pow2(place)) as u32) == ones(bits) + 1,
    decreases place,
{
    vstd::arithmetic::power2::lemma2_to64();
    let power = vstd::arithmetic::power2::pow2(place);
    let more = (bits + power) as u32;
    if place == 0 {
        assert(bits as nat / 1 == bits);
        assert(bits % 2 == 0);
        assert(more / 2 == bits / 2);
    } else {
        vstd::arithmetic::power2::lemma_pow2_unfold(place);
        let half = vstd::arithmetic::power2::pow2((place - 1) as nat);
        vstd::arithmetic::power2::lemma_pow2_pos((place - 1) as nat);
        vstd::arithmetic::div_mod::lemma_div_denominator(bits as int, 2, half as int);
        bits_are_counted(bits / 2, (place - 1) as nat);
        assert(more / 2 == bits / 2 + half);
        assert(more % 2 == bits % 2);
    }
}

proof fn ends_are_trimmed(characters: Seq<char>)
    ensures
        ({
            let kept = trimmed(characters);
            &&& kept.len() <= characters.len()
            &&& kept == characters.take(kept.len() as int)
            &&& kept.len() > 0 ==> kept.last() != '\0'
            &&& forall|i: int|
                kept.len() <= i < characters.len() ==> #[trigger] characters[i] == '\0'
        }),
    decreases characters.len(),
{
    if characters.len() > 0 && characters.last() == '\0' {
        ends_are_trimmed(characters.drop_last());
        assert forall|i: int|
            trimmed(characters).len() <= i < characters.len() implies #[trigger] characters[i]
            == '\0' by {
            if i < characters.len() - 1 {
                assert(characters.drop_last()[i] == '\0');
            }
        }
    }
}

/// A key map is handed on without the NUL characters that follow its text, and is
/// refused exactly where something else follows such a character.
pub proof fn keymap_keeps_its_text(keymap: Seq<char>)
    ensures
        source_of(keymap) matches Ok(source) ==> source.len() <= keymap.len() && source
            == keymap.take(source.len() as int) && !source.contains('\0') && forall|i: int|
            source.len() <= i < keymap.len() ==> #[trigger] keymap[i] == '\0',
        source_of(keymap) is Err <==> exists|i: int, j: int|
            0 <= i < j < keymap.len() && #[trigger] keymap[i] == '\0' && #[trigger] keymap[j]
                != '\0',
{
    ends_are_trimmed(keymap);
    let kept = trimmed(keymap);
    if kept.contains('\0') {
        let i = choose|i: int| 0 <= i < kept.len() && kept[i] == '\0';
        let j = kept.len() - 1;
        assert(keymap[i] == '\0' && keymap[j] != '\0');
    }
    if exists|i: int, j: int|
        0 <= i < j < keymap.len() && #[trigger] keymap[i] == '\0' && #[trigger] keymap[j] != '\0' {
        let (i, j) = choose|i: int, j: int|
            0 <= i < j < keymap.len() && #[trigger] keymap[i] == '\0' && #[trigger] keymap[j]
                != '\0';
        assert(j < kept.len());
        assert(kept[i] == '\0');
    }
}

} // verus!
