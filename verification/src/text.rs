//! Text as the platform takes it: UTF-16 code units with a terminating zero, and
//! the fixed-capacity tooltip field.

use vstd::prelude::*;
use vstd::string::*;
use vstd::std_specs::iter::IteratorSpec;

verus! {

/// Number of code units in the tooltip field of a notification-icon descriptor.
pub const TOOLTIP_CAPACITY: usize = 128;

/// The UTF-16 code units of one character: the character itself below
/// `0x10000`, a high and a low surrogate above.
pub open spec fn utf16_units(c: char) -> Seq<u16> {
    let v = c as u32 as int;
    if v < 0x10000 {
        seq![v as u16]
    } else {
        seq![(0xD800 + (v - 0x10000) / 0x400) as u16, (0xDC00 + (v - 0x10000) % 0x400) as u16]
    }
}

/// The UTF-16 encoding of a text.
pub open spec fn utf16(s: Seq<char>) -> Seq<u16>
    decreases s.len(),
{
    if s.len() == 0 {
        Seq::empty()
    } else {
        utf16(s.drop_last()) + utf16_units(s.last())
    }
}

/// A text as a zero-terminated wide string.
pub open spec fn wide(s: Seq<char>) -> Seq<u16> {
    utf16(s).push(0u16)
}

/// The contents of the tooltip field for a text given by its code units: the
/// units up to the field's capacity, then zeros.
pub open spec fn tooltip_units(units: Seq<u16>) -> Seq<u16> {
    Seq::new(
        TOOLTIP_CAPACITY as nat,
        |i: int|
            if i < units.len() {
                units[i]
            } else {
                0u16
            },
    )
}

/// The contents of the tooltip field for a text: its wide characters, cut at
/// the field's capacity, the rest zero.
pub open spec fn tooltip_of(text: Seq<char>) -> Seq<u16> {
    tooltip_units(utf16(text))
}

/// Encoding a text one character longer appends that character's code units.
pub proof fn lemma_utf16_push(s: Seq<char>, c: char)
    ensures
        utf16(s.push(c)) == utf16(s) + utf16_units(c),
{
    assert(s.push(c).drop_last() =~= s);
}

/// The tooltip field always has its full capacity. A text whose wide
/// characters fill it or are more is cut to the capacity, never refused: the
/// field then holds the first of them, and what comes after has no part in it.
/// A shorter text is followed by zeros.
pub proof fn lemma_tooltip_is_cut(text: Seq<char>)
    ensures
        tooltip_of(text).len() == TOOLTIP_CAPACITY,
        utf16(text).len() >= TOOLTIP_CAPACITY ==> tooltip_of(text) == utf16(text).take(
            TOOLTIP_CAPACITY as int,
        ),
        utf16(text).len() < TOOLTIP_CAPACITY ==> tooltip_of(text) == utf16(text) + Seq::new(
            (TOOLTIP_CAPACITY - utf16(text).len()) as nat,
            |i: int| 0u16,
        ),
{
    let units = utf16(text);
    if units.len() >= TOOLTIP_CAPACITY {
        assert(tooltip_of(text) =~= units.take(TOOLTIP_CAPACITY as int));
    } else {
        assert(tooltip_of(text) =~= units + Seq::new(
            (TOOLTIP_CAPACITY - units.len()) as nat,
            |i: int| 0u16,
        ));
    }
}

/// Encodes `text` as UTF-16.
pub fn encode_utf16(text: &str) -> (w: Vec<u16>)
    ensures
        w@ == utf16(text@),
{
    broadcast use {axiom_spec_iter, next_postcondition};

    let mut w: Vec<u16> = Vec::new();
    let mut it = text.chars();
    let ghost mut done: Seq<char> = Seq::empty();
    loop
        invariant
            done + it.remaining() == text@,
            w@ == utf16(done),
            it.decrease() is Some,
        decreases it.decrease()->0,
    {
        match it.next() {
            None => {
                return w;
            },
            Some(c) => {
                proof {
                    lemma_utf16_push(done, c);
                    done = done.push(c);
                }
                let v: u32 = c as u32;
                if v < 0x10000 {
                    w.push(v as u16);
                } else {
                    let rest: u32 = v - 0x10000;
                    w.push((0xD800 + rest / 0x400) as u16);
                    w.push((0xDC00 + rest % 0x400) as u16);
                }
            },
        }
    }
}

/// Encodes `text` as UTF-16 and appends the terminating zero.
pub fn to_wstring(text: &str) -> (w: Vec<u16>)
    ensures
        w@ == wide(text@),
{
    let mut w = encode_utf16(text);
    w.push(0u16);
    w
}

/// Fills the tooltip field from `tooltip`: its wide characters, then zeros. A
/// text with more wide characters than the field holds is cut at the field's
/// capacity.
pub fn tooltip_field(tooltip: &str) -> (field: [u16; 128])
    ensures
        field@ == tooltip_of(tooltip@),
{
    let units = encode_utf16(tooltip);
    let mut field: [u16; 128] = [0u16; 128];
    let n: usize = if units.len() < TOOLTIP_CAPACITY {
        units.len()
    } else {
        TOOLTIP_CAPACITY
    };
    let mut i: usize = 0;
    while i < n
        invariant
            i <= n <= 128,
            n <= units@.len(),
            n == units@.len() || n == 128,
            forall|j: int| 0 <= j < i ==> field@[j] == units@[j],
            forall|j: int| i <= j < 128 ==> field@[j] == 0u16,
        decreases n - i,
    {
        field[i] = units[i];
        i = i + 1;
    }
    assert(field@ =~= tooltip_of(tooltip@));
    field
}

} // verus!
