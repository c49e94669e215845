//! Descriptors of menu items, the requests that insert them, and a record of
//! the menu's items by which a selected position is resolved to an id.

use vstd::prelude::*;
use crate::dispatch::{event_of, NO_SELECTION};
use crate::event::SystrayEvent;
use crate::native::{
    mft_separator, MFT_SEPARATOR, MFT_STRING, MIIM_FTYPE, MIIM_ID, MIIM_STATE, MIIM_STRING,
};
use crate::operation::Operation;
use crate::text::wide;

verus! {

/// What the platform is told of a menu item. Fields of the platform's
/// descriptor that this crate never sets are left out; they are zero.
#[derive(Clone, Debug, PartialEq, Eq)]
pub struct MenuItemInfo {
    /// Which of the following fields are valid.
    pub mask: u32,
    /// The item's type: text or separator.
    pub kind: u32,
    /// The item's state.
    pub state: u32,
    /// The id that the application chose for the item.
    pub id: u32,
    /// The label as a zero-terminated wide string, if the item has one.
    pub text: Option<Vec<u16>>,
    /// The length that is declared for the label.
    pub cch: u32,
}

/// One request to insert an item into a menu.
#[derive(Clone, Debug, PartialEq, Eq)]
pub struct InsertMenuItem {
    /// The operation that the request belongs to.
    pub operation: Operation,
    /// The menu.
    pub hmenu: isize,
    /// Where the item goes.
    pub position: u32,
    /// Whether `position` counts positions rather than names an id.
    pub by_position: bool,
    /// The item.
    pub item: MenuItemInfo,
}

/// How an item shows: as a text label or as a separator line.
#[derive(Clone, Copy, Debug, PartialEq, Eq, Structural)]
pub enum ItemKind {
    Text,
    Separator,
}

/// An item of the menu: where it was inserted, its id and how it shows.
#[derive(Clone, Copy, Debug, PartialEq, Eq, Structural)]
pub struct MenuItem {
    pub position: u32,
    pub id: u32,
    pub kind: ItemKind,
}

/// The items of a menu in the order in which they were inserted. Items are
/// never removed.
#[derive(Clone, Debug)]
pub struct Menu {
    items: Vec<MenuItem>,
}

/// The mask of a text item: type, text, id and state are given.
pub open spec fn entry_mask() -> u32 {
    MIIM_FTYPE | MIIM_STRING | MIIM_ID | MIIM_STATE
}

/// The mask of a separator: type and id are given.
pub open spec fn separator_mask() -> u32 {
    MIIM_FTYPE | MIIM_ID
}

/// The length declared for a label of `byte_len` bytes: twice that, in 32 bits.
pub open spec fn declared_length(byte_len: nat) -> u32 {
    ((2 * byte_len) % 0x1_0000_0000) as u32
}

impl MenuItemInfo {
    /// The descriptor with nothing set.
    pub open spec fn is_blank(self) -> bool {
        &&& self.mask == 0
        &&& self.kind == 0
        &&& self.state == 0
        &&& self.id == 0
        &&& self.text is None
        &&& self.cch == 0
    }

    /// The descriptor of a text item with the id `id`, whose label is `label`
    /// and takes `byte_len` bytes.
    pub open spec fn is_entry(self, id: u32, label: Seq<char>, byte_len: nat) -> bool {
        &&& self.mask == entry_mask()
        &&& self.kind == MFT_STRING
        &&& self.state == 0
        &&& self.id == id
        &&& self.text is Some
        &&& self.text->Some_0@ == wide(label)
        &&& self.cch == declared_length(byte_len)
    }

    /// The descriptor of a separator with the id `id`.
    pub open spec fn is_separator(self, id: u32) -> bool {
        &&& self.mask == separator_mask()
        &&& self.kind == MFT_SEPARATOR
        &&& self.state == 0
        &&& self.id == id
        &&& self.text is None
        &&& self.cch == 0
    }
}

impl InsertMenuItem {
    /// The request that inserts a text item with the id `id` into `hmenu`, at
    /// the position `id`.
    pub open spec fn is_entry(self, hmenu: isize, id: u32, label: Seq<char>, byte_len: nat) -> bool {
        &&& self.operation == Operation::InsertMenuItem
        &&& self.hmenu == hmenu
        &&& self.position == id
        &&& self.by_position
        &&& self.item.is_entry(id, label, byte_len)
    }

    /// The request that inserts a separator with the id `id` into `hmenu`, at
    /// the position `id`.
    pub open spec fn is_separator(self, hmenu: isize, id: u32) -> bool {
        &&& self.operation == Operation::InsertSeparator
        &&& self.hmenu == hmenu
        &&& self.position == id
        &&& self.by_position
        &&& self.item.is_separator(id)
    }

    /// The item that the menu holds once the request has been carried out.
    pub open spec fn inserted(self) -> MenuItem {
        MenuItem {
            position: self.position,
            id: self.item.id,
            kind: if self.item.kind == MFT_SEPARATOR {
                ItemKind::Separator
            } else {
                ItemKind::Text
            },
        }
    }

    /// The item that the menu holds once the request has been carried out.
    pub fn item(&self) -> (m: MenuItem)
        ensures
            m == self.inserted(),
    {
        let kind = if self.item.kind == mft_separator() {
            ItemKind::Separator
        } else {
            ItemKind::Text
        };
        MenuItem { position: self.position, id: self.item.id, kind }
    }
}

/// A descriptor of a menu item with nothing set.
pub fn get_menu_item_struct() -> (item: MenuItemInfo)
    ensures
        item.is_blank(),
{
    MenuItemInfo { mask: 0, kind: 0, state: 0, id: 0, text: None, cch: 0 }
}

/// The id that the selected position `position` resolves to: that of the item
/// inserted there, of the latest one if several were; [`NO_SELECTION`] if none was.
pub open spec fn resolve(items: Seq<MenuItem>, position: u32) -> u32
    decreases items.len(),
{
    if items.len() == 0 {
        NO_SELECTION
    } else if items.last().position == position {
        items.last().id
    } else {
        resolve(items.drop_last(), position)
    }
}

/// No two items were inserted at the same position.
pub open spec fn distinct_positions(items: Seq<MenuItem>) -> bool {
    forall|i: int, j: int|
        0 <= i < items.len() && 0 <= j < items.len() && i != j ==> items[i].position
            != items[j].position
}

impl View for Menu {
    type V = Seq<MenuItem>;

    closed spec fn view(&self) -> Seq<MenuItem> {
        self.items@
    }
}

impl Menu {
    /// A menu without items.
    pub fn new() -> (menu: Menu)
        ensures
            menu@ == Seq::<MenuItem>::empty(),
    {
        Menu { items: Vec::new() }
    }

    /// The number of items.
    pub fn len(&self) -> (n: usize)
        ensures
            n == self@.len(),
    {
        self.items.len()
    }

    /// The item that was inserted as the `index`-th, counting from zero.
    pub fn get(&self, index: usize) -> (item: Option<MenuItem>)
        ensures
            item == (if index < self@.len() {
                Some(self@[index as int])
            } else {
                None
            }),
    {
        if index < self.items.len() {
            Some(self.items[index])
        } else {
            None
        }
    }

    /// Records `item` as inserted after all the others.
    pub fn insert(&mut self, item: MenuItem)
        ensures
            final(self)@ == old(self)@.push(item),
    {
        self.items.push(item);
    }

    /// Resolves a selected position to the id of the item there.
    pub fn item_id(&self, position: u32) -> (id: u32)
        ensures
            id == resolve(self@, position),
    {
        let mut i: usize = self.items.len();
        assert(self.items@.take(i as int) =~= self.items@);
        while i > 0
            invariant
                i <= self.items@.len(),
                resolve(self.items@, position) == resolve(self.items@.take(i as int), position),
            decreases i,
        {
            i = i - 1;
            let item = self.items[i];
            assert(self.items@.take(i + 1).drop_last() =~= self.items@.take(i as int));
            if item.position == position {
                return item.id;
            }
        }
        NO_SELECTION
    }
}

/// Where positions are distinct, the position of an item resolves to its id.
pub proof fn lemma_resolve_finds_item(items: Seq<MenuItem>, i: int)
    requires
        distinct_positions(items),
        0 <= i < items.len(),
    ensures
        resolve(items, items[i].position) == items[i].id,
    decreases items.len(),
{
    if i < items.len() - 1 {
        let rest = items.drop_last();
        assert(distinct_positions(rest));
        lemma_resolve_finds_item(rest, i);
    }
}

/// The menu that a succession of insertions leaves, each given by the id and
/// the kind of its item: every item sits at the position that is its id.
pub open spec fn menu_after(calls: Seq<(u32, ItemKind)>) -> Seq<MenuItem> {
    Seq::new(
        calls.len(),
        |k: int| MenuItem { position: calls[k].0, id: calls[k].0, kind: calls[k].1 },
    )
}

/// One more insertion puts its item after those that the menu holds already.
pub proof fn lemma_menu_after_insertion(calls: Seq<(u32, ItemKind)>, id: u32, kind: ItemKind)
    ensures
        menu_after(calls.push((id, kind))) == menu_after(calls).push(
            MenuItem { position: id, id, kind },
        ),
{
    assert(menu_after(calls.push((id, kind))) =~= menu_after(calls).push(
        MenuItem { position: id, id, kind },
    ));
}

/// After any succession of insertions of text items and separators whose ids
/// are distinct, the selection of an item at its position yields the event that
/// carries the item's id, unless that id is the one that stands for no selection.
pub proof fn lemma_selection_yields_item_id(calls: Seq<(u32, ItemKind)>, i: int)
    requires
        forall|a: int, b: int|
            0 <= a < calls.len() && 0 <= b < calls.len() && a != b ==> calls[a].0 != calls[b].0,
        0 <= i < calls.len(),
        calls[i].0 != NO_SELECTION,
    ensures
        event_of(resolve(menu_after(calls), menu_after(calls)[i].position)) == Some(
            SystrayEvent { menu_index: calls[i].0 },
        ),
{
    lemma_resolve_finds_item(menu_after(calls), i);
}

} // verus!
