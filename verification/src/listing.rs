//! From a directory listing to the entries of a file list, and from a
//! workbook's sheet names to the entries of a sheet list.

use vstd::prelude::*;
use vstd::utf8::encode_utf8;
use crate::handle::Handle;
use crate::style::Style;
use crate::widgets::picker_item_widget::{Callback, PickerItem, PickerItemView};
use crate::widgets::picker_widget::item_views;

verus! {

/// One entry of a directory: the path that opens it and its file name.
#[derive(Debug, PartialEq, Eq)]
pub struct Entry {
    pub path: String,
    pub name: String,
}

/// A directory entry with its texts as sequences of characters.
pub struct EntryView {
    pub path: Seq<char>,
    pub name: Seq<char>,
}

impl View for Entry {
    type V = EntryView;

    open spec fn view(&self) -> EntryView {
        EntryView { path: self.path@, name: self.name@ }
    }
}

impl Clone for Entry {
    fn clone(&self) -> (copy: Entry)
        ensures
            copy@ == self@,
    {
        Entry { path: self.path.clone(), name: self.name.clone() }
    }
}

/// Directory entries as plain values, in order.
pub open spec fn entry_views(entries: Seq<Entry>) -> Seq<EntryView> {
    Seq::new(entries.len(), |i: int| entries[i]@)
}

/// Texts as sequences of characters, in order.
pub open spec fn strings_view(texts: Seq<String>) -> Seq<Seq<char>> {
    Seq::new(texts.len(), |i: int| texts[i]@)
}

/// The bytes of `.xlsx`.
pub open spec fn xlsx_suffix() -> Seq<u8> {
    seq![0x2eu8, 0x78u8, 0x6cu8, 0x73u8, 0x78u8]
}

/// Whether a file name is that of a spreadsheet: written out in UTF-8 it
/// ends in `.xlsx`, with at least one byte before the dot.
pub open spec fn is_xlsx(name: Seq<char>) -> bool {
    let bytes = encode_utf8(name);
    bytes.len() > 5 && bytes.subrange(bytes.len() - 5, bytes.len() as int) == xlsx_suffix()
}

/// The test of `is_xlsx` on the name of an entry, as a function value.
pub open spec fn xlsx_test() -> spec_fn(EntryView) -> bool {
    |entry: EntryView| is_xlsx(entry.name)
}

/// The spreadsheets among the entries of a directory, in the directory's
/// order.
pub open spec fn xlsx_entries(entries: Seq<EntryView>) -> Seq<EntryView> {
    entries.filter(xlsx_test())
}

/// The entries of a file list: one per file, under the file's name, the
/// first one selected and highlighted, each with the action that opens its
/// path.
pub open spec fn file_items(files: Seq<EntryView>, parent: Handle) -> Seq<PickerItemView> {
    Seq::new(
        files.len(),
        |i: int|
            PickerItemView {
                text: files[i].name,
                selected: i == 0,
                parent,
                borders: PickerItemView::borders_for(i == 0),
                style: if i == 0 {
                    Style::highlighted()
                } else {
                    Style::plain()
                },
                callback: Some(files[i].path),
            },
    )
}

/// The entries of a sheet list before its list has marked them: one per
/// name, the first one selected and highlighted, none with an action.
pub open spec fn sheet_items(names: Seq<Seq<char>>, parent: Handle) -> Seq<PickerItemView> {
    Seq::new(
        names.len(),
        |i: int|
            PickerItemView {
                text: names[i],
                selected: i == 0,
                parent,
                borders: PickerItemView::borders_for(i == 0),
                style: if i == 0 {
                    Style::highlighted()
                } else {
                    Style::plain()
                },
                callback: None,
            },
    )
}

/// Whether `name` is the file name of a spreadsheet.
pub fn has_xlsx_extension(name: &str) -> (yes: bool)
    ensures
        yes == is_xlsx(name@),
{
    let bytes = name.as_bytes();
    let n = bytes.len();
    if n <= 5 {
        return false;
    }
    let yes = bytes[n - 5] == 0x2e && bytes[n - 4] == 0x78 && bytes[n - 3] == 0x6c && bytes[n - 2]
        == 0x73 && bytes[n - 1] == 0x78;
    proof {
        let tail = bytes@.subrange(n - 5, n as int);
        assert(tail.len() == 5);
        assert(tail[0] == bytes@[n - 5]);
        assert(tail[1] == bytes@[n - 4]);
        assert(tail[2] == bytes@[n - 3]);
        assert(tail[3] == bytes@[n - 2]);
        assert(tail[4] == bytes@[n - 1]);
        if yes {
            assert(tail =~= xlsx_suffix());
        }
    }
    yes
}

/// The spreadsheets among `entries`, in the order of `entries`.
pub fn xlsx_files(entries: &Vec<Entry>) -> (files: Vec<Entry>)
    ensures
        entry_views(files@) == xlsx_entries(entry_views(entries@)),
{
    let ghost all = entry_views(entries@);
    let mut files: Vec<Entry> = Vec::new();
    let mut i: usize = 0;
    proof {
        reveal_with_fuel(Seq::filter, 1);
        assert(all.take(0) =~= Seq::empty());
        assert(entry_views(files@) =~= all.take(0).filter(xlsx_test()));
    }
    while i < entries.len()
        invariant
            i <= entries.len(),
            all == entry_views(entries@),
            entry_views(files@) == all.take(i as int).filter(xlsx_test()),
        decreases entries.len() - i,
    {
        let ghost before = entry_views(files@);
        let keep = has_xlsx_extension(entries[i].name.as_str());
        if keep {
            files.push(entries[i].clone());
        }
        proof {
            reveal_with_fuel(Seq::filter, 1);
            assert(all.take(i + 1).drop_last() =~= all.take(i as int));
            assert(all.take(i + 1).last() == entries@[i as int]@);
            if keep {
                assert(entry_views(files@) =~= before.push(entries@[i as int]@));
            } else {
                assert(entry_views(files@) =~= before);
            }
        }
        i += 1;
    }
    proof {
        assert(all.take(entries.len() as int) =~= all);
    }
    files
}

/// The entries of a file list for the spreadsheets among `entries`: one per
/// spreadsheet, in the order of `entries`, listed under its file name, the
/// first one selected, each with the action that opens it.
pub fn xlsx_picker_items(entries: &Vec<Entry>, parent: Handle) -> (items: Vec<PickerItem>)
    ensures
        item_views(items@) == file_items(xlsx_entries(entry_views(entries@)), parent),
{
    let files = xlsx_files(entries);
    let ghost shown = entry_views(files@);
    let mut items: Vec<PickerItem> = Vec::new();
    let mut i: usize = 0;
    while i < files.len()
        invariant
            i <= files.len(),
            shown == entry_views(files@),
            items@.len() == i,
            forall|j: int| 0 <= j < i ==> (#[trigger] items@[j])@ == file_items(shown, parent)[j],
        decreases files.len() - i,
    {
        let action = Callback { path: files[i].path.clone() };
        let item = PickerItem::new(files[i].name.as_str(), i == 0, parent, Some(action));
        items.push(item);
        i += 1;
    }
    assert(item_views(items@) =~= file_items(shown, parent));
    items
}

/// The entries of a sheet list: one per name, in order, the first one
/// selected, none with an action.
pub fn sheet_picker_items(names: &Vec<String>, parent: Handle) -> (items: Vec<PickerItem>)
    ensures
        item_views(items@) == sheet_items(strings_view(names@), parent),
{
    let mut items: Vec<PickerItem> = Vec::new();
    let mut i: usize = 0;
    while i < names.len()
        invariant
            i <= names.len(),
            items@.len() == i,
            forall|j: int|
                0 <= j < i ==> (#[trigger] items@[j])@ == sheet_items(
                    strings_view(names@),
                    parent,
                )[j],
        decreases names.len() - i,
    {
        let item = PickerItem::new(names[i].as_str(), i == 0, parent, None);
        items.push(item);
        i += 1;
    }
    assert(item_views(items@) =~= sheet_items(strings_view(names@), parent));
    items
}

} // verus!
