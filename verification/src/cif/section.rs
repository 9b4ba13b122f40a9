//! Sections and their items, and the grammar of an item's line.
//!
//! A line is a key and a value. The key is one or more letters and digits.
//! The value is one or more groups, each of them a space followed by a
//! quoted string that is not empty or by one or more decimal digits. A line
//! of any other form holds no item.

use vstd::prelude::*;
use crate::cif::text::CharClass;
use crate::cif::text::chars_of;
use crate::cif::text::is_digit;
use crate::cif::text::is_digit_char;
use crate::cif::text::lemma_run_end;
use crate::cif::text::run_end;
use crate::cif::text::scan_run;
use crate::cif::text::slice_string;

verus! {

/// A key and the raw text of its value.
#[derive(Debug, Clone, PartialEq, Eq)]
pub struct Item {
    pub key: String,
    pub value: String,
}

/// The mathematical value of an `Item`.
pub struct ItemView {
    pub key: Seq<char>,
    pub value: Seq<char>,
}

impl View for Item {
    type V = ItemView;

    open spec fn view(&self) -> ItemView {
        ItemView { key: self.key@, value: self.value@ }
    }
}

/// A named group of items, in the order of their lines.
#[derive(Debug, Clone, PartialEq, Eq)]
pub struct Section {
    pub name: String,
    pub items: Vec<Item>,
}

/// The mathematical value of a `Section`.
pub struct SectionView {
    pub name: Seq<char>,
    pub items: Seq<ItemView>,
}

/// The mathematical values of a sequence of items.
pub open spec fn items_view(items: Seq<Item>) -> Seq<ItemView> {
    Seq::new(items.len(), |i: int| items[i]@)
}

impl View for Section {
    type V = SectionView;

    open spec fn view(&self) -> SectionView {
        SectionView { name: self.name@, items: items_view(self.items@) }
    }
}

/// Whether the text from `pos` on is a sequence of groups, up to its end.
pub open spec fn groups_from(s: Seq<char>, pos: int) -> bool
    decreases
            (if pos < s.len() {
                s.len() - pos
            } else {
                0
            }),
{
    if pos < 0 || pos >= s.len() {
        true
    } else if s[pos] != ' ' || pos + 1 >= s.len() {
        false
    } else if s[pos + 1] == '"' {
        let close = run_end(s, pos + 2, CharClass::NotQuote);
        pos + 2 < close && close < s.len() && groups_from(s, close + 1)
    } else if is_digit(s[pos + 1]) {
        let end = run_end(s, pos + 1, CharClass::Digit);
        pos + 1 < end && groups_from(s, end)
    } else {
        false
    }
}

/// The item that a line holds: the key is the run of letters and digits at
/// its start, and the value is what follows the space behind the key.
pub open spec fn item_of(line: Seq<char>) -> Option<ItemView> {
    let key_end = run_end(line, 0, CharClass::KeyChar);
    if 0 < key_end && key_end < line.len() && groups_from(line, key_end) {
        Some(ItemView { key: line.take(key_end), value: line.skip(key_end + 1) })
    } else {
        None
    }
}

/// Whether the groups that start at `pos` reach the end of the line.
fn check_groups(chars: &Vec<char>, pos: usize) -> (r: bool)
    requires
        pos <= chars@.len(),
    ensures
        r == groups_from(chars@, pos as int),
{
    let n: usize = chars.len();
    let mut at: usize = pos;
    while at < n
        invariant
            at <= n,
            n == chars@.len(),
            groups_from(chars@, at as int) == groups_from(chars@, pos as int),
        decreases n - at,
    {
        if chars[at] != ' ' || n - at < 2 {
            return false;
        }
        if chars[at + 1] == '"' {
            let close: usize = scan_run(chars, at + 2, CharClass::NotQuote);
            if close <= at + 2 || close >= n {
                return false;
            }
            at = close + 1;
        } else if is_digit_char(chars[at + 1]) {
            let end: usize = scan_run(chars, at + 1, CharClass::Digit);
            proof {
                lemma_run_end(chars@, at + 1, CharClass::Digit);
            }
            at = end;
        } else {
            return false;
        }
    }
    true
}

/// Takes a line apart into its key and its value. A line that does not
/// follow the grammar holds no item.
pub fn parse(line: String) -> (item: Option<Item>)
    ensures
        item is Some <==> item_of(line@) is Some,
        item matches Some(found) ==> Some(found@) == item_of(line@),
{
    let text: &str = line.as_str();
    let chars: Vec<char> = chars_of(text);
    let n: usize = chars.len();
    let key_end: usize = scan_run(&chars, 0, CharClass::KeyChar);
    if key_end == 0 || key_end >= n {
        return None;
    }
    if !check_groups(&chars, key_end) {
        return None;
    }
    let key: String = slice_string(text, 0, key_end);
    let value: String = slice_string(text, key_end + 1, n);
    Some(Item { key, value })
}

} // verus!
