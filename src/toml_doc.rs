//! TOML documents, seen through the few accessors that the game's
//! configuration needs: a key of a table, an element of an array, and the
//! integers, booleans and strings at the leaves.

use vstd::prelude::*;
use toml_edit::{Item, Table};

verus! {

#[verifier::external_type_specification]
#[verifier::external_body]
pub struct ExItem(Item);

#[verifier::external_type_specification]
#[verifier::external_body]
pub struct ExTable(Table);

/// The item under `key`, when `item` is a table or an inline table that has it.
pub uninterp spec fn toml_key(item: Item, key: Seq<char>) -> Option<Item>;

/// The element at `index`, when `item` is an array or an array of tables
/// that long.
pub uninterp spec fn toml_index(item: Item, index: int) -> Option<Item>;

/// The number of elements, when `item` is an array of values.
pub uninterp spec fn toml_array_len(item: Item) -> Option<nat>;

/// The number of tables, when `item` is an array of tables.
pub uninterp spec fn toml_tables_len(item: Item) -> Option<nat>;

/// The integer that `item` holds, if it holds one.
pub uninterp spec fn toml_integer(item: Item) -> Option<i64>;

/// The boolean that `item` holds, if it holds one.
pub uninterp spec fn toml_bool(item: Item) -> Option<bool>;

/// The string that `item` holds, if it holds one.
pub uninterp spec fn toml_str(item: Item) -> Option<Seq<char>>;

/// The entries of a table, each key with its item.
pub uninterp spec fn table_entries(table: Table) -> Map<Seq<char>, Item>;

/// Whether `item` is something rather than the empty placeholder
/// (`Item::None`), which tables hide.
pub uninterp spec fn toml_present(item: Item) -> bool;

/// Whether `table` shows an item under `key`.
pub open spec fn table_shows(table: Table, key: Seq<char>) -> bool {
    table_entries(table).contains_key(key) && toml_present(table_entries(table)[key])
}

/// `item` is the table `t`, seen through its keys: a key shows the entry
/// that the table shows under it, and nothing else.
pub open spec fn item_is_table(item: Item, t: Table) -> bool {
    forall|k: Seq<char>|
        (#[trigger] toml_key(item, k) is Some <==> table_shows(t, k)) && (toml_key(item, k) is Some
            ==> toml_key(item, k) == Some(table_entries(t)[k]))
}

/// Relies on `Item::get` with a string index.
#[verifier::external_body]
pub(crate) fn key_of<'a>(item: &'a Item, key: &str) -> (r: Option<&'a Item>)
    ensures
        r is Some <==> toml_key(*item, key@) is Some,
        r matches Some(c) ==> toml_key(*item, key@) == Some(*c),
{
    item.get(key)
}

/// Relies on `Item::get` with a numeric index.
#[verifier::external_body]
pub(crate) fn index_of<'a>(item: &'a Item, index: usize) -> (r: Option<&'a Item>)
    ensures
        r is Some <==> toml_index(*item, index as int) is Some,
        r matches Some(c) ==> toml_index(*item, index as int) == Some(*c),
{
    item.get(index)
}

/// Relies on `Item::as_array` and `Array::len`.
#[verifier::external_body]
pub(crate) fn array_len(item: &Item) -> (r: Option<usize>)
    ensures
        r is Some <==> toml_array_len(*item) is Some,
        r matches Some(n) ==> toml_array_len(*item) == Some(n as nat),
{
    item.as_array().map(toml_edit::Array::len)
}

/// Relies on `Item::as_array_of_tables` and `ArrayOfTables::len`.
#[verifier::external_body]
pub(crate) fn tables_len(item: &Item) -> (r: Option<usize>)
    ensures
        r is Some <==> toml_tables_len(*item) is Some,
        r matches Some(n) ==> toml_tables_len(*item) == Some(n as nat),
{
    item.as_array_of_tables().map(toml_edit::ArrayOfTables::len)
}

/// Relies on `Item::as_integer`.
#[verifier::external_body]
pub(crate) fn integer_of(item: &Item) -> (r: Option<i64>)
    ensures
        r == toml_integer(*item),
{
    item.as_integer()
}

/// Relies on `Item::as_bool`.
#[verifier::external_body]
pub(crate) fn bool_of(item: &Item) -> (r: Option<bool>)
    ensures
        r == toml_bool(*item),
{
    item.as_bool()
}

/// Relies on `Item::as_str`.
#[verifier::external_body]
pub(crate) fn str_of<'a>(item: &'a Item) -> (r: Option<&'a str>)
    ensures
        r is Some <==> toml_str(*item) is Some,
        r matches Some(s) ==> toml_str(*item) == Some(s@),
{
    item.as_str()
}

/// Relies on `Table::new`: a table with no entries.
#[verifier::external_body]
pub(crate) fn new_table() -> (r: Table)
    ensures
        table_entries(r).dom() == Set::<Seq<char>>::empty(),
{
    Table::new()
}

/// Relies on `Table::insert`: the key is set to the item, replacing any
/// earlier one, and the other entries stay.
#[verifier::external_body]
pub(crate) fn put(table: &mut Table, key: &str, value: Item)
    ensures
        table_entries(*final(table)) == table_entries(*old(table)).insert(key@, value),
{
    table.insert(key, value);
}

/// Relies on `toml_edit::value` for an `i64`: an item holding the integer.
#[verifier::external_body]
pub(crate) fn integer_item(v: i64) -> (r: Item)
    ensures
        toml_integer(r) == Some(v),
        toml_present(r),
{
    toml_edit::value(v)
}

/// Relies on `toml_edit::value` for a `bool`: an item holding the boolean.
#[verifier::external_body]
pub(crate) fn bool_item(v: bool) -> (r: Item)
    ensures
        toml_bool(r) == Some(v),
        toml_present(r),
{
    toml_edit::value(v)
}

/// Relies on `toml_edit::value` for a `&str`: an item holding the string.
#[verifier::external_body]
pub(crate) fn str_item(v: &str) -> (r: Item)
    ensures
        toml_str(r) == Some(v@),
        toml_present(r),
{
    toml_edit::value(v)
}

/// Relies on `Value`'s `FromIterator` and `toml_edit::value`: an array
/// item whose elements hold the strings, in order.
#[verifier::external_body]
pub(crate) fn strings_item(v: &Vec<String>) -> (r: Item)
    ensures
        toml_present(r),
        toml_array_len(r) == Some(v@.len()),
        forall|i: int| 0 <= i < v@.len() ==> #[trigger] toml_index(r, i) is Some && toml_str(
            toml_index(r, i)->0,
        ) == Some(v@[i]@),
{
    toml_edit::value(v.iter().collect::<toml_edit::Value>())
}

/// Relies on `Value`'s `FromIterator` and `toml_edit::value`: an array
/// item whose elements hold the integers, in order.
#[verifier::external_body]
pub(crate) fn integers_item(v: &Vec<i64>) -> (r: Item)
    ensures
        toml_present(r),
        toml_array_len(r) == Some(v@.len()),
        forall|i: int| 0 <= i < v@.len() ==> #[trigger] toml_index(r, i) is Some && toml_integer(
            toml_index(r, i)->0,
        ) == Some(v@[i]),
{
    toml_edit::value(v.iter().copied().collect::<toml_edit::Value>())
}

/// Relies on `Item::Table` and `Table::get`: the item is the table, and a
/// key of it shows the table's entry unless that entry is `Item::None`.
#[verifier::external_body]
pub(crate) fn table_item(t: Table) -> (r: Item)
    ensures
        toml_present(r),
        item_is_table(r, t),
{
    Item::Table(t)
}

/// Relies on `ArrayOfTables`'s `FromIterator`, `Item::ArrayOfTables` and
/// `Item::get` with a numeric index: an array-of-tables item whose element
/// `i` is table `i`.
#[verifier::external_body]
pub(crate) fn tables_item(tables: Vec<Table>) -> (r: Item)
    ensures
        toml_present(r),
        toml_tables_len(r) == Some(tables@.len()),
        forall|i: int| 0 <= i < tables@.len() ==> #[trigger] toml_index(r, i) is Some && item_is_table(
            toml_index(r, i)->0,
            tables@[i],
        ),
{
    Item::ArrayOfTables(tables.into_iter().collect::<toml_edit::ArrayOfTables>())
}

/// Relies on `Table::get`: the entry under the key, unless it is missing
/// or `Item::None`.
#[verifier::external_body]
pub(crate) fn table_get<'a>(t: &'a Table, key: &str) -> (r: Option<&'a Item>)
    ensures
        r is Some <==> table_shows(*t, key@),
        r matches Some(x) ==> *x == table_entries(*t)[key@],
{
    t.get(key)
}

/// Relies on `Table::contains_key`: whether the table shows an entry under
/// the key.
#[verifier::external_body]
pub(crate) fn has_key(t: &Table, key: &str) -> (r: bool)
    ensures
        r == table_shows(*t, key@),
{
    t.contains_key(key)
}

/// Relies on `Item::as_table` and `Table`'s `Clone`: a copy of the table
/// that `item` is, if it is a (non-inline) table.
#[verifier::external_body]
pub(crate) fn table_of(item: &Item) -> (r: Option<Table>)
    ensures
        r matches Some(t) ==> item_is_table(*item, t),
{
    item.as_table().cloned()
}

/// The table under `key` of `root`, copied so that it can be edited in
/// place of the original, or a new one when `root` shows no table there.
pub(crate) fn base_table(root: &Table, key: &str) -> Table {
    match table_get(root, key) {
        Some(item) => match table_of(item) {
            Some(t) => t,
            None => new_table(),
        },
        None => new_table(),
    }
}

/// The integer under `key`.
pub open spec fn key_integer(item: Item, key: Seq<char>) -> Option<i64> {
    match toml_key(item, key) {
        Some(c) => toml_integer(c),
        None => None,
    }
}

/// The boolean under `key`.
pub open spec fn key_bool(item: Item, key: Seq<char>) -> Option<bool> {
    match toml_key(item, key) {
        Some(c) => toml_bool(c),
        None => None,
    }
}

/// The string under `key`.
pub open spec fn key_str(item: Item, key: Seq<char>) -> Option<Seq<char>> {
    match toml_key(item, key) {
        Some(c) => toml_str(c),
        None => None,
    }
}

/// The strings of an array whose elements are all strings.
pub open spec fn array_strings(item: Item) -> Option<Seq<Seq<char>>> {
    match toml_array_len(item) {
        Some(n) => if forall|i: int| 0 <= i < n ==> #[trigger] toml_index(item, i) is Some && toml_str(
            toml_index(item, i)->0,
        ) is Some {
            Some(Seq::new(n, |i: int| toml_str(toml_index(item, i)->0)->0))
        } else {
            None
        },
        None => None,
    }
}

/// The integers of an array whose elements are all integers.
pub open spec fn array_integers(item: Item) -> Option<Seq<i64>> {
    match toml_array_len(item) {
        Some(n) => if forall|i: int| 0 <= i < n ==> #[trigger] toml_index(item, i) is Some && toml_integer(
            toml_index(item, i)->0,
        ) is Some {
            Some(Seq::new(n, |i: int| toml_integer(toml_index(item, i)->0)->0))
        } else {
            None
        },
        None => None,
    }
}

pub fn key_integer_of(item: &Item, key: &str) -> (r: Option<i64>)
    ensures
        r == key_integer(*item, key@),
{
    match key_of(item, key) {
        Some(c) => integer_of(c),
        None => None,
    }
}

pub fn key_bool_of(item: &Item, key: &str) -> (r: Option<bool>)
    ensures
        r == key_bool(*item, key@),
{
    match key_of(item, key) {
        Some(c) => bool_of(c),
        None => None,
    }
}

pub fn key_string_of(item: &Item, key: &str) -> (r: Option<String>)
    ensures
        r is Some <==> key_str(*item, key@) is Some,
        r matches Some(s) ==> key_str(*item, key@) == Some(s@),
{
    match key_of(item, key) {
        Some(c) => match str_of(c) {
            Some(s) => Some(s.to_owned()),
            None => None,
        },
        None => None,
    }
}

/// The strings of an array item; `None` unless it is an array of strings.
pub fn strings_of(item: &Item) -> (r: Option<Vec<String>>)
    ensures
        r is Some <==> array_strings(*item) is Some,
        r matches Some(v) ==> v@.map_values(|s: String| s@) == array_strings(*item)->0,
{
    let n = match array_len(item) {
        Some(n) => n,
        None => return None,
    };
    let mut out: Vec<String> = Vec::new();
    let mut i: usize = 0;
    while i < n
        invariant
            i <= n,
            toml_array_len(*item) == Some(n as nat),
            out@.len() == i,
            forall|j: int| 0 <= j < i ==> #[trigger] toml_index(*item, j) is Some && toml_str(
                toml_index(*item, j)->0,
            ) == Some(out@[j]@),
        decreases n - i,
    {
        let s = match index_of(item, i) {
            Some(e) => match str_of(e) {
                Some(s) => s,
                None => return None,
            },
            None => return None,
        };
        out.push(s.to_owned());
        i = i + 1;
    }
    assert(out@.map_values(|s: String| s@) =~= array_strings(*item)->0);
    Some(out)
}

/// The integers of an array item; `None` unless it is an array of integers.
pub fn integers_of(item: &Item) -> (r: Option<Vec<i64>>)
    ensures
        r is Some <==> array_integers(*item) is Some,
        r matches Some(v) ==> v@ == array_integers(*item)->0,
{
    let n = match array_len(item) {
        Some(n) => n,
        None => return None,
    };
    let mut out: Vec<i64> = Vec::new();
    let mut i: usize = 0;
    while i < n
        invariant
            i <= n,
            toml_array_len(*item) == Some(n as nat),
            out@.len() == i,
            forall|j: int| 0 <= j < i ==> #[trigger] toml_index(*item, j) is Some && toml_integer(
                toml_index(*item, j)->0,
            ) == Some(out@[j]),
        decreases n - i,
    {
        let v = match index_of(item, i) {
            Some(e) => match integer_of(e) {
                Some(v) => v,
                None => return None,
            },
            None => return None,
        };
        out.push(v);
        i = i + 1;
    }
    assert(out@ =~= array_integers(*item)->0);
    Some(out)
}

} // verus!
