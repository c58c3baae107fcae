//! The TOML document behind a manifest: the types of the `toml` crate that the
//! library carries, what their values hold, and the calls that read them.
//!
//! A value of `toml` is opaque to the verifier. What it holds is described by
//! [`Item`], through [`value_item`] and [`table_items`], and the contracts of
//! the calls into `toml` say what each call tells about it. Those contracts
//! are taken from the source of `toml` and are not proved: everything that
//! the library concludes about a manifest rests on them.

use vstd::prelude::*;

verus! {

/// `toml::Value`, a value of a TOML document.
#[verifier::external_type_specification]
#[verifier::external_body]
pub struct ExValue(toml::Value);

/// `toml::map::Map`, of which `toml::Table` is the one with string keys and
/// TOML values.
#[verifier::external_type_specification]
#[verifier::external_body]
#[verifier::reject_recursive_types(K)]
#[verifier::reject_recursive_types(V)]
pub struct ExTable<K, V>(toml::map::Map<K, V>);

/// `toml::de::Error`, what `toml` reports of a text that it cannot read.
#[verifier::external_type_specification]
#[verifier::external_body]
pub struct ExParseError(toml::de::Error);

/// What a TOML value holds, as far as a manifest is read: a string, an array,
/// a table, or anything else (a number, a boolean, a date).
pub enum Item {
    Text(Seq<char>),
    List(Seq<Item>),
    Table(Map<Seq<char>, Item>),
    Other,
}

/// What a value of `toml` holds: the string of a `Value::String`, the items
/// of a `Value::Array` in their order, the entries of a `Value::Table`, and
/// `Item::Other` for the remaining variants.
pub uninterp spec fn value_item(value: toml::Value) -> Item;

/// The entries of a table of `toml`: what each of its keys holds.
pub uninterp spec fn table_items(table: toml::Table) -> Map<Seq<char>, Item>;

/// The top-level table of the TOML document that `text` spells, `None` where
/// `text` is no TOML document.
pub uninterp spec fn parsed_document(text: Seq<char>) -> Option<Map<Seq<char>, Item>>;

/// `toml::from_str` at `toml::Table`: parses `text` as a TOML document. The
/// result depends on `text` alone: the call fails on a text that is no
/// document, and else hands back the top-level table of the document.
#[verifier::external_body]
pub(crate) fn parse_document(text: &str) -> (parsed: Result<toml::Table, toml::de::Error>)
    ensures
        match parsed {
            Ok(table) => parsed_document(text@) == Some(table_items(table)),
            Err(_) => parsed_document(text@) is None,
        },
{
    toml::from_str::<toml::Table>(text)
}

/// `toml::map::Map::get` with a string key: the value stored under `key`, or
/// `None` where the table has no such key.
#[verifier::external_body]
pub(crate) fn table_get<'a>(table: &'a toml::Table, key: &str) -> (found: Option<&'a toml::Value>)
    ensures
        match found {
            Some(value) => table_items(*table).contains_key(key@) && table_items(*table)[key@]
                == value_item(*value),
            None => !table_items(*table).contains_key(key@),
        },
{
    table.get(key)
}

/// `toml::Value::as_str`: the string of a value that is a string, `None` for
/// a value of any other kind.
pub assume_specification<'a>[ toml::Value::as_str ](value: &'a toml::Value) -> (text: Option<
    &'a str,
>)
    ensures
        match text {
            Some(s) => value_item(*value) == Item::Text(s@),
            None => !(value_item(*value) is Text),
        },
;

/// `toml::Value::as_array`: the elements of a value that is an array, in
/// order, `None` for a value of any other kind.
pub assume_specification<'a>[ toml::Value::as_array ](value: &'a toml::Value) -> (items: Option<
    &'a Vec<toml::Value>,
>)
    ensures
        match items {
            Some(v) => value_item(*value) == Item::List(
                v@.map_values(|element: toml::Value| value_item(element)),
            ),
            None => !(value_item(*value) is List),
        },
;

/// `toml::Value::as_table`: the table of a value that is a table, `None` for
/// a value of any other kind.
pub assume_specification<'a>[ toml::Value::as_table ](value: &'a toml::Value) -> (table: Option<
    &'a toml::Table,
>)
    ensures
        match table {
            Some(t) => value_item(*value) == Item::Table(table_items(*t)),
            None => !(value_item(*value) is Table),
        },
;

/// The string that `item` is, if it is one.
pub open spec fn text_of(item: Item) -> Option<Seq<char>> {
    match item {
        Item::Text(chars) => Some(chars),
        _ => None,
    }
}

/// The strings that `item` lists, if it is an array of strings and of nothing
/// else.
pub open spec fn texts_of(item: Item) -> Option<Seq<Seq<char>>> {
    match item {
        Item::List(items) => if forall|i: int| 0 <= i < items.len() ==> (#[trigger] items[i]) is Text {
            Some(items.map_values(|element: Item| text_of(element).unwrap()))
        } else {
            None
        },
        _ => None,
    }
}

/// The entries of the table that `item` is, if it is one.
pub open spec fn table_of(item: Item) -> Option<Map<Seq<char>, Item>> {
    match item {
        Item::Table(entries) => Some(entries),
        _ => None,
    }
}

/// The item under `key`, where the table has that key.
pub open spec fn item_at(table: Map<Seq<char>, Item>, key: Seq<char>) -> Option<Item> {
    if table.contains_key(key) {
        Some(table[key])
    } else {
        None
    }
}

/// Reads `value` as a string.
pub fn text_of_value(value: &toml::Value) -> (text: Option<String>)
    ensures
        text.deep_view() == text_of(value_item(*value)),
{
    match value.as_str() {
        Some(s) => Some(s.to_owned()),
        None => None,
    }
}

/// Reads `value` as an array of strings.
pub fn texts_of_value(value: &toml::Value) -> (texts: Option<Vec<String>>)
    ensures
        texts.deep_view() == texts_of(value_item(*value)),
{
    match value.as_array() {
        None => None,
        Some(elements) => {
            let ghost items = elements@.map_values(|element: toml::Value| value_item(element));
            let mut texts: Vec<String> = Vec::new();
            let mut i: usize = 0;
            while i < elements.len()
                invariant
                    i <= elements.len(),
                    items == elements@.map_values(|element: toml::Value| value_item(element)),
                    value_item(*value) == Item::List(items),
                    texts.len() == i,
                    forall|j: int| 0 <= j < i ==> text_of(#[trigger] items[j]) == Some(texts@[j]@),
                decreases elements.len() - i,
            {
                match elements[i].as_str() {
                    None => {
                        assert(!(items[i as int] is Text));
                        return None;
                    },
                    Some(s) => {
                        texts.push(s.to_owned());
                    },
                }
                i += 1;
            }
            assert(texts.deep_view() =~= items.map_values(
                |element: Item| text_of(element).unwrap(),
            ));
            Some(texts)
        },
    }
}

} // verus!
