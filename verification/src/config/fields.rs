//! Reading one key of a table: what is found there, and what is wrong with
//! it. A section reads its keys in a fixed order and reports the first fault.

use crate::document::{
    item_at, table_get, table_items, table_of, text_of, text_of_value, texts_of, texts_of_value,
    Item,
};
use crate::error::{Fault, ManifestError};
use vstd::prelude::*;
use vstd::string::StringExecFns;

verus! {

/// The kinds of value that a manifest gives its keys.
pub enum Shape {
    /// A string.
    Text,
    /// An array of strings.
    List,
    /// A table.
    Table,
}

/// Whether `item` is of the kind `shape`.
pub open spec fn fits(item: Item, shape: Shape) -> bool {
    match shape {
        Shape::Text => text_of(item) is Some,
        Shape::List => texts_of(item) is Some,
        Shape::Table => table_of(item) is Some,
    }
}

/// What is wrong with `key` in `table`, if anything: it is absent though
/// `required`, or its value is not of the kind `shape`. `section` is the
/// dotted path of the table, with its final dot.
pub open spec fn fault(
    table: Map<Seq<char>, Item>,
    section: Seq<char>,
    key: Seq<char>,
    shape: Shape,
    required: bool,
) -> Option<Fault> {
    match item_at(table, key) {
        None => if required {
            Some(Fault::Missing(section + key))
        } else {
            None
        },
        Some(item) => if fits(item, shape) {
            None
        } else {
            Some(Fault::Mismatch(section + key))
        },
    }
}

/// The string under `key`, where there is one.
pub open spec fn text_at(table: Map<Seq<char>, Item>, key: Seq<char>) -> Option<Seq<char>> {
    match item_at(table, key) {
        Some(item) => text_of(item),
        None => None,
    }
}

/// The array of strings under `key`, where there is one.
pub open spec fn texts_at(table: Map<Seq<char>, Item>, key: Seq<char>) -> Option<Seq<Seq<char>>> {
    match item_at(table, key) {
        Some(item) => texts_of(item),
        None => None,
    }
}

/// The table under `key`, where there is one.
pub open spec fn table_at(table: Map<Seq<char>, Item>, key: Seq<char>) -> Option<
    Map<Seq<char>, Item>,
> {
    match item_at(table, key) {
        Some(item) => table_of(item),
        None => None,
    }
}

/// The first fault of `faults`, which lists what is wrong with each key of a
/// section, in the order in which the section reads them.
pub open spec fn first_fault(faults: Seq<Option<Fault>>) -> Option<Fault>
    decreases faults.len(),
{
    if faults.len() == 0 {
        None
    } else if faults[0] is Some {
        faults[0]
    } else {
        first_fault(faults.drop_first())
    }
}

/// A fault that no fault precedes is the first.
pub proof fn lemma_first_fault_at(faults: Seq<Option<Fault>>, at: int)
    requires
        0 <= at < faults.len(),
        faults[at] is Some,
        forall|j: int| 0 <= j < at ==> (#[trigger] faults[j]) is None,
    ensures
        first_fault(faults) == faults[at],
    decreases at,
{
    if at > 0 {
        assert(faults[0] is None);
        lemma_first_fault_at(faults.drop_first(), at - 1);
    }
}

/// Where no key is at fault, there is no first fault.
pub proof fn lemma_no_fault(faults: Seq<Option<Fault>>)
    requires
        forall|j: int| 0 <= j < faults.len() ==> (#[trigger] faults[j]) is None,
    ensures
        first_fault(faults) is None,
    decreases faults.len(),
{
    if faults.len() > 0 {
        assert(faults[0] is None);
        lemma_no_fault(faults.drop_first());
    }
}

/// The first fault is a fault of some key that no faulty key precedes, and
/// there is none only where no key is at fault.
pub proof fn lemma_first_fault(faults: Seq<Option<Fault>>)
    ensures
        match first_fault(faults) {
            Some(fault) => exists|at: int|
                {
                    &&& 0 <= at < faults.len()
                    &&& #[trigger] faults[at] == Some(fault)
                    &&& forall|j: int| 0 <= j < at ==> (#[trigger] faults[j]) is None
                },
            None => forall|j: int| 0 <= j < faults.len() ==> (#[trigger] faults[j]) is None,
        },
    decreases faults.len(),
{
    if faults.len() > 0 && faults[0] is None {
        let rest = faults.drop_first();
        lemma_first_fault(rest);
        match first_fault(rest) {
            Some(fault) => {
                let at = choose|at: int|
                    {
                        &&& 0 <= at < rest.len()
                        &&& #[trigger] rest[at] == Some(fault)
                        &&& forall|j: int| 0 <= j < at ==> (#[trigger] rest[j]) is None
                    };
                assert(faults[at + 1] == Some(fault));
                assert forall|j: int| 0 <= j < at + 1 implies (#[trigger] faults[j]) is None by {
                    if j > 0 {
                        assert(rest[j - 1] is None);
                    }
                }
            },
            None => {
                assert forall|j: int| 0 <= j < faults.len() implies (#[trigger] faults[j])
                    is None by {
                    if j > 0 {
                        assert(rest[j - 1] is None);
                    }
                }
            },
        }
    }
}

/// The dotted path of `key` in the table `section`.
fn path(section: &str, key: &str) -> (path: String)
    ensures
        path@ == section@ + key@,
{
    section.to_owned().concat(key)
}

/// Reads the string under `key`.
pub fn read_text(table: &toml::Table, section: &str, key: &str, required: bool) -> (read: Result<
    Option<String>,
    ManifestError,
>)
    ensures
        match read {
            Ok(text) => fault(table_items(*table), section@, key@, Shape::Text, required) is None
                && text.deep_view() == text_at(table_items(*table), key@),
            Err(e) => fault(table_items(*table), section@, key@, Shape::Text, required) == Some(
                e@,
            ),
        },
{
    match table_get(table, key) {
        None => if required {
            Err(ManifestError::Missing(path(section, key)))
        } else {
            Ok(None)
        },
        Some(value) => match text_of_value(value) {
            Some(text) => Ok(Some(text)),
            None => Err(ManifestError::Mismatch(path(section, key))),
        },
    }
}

/// Reads the array of strings under `key`.
pub fn read_texts(table: &toml::Table, section: &str, key: &str, required: bool) -> (read: Result<
    Option<Vec<String>>,
    ManifestError,
>)
    ensures
        match read {
            Ok(texts) => fault(table_items(*table), section@, key@, Shape::List, required) is None
                && texts.deep_view() == texts_at(table_items(*table), key@),
            Err(e) => fault(table_items(*table), section@, key@, Shape::List, required) == Some(
                e@,
            ),
        },
{
    match table_get(table, key) {
        None => if required {
            Err(ManifestError::Missing(path(section, key)))
        } else {
            Ok(None)
        },
        Some(value) => match texts_of_value(value) {
            Some(texts) => Ok(Some(texts)),
            None => Err(ManifestError::Mismatch(path(section, key))),
        },
    }
}

/// Reads the table under `key`.
pub fn read_table<'a>(table: &'a toml::Table, section: &str, key: &str, required: bool) -> (read:
    Result<Option<&'a toml::Table>, ManifestError>)
    ensures
        match read {
            Ok(Some(inner)) => fault(table_items(*table), section@, key@, Shape::Table, required)
                is None && table_at(table_items(*table), key@) == Some(table_items(*inner)),
            Ok(None) => fault(table_items(*table), section@, key@, Shape::Table, required) is None
                && table_at(table_items(*table), key@) is None,
            Err(e) => fault(table_items(*table), section@, key@, Shape::Table, required) == Some(
                e@,
            ),
        },
{
    match table_get(table, key) {
        None => if required {
            Err(ManifestError::Missing(path(section, key)))
        } else {
            Ok(None)
        },
        Some(value) => match value.as_table() {
            Some(inner) => Ok(Some(inner)),
            None => Err(ManifestError::Mismatch(path(section, key))),
        },
    }
}

} // verus!
