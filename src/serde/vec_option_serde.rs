//! An optional list of strings, written as nothing, one string or a
//! sequence, and read from nothing, a comma-separated string or a sequence.

use crate::serde::forms::{list_items, read_list, views, ListInput};
use vstd::prelude::*;

verus! {

/// How an optional list is written.
#[derive(Debug, Clone, Copy, PartialEq, Eq)]
pub enum ListShape {
    /// As nothing: no list, or an empty one.
    Null,
    /// As its one item, a plain string.
    Single,
    /// As a sequence of its items.
    Many,
}

/// How `value` is written.
pub fn serialize(value: &Option<Vec<String>>) -> (r: ListShape)
    ensures
        r == match value {
            Some(v) => if v@.len() == 1 {
                ListShape::Single
            } else if v@.len() > 1 {
                ListShape::Many
            } else {
                ListShape::Null
            },
            None => ListShape::Null,
        },
{
    match value {
        Some(v) => if v.len() == 1 {
            ListShape::Single
        } else if v.len() > 1 {
            ListShape::Many
        } else {
            ListShape::Null
        },
        None => ListShape::Null,
    }
}

/// Reads an optional written list: nothing reads as `None`, anything else
/// as its items, trimmed, without empty ones.
pub fn deserialize(input: &Option<ListInput>) -> (r: Option<Vec<String>>)
    ensures
        match input {
            None => r is None,
            Some(i) => r matches Some(v) && views(v@) == list_items(*i),
        },
{
    match input {
        None => None,
        Some(i) => Some(read_list(i)),
    }
}

} // verus!
