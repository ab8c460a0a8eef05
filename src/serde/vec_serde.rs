//! A list of strings read from one comma-separated string or from a
//! sequence of strings.

use crate::serde::forms::{list_items, read_list, views, ListInput};
use vstd::prelude::*;

verus! {

/// Reads a written list: its items, trimmed, without empty ones.
pub fn deserialize(input: &ListInput) -> (r: Vec<String>)
    ensures
        views(r@) == list_items(*input),
{
    read_list(input)
}

} // verus!
