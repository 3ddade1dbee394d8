//! Column layout of the table of containers.

use crate::data::{row_views, Container};
use crate::width::{as_nats, cell_width, cell_widths, column_width, widest};
use vstd::prelude::*;

verus! {

/// A record of the table.
pub type Data = Container;

/// The width of each column of a table that holds `items`: name and
/// description, in this order.
pub fn constraint_len_calculator(items: &[Data]) -> (lens: (usize, usize))
    ensures
        lens.0 == column_width(row_views(items@), 0),
        lens.1 == column_width(row_views(items@), 1),
{
    let ghost rows = row_views(items@);
    let mut names: Vec<usize> = Vec::new();
    let mut descriptions: Vec<usize> = Vec::new();
    let mut i: usize = 0;
    while i < items.len()
        invariant
            i <= items.len(),
            rows == row_views(items@),
            names@.len() == i,
            descriptions@.len() == i,
            forall|j: int| 0 <= j < i ==> (#[trigger] names@[j]) as nat == cell_widths(rows, 0)[j],
            forall|j: int| 0 <= j < i ==> (#[trigger] descriptions@[j]) as nat == cell_widths(rows, 1)[j],
        decreases items.len() - i,
    {
        let item = &items[i];
        names.push(cell_width(item.container()));
        descriptions.push(cell_width(item.description()));
        i += 1;
    }
    assert(as_nats(names@) =~= cell_widths(rows, 0));
    assert(as_nats(descriptions@) =~= cell_widths(rows, 1));
    (widest(names.as_slice()), widest(descriptions.as_slice()))
}

} // verus!
