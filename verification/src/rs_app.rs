//! Column layout of the table of replica sets.

use crate::data::{row_views, Rs};
use crate::width::{as_nats, cell_width, cell_widths, column_width, widest};
use vstd::prelude::*;

verus! {

/// A record of the table.
pub type Data = Rs;

/// The width of each column of a table that holds `items`: name, description,
/// age, pods and containers, in this order.
pub fn constraint_len_calculator(items: &[Data]) -> (lens: (usize, usize, usize, usize, usize))
    ensures
        lens.0 == column_width(row_views(items@), 0),
        lens.1 == column_width(row_views(items@), 1),
        lens.2 == column_width(row_views(items@), 2),
        lens.3 == column_width(row_views(items@), 3),
        lens.4 == column_width(row_views(items@), 4),
{
    let ghost rows = row_views(items@);
    let mut names: Vec<usize> = Vec::new();
    let mut descriptions: Vec<usize> = Vec::new();
    let mut ages: Vec<usize> = Vec::new();
    let mut pods: Vec<usize> = Vec::new();
    let mut containers: Vec<usize> = Vec::new();
    let mut i: usize = 0;
    while i < items.len()
        invariant
            i <= items.len(),
            rows == row_views(items@),
            names@.len() == i,
            descriptions@.len() == i,
            ages@.len() == i,
            pods@.len() == i,
            containers@.len() == i,
            forall|j: int| 0 <= j < i ==> (#[trigger] names@[j]) as nat == cell_widths(rows, 0)[j],
            forall|j: int| 0 <= j < i ==> (#[trigger] descriptions@[j]) as nat == cell_widths(rows, 1)[j],
            forall|j: int| 0 <= j < i ==> (#[trigger] ages@[j]) as nat == cell_widths(rows, 2)[j],
            forall|j: int| 0 <= j < i ==> (#[trigger] pods@[j]) as nat == cell_widths(rows, 3)[j],
            forall|j: int| 0 <= j < i ==> (#[trigger] containers@[j]) as nat == cell_widths(rows, 4)[j],
        decreases items.len() - i,
    {
        let item = &items[i];
        names.push(cell_width(item.replicaset()));
        descriptions.push(cell_width(item.description()));
        ages.push(cell_width(item.age()));
        pods.push(cell_width(item.pods()));
        containers.push(cell_width(item.containers()));
        i += 1;
    }
    assert(as_nats(names@) =~= cell_widths(rows, 0));
    assert(as_nats(descriptions@) =~= cell_widths(rows, 1));
    assert(as_nats(ages@) =~= cell_widths(rows, 2));
    assert(as_nats(pods@) =~= cell_widths(rows, 3));
    assert(as_nats(containers@) =~= cell_widths(rows, 4));
    (
        widest(names.as_slice()),
        widest(descriptions.as_slice()),
        widest(ages.as_slice()),
        widest(pods.as_slice()),
        widest(containers.as_slice()),
    )
}

} // verus!
