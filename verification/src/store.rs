//! The table of users, as far as the handlers rely on it.
//!
//! The table itself is kept by a service outside this library. What is
//! modelled here is the little that the handlers count on: a write puts an
//! item under its `id`, in place of what was there, and a read of the whole
//! table hands out the items it holds.

use crate::get_function;
use crate::http::RequestView;
use crate::item::AttributeView;
use crate::post_function;
use crate::post_function::ActionView;
use crate::record::{lemma_item_reads_back, Field, RecordView};
use vstd::prelude::*;

verus! {

/// The name of the table that holds the users.
pub const TABLE_NAME: &'static str = "users";

/// The text under which an item is stored: that of its `id`.
pub open spec fn key_of(item: Map<Seq<char>, AttributeView>) -> Seq<char> {
    match item[Field::Id.label()] {
        AttributeView::Text(id) => id,
        AttributeView::Other => Seq::empty(),
    }
}

/// The table after a write of `item`: the item stands under its key, in
/// place of any item that stood there, and nothing else has changed.
pub open spec fn put(
    table: Map<Seq<char>, Map<Seq<char>, AttributeView>>,
    item: Map<Seq<char>, AttributeView>,
) -> Map<Seq<char>, Map<Seq<char>, AttributeView>> {
    table.insert(key_of(item), item)
}

/// Whether `items` is what a read of the whole table hands out, with no
/// item of the table left out.
pub open spec fn scans(
    table: Map<Seq<char>, Map<Seq<char>, AttributeView>>,
    items: Seq<Map<Seq<char>, AttributeView>>,
) -> bool {
    forall|key: Seq<char>| #[trigger] table.contains_key(key) ==> items.contains(table[key])
}

/// A user that was created is listed afterwards.
///
/// Let a request for a new user call for the write of `record`, whose three
/// fields are not empty, and let that write be made to `table`. Then a read
/// of the whole table that leaves nothing out gives a list of users that
/// holds `record`.
pub proof fn lemma_created_user_is_listed(
    request: RequestView,
    record: RecordView,
    item: Map<Seq<char>, AttributeView>,
    table: Map<Seq<char>, Map<Seq<char>, AttributeView>>,
    scanned: Seq<Map<Seq<char>, AttributeView>>,
)
    requires
        record.id.len() > 0,
        record.name.len() > 0,
        record.email.len() > 0,
        post_function::decided(request) == (ActionView::Write { record, item }),
        scans(put(table, item), scanned),
    ensures
        get_function::listed(scanned).contains(record),
{
    lemma_item_reads_back(record);
    assert(put(table, item).contains_key(key_of(item)));
    assert(scanned.contains(item));
    lemma_listed_holds(scanned, item, record);
}

/// The listed users hold the record of every item that holds one.
pub proof fn lemma_listed_holds(
    items: Seq<Map<Seq<char>, AttributeView>>,
    item: Map<Seq<char>, AttributeView>,
    record: RecordView,
)
    requires
        items.contains(item),
        get_function::readable(item) == Some(record),
    ensures
        get_function::listed(items).contains(record),
    decreases items.len(),
{
    let pick = |item: Map<Seq<char>, AttributeView>| get_function::readable(item);
    if items.last() == item {
        assert(items.filter_map(pick) == items.drop_last().filter_map(pick) + seq![record]);
        let listed = items.filter_map(pick);
        assert(listed[listed.len() - 1] == record);
    } else {
        let i = choose|i: int| 0 <= i < items.len() && items[i] == item;
        assert(items.drop_last()[i] == item);
        lemma_listed_holds(items.drop_last(), item, record);
        let shorter = items.drop_last().filter_map(pick);
        let j = choose|j: int| 0 <= j < shorter.len() && shorter[j] == record;
        assert(items.filter_map(pick)[j] == record);
    }
}

} // verus!
