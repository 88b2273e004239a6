use vstd::prelude::*;
use slab::Slab;
use crate::connection::{Connection, ConnectionView};
use crate::event::Token;

verus! {

/// The live connections, each under the key that the table gave it. The
/// table is a `slab::Slab`, which this library reaches through the functions
/// below only; nothing here is proved of it.
#[verifier::external_body]
pub struct ConnectionTable {
    slab: Slab<Connection, usize>,
}

/// The connections that a table holds, each under its key.
pub uninterp spec fn table_entries(table: ConnectionTable) -> Map<usize, ConnectionView>;

/// The first key that a table hands out, and the number of slots that it was
/// made with.
pub uninterp spec fn table_span(table: ConnectionTable) -> (usize, usize);

/// The entries of a table that holds no connection.
pub open spec fn no_entries() -> Map<usize, ConnectionView> {
    Map::empty()
}

/// Whether `key` is one of the keys that `table` can hand out.
pub open spec fn in_span(table: ConnectionTable, key: usize) -> bool {
    table_span(table).0 <= key < table_span(table).0 + table_span(table).1
}

/// `Slab::new_starting_at`: an empty slab of `slots` slots, whose keys start
/// at `first`. The bounds keep its arithmetic on keys from overflowing.
#[verifier::external_body]
pub(crate) fn table_new(first: usize, slots: usize) -> (table: ConnectionTable)
    requires
        first + slots < usize::MAX,
    ensures
        table_entries(table) == no_entries(),
        table_span(table) == (first, slots),
{
    ConnectionTable { slab: Slab::new_starting_at(first, slots) }
}

/// `Slab::get`: the entry under `key`, if that slot is filled. The key must
/// be one that the slab can hand out: beyond them the slab may index past
/// its slots.
#[verifier::external_body]
pub(crate) fn table_get(table: &ConnectionTable, key: usize) -> (found: Option<&Connection>)
    requires
        in_span(*table, key),
    ensures
        match found {
            Some(connection) => table_entries(*table).contains_key(key) && connection@
                == table_entries(*table)[key],
            None => !table_entries(*table).contains_key(key),
        },
{
    table.slab.get(key)
}

/// `Slab::get_mut`: the entry under `key`, if that slot is filled, to be
/// changed in place. No other entry changes, and no key comes or goes.
#[verifier::external_body]
pub(crate) fn table_get_mut(table: &mut ConnectionTable, key: usize) -> (found: Option<
    &mut Connection,
>)
    requires
        in_span(*old(table), key),
    ensures
        table_span(*final(table)) == table_span(*old(table)),
        match found {
            Some(connection) => {
                &&& table_entries(*old(table)).contains_key(key)
                &&& connection@ == table_entries(*old(table))[key]
                &&& table_entries(*final(table)) == table_entries(*old(table)).insert(
                    key,
                    final(connection)@,
                )
            },
            None => {
                &&& !table_entries(*old(table)).contains_key(key)
                &&& table_entries(*final(table)) == table_entries(*old(table))
            },
        },
{
    table.slab.get_mut(key)
}

/// `Slab::insert_with`: fills a free slot with a new connection that is told
/// its own key, and returns the key. A slot is free exactly while fewer
/// entries are held than slots were made; with none free, nothing changes.
/// Which free slot is taken is left open.
#[verifier::external_body]
pub(crate) fn table_insert_with(table: &mut ConnectionTable, address: String) -> (key: Option<
    usize,
>)
    ensures
        table_span(*final(table)) == table_span(*old(table)),
        key is Some <==> table_entries(*old(table)).dom().len() < table_span(*old(table)).1,
        match key {
            Some(k) => {
                &&& in_span(*old(table), k)
                &&& !table_entries(*old(table)).contains_key(k)
                &&& table_entries(*final(table)) == table_entries(*old(table)).insert(
                    k,
                    ConnectionView::fresh(address@, Token(k)),
                )
            },
            None => table_entries(*final(table)) == table_entries(*old(table)),
        },
{
    table.slab.insert_with(move |key| Connection::new(address, Token(key)))
}

/// `Slab::remove`: empties the slot under `key` and returns what it held.
/// The slot must be filled: emptying an empty slot would break the slab's
/// list of free slots.
#[verifier::external_body]
pub(crate) fn table_remove(table: &mut ConnectionTable, key: usize) -> (removed: Option<
    Connection,
>)
    requires
        in_span(*old(table), key),
        table_entries(*old(table)).contains_key(key),
    ensures
        table_span(*final(table)) == table_span(*old(table)),
        table_entries(*final(table)) == table_entries(*old(table)).remove(key),
        match removed {
            Some(connection) => connection@ == table_entries(*old(table))[key],
            None => false,
        },
{
    table.slab.remove(key)
}

} // verus!
