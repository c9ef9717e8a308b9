//! What the generators share: the tables of a request.

use crate::gen::plugin::{table_views, CodeGenRequest, Table, TableView};
use vstd::prelude::*;
use vstd::seq_lib::lemma_flatten_concat;

verus! {

/// The tables of a catalog, schema by schema, each schema's tables in their
/// own order. The grouping into schemas is not kept.
pub open spec fn all_tables(request: Option<Seq<Seq<TableView>>>) -> Seq<TableView> {
    match request {
        Some(schemas) => schemas.flatten(),
        None => Seq::empty(),
    }
}

/// A copy of every table of the request's catalog, in catalog order. A
/// request without a catalog has no tables.
pub fn get_tables(req: &CodeGenRequest) -> (tables: Vec<Table>)
    ensures
        table_views(tables@) == all_tables(req@),
{
    let mut tables: Vec<Table> = Vec::new();
    match &req.catalog {
        None => {
            assert(table_views(tables@) =~= Seq::<TableView>::empty());
        },
        Some(catalog) => {
            let ghost schemas = catalog@;
            let mut s: usize = 0;
            assert(schemas.take(0) =~= Seq::<Seq<TableView>>::empty());
            assert(table_views(tables@) =~= schemas.take(0).flatten());
            while s < catalog.schemas.len()
                invariant
                    s <= catalog.schemas.len(),
                    schemas == catalog@,
                    table_views(tables@) == schemas.take(s as int).flatten(),
                decreases catalog.schemas.len() - s,
            {
                let schema = &catalog.schemas[s];
                let ghost before = table_views(tables@);
                let mut t: usize = 0;
                while t < schema.tables.len()
                    invariant
                        t <= schema.tables.len(),
                        table_views(tables@) == before + schema@.take(t as int),
                    decreases schema.tables.len() - t,
                {
                    let ghost sofar = table_views(tables@);
                    tables.push(schema.tables[t].clone());
                    assert(table_views(tables@) == sofar.push(schema@[t as int]));
                    assert(schema@.take(t + 1) == schema@.take(t as int).push(schema@[t as int]));
                    t += 1;
                }
                proof {
                    assert(schema@.take(t as int) == schema@);
                    assert(schemas.take(s + 1) == schemas.take(s as int) + seq![schemas[s as int]]);
                    lemma_flatten_concat(schemas.take(s as int), seq![schemas[s as int]]);
                    seq![schemas[s as int]].lemma_flatten_one_element();
                }
                s += 1;
            }
            assert(schemas.take(s as int) == schemas);
        },
    }
    tables
}

} // verus!
