//! The export-table resolver.
//!
//! A module kind declares, once and for all, a list of (name, signature)
//! pairs it must export.  After a unit is loaded, every declared name is
//! resolved against the unit's symbol table and the results are assembled
//! into one immutable [`ExportsTable`]; a single missing name fails the
//! whole resolution with [`Error::MissingExport`], and no partial table
//! escapes.

use vstd::prelude::*;

use crate::errors::Error;
use crate::lifecycle::ModuleAPI;

verus! {

/// One declared export: the symbol name a unit must provide, and the call
/// signature the host will use it with.
#[derive(Debug, Clone, PartialEq, Eq)]
pub struct ExportDecl {
    pub name: String,
    pub sig: String,
}

/// One resolved export: a declared name and signature together with the
/// native function handle the loaded unit provided for it.
#[derive(Debug, Clone, PartialEq, Eq)]
pub struct Export {
    pub name: String,
    pub sig: String,
    pub handle: u64,
}

/// A fixed table of resolved exports, built once per successful load and
/// replaced wholesale — never mutated entry by entry — on each reload.
#[derive(Debug, Clone)]
pub struct ExportsTable {
    entries: Vec<Export>,
}

impl View for ExportsTable {
    type V = Seq<Export>;

    closed spec fn view(&self) -> Seq<Export> {
        self.entries@
    }
}

/// A resolved table realizes a declaration list when it has one entry per
/// declaration, in order, under the declared name and signature.
pub open spec fn table_matches_decls(t: Seq<Export>, d: Seq<ExportDecl>) -> bool {
    &&& t.len() == d.len()
    &&& forall|i: int|
        0 <= i < d.len() ==> (#[trigger] t[i]).name == d[i].name && t[i].sig == d[i].sig
}

/// The handle stored for `name`, if the table has an entry for it; the
/// first entry wins.
pub open spec fn spec_lookup(t: Seq<Export>, name: Seq<char>) -> Option<u64>
    decreases t.len(),
{
    if t.len() == 0 {
        None
    } else if t[0].name@ == name {
        Some(t[0].handle)
    } else {
        spec_lookup(t.drop_first(), name)
    }
}

impl ExportsTable {
    /// Number of resolved exports.
    pub fn len(&self) -> (r: usize)
        ensures
            r == self@.len(),
    {
        self.entries.len()
    }

    /// The resolved export at position `i` of the declared order.
    pub fn entry(&self, i: usize) -> (r: &Export)
        requires
            i < self@.len(),
        ensures
            *r == self@[i as int],
    {
        &self.entries[i]
    }

    /// Looks a resolved export up by name.
    pub fn get(&self, name: &str) -> (r: Option<u64>)
        ensures
            r == spec_lookup(self@, name@),
    {
        let n = self.entries.len();
        proof {
            assert(self@.skip(0) =~= self@);
        }
        for i in 0..n
            invariant
                n == self.entries@.len(),
                spec_lookup(self@, name@) == spec_lookup(self@.skip(i as int), name@),
        {
            proof {
                assert(self@.skip(i as int)[0] == self@[i as int]);
                assert(self@.skip(i as int).drop_first() =~= self@.skip(i + 1));
            }
            if str_eq(self.entries[i].name.as_str(), name) {
                return Some(self.entries[i].handle);
            }
        }
        proof {
            assert(self@.skip(n as int) =~= Seq::<Export>::empty());
        }
        None
    }
}

/// Whether two pieces of text hold the same characters.
pub fn str_eq(a: &str, b: &str) -> (r: bool)
    ensures
        r == (a@ == b@),
{
    let a_owned: String = a.to_owned();
    let b_owned: String = b.to_owned();
    a_owned == b_owned
}

/// Assembles the table for one load attempt from the declared exports and
/// the handle the unit offered for each: the full table when every name
/// resolved, and `MissingExport` naming the first unresolved declaration
/// otherwise.
pub fn assemble_exports(decls: &Vec<ExportDecl>, found: &Vec<Option<u64>>) -> (r: Result<
    ExportsTable,
    Error,
>)
    requires
        decls@.len() == found@.len(),
    ensures
        r matches Ok(t) ==> {
            &&& table_matches_decls(t@, decls@)
            &&& forall|i: int|
                0 <= i < decls@.len() ==> (#[trigger] found@[i] matches Some(h)
                    && t@[i].handle == h)
        },
        r matches Err(e) ==> exists|i: int|
            {
                &&& 0 <= i < decls@.len()
                &&& #[trigger] found@[i] is None
                &&& e == Error::MissingExport(decls@[i].name)
                &&& forall|j: int| 0 <= j < i ==> #[trigger] found@[j] is Some
            },
        (forall|i: int| 0 <= i < decls@.len() ==> #[trigger] found@[i] is Some) <==> r is Ok,
{
    let n = decls.len();
    let mut entries: Vec<Export> = Vec::new();
    for i in 0..n
        invariant
            n == decls@.len() == found@.len(),
            entries@.len() == i,
            forall|j: int| 0 <= j < i ==> #[trigger] found@[j] is Some,
            forall|j: int|
                0 <= j < i ==> {
                    &&& (#[trigger] entries@[j]).name == decls@[j].name
                    &&& entries@[j].sig == decls@[j].sig
                    &&& found@[j] == Some(entries@[j].handle)
                },
    {
        match &found[i] {
            Some(h) => {
                entries.push(
                    Export {
                        name: decls[i].name.clone(),
                        sig: decls[i].sig.clone(),
                        handle: *h,
                    },
                );
            },
            None => {
                return Err(Error::MissingExport(decls[i].name.clone()));
            },
        }
    }
    Ok(ExportsTable { entries })
}

/// Resolves every declared export against a loaded unit's symbol table and
/// assembles the results; which handles come back is the unit's business,
/// but the table's names and signatures are exactly the declared ones, and
/// any failure names a declared export.
pub fn resolve_exports<U: ModuleAPI>(unit: &U, decls: &Vec<ExportDecl>) -> (r: Result<
    ExportsTable,
    Error,
>)
    ensures
        r matches Ok(t) ==> table_matches_decls(t@, decls@),
        r matches Err(e) ==> {
            &&& e is MissingExport
            &&& exists|i: int|
                0 <= i < decls@.len() && e == Error::MissingExport(#[trigger] decls@[i].name)
        },
{
    let n = decls.len();
    let mut found: Vec<Option<u64>> = Vec::new();
    for i in 0..n
        invariant
            n == decls@.len(),
            found@.len() == i,
    {
        found.push(unit.resolve(decls[i].name.as_str()));
    }
    assemble_exports(decls, &found)
}

} // verus!
