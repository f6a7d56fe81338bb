//! The actor catalog and the message dispatch table, as mathematical values.

use crate::actor_metadata::{spec_message_hash, ActorMetadata, ActorView};
use crate::core_types::same_module;
use move_core_types::identifier::Identifier;
use move_core_types::language_storage::ModuleId;
use vstd::prelude::*;

verus! {

/// The catalog: each registered module identity with the definition of its actor.
pub type Catalog = Map<ModuleId, ActorView>;

/// The dispatch table: each message identifier with the module and the handler it names.
pub type Dispatch = Map<u64, (ModuleId, Identifier)>;

/// The definitions of a list of actors, in the order of the list.
pub open spec fn definitions(actors: Seq<ActorMetadata>) -> Seq<ActorView> {
    actors.map_values(|actor: ActorMetadata| actor@)
}

/// The definition at index `i` is the one in force for `module_id`: no later definition
/// in the list is for the same module.
pub open spec fn in_force(actors: Seq<ActorView>, i: int, module_id: ModuleId) -> bool {
    &&& 0 <= i < actors.len()
    &&& actors[i].module_id == module_id
    &&& forall|j: int| i < j < actors.len() ==> (#[trigger] actors[j]).module_id != module_id
}

/// Some definition in the list is for `module_id`.
pub open spec fn defined(actors: Seq<ActorView>, module_id: ModuleId) -> bool {
    exists|i: int| 0 <= i < actors.len() && (#[trigger] actors[i]).module_id == module_id
}

/// The catalog that a list of definitions gives: a module identity is registered when
/// some definition is for it, and where several are, the last one counts.
pub open spec fn catalog_of(actors: Seq<ActorView>) -> Catalog {
    Map::new(
        |module_id: ModuleId| defined(actors, module_id),
        |module_id: ModuleId| actors[choose|i: int| in_force(actors, i, module_id)],
    )
}

/// No two definitions in the list are for the same module.
pub open spec fn distinct_modules(actors: Seq<ActorView>) -> bool {
    forall|i: int, j: int|
        0 <= i < j < actors.len() ==> (#[trigger] actors[i]).module_id != (
        #[trigger] actors[j]).module_id
}

/// `handler_id` is a message of the actor registered for `module_id`.
pub open spec fn registered(catalog: Catalog, module_id: ModuleId, handler_id: Identifier) -> bool {
    catalog.contains_key(module_id) && catalog[module_id].messages.contains(handler_id)
}

/// The dispatch table belongs to the catalog: every identifier in it is the hash of the
/// registered message that it leads to, and every registered message has its hash in it.
/// Where two registered messages share a hash, the table leads to one of them.
pub open spec fn routes(catalog: Catalog, table: Dispatch) -> bool {
    &&& forall|hash: u64| #[trigger]
        table.contains_key(hash) ==> registered(catalog, table[hash].0, table[hash].1)
            && spec_message_hash(table[hash].0, table[hash].1) == hash
    &&& forall|module_id: ModuleId, handler_id: Identifier| #[trigger]
        registered(catalog, module_id, handler_id) ==> table.contains_key(
            spec_message_hash(module_id, handler_id),
        )
}

/// No two registered messages have the same identifier.
pub open spec fn collision_free(catalog: Catalog) -> bool {
    forall|m1: ModuleId, f1: Identifier, m2: ModuleId, f2: Identifier|
        #[trigger] registered(catalog, m1, f1) && #[trigger] registered(catalog, m2, f2)
            && spec_message_hash(m1, f1) == spec_message_hash(m2, f2) ==> m1 == m2 && f1 == f2
}

/// Among the definitions for a module, one is in force.
pub proof fn lemma_in_force_exists(actors: Seq<ActorView>, module_id: ModuleId)
    requires
        defined(actors, module_id),
    ensures
        exists|i: int| in_force(actors, i, module_id),
    decreases actors.len(),
{
    let last = actors.len() - 1;
    if actors[last].module_id == module_id {
        assert(in_force(actors, last, module_id));
    } else {
        let shorter = actors.drop_last();
        let k = choose|i: int|
            0 <= i < actors.len() && (#[trigger] actors[i]).module_id == module_id;
        assert(shorter[k].module_id == module_id);
        lemma_in_force_exists(shorter, module_id);
        let i = choose|i: int| in_force(shorter, i, module_id);
        assert forall|j: int| i < j < actors.len() implies (#[trigger] actors[j]).module_id
            != module_id by {
            if j < last {
                assert(shorter[j].module_id != module_id);
            }
        }
        assert(in_force(actors, i, module_id));
    }
}

/// The catalog holds, for each module with a definition, the definition in force, and
/// the entry of a module is a definition of that module.
pub proof fn lemma_catalog_entry(actors: Seq<ActorView>, i: int, module_id: ModuleId)
    requires
        in_force(actors, i, module_id),
    ensures
        catalog_of(actors).contains_key(module_id),
        catalog_of(actors)[module_id] == actors[i],
        catalog_of(actors)[module_id].module_id == module_id,
{
}

/// Every entry of a catalog is keyed by the module identity that it names.
pub proof fn lemma_catalog_keys(actors: Seq<ActorView>)
    ensures
        forall|module_id: ModuleId| #[trigger]
            catalog_of(actors).contains_key(module_id) ==> catalog_of(
                actors,
            )[module_id].module_id == module_id,
{
    assert forall|module_id: ModuleId| #[trigger]
        catalog_of(actors).contains_key(module_id) implies catalog_of(
        actors,
    )[module_id].module_id == module_id by {
        lemma_in_force_exists(actors, module_id);
    }
}

/// In a list without repeated modules every definition is in force.
pub proof fn lemma_distinct_in_force(actors: Seq<ActorView>, i: int)
    requires
        distinct_modules(actors),
        0 <= i < actors.len(),
    ensures
        in_force(actors, i, actors[i].module_id),
        catalog_of(actors).contains_key(actors[i].module_id),
        catalog_of(actors)[actors[i].module_id] == actors[i],
{
}

/// Where no two registered messages share an identifier, the dispatch table leads from
/// the identifier of every registered message to that message itself.
pub proof fn lemma_collision_free_dispatch(
    catalog: Catalog,
    table: Dispatch,
    module_id: ModuleId,
    handler_id: Identifier,
)
    requires
        routes(catalog, table),
        collision_free(catalog),
        registered(catalog, module_id, handler_id),
    ensures
        table.contains_key(spec_message_hash(module_id, handler_id)),
        table[spec_message_hash(module_id, handler_id)] == (module_id, handler_id),
{
}

/// The definition `entry` is the one in force for its module among `given`, and it
/// stands at or after position `from`.
spec fn kept_from(given: Seq<ActorView>, from: int, entry: ActorView) -> bool {
    exists|j: int| from <= j && in_force(given, j, entry.module_id) && #[trigger] given[j] == entry
}

/// Position of the definition for `module_id` in a list of definitions.
pub(crate) fn position(actors: &Vec<ActorMetadata>, module_id: &ModuleId) -> (found: Option<usize>)
    ensures
        match found {
            Some(i) => i < actors.len() && actors[i as int].module_id == *module_id,
            None => !defined(definitions(actors@), *module_id),
        },
{
    let mut i: usize = 0;
    while i < actors.len()
        invariant
            i <= actors.len(),
            forall|k: int| 0 <= k < i ==> (#[trigger] actors[k]).module_id != *module_id,
        decreases actors.len() - i,
    {
        if same_module(&actors[i].module_id, module_id) {
            return Some(i);
        }
        i = i + 1;
    }
    None
}

/// Keeps, of the definitions given, the one in force for each module.
pub(crate) fn build_catalog(actors: Vec<ActorMetadata>) -> (entries: Vec<ActorMetadata>)
    ensures
        distinct_modules(definitions(entries@)),
        catalog_of(definitions(entries@)) == catalog_of(definitions(actors@)),
{
    let ghost given = definitions(actors@);
    let mut rest = actors;
    let mut entries: Vec<ActorMetadata> = Vec::new();
    while rest.len() > 0
        invariant
            rest.len() <= given.len(),
            definitions(rest@) == given.take(rest.len() as int),
            distinct_modules(definitions(entries@)),
            forall|i: int|
                0 <= i < entries.len() ==> kept_from(
                    given,
                    rest.len() as int,
                    #[trigger] entries[i]@,
                ),
            forall|j: int|
                rest.len() <= j < given.len() ==> defined(
                    definitions(entries@),
                    (#[trigger] given[j]).module_id,
                ),
        decreases rest.len(),
    {
        let ghost n = rest.len() - 1;
        let ghost before = entries@;
        assert(definitions(rest@)[n] == given[n]);
        let actor = rest.pop().unwrap();
        let found = position(&entries, &actor.module_id);
        if found.is_none() {
            entries.push(actor);
            let ghost e = definitions(entries@);
            assert forall|i: int, j: int| 0 <= i < j < e.len() implies (#[trigger] e[i]).module_id
                != (#[trigger] e[j]).module_id by {
                if j < e.len() - 1 {
                    assert(definitions(before)[i].module_id != definitions(before)[j].module_id);
                }
            }
            assert forall|j: int| n <= j < given.len() implies defined(
                e,
                (#[trigger] given[j]).module_id,
            ) by {
                if j == n {
                    assert(e[e.len() - 1].module_id == given[j].module_id);
                } else {
                    let k = choose|k: int|
                        0 <= k < definitions(before).len() && (#[trigger] definitions(
                            before,
                        )[k]).module_id == given[j].module_id;
                    assert(e[k].module_id == given[j].module_id);
                }
            }
        } else {
            let ghost p = found.unwrap() as int;
            assert(definitions(entries@)[p].module_id == given[n].module_id);
        }
    }
    proof {
        let e = definitions(entries@);
        assert forall|m: ModuleId| catalog_of(e).contains_key(m) implies catalog_of(e)[m]
            == catalog_of(given)[m] by {
            let i = choose|i: int| 0 <= i < e.len() && (#[trigger] e[i]).module_id == m;
            lemma_distinct_in_force(e, i);
        }
    }
    entries
}

} // verus!
