//! Building the dispatch table of a catalog.

use crate::actor_metadata::{message_hash, spec_message_hash, ActorMetadata, ActorView};
use crate::catalog::{
    catalog_of, collision_free, definitions, distinct_modules, in_force, lemma_distinct_in_force,
    lemma_in_force_exists, registered, routes, Dispatch,
};
use crate::core_types::{same_identifier, same_module};
use move_core_types::identifier::Identifier;
use move_core_types::language_storage::ModuleId;
use std::collections::HashMap;
use vstd::prelude::*;

verus! {

broadcast use vstd::std_specs::hash::group_hash_axioms;

/// A module and one of its handlers.
type Target = (ModuleId, Identifier);

/// The identifier of a message.
spec fn hash_of(target: Target) -> u64 {
    spec_message_hash(target.0, target.1)
}

/// The message at position `b` of the definition at position `a`.
spec fn at(actors: Seq<ActorView>, a: int, b: int) -> Target {
    (actors[a].module_id, actors[a].messages[b])
}

/// `(a, b)` is the position of a message, and that message comes before position
/// `(i, j)` when the definitions and their messages are read in order.
spec fn read(actors: Seq<ActorView>, a: int, b: int, i: int, j: int) -> bool {
    &&& 0 <= a < actors.len()
    &&& 0 <= b < actors[a].messages.len()
    &&& a < i || (a == i && b < j)
}

/// `target` is among the messages read before position `(i, j)`.
spec fn listed(actors: Seq<ActorView>, i: int, j: int, target: Target) -> bool {
    exists|a: int, b: int| read(actors, a, b, i, j) && #[trigger] at(actors, a, b) == target
}

/// The table holds the messages read before position `(i, j)`, each under its
/// identifier, and nothing else.
spec fn routes_up_to(actors: Seq<ActorView>, table: Dispatch, i: int, j: int) -> bool {
    &&& forall|hash: u64| #[trigger]
        table.contains_key(hash) ==> listed(actors, i, j, table[hash]) && hash_of(table[hash])
            == hash
    &&& forall|a: int, b: int|
        read(actors, a, b, i, j) ==> table.contains_key(hash_of(#[trigger] at(actors, a, b)))
}

/// Every message read before position `(i, j)` is led to by its own identifier.
spec fn unique_up_to(actors: Seq<ActorView>, table: Dispatch, i: int, j: int) -> bool {
    forall|a: int, b: int|
        read(actors, a, b, i, j) ==> table[hash_of(#[trigger] at(actors, a, b))] == at(
            actors,
            a,
            b,
        )
}

/// The messages at `(a, b)` and `(c, d)`, both read before position `(i, j)`, differ
/// and have the same identifier.
spec fn collide(actors: Seq<ActorView>, a: int, b: int, c: int, d: int, i: int, j: int) -> bool {
    &&& read(actors, a, b, i, j)
    &&& read(actors, c, d, i, j)
    &&& hash_of(at(actors, a, b)) == hash_of(at(actors, c, d))
    &&& at(actors, a, b) != at(actors, c, d)
}

/// Two different messages read before position `(i, j)` have the same identifier.
spec fn collides_up_to(actors: Seq<ActorView>, i: int, j: int) -> bool {
    exists|a: int, b: int, c: int, d: int| #[trigger] collide(actors, a, b, c, d, i, j)
}

/// A position at which a listed message stands.
proof fn listed_at(actors: Seq<ActorView>, i: int, j: int, target: Target) -> (p: (int, int))
    requires
        listed(actors, i, j, target),
    ensures
        read(actors, p.0, p.1, i, j),
        at(actors, p.0, p.1) == target,
{
    choose|a: int, b: int| read(actors, a, b, i, j) && #[trigger] at(actors, a, b) == target
}

/// What collided before a position collides before every later position.
proof fn lemma_collides_later(actors: Seq<ActorView>, i: int, j: int, later_i: int, later_j: int)
    requires
        collides_up_to(actors, i, j),
        i < later_i || (i == later_i && j <= later_j),
    ensures
        collides_up_to(actors, later_i, later_j),
{
    let (a, b, c, d) = choose|a: int, b: int, c: int, d: int| #[trigger]
        collide(actors, a, b, c, d, i, j);
    assert(collide(actors, a, b, c, d, later_i, later_j));
}

/// A registered message stands at some position of the definition in force for its
/// module.
proof fn registered_at(actors: Seq<ActorView>, target: Target) -> (p: (int, int))
    requires
        registered(catalog_of(actors), target.0, target.1),
    ensures
        read(actors, p.0, p.1, actors.len() as int, 0),
        at(actors, p.0, p.1) == target,
{
    lemma_in_force_exists(actors, target.0);
    let a = choose|a: int| in_force(actors, a, target.0);
    let b = choose|b: int| 0 <= b < actors[a].messages.len() && actors[a].messages[b] == target.1;
    (a, b)
}

/// In a list without repeated modules, the message at every position is registered.
proof fn lemma_read_is_registered(actors: Seq<ActorView>, a: int, b: int)
    requires
        distinct_modules(actors),
        read(actors, a, b, actors.len() as int, 0),
    ensures
        registered(catalog_of(actors), at(actors, a, b).0, at(actors, a, b).1),
{
    lemma_distinct_in_force(actors, a);
}

/// Once every message of every definition has been read, the table belongs to the
/// catalog.
proof fn lemma_routes_complete(actors: Seq<ActorView>, table: Dispatch)
    requires
        distinct_modules(actors),
        routes_up_to(actors, table, actors.len() as int, 0),
    ensures
        routes(catalog_of(actors), table),
{
    let catalog = catalog_of(actors);
    assert forall|hash: u64| #[trigger] table.contains_key(hash) implies registered(
        catalog,
        table[hash].0,
        table[hash].1,
    ) && spec_message_hash(table[hash].0, table[hash].1) == hash by {
        let (a, b) = listed_at(actors, actors.len() as int, 0, table[hash]);
        lemma_read_is_registered(actors, a, b);
    }
    assert forall|module_id: ModuleId, handler_id: Identifier| #[trigger]
        registered(catalog, module_id, handler_id) implies table.contains_key(
        spec_message_hash(module_id, handler_id),
    ) by {
        registered_at(actors, (module_id, handler_id));
    }
}

/// Once every message has been read: where each is led to by its own identifier, no two
/// registered messages collide.
proof fn lemma_unique_complete(actors: Seq<ActorView>, table: Dispatch)
    requires
        unique_up_to(actors, table, actors.len() as int, 0),
    ensures
        collision_free(catalog_of(actors)),
{
    let catalog = catalog_of(actors);
    assert forall|m1: ModuleId, f1: Identifier, m2: ModuleId, f2: Identifier|
        #[trigger] registered(catalog, m1, f1) && #[trigger] registered(catalog, m2, f2)
            && spec_message_hash(m1, f1) == spec_message_hash(m2, f2) implies m1 == m2 && f1
        == f2 by {
        registered_at(actors, (m1, f1));
        registered_at(actors, (m2, f2));
    }
}

/// Once every message has been read: two that collided are registered messages that
/// collide.
proof fn lemma_collision_complete(actors: Seq<ActorView>)
    requires
        distinct_modules(actors),
        collides_up_to(actors, actors.len() as int, 0),
    ensures
        !collision_free(catalog_of(actors)),
{
    let (a, b, c, d) = choose|a: int, b: int, c: int, d: int| #[trigger]
        collide(actors, a, b, c, d, actors.len() as int, 0);
    lemma_read_is_registered(actors, a, b);
    lemma_read_is_registered(actors, c, d);
}

/// The table after the message at `(i, j)` was entered over `earlier`, which held the
/// messages before it.
proof fn lemma_entered(actors: Seq<ActorView>, earlier: Dispatch, table: Dispatch, i: int, j: int)
    requires
        0 <= i < actors.len(),
        0 <= j < actors[i].messages.len(),
        routes_up_to(actors, earlier, i, j),
        table == earlier.insert(hash_of(at(actors, i, j)), at(actors, i, j)),
    ensures
        routes_up_to(actors, table, i, j + 1),
{
}

/// Entering the message at `(i, j)` where its identifier led nowhere, or to the same
/// message, keeps every message led to by its own identifier.
proof fn lemma_entered_unique(
    actors: Seq<ActorView>,
    earlier: Dispatch,
    table: Dispatch,
    i: int,
    j: int,
)
    requires
        0 <= i < actors.len(),
        0 <= j < actors[i].messages.len(),
        routes_up_to(actors, earlier, i, j),
        unique_up_to(actors, earlier, i, j),
        table == earlier.insert(hash_of(at(actors, i, j)), at(actors, i, j)),
        earlier.contains_key(hash_of(at(actors, i, j))) ==> earlier[hash_of(at(actors, i, j))]
            == at(actors, i, j),
    ensures
        unique_up_to(actors, table, i, j + 1),
{
}

/// Entering the message at `(i, j)` where its identifier led to another message is a
/// collision.
proof fn lemma_entered_collision(actors: Seq<ActorView>, earlier: Dispatch, i: int, j: int)
    requires
        0 <= i < actors.len(),
        0 <= j < actors[i].messages.len(),
        routes_up_to(actors, earlier, i, j),
        earlier.contains_key(hash_of(at(actors, i, j))),
        earlier[hash_of(at(actors, i, j))] != at(actors, i, j),
    ensures
        collides_up_to(actors, i, j + 1),
{
    let hash = hash_of(at(actors, i, j));
    let (a, b) = listed_at(actors, i, j, earlier[hash]);
    assert(collide(actors, a, b, i, j, i, j + 1));
}

/// Enters every message of every actor under its identifier, a later message over an
/// earlier one with the same identifier, and tells whether no two different messages
/// had the same identifier.
pub(crate) fn build_message_table(entries: &Vec<ActorMetadata>) -> (built: (
    HashMap<u64, (ModuleId, Identifier)>,
    bool,
))
    requires
        distinct_modules(definitions(entries@)),
    ensures
        routes(catalog_of(definitions(entries@)), built.0@),
        built.1 == collision_free(catalog_of(definitions(entries@))),
{
    let ghost actors = definitions(entries@);
    let mut table: HashMap<u64, (ModuleId, Identifier)> = HashMap::new();
    let mut unique = true;
    let mut i: usize = 0;
    while i < entries.len()
        invariant
            i <= entries.len(),
            actors == definitions(entries@),
            routes_up_to(actors, table@, i as int, 0),
            unique ==> unique_up_to(actors, table@, i as int, 0),
            !unique ==> collides_up_to(actors, i as int, 0),
        decreases entries.len() - i,
    {
        let actor = &entries[i];
        let mut j: usize = 0;
        while j < actor.messages.len()
            invariant
                i < entries.len(),
                j <= actor.messages.len(),
                actors == definitions(entries@),
                actor@ == actors[i as int],
                routes_up_to(actors, table@, i as int, j as int),
                unique ==> unique_up_to(actors, table@, i as int, j as int),
                !unique ==> collides_up_to(actors, i as int, j as int),
            decreases actor.messages.len() - j,
        {
            let ghost earlier = table@;
            let ghost was_unique = unique;
            let handler = &actor.messages[j];
            let hash = message_hash(&actor.module_id, handler);
            let previous = table.insert(hash, (actor.module_id.clone(), handler.clone()));
            let same = match &previous {
                Some(previous) => same_module(&previous.0, &actor.module_id) && same_identifier(
                    &previous.1,
                    handler,
                ),
                None => true,
            };
            proof {
                lemma_entered(actors, earlier, table@, i as int, j as int);
                if !was_unique {
                    lemma_collides_later(actors, i as int, j as int, i as int, j + 1);
                } else if same {
                    lemma_entered_unique(actors, earlier, table@, i as int, j as int);
                } else {
                    lemma_entered_collision(actors, earlier, i as int, j as int);
                }
            }
            if !same {
                unique = false;
            }
            j = j + 1;
        }
        proof {
            if !unique {
                lemma_collides_later(actors, i as int, j as int, i + 1, 0);
            }
        }
        i = i + 1;
    }
    proof {
        lemma_routes_complete(actors, table@);
        if unique {
            lemma_unique_complete(actors, table@);
        } else {
            lemma_collision_complete(actors);
        }
    }
    (table, unique)
}

} // verus!
