//! The tables of an async VM: which actors exist and where messages go.

use crate::actor_metadata::ActorMetadata;
use crate::catalog::{
    build_catalog, catalog_of, collision_free, defined, definitions, distinct_modules,
    lemma_catalog_keys, lemma_distinct_in_force, position, routes, Catalog, Dispatch,
};
use crate::dispatch::build_message_table;
use crate::outcome::{fresh_extension, make_extensions};
use crate::session::AsyncSession;
use move_core_types::account_address::AccountAddress;
use move_core_types::identifier::Identifier;
use move_core_types::language_storage::ModuleId;
use std::collections::HashMap;
use vstd::prelude::*;

verus! {

broadcast use vstd::std_specs::hash::group_hash_axioms;

/// Represents an instance of an async VM: the catalog of known actors and the table
/// that leads from a message identifier to the function that handles the message.
pub struct AsyncVM {
    actor_metadata: Vec<ActorMetadata>,
    message_table: HashMap<u64, (ModuleId, Identifier)>,
    unique_hashes: bool,
}

impl AsyncVM {
    /// The tables are sound: no module has two entries in the catalog, and the dispatch
    /// table belongs to the catalog.
    #[verifier::type_invariant]
    pub closed spec fn wf(self) -> bool {
        &&& distinct_modules(definitions(self.actor_metadata@))
        &&& routes(catalog_of(definitions(self.actor_metadata@)), self.message_table@)
        &&& self.unique_hashes == collision_free(catalog_of(definitions(self.actor_metadata@)))
    }

    /// The catalog of this instance.
    pub closed spec fn catalog(&self) -> Catalog {
        catalog_of(definitions(self.actor_metadata@))
    }

    /// The dispatch table of this instance.
    pub closed spec fn dispatch(&self) -> Dispatch {
        self.message_table@
    }

    /// Creates a new VM, registering the given actors. Of several definitions for one
    /// module the last counts. Every message of every registered actor is entered in the
    /// dispatch table under its identifier.
    pub fn new(actors: Vec<ActorMetadata>) -> (vm: AsyncVM)
        ensures
            vm.wf(),
            vm.catalog() == catalog_of(definitions(actors@)),
            routes(vm.catalog(), vm.dispatch()),
    {
        let actor_metadata = build_catalog(actors);
        let (message_table, unique_hashes) = build_message_table(&actor_metadata);
        AsyncVM { actor_metadata, message_table, unique_hashes }
    }

    /// What holds of the tables of every instance: the dispatch table belongs to the
    /// catalog, and every entry of the catalog is keyed by the module that it names.
    pub proof fn lemma_tables(self)
        requires
            self.wf(),
        ensures
            routes(self.catalog(), self.dispatch()),
            forall|module_id: ModuleId| #[trigger]
                self.catalog().contains_key(module_id) ==> self.catalog()[module_id].module_id
                    == module_id,
    {
        lemma_catalog_keys(definitions(self.actor_metadata@));
    }

    /// Creates a new session for the actor at `for_actor`, at the given virtual time.
    /// The session starts with nothing sent and no initializer running; the operation
    /// that the session performs decides the context that the engine runs in.
    pub fn new_session<'l>(&'l self, for_actor: AccountAddress, virtual_time: u128) -> (session:
        AsyncSession<'l>)
        ensures
            session.vm() == *self,
            fresh_extension(session.extension(), for_actor, virtual_time, false),
    {
        let extension = make_extensions(for_actor, virtual_time, false);
        AsyncSession::open(self, extension)
    }

    /// Tells whether no two registered messages have the same identifier. Where that
    /// holds, the identifier of every registered message resolves to that message.
    pub fn is_collision_free(&self) -> (free: bool)
        ensures
            free == collision_free(self.catalog()),
    {
        proof {
            use_type_invariant(self);
        }
        self.unique_hashes
    }

    /// Resolve the message hash into module and handler function.
    pub fn resolve_message_hash(&self, message_hash: u64) -> (target: Option<
        &(ModuleId, Identifier),
    >)
        ensures
            match target {
                Some(target) => self.dispatch().contains_key(message_hash) && *target
                    == self.dispatch()[message_hash],
                None => !self.dispatch().contains_key(message_hash),
            },
    {
        self.message_table.get(&message_hash)
    }

    /// Get the actor metadata.
    pub fn actor_metadata(&self, module_id: &ModuleId) -> (actor: Option<&ActorMetadata>)
        ensures
            match actor {
                Some(actor) => self.catalog().contains_key(*module_id) && actor@
                    == self.catalog()[*module_id] && actor.module_id == *module_id,
                None => !self.catalog().contains_key(*module_id),
            },
    {
        proof {
            use_type_invariant(self);
        }
        match position(&self.actor_metadata, module_id) {
            Some(i) => {
                proof {
                    lemma_distinct_in_force(definitions(self.actor_metadata@), i as int);
                }
                Some(&self.actor_metadata[i])
            },
            None => None,
        }
    }

    /// Get all known actors: every registered module identity, once.
    pub fn actors(&self) -> (ids: Vec<ModuleId>)
        ensures
            ids@.no_duplicates(),
            forall|module_id: ModuleId|
                ids@.contains(module_id) <==> self.catalog().contains_key(module_id),
    {
        proof {
            use_type_invariant(self);
        }
        let ghost actors = definitions(self.actor_metadata@);
        let mut ids: Vec<ModuleId> = Vec::new();
        let mut i: usize = 0;
        while i < self.actor_metadata.len()
            invariant
                i <= self.actor_metadata.len(),
                actors == definitions(self.actor_metadata@),
                ids.len() == i,
                forall|k: int| 0 <= k < i ==> #[trigger] ids[k] == actors[k].module_id,
            decreases self.actor_metadata.len() - i,
        {
            ids.push(self.actor_metadata[i].module_id.clone());
            i = i + 1;
        }
        proof {
            assert forall|module_id: ModuleId|
                ids@.contains(module_id) <==> self.catalog().contains_key(module_id) by {
                if defined(actors, module_id) {
                    let k = choose|k: int|
                        0 <= k < actors.len() && (#[trigger] actors[k]).module_id == module_id;
                    assert(ids[k] == module_id);
                }
            }
        }
        ids
    }
}

} // verus!
