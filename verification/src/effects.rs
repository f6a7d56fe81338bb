//! What the actor layer needs of a Move change-set: which resources it writes.

use move_core_types::account_address::AccountAddress;
use move_core_types::effects::ChangeSet;
use move_core_types::language_storage::{ModuleId, StructTag};
use vstd::prelude::*;

verus! {

/// Where a resource lives: the account and the resource's type.
pub type ResourceKey = (AccountAddress, StructTag);

/// The resource entries of a change-set: `Some(bytes)` writes the resource, `None` deletes it.
pub uninterp spec fn resources_of(change_set: ChangeSet) -> Map<ResourceKey, Option<Seq<u8>>>;

/// The module entries of a change-set: `Some(bytes)` publishes the module, `None` removes it.
pub uninterp spec fn modules_of(change_set: ChangeSet) -> Map<ModuleId, Option<Seq<u8>>>;

/// A change-set already writes a resource at `key`.
pub open spec fn writes_resource(change_set: ChangeSet, key: ResourceKey) -> bool {
    resources_of(change_set).contains_key(key) && resources_of(change_set)[key] is Some
}

/// The words with which a change-set refuses to write a resource that it writes already.
pub open spec fn refusal() -> Seq<char> {
    "resource already published"@
}

/// `ChangeSet::publish_resource`. It refuses a resource that the change-set already
/// writes and then changes nothing; otherwise it records the write, over a deletion of
/// the same resource if there was one. Module entries are never touched. A refusal comes
/// back as the text of the error, which is always the same words.
#[verifier::external_body]
pub(crate) fn publish_resource(
    change_set: &mut ChangeSet,
    addr: AccountAddress,
    struct_tag: StructTag,
    blob: Vec<u8>,
) -> (published: Result<(), String>)
    ensures
        published is Ok <==> !writes_resource(*old(change_set), (addr, struct_tag)),
        published matches Err(cause) ==> cause@ == refusal(),
        published is Ok ==> resources_of(*final(change_set)) == resources_of(
            *old(change_set),
        ).insert((addr, struct_tag), Some(blob@)),
        published is Err ==> resources_of(*final(change_set)) == resources_of(*old(change_set)),
        modules_of(*final(change_set)) == modules_of(*old(change_set)),
{
    match change_set.publish_resource(addr, struct_tag, blob) {
        Ok(()) => Ok(()),
        Err(error) => Err(error.to_string()),
    }
}

} // verus!
