//! The Move core types that actor definitions, change-sets and events are made of.
//!
//! These types belong to `move_core_types`. The verifier sees none of their fields:
//! values are carried through, compared and cloned, and that is all the actor layer
//! needs of them. Every item in this file is believed, not proved.

use move_core_types::account_address::AccountAddress;
use move_core_types::effects::ChangeSet;
use move_core_types::identifier::Identifier;
use move_core_types::language_storage::{ModuleId, StructTag, TypeTag};
use vstd::prelude::*;

verus! {

/// `move_core_types::account_address::AccountAddress`, the address of an account.
#[verifier::external_type_specification]
#[verifier::external_body]
pub struct ExAccountAddress(AccountAddress);

/// `move_core_types::identifier::Identifier`, the name of a module, a struct or a function.
#[verifier::external_type_specification]
#[verifier::external_body]
pub struct ExIdentifier(Identifier);

/// `move_core_types::language_storage::ModuleId`, an address and the name of a module there.
#[verifier::external_type_specification]
#[verifier::external_body]
pub struct ExModuleId(ModuleId);

/// `move_core_types::language_storage::StructTag`, the type of a resource.
#[verifier::external_type_specification]
#[verifier::external_body]
pub struct ExStructTag(StructTag);

/// `move_core_types::language_storage::TypeTag`, a type; events carry one.
#[verifier::external_type_specification]
#[verifier::external_body]
pub struct ExTypeTag(TypeTag);

/// `move_core_types::effects::ChangeSet`, the changes to modules and resources that a
/// session leaves behind.
#[verifier::external_type_specification]
#[verifier::external_body]
pub struct ExChangeSet(ChangeSet);

/// `AccountAddress`'s `clone`: the address is `Copy`, and the copy is the same address.
pub assume_specification[ <AccountAddress as Clone>::clone ](address: &AccountAddress) -> (copy:
    AccountAddress)
    ensures
        copy == *address,
;

/// `ChangeSet`'s `clone`: the copy holds the same entries.
pub assume_specification[ <ChangeSet as Clone>::clone ](change_set: &ChangeSet) -> (copy: ChangeSet)
    ensures
        copy == *change_set,
;

/// `ModuleId`'s `clone`: the copy is the same module identity.
pub assume_specification[ <ModuleId as Clone>::clone ](module_id: &ModuleId) -> (copy: ModuleId)
    ensures
        copy == *module_id,
;

/// `Identifier`'s `clone`: the copy is the same identifier.
pub assume_specification[ <Identifier as Clone>::clone ](identifier: &Identifier) -> (copy:
    Identifier)
    ensures
        copy == *identifier,
;

/// `StructTag`'s `clone`: the copy is the same struct tag.
pub assume_specification[ <StructTag as Clone>::clone ](struct_tag: &StructTag) -> (copy: StructTag)
    ensures
        copy == *struct_tag,
;

/// `ModuleId`'s `==`, which `derive(PartialEq)` wrote over the address and the name: two
/// module identities compare equal exactly when they are the same value.
#[verifier::external_body]
pub(crate) fn same_module(a: &ModuleId, b: &ModuleId) -> (same: bool)
    ensures
        same == (*a == *b),
{
    a == b
}

/// `Identifier`'s `==`, which `derive(PartialEq)` wrote over the characters: two
/// identifiers compare equal exactly when they are the same value.
#[verifier::external_body]
pub(crate) fn same_identifier(a: &Identifier, b: &Identifier) -> (same: bool)
    ensures
        same == (*a == *b),
{
    a == b
}

/// The type that a struct tag names: the variant `TypeTag::Struct` around the tag.
pub uninterp spec fn struct_type(struct_tag: StructTag) -> TypeTag;

/// `TypeTag::Struct`: the type tag of a struct, which depends on the struct tag alone.
#[verifier::external_body]
pub(crate) fn struct_type_tag(struct_tag: StructTag) -> (type_tag: TypeTag)
    ensures
        type_tag == struct_type(struct_tag),
{
    TypeTag::Struct(struct_tag)
}

/// The text that `ModuleId`'s `Display` writes for a module identity, as UTF-8 bytes.
pub uninterp spec fn module_id_text(module_id: ModuleId) -> Seq<u8>;

/// The characters of an identifier, as UTF-8 bytes.
pub uninterp spec fn identifier_text(identifier: Identifier) -> Seq<u8>;

/// `ModuleId`'s `Display` (through `to_string`): the address in hexadecimal, two colons and
/// the module's name. The text depends on the module identity alone.
#[verifier::external_body]
pub(crate) fn module_id_bytes(module_id: &ModuleId) -> (text: Vec<u8>)
    ensures
        text@ == module_id_text(*module_id),
{
    module_id.to_string().into_bytes()
}

/// `IdentStr::as_bytes` on the identifier: its characters, which depend on the identifier
/// alone.
#[verifier::external_body]
pub(crate) fn identifier_bytes(identifier: &Identifier) -> (text: Vec<u8>)
    ensures
        text@ == identifier_text(*identifier),
{
    identifier.as_bytes().to_vec()
}

} // verus!
