//! Actor definitions and the identifiers of their messages.

use crate::core_types::{identifier_bytes, identifier_text, module_id_bytes, module_id_text};
use move_core_types::identifier::Identifier;
use move_core_types::language_storage::{ModuleId, StructTag};
use vstd::prelude::*;

verus! {

/// Metadata about an actor: the module that implements it, the type of its persisted
/// state, its initializer and the functions that handle its messages.
#[derive(Debug, Clone)]
pub struct ActorMetadata {
    pub module_id: ModuleId,
    pub state_tag: StructTag,
    pub initializer: Identifier,
    pub messages: Vec<Identifier>,
}

/// An actor definition as a mathematical value.
pub struct ActorView {
    pub module_id: ModuleId,
    pub state_tag: StructTag,
    pub initializer: Identifier,
    pub messages: Seq<Identifier>,
}

impl View for ActorMetadata {
    type V = ActorView;

    open spec fn view(&self) -> ActorView {
        ActorView {
            module_id: self.module_id,
            state_tag: self.state_tag,
            initializer: self.initializer,
            messages: self.messages@,
        }
    }
}

/// Starting value of the 64-bit FNV-1a hash.
pub const FNV_OFFSET_BASIS: u64 = 0xcbf2_9ce4_8422_2325;

/// Multiplier of the 64-bit FNV-1a hash.
pub const FNV_PRIME: u64 = 0x0000_0100_0000_01b3;

/// The 64-bit FNV-1a hash of a byte string: starting from the offset basis, each byte is
/// xor-ed into the hash, which is then multiplied by the prime modulo 2^64.
pub open spec fn fnv1a(bytes: Seq<u8>) -> u64
    decreases bytes.len(),
{
    if bytes.len() == 0 {
        FNV_OFFSET_BASIS
    } else {
        (fnv1a(bytes.drop_last()) ^ (bytes.last() as u64)).wrapping_mul(FNV_PRIME)
    }
}

/// The path of a message: the text of its module, two colons, the name of its handler.
pub open spec fn path(module_text: Seq<u8>, handler_text: Seq<u8>) -> Seq<u8> {
    module_text + seq![0x3au8, 0x3au8] + handler_text
}

/// The identifier of a message: the FNV-1a hash of its path, where the module's text is
/// what `Display` writes for the module identity.
pub open spec fn spec_message_hash(module_id: ModuleId, handler_id: Identifier) -> u64 {
    fnv1a(path(module_id_text(module_id), identifier_text(handler_id)))
}

/// Continues an FNV-1a hash over further bytes.
fn fnv1a_extend(hash: u64, bytes: &Vec<u8>, Ghost(prefix): Ghost<Seq<u8>>) -> (extended: u64)
    requires
        hash == fnv1a(prefix),
    ensures
        extended == fnv1a(prefix + bytes@),
{
    let mut h: u64 = hash;
    let mut i: usize = 0;
    while i < bytes.len()
        invariant
            i <= bytes.len(),
            h == fnv1a(prefix + bytes@.take(i as int)),
        decreases bytes.len() - i,
    {
        let ghost before = prefix + bytes@.take(i as int);
        let ghost after = prefix + bytes@.take(i + 1);
        assert(after.drop_last() =~= before);
        h = (h ^ (bytes[i] as u64)).wrapping_mul(FNV_PRIME);
        i = i + 1;
    }
    assert(bytes@.take(i as int) =~= bytes@);
    h
}

/// Computes the FNV-1a hash of the path that the text of a module and the name of a
/// handler make.
pub fn path_hash(module_text: &Vec<u8>, handler_text: &Vec<u8>) -> (hash: u64)
    ensures
        hash == fnv1a(path(module_text@, handler_text@)),
{
    let mut separator: Vec<u8> = Vec::new();
    separator.push(0x3au8);
    separator.push(0x3au8);
    assert(separator@ =~= seq![0x3au8, 0x3au8]);
    let h0 = fnv1a_extend(FNV_OFFSET_BASIS, module_text, Ghost(Seq::empty()));
    let h1 = fnv1a_extend(h0, &separator, Ghost(module_text@));
    fnv1a_extend(h1, handler_text, Ghost(module_text@ + separator@))
}

/// Computes the identifier under which a message of an actor is dispatched.
pub fn message_hash(module_id: &ModuleId, handler_id: &Identifier) -> (hash: u64)
    ensures
        hash == spec_message_hash(*module_id, *handler_id),
{
    let module_text = module_id_bytes(module_id);
    let handler_text = identifier_bytes(handler_id);
    path_hash(&module_text, &handler_text)
}

} // verus!
