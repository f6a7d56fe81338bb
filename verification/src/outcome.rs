//! What a session operation ends in, and what the engine reports back on the way.

use move_core_types::account_address::AccountAddress;
use move_core_types::effects::{ChangeSet, Event};
use move_core_types::identifier::Identifier;
use move_core_types::language_storage::ModuleId;
use vstd::prelude::*;

verus! {

/// Represents a message being sent, consisting of target address, message hash, and
/// arguments.
pub type Message = (AccountAddress, u64, Vec<Vec<u8>>);

/// The execution context of one operation: it is handed to the engine, whose native
/// functions read it and append the messages that the actor sends. `in_initializer`
/// tells them whether the code that runs is the initializer of an actor.
#[derive(Debug, Clone)]
pub struct AsyncExtension {
    pub current_actor: AccountAddress,
    pub sent: Vec<Message>,
    pub in_initializer: bool,
    pub virtual_time: u128,
}

/// The context is the one a session starts with: nothing has been sent yet.
pub open spec fn fresh_extension(
    extension: AsyncExtension,
    actor_addr: AccountAddress,
    virtual_time: u128,
    in_initializer: bool,
) -> bool {
    &&& extension.current_actor == actor_addr
    &&& extension.sent@ == Seq::<Message>::empty()
    &&& extension.in_initializer == in_initializer
    &&& extension.virtual_time == virtual_time
}

/// Creates the execution context for a session.
pub fn make_extensions(actor_addr: AccountAddress, virtual_time: u128, in_initializer: bool) -> (
    extension: AsyncExtension
)
    ensures
        fresh_extension(extension, actor_addr, virtual_time, in_initializer),
{
    AsyncExtension { current_actor: actor_addr, sent: Vec::new(), in_initializer, virtual_time }
}

impl AsyncExtension {
    /// Queues a message for the actor at `target`, behind the messages queued before.
    pub fn send(&mut self, target: AccountAddress, message_hash: u64, args: Vec<Vec<u8>>)
        ensures
            final(self).sent@ == old(self).sent@.push((target, message_hash, args)),
            final(self).current_actor == old(self).current_actor,
            final(self).in_initializer == old(self).in_initializer,
            final(self).virtual_time == old(self).virtual_time,
    {
        self.sent.push((target, message_hash, args));
    }
}

/// The values that a call into the engine hands back, serialized: the values behind the
/// mutable references it was given, each with the index of its parameter, and the
/// values it returned.
#[derive(Debug, Clone)]
pub struct SerializedReturnValues {
    pub mutable_reference_outputs: Vec<(u8, Vec<u8>)>,
    pub return_values: Vec<Vec<u8>>,
}

/// Everything the engine reports of a call that ran to its end in a session that was
/// then finished: the values handed back, the effects collected and the context.
#[derive(Debug)]
pub struct Execution {
    pub returned: SerializedReturnValues,
    pub change_set: ChangeSet,
    pub events: Vec<Event>,
    pub extension: AsyncExtension,
}

/// A structure to represent success for the execution of an async session operation.
#[derive(Debug, Clone)]
pub struct AsyncSuccess {
    pub change_set: ChangeSet,
    pub events: Vec<Event>,
    pub messages: Vec<Message>,
    pub gas_used: u64,
}

/// Why a session operation failed. `X` is the engine's own error type; every other
/// variant is raised by this layer.
#[derive(Debug, Clone)]
pub enum Failure<X> {
    /// No actor is registered for the module.
    ActorUnknown(ModuleId),
    /// The actor's state already exists at the address.
    ActorExists(ModuleId, AccountAddress),
    /// No message is registered under the identifier.
    UnknownMessageHash(u64),
    /// The initializer did not return exactly one value.
    InconsistentInitializer(Identifier),
    /// The handler handed back more than one mutable reference.
    InconsistentHandler(Identifier),
    /// The actor's state has no serialized form.
    SerializationFailed,
    /// The change-set refused the actor's state, in the words given.
    CannotPublish(String),
    /// The engine failed; its error is kept as it came.
    Engine(X),
}

impl<X> Failure<X> {
    /// The failure is the engine's own, not one that this layer raises.
    pub open spec fn spec_is_engine_error(&self) -> bool {
        self is Engine
    }

    /// Tells whether the failure is the engine's own.
    pub fn is_engine_error(&self) -> (engine: bool)
        ensures
            engine == self.spec_is_engine_error(),
    {
        match self {
            Failure::Engine(_) => true,
            _ => false,
        }
    }

    /// The name of each kind of failure.
    pub open spec fn spec_description(&self) -> Seq<char> {
        match self {
            Failure::ActorUnknown(_) => "actor unknown"@,
            Failure::ActorExists(_, _) => "actor already exists"@,
            Failure::UnknownMessageHash(_) => "unknown message hash"@,
            Failure::InconsistentInitializer(_) => "inconsistent initializer"@,
            Failure::InconsistentHandler(_) => "inconsistent handler"@,
            Failure::SerializationFailed => "serialization failed"@,
            Failure::CannotPublish(_) => "cannot publish actor state"@,
            Failure::Engine(_) => "engine error"@,
        }
    }

    /// Names the kind of failure, in words.
    pub fn description(&self) -> (text: &'static str)
        ensures
            text@ == self.spec_description(),
    {
        match self {
            Failure::ActorUnknown(_) => "actor unknown",
            Failure::ActorExists(_, _) => "actor already exists",
            Failure::UnknownMessageHash(_) => "unknown message hash",
            Failure::InconsistentInitializer(_) => "inconsistent initializer",
            Failure::InconsistentHandler(_) => "inconsistent handler",
            Failure::SerializationFailed => "serialization failed",
            Failure::CannotPublish(_) => "cannot publish actor state",
            Failure::Engine(_) => "engine error",
        }
    }
}

/// A structure to represent failure for the execution of an async session operation.
#[derive(Debug, Clone)]
pub struct AsyncError<X> {
    pub error: Failure<X>,
    pub gas_used: u64,
}

/// Result type for operations of an AsyncSession.
pub type AsyncResult<X> = Result<AsyncSuccess, AsyncError<X>>;

/// Gas consumed by one engine call, from the meter's reading before and after it: the
/// difference, or nothing where the meter reads higher afterwards.
pub open spec fn spec_gas_used(gas_before: u64, gas_after: u64) -> u64 {
    if gas_after <= gas_before {
        (gas_before - gas_after) as u64
    } else {
        0
    }
}

/// Computes the gas that one engine call consumed.
pub fn gas_used(gas_before: u64, gas_after: u64) -> (used: u64)
    ensures
        used == spec_gas_used(gas_before, gas_after),
{
    if gas_after <= gas_before {
        gas_before - gas_after
    } else {
        0
    }
}

/// An error that this layer raises before the engine has run: no gas was used.
pub fn async_extension_error<X>(error: Failure<X>) -> (failure: AsyncError<X>)
    ensures
        failure.error == error,
        failure.gas_used == 0,
{
    AsyncError { error, gas_used: 0 }
}

/// An engine error from before any call was made: no gas was used.
pub fn vm_error_to_async<X>(error: X) -> (failure: AsyncError<X>)
    ensures
        failure.error == Failure::Engine(error),
        failure.gas_used == 0,
{
    AsyncError { error: Failure::Engine(error), gas_used: 0 }
}

} // verus!
