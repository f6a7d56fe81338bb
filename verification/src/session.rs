//! One session of an async VM: creating an actor, or handling one message.
//!
//! The execution engine is driven from outside. Each operation is a short run of steps:
//! a step decides what the engine is asked next, and the step after it takes what the
//! engine answered. The last step yields the result of the operation. A step can only be
//! reached through the step before it, and taking it consumes it.

use crate::actor_metadata::{ActorMetadata, ActorView};
use crate::core_types::{struct_type, struct_type_tag};
use crate::effects::{
    modules_of, publish_resource, refusal, resources_of, writes_resource, ResourceKey,
};
use crate::outcome::{
    async_extension_error, fresh_extension, gas_used, make_extensions, spec_gas_used,
    vm_error_to_async, AsyncError, AsyncExtension, AsyncResult, AsyncSuccess, Execution, Failure,
};
use crate::vm::AsyncVM;
use move_core_types::account_address::AccountAddress;
use move_core_types::effects::ChangeSet;
use move_core_types::identifier::Identifier;
use move_core_types::language_storage::{ModuleId, StructTag, TypeTag};
use vstd::prelude::*;

verus! {

/// Represents an Async Move execution session. A session performs one operation, which
/// consumes it.
pub struct AsyncSession<'l> {
    vm: &'l AsyncVM,
    extension: AsyncExtension,
}

/// A question for the engine about the state of an actor: the resource of type
/// `state_type` at `actor_addr`.
pub struct StateQuery {
    pub actor_addr: AccountAddress,
    pub state_type: TypeTag,
}

/// A call for the engine: it is to run `function` of `module_id` with the type arguments
/// `ty_args` and the arguments `args`, whatever the function's visibility, read the gas
/// meter before and after the call, and finish its session.
pub struct Invocation<'a> {
    pub module_id: &'a ModuleId,
    pub function: &'a Identifier,
    pub ty_args: Vec<TypeTag>,
    pub args: &'a Vec<Vec<u8>>,
}

/// The first step of `new_actor`: the engine is given the context of an initializer and
/// asked whether the actor's state exists.
pub struct ActorProbe<'l> {
    actor: &'l ActorMetadata,
    actor_addr: AccountAddress,
    extension: AsyncExtension,
}

/// The second step of `new_actor`: the engine is asked to run the initializer.
pub struct InitializerCall<'l> {
    actor: &'l ActorMetadata,
    actor_addr: AccountAddress,
    args: Vec<Vec<u8>>,
}

/// The first step of `handle_message`: the engine is given the context of a handler and
/// asked for the actor's state in serialized form.
pub struct StateLoad<'l> {
    actor: &'l ActorMetadata,
    actor_addr: AccountAddress,
    extension: AsyncExtension,
    module_id: &'l ModuleId,
    handler_id: &'l Identifier,
    args: Vec<Vec<u8>>,
}

/// The second step of `handle_message`: the engine is asked to run the handler.
pub struct HandlerCall<'l> {
    actor: &'l ActorMetadata,
    actor_addr: AccountAddress,
    module_id: &'l ModuleId,
    function: &'l Identifier,
    args: Vec<Vec<u8>>,
}

/// A step that asks for the state of an actor, as a mathematical value: the actor, its
/// address, the context that the engine is to run in, and the function that is to be
/// called once the state is known, with the arguments that the caller gave for it.
pub struct StateStep {
    pub actor: ActorView,
    pub actor_addr: AccountAddress,
    pub extension: AsyncExtension,
    pub module_id: ModuleId,
    pub function: Identifier,
    pub args: Seq<Vec<u8>>,
}

/// A step that asks for a call, as a mathematical value: the actor, its address, and
/// the function to call with its arguments.
pub struct CallStep {
    pub actor: ActorView,
    pub actor_addr: AccountAddress,
    pub module_id: ModuleId,
    pub function: Identifier,
    pub args: Seq<Vec<u8>>,
}

impl<'l> View for ActorProbe<'l> {
    type V = StateStep;

    closed spec fn view(&self) -> StateStep {
        StateStep {
            actor: self.actor@,
            actor_addr: self.actor_addr,
            extension: self.extension,
            module_id: self.actor.module_id,
            function: self.actor.initializer,
            args: Seq::empty(),
        }
    }
}

impl<'l> View for InitializerCall<'l> {
    type V = CallStep;

    closed spec fn view(&self) -> CallStep {
        CallStep {
            actor: self.actor@,
            actor_addr: self.actor_addr,
            module_id: self.actor.module_id,
            function: self.actor.initializer,
            args: self.args@,
        }
    }
}

impl<'l> View for StateLoad<'l> {
    type V = StateStep;

    closed spec fn view(&self) -> StateStep {
        StateStep {
            actor: self.actor@,
            actor_addr: self.actor_addr,
            extension: self.extension,
            module_id: *self.module_id,
            function: *self.handler_id,
            args: self.args@,
        }
    }
}

impl<'l> View for HandlerCall<'l> {
    type V = CallStep;

    closed spec fn view(&self) -> CallStep {
        CallStep {
            actor: self.actor@,
            actor_addr: self.actor_addr,
            module_id: *self.module_id,
            function: *self.function,
            args: self.args@,
        }
    }
}

/// The failure of a state that the change-set refused: it carries the words of the
/// refusal.
pub open spec fn cannot_publish<X>(failure: Failure<X>) -> bool {
    failure matches Failure::CannotPublish(cause) && cause@ == refusal()
}

/// Writes the state of an actor into a change-set. Fails, with the change-set as it was
/// and with the change-set's own words as the cause, where the change-set already writes
/// that state.
pub fn publish_actor_state<X>(
    change_set: &mut ChangeSet,
    actor_addr: AccountAddress,
    state_tag: StructTag,
    state: Vec<u8>,
) -> (published: Result<(), Failure<X>>)
    ensures
        modules_of(*final(change_set)) == modules_of(*old(change_set)),
        match published {
            Ok(_) => !writes_resource(*old(change_set), (actor_addr, state_tag)) && resources_of(
                *final(change_set),
            ) == resources_of(*old(change_set)).insert((actor_addr, state_tag), Some(state@)),
            Err(failure) => writes_resource(*old(change_set), (actor_addr, state_tag))
                && resources_of(*final(change_set)) == resources_of(*old(change_set))
                && cannot_publish(failure),
        },
{
    match publish_resource(change_set, actor_addr, state_tag, state) {
        Ok(_) => Ok(()),
        Err(cause) => Err(Failure::CannotPublish(cause)),
    }
}

impl<'l> AsyncSession<'l> {
    /// The VM that the session belongs to.
    pub closed spec fn vm(&self) -> AsyncVM {
        *self.vm
    }

    /// The execution context that the session was opened with.
    pub closed spec fn extension(&self) -> AsyncExtension {
        self.extension
    }

    pub(crate) fn open(vm: &'l AsyncVM, extension: AsyncExtension) -> (session: AsyncSession<'l>)
        ensures
            session.vm() == *vm,
            session.extension() == extension,
    {
        AsyncSession { vm, extension }
    }

    /// The execution context that the engine's session is to be opened with. The first
    /// step of the operation gives the context that the engine is to run in.
    pub fn get_extension(&self) -> (extension: &AsyncExtension)
        ensures
            *extension == self.extension(),
    {
        &self.extension
    }

    /// Creates a new actor, identified by the module_id, at the given account address.
    /// An unknown module fails at once, with no gas used; for a registered one the engine
    /// is next asked whether the actor's state exists, and is to run in the session's
    /// context with the initializer flag set.
    pub fn new_actor<X>(self, module_id: &ModuleId, actor_addr: AccountAddress) -> (step: Result<
        ActorProbe<'l>,
        AsyncError<X>,
    >)
        ensures
            match step {
                Ok(probe) => {
                    &&& self.vm().catalog().contains_key(*module_id)
                    &&& probe@.actor == self.vm().catalog()[*module_id]
                    &&& probe@.actor_addr == actor_addr
                    &&& fresh_extension(
                        probe@.extension,
                        self.extension().current_actor,
                        self.extension().virtual_time,
                        true,
                    )
                    &&& probe@.module_id == *module_id
                    &&& probe@.function == probe@.actor.initializer
                    &&& probe@.args == Seq::<Vec<u8>>::empty()
                },
                Err(failure) => {
                    &&& !self.vm().catalog().contains_key(*module_id)
                    &&& failure.error == Failure::<X>::ActorUnknown(*module_id)
                    &&& failure.gas_used == 0
                },
            },
    {
        match self.vm.actor_metadata(module_id) {
            Some(actor) => {
                let extension = make_extensions(
                    self.extension.current_actor,
                    self.extension.virtual_time,
                    true,
                );
                Ok(ActorProbe { actor, actor_addr, extension })
            },
            None => Err(async_extension_error(Failure::ActorUnknown(module_id.clone()))),
        }
    }

    /// Handles a message at `actor_addr` with the given `message_hash`. An identifier
    /// that the dispatch table does not hold fails at once, with no gas used. Otherwise
    /// the engine is next asked for the actor's state, and is to run in the session's
    /// context with the initializer flag cleared; the handler is the function that the
    /// table names. The module that the table names is looked up in the
    /// catalog; since the table belongs to the catalog, the lookup finds the actor.
    pub fn handle_message<X>(
        self,
        actor_addr: AccountAddress,
        message_hash: u64,
        args: Vec<Vec<u8>>,
    ) -> (step: Result<StateLoad<'l>, AsyncError<X>>)
        ensures
            match step {
                Ok(load) => {
                    &&& self.vm().dispatch().contains_key(message_hash)
                    &&& (load@.module_id, load@.function) == self.vm().dispatch()[message_hash]
                    &&& self.vm().catalog().contains_key(load@.module_id)
                    &&& load@.actor == self.vm().catalog()[load@.module_id]
                    &&& load@.actor_addr == actor_addr
                    &&& fresh_extension(
                        load@.extension,
                        self.extension().current_actor,
                        self.extension().virtual_time,
                        false,
                    )
                    &&& load@.args == args@
                },
                Err(failure) => {
                    &&& !self.vm().dispatch().contains_key(message_hash)
                    &&& failure.error == Failure::<X>::UnknownMessageHash(message_hash)
                    &&& failure.gas_used == 0
                },
            },
    {
        proof {
            use_type_invariant(self.vm);
            self.vm.lemma_tables();
        }
        let target = match self.vm.resolve_message_hash(message_hash) {
            Some(target) => target,
            None => {
                return Err(async_extension_error(Failure::UnknownMessageHash(message_hash)));
            },
        };
        let module_id = &target.0;
        let handler_id = &target.1;
        match self.vm.actor_metadata(module_id) {
            Some(actor) => {
                let extension = make_extensions(
                    self.extension.current_actor,
                    self.extension.virtual_time,
                    false,
                );
                Ok(StateLoad { actor, actor_addr, extension, module_id, handler_id, args })
            },
            None => Err(async_extension_error(Failure::ActorUnknown(module_id.clone()))),
        }
    }
}

/// `success` is what an operation yields that wrote `state` as the actor's state into
/// the change-set of `execution`: the change-set with that one resource added, and the
/// events, the messages sent and the gas as they came.
pub open spec fn with_state(
    success: AsyncSuccess,
    execution: Execution,
    actor_addr: AccountAddress,
    state_tag: StructTag,
    state: Seq<u8>,
    gas: u64,
) -> bool {
    &&& resources_of(success.change_set) == resources_of(execution.change_set).insert(
        (actor_addr, state_tag),
        Some(state),
    )
    &&& modules_of(success.change_set) == modules_of(execution.change_set)
    &&& success.events == execution.events
    &&& success.messages == execution.extension.sent
    &&& success.gas_used == gas
}

/// `success` is what an operation yields that left the actor's state alone: the
/// change-set, the events, the messages sent and the gas as they came.
pub open spec fn without_state(success: AsyncSuccess, execution: Execution, gas: u64) -> bool {
    &&& success.change_set == execution.change_set
    &&& success.events == execution.events
    &&& success.messages == execution.extension.sent
    &&& success.gas_used == gas
}

/// An operation that wrote the actor's state yields a change-set that writes that state
/// at the actor's address and under the state's type, and that otherwise holds what the
/// engine's change-set held.
pub proof fn lemma_state_is_written(
    success: AsyncSuccess,
    execution: Execution,
    actor_addr: AccountAddress,
    state_tag: StructTag,
    state: Seq<u8>,
    gas: u64,
)
    requires
        with_state(success, execution, actor_addr, state_tag, state, gas),
    ensures
        writes_resource(success.change_set, (actor_addr, state_tag)),
        resources_of(success.change_set)[(actor_addr, state_tag)] == Some(state),
        forall|key: ResourceKey|
            key != (actor_addr, state_tag) ==> (resources_of(success.change_set).contains_key(key)
                <==> resources_of(execution.change_set).contains_key(key)),
        forall|key: ResourceKey|
            key != (actor_addr, state_tag) && resources_of(execution.change_set).contains_key(key)
                ==> resources_of(success.change_set)[key] == resources_of(
                execution.change_set,
            )[key],
        modules_of(success.change_set) == modules_of(execution.change_set),
{
}

/// An operation that left the actor's state alone yields a change-set that writes the
/// state only where the engine's own change-set wrote it.
pub proof fn lemma_state_is_left_alone(
    success: AsyncSuccess,
    execution: Execution,
    actor_addr: AccountAddress,
    state_tag: StructTag,
    gas: u64,
)
    requires
        without_state(success, execution, gas),
    ensures
        writes_resource(success.change_set, (actor_addr, state_tag)) <==> writes_resource(
            execution.change_set,
            (actor_addr, state_tag),
        ),
        resources_of(success.change_set) == resources_of(execution.change_set),
        modules_of(success.change_set) == modules_of(execution.change_set),
{
}

impl<'l> ActorProbe<'l> {
    /// The context that the engine is to run in while it creates the actor: the
    /// session's, with the initializer flag set.
    pub fn extension(&self) -> (extension: &AsyncExtension)
        ensures
            *extension == self@.extension,
    {
        &self.extension
    }

    /// What the engine is asked: whether a resource of the actor's state type exists at
    /// the actor's address.
    pub fn query(&self) -> (query: StateQuery)
        ensures
            query.actor_addr == self@.actor_addr,
            query.state_type == struct_type(self@.actor.state_tag),
    {
        StateQuery {
            actor_addr: self.actor_addr,
            state_type: struct_type_tag(self.actor.state_tag.clone()),
        }
    }

    /// Takes the engine's answer to the probe. An engine error ends the operation, and so
    /// does a state that exists already; no gas has been used then. Otherwise the
    /// initializer is to be called, with no arguments.
    pub fn state_probed<X>(self, present: Result<bool, X>) -> (step: Result<
        InitializerCall<'l>,
        AsyncError<X>,
    >)
        ensures
            match present {
                Err(error) => step matches Err(failure) && failure.error == Failure::Engine(error)
                    && failure.gas_used == 0,
                Ok(true) => step matches Err(failure) && failure.error == Failure::<
                    X,
                >::ActorExists(self@.module_id, self@.actor_addr) && failure.gas_used == 0,
                Ok(false) => step matches Ok(call) && call@ == (CallStep {
                    actor: self@.actor,
                    actor_addr: self@.actor_addr,
                    module_id: self@.module_id,
                    function: self@.function,
                    args: Seq::empty(),
                }),
            },
    {
        match present {
            Err(error) => Err(vm_error_to_async(error)),
            Ok(true) => Err(
                async_extension_error(
                    Failure::ActorExists(self.actor.module_id.clone(), self.actor_addr),
                ),
            ),
            Ok(false) => Ok(
                InitializerCall {
                    actor: self.actor,
                    actor_addr: self.actor_addr,
                    args: Vec::new(),
                },
            ),
        }
    }
}

impl<'l> InitializerCall<'l> {
    /// What the engine is asked: to run the initializer of the actor's module, without
    /// type arguments.
    pub fn invocation(&self) -> (call: Invocation<'_>)
        ensures
            *call.module_id == self@.module_id,
            *call.function == self@.function,
            call.ty_args@ == Seq::<TypeTag>::empty(),
            call.args@ == self@.args,
    {
        Invocation {
            module_id: &self.actor.module_id,
            function: &self.actor.initializer,
            ty_args: Vec::new(),
            args: &self.args,
        }
    }

    /// Takes what the engine reports of the initializer's run, with the gas meter's
    /// reading before and after it. Every result carries the gas used. An engine error is
    /// passed on. An initializer that returned one value has created the actor: the value
    /// becomes the actor's state in the change-set, unless the change-set writes that
    /// state already. Any other number of values is an error.
    pub fn finished<X>(
        self,
        gas_before: u64,
        gas_after: u64,
        outcome: Result<Execution, X>,
    ) -> (result: AsyncResult<X>)
        ensures
            match outcome {
                Err(error) => result matches Err(failure) && failure.error == Failure::Engine(error)
                    && failure.gas_used == spec_gas_used(gas_before, gas_after),
                Ok(execution) => if execution.returned.return_values.len() != 1 {
                    result matches Err(failure) && failure.error == Failure::<
                        X,
                    >::InconsistentInitializer(self@.function) && failure.gas_used
                        == spec_gas_used(gas_before, gas_after)
                } else if writes_resource(
                    execution.change_set,
                    (self@.actor_addr, self@.actor.state_tag),
                ) {
                    result matches Err(failure) && cannot_publish(failure.error)
                        && failure.gas_used == spec_gas_used(gas_before, gas_after)
                } else {
                    result matches Ok(success) && with_state(
                        success,
                        execution,
                        self@.actor_addr,
                        self@.actor.state_tag,
                        execution.returned.return_values[0]@,
                        spec_gas_used(gas_before, gas_after),
                    )
                },
            },
    {
        let gas_used = gas_used(gas_before, gas_after);
        match outcome {
            Err(error) => Err(AsyncError { error: Failure::Engine(error), gas_used }),
            Ok(execution) => {
                let Execution { returned, change_set, events, extension } = execution;
                let mut return_values = returned.return_values;
                if return_values.len() != 1 {
                    Err(
                        AsyncError {
                            error: Failure::InconsistentInitializer(self.actor.initializer.clone()),
                            gas_used,
                        },
                    )
                } else {
                    let mut change_set = change_set;
                    let state = return_values.remove(0);
                    match publish_actor_state(
                        &mut change_set,
                        self.actor_addr,
                        self.actor.state_tag.clone(),
                        state,
                    ) {
                        Err(error) => Err(AsyncError { error, gas_used }),
                        Ok(_) => Ok(
                            AsyncSuccess { change_set, events, messages: extension.sent, gas_used },
                        ),
                    }
                }
            },
        }
    }
}

impl<'l> StateLoad<'l> {
    /// The context that the engine is to run in while it handles the message: the
    /// session's, with the initializer flag cleared.
    pub fn extension(&self) -> (extension: &AsyncExtension)
        ensures
            *extension == self@.extension,
    {
        &self.extension
    }

    /// What the engine is asked: the resource of the actor's state type at the actor's
    /// address, in serialized form.
    pub fn query(&self) -> (query: StateQuery)
        ensures
            query.actor_addr == self@.actor_addr,
            query.state_type == struct_type(self@.actor.state_tag),
    {
        StateQuery {
            actor_addr: self.actor_addr,
            state_type: struct_type_tag(self.actor.state_tag.clone()),
        }
    }

    /// Takes the engine's answer to the load: the actor's state in serialized form, or
    /// nothing where the state has no such form. An engine error ends the operation, and
    /// so does a state that cannot be serialized; no gas has been used then. Otherwise
    /// the handler is to be called with the state in front of the message's arguments.
    pub fn state_loaded<X>(self, state: Result<Option<Vec<u8>>, X>) -> (step: Result<
        HandlerCall<'l>,
        AsyncError<X>,
    >)
        ensures
            match state {
                Err(error) => step matches Err(failure) && failure.error == Failure::Engine(error)
                    && failure.gas_used == 0,
                Ok(None) => step matches Err(failure) && failure.error == Failure::<
                    X,
                >::SerializationFailed && failure.gas_used == 0,
                Ok(Some(state)) => step matches Ok(call) && call@ == (CallStep {
                    actor: self@.actor,
                    actor_addr: self@.actor_addr,
                    module_id: self@.module_id,
                    function: self@.function,
                    args: self@.args.insert(0, state),
                }),
            },
    {
        match state {
            Err(error) => Err(vm_error_to_async(error)),
            Ok(None) => Err(async_extension_error(Failure::SerializationFailed)),
            Ok(Some(state)) => {
                let mut args = self.args;
                args.insert(0, state);
                Ok(
                    HandlerCall {
                        actor: self.actor,
                        actor_addr: self.actor_addr,
                        module_id: self.module_id,
                        function: self.handler_id,
                        args,
                    },
                )
            },
        }
    }
}

impl<'l> HandlerCall<'l> {
    /// What the engine is asked: to run the handler with the actor's state and the
    /// message's arguments, without type arguments.
    pub fn invocation(&self) -> (call: Invocation<'_>)
        ensures
            *call.module_id == self@.module_id,
            *call.function == self@.function,
            call.ty_args@ == Seq::<TypeTag>::empty(),
            call.args@ == self@.args,
    {
        Invocation {
            module_id: self.module_id,
            function: self.function,
            ty_args: Vec::new(),
            args: &self.args,
        }
    }

    /// Takes what the engine reports of the handler's run, with the gas meter's reading
    /// before and after it. Every result carries the gas used. An engine error is passed
    /// on. A handler that handed back no mutable reference has left the state alone; one
    /// that handed back one has changed the state, and the new value goes into the
    /// change-set, unless the change-set writes that state already. More than one is an
    /// error.
    pub fn finished<X>(
        self,
        gas_before: u64,
        gas_after: u64,
        outcome: Result<Execution, X>,
    ) -> (result: AsyncResult<X>)
        ensures
            match outcome {
                Err(error) => result matches Err(failure) && failure.error == Failure::Engine(error)
                    && failure.gas_used == spec_gas_used(gas_before, gas_after),
                Ok(execution) => if execution.returned.mutable_reference_outputs.len() > 1 {
                    result matches Err(failure) && failure.error == Failure::<
                        X,
                    >::InconsistentHandler(self@.function) && failure.gas_used == spec_gas_used(
                        gas_before,
                        gas_after,
                    )
                } else if execution.returned.mutable_reference_outputs.len() == 0 {
                    result matches Ok(success) && without_state(
                        success,
                        execution,
                        spec_gas_used(gas_before, gas_after),
                    )
                } else if writes_resource(
                    execution.change_set,
                    (self@.actor_addr, self@.actor.state_tag),
                ) {
                    result matches Err(failure) && cannot_publish(failure.error)
                        && failure.gas_used == spec_gas_used(gas_before, gas_after)
                } else {
                    result matches Ok(success) && with_state(
                        success,
                        execution,
                        self@.actor_addr,
                        self@.actor.state_tag,
                        execution.returned.mutable_reference_outputs[0].1@,
                        spec_gas_used(gas_before, gas_after),
                    )
                },
            },
    {
        let gas_used = gas_used(gas_before, gas_after);
        match outcome {
            Err(error) => Err(AsyncError { error: Failure::Engine(error), gas_used }),
            Ok(execution) => {
                let Execution { returned, change_set, events, extension } = execution;
                let mut mutable_reference_outputs = returned.mutable_reference_outputs;
                if mutable_reference_outputs.len() > 1 {
                    Err(
                        AsyncError {
                            error: Failure::InconsistentHandler(self.function.clone()),
                            gas_used,
                        },
                    )
                } else {
                    let mut change_set = change_set;
                    if !mutable_reference_outputs.is_empty() {
                        let state = mutable_reference_outputs.remove(0).1;
                        match publish_actor_state(
                            &mut change_set,
                            self.actor_addr,
                            self.actor.state_tag.clone(),
                            state,
                        ) {
                            Err(error) => {
                                return Err(AsyncError { error, gas_used });
                            },
                            Ok(_) => {},
                        }
                    }
                    Ok(AsyncSuccess { change_set, events, messages: extension.sent, gas_used })
                }
            },
        }
    }
}

} // verus!
