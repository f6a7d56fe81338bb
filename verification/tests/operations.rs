use move_async_vm::actor_metadata::{message_hash, ActorMetadata};
use move_async_vm::outcome::{
    async_extension_error, gas_used, make_extensions, vm_error_to_async, AsyncExtension,
    Execution, Failure, SerializedReturnValues,
};
use move_async_vm::session::{publish_actor_state, HandlerCall, InitializerCall};
use move_async_vm::vm::AsyncVM;
use move_core_types::account_address::AccountAddress;
use move_core_types::effects::ChangeSet;
use move_core_types::identifier::Identifier;
use move_core_types::language_storage::{ModuleId, StructTag, TypeTag};

#[derive(Debug, Clone, PartialEq)]
enum EngineError {
    OutOfGas,
    ResourceDoesNotExist,
    LinkerError,
}

fn addr(last: u8) -> AccountAddress {
    let mut bytes = [0u8; AccountAddress::LENGTH];
    bytes[AccountAddress::LENGTH - 1] = last;
    AccountAddress::new(bytes)
}

fn name(text: &str) -> Identifier {
    Identifier::new(text).unwrap()
}

fn counter_module() -> ModuleId {
    ModuleId::new(addr(1), name("Counter"))
}

fn counter_tag() -> StructTag {
    StructTag {
        address: addr(1),
        module: name("Counter"),
        name: name("State"),
        type_params: vec![],
    }
}

fn counter() -> ActorMetadata {
    ActorMetadata {
        module_id: counter_module(),
        state_tag: counter_tag(),
        initializer: name("init"),
        messages: vec![name("increment"), name("peek")],
    }
}

fn execution(
    return_values: Vec<Vec<u8>>,
    mutable_reference_outputs: Vec<(u8, Vec<u8>)>,
    change_set: ChangeSet,
) -> Execution {
    let mut extension = make_extensions(addr(9), 5, true);
    extension.sent.push((addr(3), 77, vec![vec![1, 2], vec![3]]));
    extension.sent.push((addr(4), 78, vec![]));
    Execution {
        returned: SerializedReturnValues { mutable_reference_outputs, return_values },
        change_set,
        events: vec![(vec![0xee], 1, TypeTag::U64, vec![9, 9])],
        extension,
    }
}

fn resource(
    change_set: &ChangeSet,
    at: AccountAddress,
    tag: &StructTag,
) -> Option<Option<Vec<u8>>> {
    change_set
        .accounts()
        .get(&at)
        .and_then(|account| account.resources().get(tag))
        .cloned()
}

fn resource_count(change_set: &ChangeSet) -> usize {
    change_set.resources().count()
}

fn initializer_call<'l>(vm: &'l AsyncVM, at: AccountAddress) -> InitializerCall<'l> {
    let probe = vm.new_session(at, 0).new_actor::<EngineError>(&counter_module(), at);
    probe.ok().unwrap().state_probed::<EngineError>(Ok(false)).ok().unwrap()
}

fn handler_call<'l>(vm: &'l AsyncVM, at: AccountAddress) -> HandlerCall<'l> {
    let hash = message_hash(&counter_module(), &name("increment"));
    let load = vm.new_session(at, 0).handle_message::<EngineError>(at, hash, vec![]);
    load.ok().unwrap().state_loaded::<EngineError>(Ok(Some(vec![0; 8]))).ok().unwrap()
}

#[test]
fn gas_used_is_before_minus_after() {
    assert_eq!(gas_used(1000, 990), 10);
    assert_eq!(gas_used(1000, 1000), 0);
    assert_eq!(gas_used(u64::MAX, 0), u64::MAX);
    assert_eq!(gas_used(7, 0), 7);
}

#[test]
fn gas_used_is_zero_when_the_meter_reads_higher_afterwards() {
    assert_eq!(gas_used(990, 1000), 0);
    assert_eq!(gas_used(0, u64::MAX), 0);
}

#[test]
fn make_extensions_keeps_its_arguments_and_starts_empty() {
    let extension: AsyncExtension = make_extensions(addr(5), 1 << 100, false);
    assert_eq!(extension.current_actor, addr(5));
    assert_eq!(extension.virtual_time, 1 << 100);
    assert!(!extension.in_initializer);
    assert!(extension.sent.is_empty());
    assert!(make_extensions(addr(5), 0, true).in_initializer);
}

#[test]
fn send_queues_messages_in_order() {
    let mut extension = make_extensions(addr(5), 3, true);
    extension.send(addr(1), 11, vec![vec![1]]);
    extension.send(addr(2), 22, vec![]);
    extension.send(addr(1), 11, vec![vec![2], vec![3]]);
    assert_eq!(
        extension.sent,
        vec![
            (addr(1), 11, vec![vec![1]]),
            (addr(2), 22, vec![]),
            (addr(1), 11, vec![vec![2], vec![3]]),
        ]
    );
    assert_eq!(extension.current_actor, addr(5));
    assert_eq!(extension.virtual_time, 3);
    assert!(extension.in_initializer);
}

#[test]
fn errors_raised_before_the_engine_runs_carry_no_gas() {
    let e = async_extension_error::<EngineError>(Failure::UnknownMessageHash(3));
    assert_eq!(e.gas_used, 0);
    assert!(matches!(e.error, Failure::UnknownMessageHash(3)));
    let e = vm_error_to_async(EngineError::LinkerError);
    assert_eq!(e.gas_used, 0);
    assert!(matches!(e.error, Failure::Engine(EngineError::LinkerError)));
}

#[test]
fn failures_are_described_by_their_kind() {
    let cases: Vec<(Failure<EngineError>, &str, bool)> = vec![
        (Failure::ActorUnknown(counter_module()), "actor unknown", false),
        (Failure::ActorExists(counter_module(), addr(1)), "actor already exists", false),
        (Failure::UnknownMessageHash(1), "unknown message hash", false),
        (Failure::InconsistentInitializer(name("init")), "inconsistent initializer", false),
        (Failure::InconsistentHandler(name("increment")), "inconsistent handler", false),
        (Failure::SerializationFailed, "serialization failed", false),
        (
            Failure::CannotPublish("resource already published".to_string()),
            "cannot publish actor state",
            false,
        ),
        (Failure::Engine(EngineError::OutOfGas), "engine error", true),
    ];
    for (failure, text, engine) in cases {
        assert_eq!(failure.description(), text);
        assert_eq!(failure.is_engine_error(), engine);
    }
}

#[test]
fn new_actor_of_unregistered_module_fails_with_actor_unknown_and_no_gas() {
    let vm = AsyncVM::new(vec![counter()]);
    for unknown in [
        ModuleId::new(addr(2), name("Counter")),
        ModuleId::new(addr(1), name("Account")),
    ] {
        let session = vm.new_session(addr(9), 0);
        let failure = session.new_actor::<EngineError>(&unknown, addr(9)).err().unwrap();
        assert_eq!(failure.gas_used, 0);
        assert_eq!(failure.error.description(), "actor unknown");
        assert!(matches!(failure.error, Failure::ActorUnknown(ref m) if *m == unknown));
    }
}

#[test]
fn new_actor_of_registered_module_asks_for_the_state_of_that_actor() {
    let vm = AsyncVM::new(vec![counter()]);
    let session = vm.new_session(addr(9), 0);
    let probe = session.new_actor::<EngineError>(&counter_module(), addr(9)).ok().unwrap();
    let query = probe.query();
    assert_eq!(query.actor_addr, addr(9));
    assert_eq!(query.state_type, TypeTag::Struct(counter_tag()));
}

#[test]
fn new_actor_runs_in_the_context_of_an_initializer() {
    let vm = AsyncVM::new(vec![counter()]);
    let session = vm.new_session(addr(9), 31);
    let probe = session.new_actor::<EngineError>(&counter_module(), addr(8)).ok().unwrap();
    let extension = probe.extension();
    assert!(extension.in_initializer);
    assert_eq!(extension.current_actor, addr(9));
    assert_eq!(extension.virtual_time, 31);
    assert!(extension.sent.is_empty());
}

#[test]
fn handle_message_runs_in_the_context_of_a_handler() {
    let vm = AsyncVM::new(vec![counter()]);
    let hash = message_hash(&counter_module(), &name("increment"));
    let session = vm.new_session(addr(9), 31);
    let load = session.handle_message::<EngineError>(addr(8), hash, vec![]).ok().unwrap();
    let extension = load.extension();
    assert!(!extension.in_initializer);
    assert_eq!(extension.current_actor, addr(9));
    assert_eq!(extension.virtual_time, 31);
    assert!(extension.sent.is_empty());
}

#[test]
fn new_actor_on_existing_state_fails_with_already_exists_and_no_gas() {
    let vm = AsyncVM::new(vec![counter()]);
    let session = vm.new_session(addr(9), 0);
    let probe = session.new_actor::<EngineError>(&counter_module(), addr(9)).ok().unwrap();
    let failure = probe.state_probed::<EngineError>(Ok(true)).err().unwrap();
    assert_eq!(failure.gas_used, 0);
    assert_eq!(failure.error.description(), "actor already exists");
    assert!(matches!(
        failure.error,
        Failure::ActorExists(ref m, a) if *m == counter_module() && a == addr(9)
    ));
}

#[test]
fn new_actor_passes_on_an_engine_error_of_the_probe_with_no_gas() {
    let vm = AsyncVM::new(vec![counter()]);
    let session = vm.new_session(addr(9), 0);
    let probe = session.new_actor::<EngineError>(&counter_module(), addr(9)).ok().unwrap();
    let failure = probe.state_probed(Err(EngineError::LinkerError)).err().unwrap();
    assert_eq!(failure.gas_used, 0);
    assert!(matches!(failure.error, Failure::Engine(EngineError::LinkerError)));
}

#[test]
fn new_actor_on_fresh_address_calls_the_initializer_without_arguments() {
    let vm = AsyncVM::new(vec![counter()]);
    let session = vm.new_session(addr(9), 0);
    let probe = session.new_actor::<EngineError>(&counter_module(), addr(9)).ok().unwrap();
    let call = probe.state_probed::<EngineError>(Ok(false)).ok().unwrap();
    let invocation = call.invocation();
    assert_eq!(invocation.module_id, &counter_module());
    assert_eq!(invocation.function, &name("init"));
    assert!(invocation.ty_args.is_empty());
    assert!(invocation.args.is_empty());
}

#[test]
fn successful_initializer_publishes_the_returned_state() {
    let vm = AsyncVM::new(vec![counter()]);
    let call = initializer_call(&vm, addr(9));
    let done = execution(vec![vec![0, 0, 0, 0, 0, 0, 0, 0]], vec![], ChangeSet::new());
    let success = call.finished::<EngineError>(1000, 985, Ok(done)).ok().unwrap();
    assert_eq!(success.gas_used, 15);
    assert_eq!(resource_count(&success.change_set), 1);
    assert_eq!(
        resource(&success.change_set, addr(9), &counter_tag()),
        Some(Some(vec![0, 0, 0, 0, 0, 0, 0, 0]))
    );
    assert_eq!(
        success.messages,
        vec![(addr(3), 77, vec![vec![1, 2], vec![3]]), (addr(4), 78, vec![])]
    );
    assert_eq!(success.events, vec![(vec![0xee], 1, TypeTag::U64, vec![9, 9])]);
}

#[test]
fn successful_initializer_keeps_the_other_effects_of_the_engine() {
    let vm = AsyncVM::new(vec![counter()]);
    let other_tag = StructTag {
        address: addr(1),
        module: name("Counter"),
        name: name("Log"),
        type_params: vec![],
    };
    let mut change_set = ChangeSet::new();
    change_set.publish_resource(addr(9), other_tag.clone(), vec![4]).unwrap();
    change_set.publish_resource(addr(8), counter_tag(), vec![5]).unwrap();
    change_set.unpublish_resource(addr(9), counter_tag()).unwrap();
    change_set.publish_module(ModuleId::new(addr(8), name("M")), vec![6]).unwrap();
    let call = initializer_call(&vm, addr(9));
    let done = execution(vec![vec![7, 7]], vec![(0, vec![1])], change_set);
    let success = call.finished::<EngineError>(50, 50, Ok(done)).ok().unwrap();
    assert_eq!(success.gas_used, 0);
    assert_eq!(resource_count(&success.change_set), 3);
    assert_eq!(resource(&success.change_set, addr(9), &counter_tag()), Some(Some(vec![7, 7])));
    assert_eq!(resource(&success.change_set, addr(9), &other_tag), Some(Some(vec![4])));
    assert_eq!(resource(&success.change_set, addr(8), &counter_tag()), Some(Some(vec![5])));
    assert_eq!(success.change_set.modules().count(), 1);
}

#[test]
fn initializer_returning_no_value_is_inconsistent_and_reports_gas() {
    let vm = AsyncVM::new(vec![counter()]);
    let call = initializer_call(&vm, addr(9));
    let done = execution(vec![], vec![], ChangeSet::new());
    let failure = call.finished::<EngineError>(1000, 900, Ok(done)).err().unwrap();
    assert_eq!(failure.gas_used, 100);
    assert_eq!(failure.error.description(), "inconsistent initializer");
    assert!(matches!(failure.error, Failure::InconsistentInitializer(ref f) if *f == name("init")));
}

#[test]
fn initializer_returning_two_values_is_inconsistent_and_reports_gas() {
    let vm = AsyncVM::new(vec![counter()]);
    let call = initializer_call(&vm, addr(9));
    let done = execution(vec![vec![1], vec![2]], vec![], ChangeSet::new());
    let failure = call.finished::<EngineError>(10, 4, Ok(done)).err().unwrap();
    assert_eq!(failure.gas_used, 6);
    assert!(matches!(failure.error, Failure::InconsistentInitializer(_)));
}

#[test]
fn failed_initializer_passes_on_the_engine_error_with_the_gas_used() {
    let vm = AsyncVM::new(vec![counter()]);
    let call = initializer_call(&vm, addr(9));
    let failure = call.finished(1000, 0, Err(EngineError::OutOfGas)).err().unwrap();
    assert_eq!(failure.gas_used, 1000);
    assert!(matches!(failure.error, Failure::Engine(EngineError::OutOfGas)));
    assert!(failure.error.is_engine_error());
}

#[test]
fn initializer_cannot_publish_over_a_state_that_the_engine_wrote() {
    let vm = AsyncVM::new(vec![counter()]);
    let mut change_set = ChangeSet::new();
    change_set.publish_resource(addr(9), counter_tag(), vec![1]).unwrap();
    let call = initializer_call(&vm, addr(9));
    let done = execution(vec![vec![2]], vec![], change_set);
    let failure = call.finished::<EngineError>(100, 90, Ok(done)).err().unwrap();
    assert_eq!(failure.gas_used, 10);
    assert_eq!(failure.error.description(), "cannot publish actor state");
    assert!(matches!(
        failure.error,
        Failure::CannotPublish(ref cause) if cause == "resource already published"
    ));
}

#[test]
fn publish_actor_state_adds_one_resource_and_refuses_a_second_write() {
    let mut change_set = ChangeSet::new();
    let first =
        publish_actor_state::<EngineError>(&mut change_set, addr(9), counter_tag(), vec![1]);
    assert!(first.is_ok());
    assert_eq!(resource(&change_set, addr(9), &counter_tag()), Some(Some(vec![1])));
    let second =
        publish_actor_state::<EngineError>(&mut change_set, addr(9), counter_tag(), vec![2]);
    assert!(matches!(
        second,
        Err(Failure::CannotPublish(ref cause)) if cause == "resource already published"
    ));
    assert_eq!(resource(&change_set, addr(9), &counter_tag()), Some(Some(vec![1])));
    assert_eq!(resource_count(&change_set), 1);
}

#[test]
fn publish_actor_state_writes_over_a_deletion() {
    let mut change_set = ChangeSet::new();
    change_set.unpublish_resource(addr(9), counter_tag()).unwrap();
    assert_eq!(resource(&change_set, addr(9), &counter_tag()), Some(None));
    let written =
        publish_actor_state::<EngineError>(&mut change_set, addr(9), counter_tag(), vec![3]);
    assert!(written.is_ok());
    assert_eq!(resource(&change_set, addr(9), &counter_tag()), Some(Some(vec![3])));
}

#[test]
fn handle_message_of_unknown_hash_fails_with_no_gas() {
    let vm = AsyncVM::new(vec![counter()]);
    let known = message_hash(&counter_module(), &name("increment"));
    for unknown in [0u64, known.wrapping_add(1), u64::MAX] {
        let session = vm.new_session(addr(9), 0);
        let failure =
            session.handle_message::<EngineError>(addr(9), unknown, vec![]).err().unwrap();
        assert_eq!(failure.gas_used, 0);
        assert_eq!(failure.error.description(), "unknown message hash");
        assert!(matches!(failure.error, Failure::UnknownMessageHash(h) if h == unknown));
    }
}

#[test]
fn handle_message_of_known_hash_asks_for_the_state_of_the_owning_actor() {
    let vm = AsyncVM::new(vec![counter()]);
    let hash = message_hash(&counter_module(), &name("peek"));
    let session = vm.new_session(addr(9), 0);
    let load = session
        .handle_message::<EngineError>(addr(9), hash, vec![vec![1], vec![2, 3]])
        .ok()
        .unwrap();
    let query = load.query();
    assert_eq!(query.actor_addr, addr(9));
    assert_eq!(query.state_type, TypeTag::Struct(counter_tag()));
    let call = load.state_loaded::<EngineError>(Ok(Some(vec![]))).ok().unwrap();
    assert_eq!(call.invocation().module_id, &counter_module());
    assert_eq!(call.invocation().function, &name("peek"));
}

#[test]
fn handler_receives_the_state_as_first_argument() {
    let vm = AsyncVM::new(vec![counter()]);
    let hash = message_hash(&counter_module(), &name("increment"));
    let session = vm.new_session(addr(9), 0);
    let load = session
        .handle_message::<EngineError>(addr(9), hash, vec![vec![1], vec![2, 3]])
        .ok()
        .unwrap();
    let call = load.state_loaded::<EngineError>(Ok(Some(vec![8, 8]))).ok().unwrap();
    let invocation = call.invocation();
    assert!(invocation.ty_args.is_empty());
    assert_eq!(invocation.args, &vec![vec![8, 8], vec![1], vec![2, 3]]);
    assert_eq!(invocation.module_id, &counter_module());
    assert_eq!(invocation.function, &name("increment"));
}

#[test]
fn handler_without_further_arguments_receives_only_the_state() {
    let vm = AsyncVM::new(vec![counter()]);
    let hash = message_hash(&counter_module(), &name("increment"));
    let session = vm.new_session(addr(9), 0);
    let load = session.handle_message::<EngineError>(addr(9), hash, vec![]).ok().unwrap();
    let call = load.state_loaded::<EngineError>(Ok(Some(vec![]))).ok().unwrap();
    assert_eq!(call.invocation().args, &vec![Vec::<u8>::new()]);
}

#[test]
fn handle_message_without_prior_new_actor_fails_with_the_engine_error() {
    let vm = AsyncVM::new(vec![counter()]);
    let hash = message_hash(&counter_module(), &name("increment"));
    let session = vm.new_session(addr(9), 0);
    let load = session.handle_message::<EngineError>(addr(9), hash, vec![]).ok().unwrap();
    let failure = load.state_loaded(Err(EngineError::ResourceDoesNotExist)).err().unwrap();
    assert_eq!(failure.gas_used, 0);
    assert!(failure.error.is_engine_error());
    assert!(matches!(failure.error, Failure::Engine(EngineError::ResourceDoesNotExist)));
}

#[test]
fn state_without_serialized_form_fails_with_no_gas() {
    let vm = AsyncVM::new(vec![counter()]);
    let hash = message_hash(&counter_module(), &name("increment"));
    let session = vm.new_session(addr(9), 0);
    let load = session.handle_message::<EngineError>(addr(9), hash, vec![]).ok().unwrap();
    let failure = load.state_loaded::<EngineError>(Ok(None)).err().unwrap();
    assert_eq!(failure.gas_used, 0);
    assert_eq!(failure.error.description(), "serialization failed");
    assert!(!failure.error.is_engine_error());
}

#[test]
fn handler_that_does_not_mutate_leaves_the_change_set_alone() {
    let vm = AsyncVM::new(vec![counter()]);
    let call = handler_call(&vm, addr(9));
    let done = execution(vec![vec![1]], vec![], ChangeSet::new());
    let success = call.finished::<EngineError>(500, 480, Ok(done)).ok().unwrap();
    assert_eq!(success.gas_used, 20);
    assert_eq!(success.change_set, ChangeSet::new());
    assert_eq!(resource(&success.change_set, addr(9), &counter_tag()), None);
    assert_eq!(success.messages.len(), 2);
    assert_eq!(success.messages[0], (addr(3), 77, vec![vec![1, 2], vec![3]]));
    assert_eq!(success.messages[1], (addr(4), 78, vec![]));
    assert_eq!(success.events, vec![(vec![0xee], 1, TypeTag::U64, vec![9, 9])]);
}

#[test]
fn handler_that_mutates_publishes_the_new_state() {
    let vm = AsyncVM::new(vec![counter()]);
    let call = handler_call(&vm, addr(9));
    let done = execution(vec![], vec![(0, vec![1, 0, 0, 0, 0, 0, 0, 0])], ChangeSet::new());
    let success = call.finished::<EngineError>(500, 463, Ok(done)).ok().unwrap();
    assert_eq!(success.gas_used, 37);
    assert_eq!(resource_count(&success.change_set), 1);
    assert_eq!(
        resource(&success.change_set, addr(9), &counter_tag()),
        Some(Some(vec![1, 0, 0, 0, 0, 0, 0, 0]))
    );
    assert_eq!(success.messages.len(), 2);
    assert_eq!(success.events.len(), 1);
}

#[test]
fn handler_with_two_mutated_references_is_inconsistent_and_reports_gas() {
    let vm = AsyncVM::new(vec![counter()]);
    let call = handler_call(&vm, addr(9));
    let done = execution(vec![], vec![(0, vec![1]), (1, vec![2])], ChangeSet::new());
    let failure = call.finished::<EngineError>(500, 400, Ok(done)).err().unwrap();
    assert_eq!(failure.gas_used, 100);
    assert_eq!(failure.error.description(), "inconsistent handler");
    assert!(
        matches!(failure.error, Failure::InconsistentHandler(ref f) if *f == name("increment"))
    );
}

#[test]
fn failed_handler_passes_on_the_engine_error_with_the_gas_used() {
    let vm = AsyncVM::new(vec![counter()]);
    let call = handler_call(&vm, addr(9));
    let failure = call.finished(500, 123, Err(EngineError::OutOfGas)).err().unwrap();
    assert_eq!(failure.gas_used, 377);
    assert!(matches!(failure.error, Failure::Engine(EngineError::OutOfGas)));
}

#[test]
fn handler_cannot_publish_over_a_state_that_the_engine_wrote() {
    let vm = AsyncVM::new(vec![counter()]);
    let mut change_set = ChangeSet::new();
    change_set.publish_resource(addr(9), counter_tag(), vec![1]).unwrap();
    let call = handler_call(&vm, addr(9));
    let done = execution(vec![], vec![(0, vec![2])], change_set);
    let failure = call.finished::<EngineError>(100, 90, Ok(done)).err().unwrap();
    assert_eq!(failure.gas_used, 10);
    assert!(matches!(
        failure.error,
        Failure::CannotPublish(ref cause) if cause == "resource already published"
    ));
}
