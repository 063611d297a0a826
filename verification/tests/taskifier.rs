use method_taskifier::taskifier::args::{classify_arg_name, read_arguments, ArgError, ArgKind, ArgsParser, ArgsStep};
use method_taskifier::taskifier::plan::{
    awaits_worker_call, derives_serde, executor_awaits_channeled_execution, executor_method_is_async, expansion,
    result_type, ExecutorMethod, Expansion, GeneratedItem, ResultType,
};
use method_taskifier::taskifier::items::{has_async_method, plan_item, plan_items, typed_input_positions, ImplItemShape};
use method_taskifier::taskifier::names::{
    attribute_is, client_messages, executing_task_message, path_to_string, same_text, sending_result_message,
    task_names, task_names_from_pascal,
};

fn strings(parts: &[&str]) -> Vec<String> {
    parts.iter().map(|s| s.to_string()).collect()
}

#[test]
fn task_names_use_pascal_case() {
    let names = task_names("async_mul");
    assert_eq!(names.variant, "AsyncMul");
    assert_eq!(names.params_struct, "AsyncMulParams");
    assert_eq!(names.result_struct, "AsyncMulResult");
    assert_eq!(names.as_result_fn, "as_async_mul_result");

    let names = task_names("divide");
    assert_eq!(names.variant, "Divide");
    assert_eq!(names.params_struct, "DivideParams");
    assert_eq!(names.result_struct, "DivideResult");
    assert_eq!(names.as_result_fn, "as_divide_result");
}

#[test]
fn task_names_from_a_given_pascal_form() {
    let names = task_names_from_pascal("noop", "Noop");
    assert_eq!(names.variant, "Noop");
    assert_eq!(names.params_struct, "NoopParams");
    assert_eq!(names.result_struct, "NoopResult");
    assert_eq!(names.as_result_fn, "as_noop_result");
}

#[test]
fn client_message_templates() {
    let m = client_messages("add");
    assert_eq!(m.send_error, "{}::Client::add, msg = {:?}");
    assert_eq!(m.recv_error, "{}::Client::add response, msg = {:?}");
    assert_eq!(m.sending_task, "{}::Client::add, sending task to workers");
    assert_eq!(m.waiting_for_result, "{}::Client::add, waiting for task result");
}

#[test]
fn executor_message_templates() {
    assert_eq!(executing_task_message("self", "Add"), "Executing channeled task = {}::self::Add");
    assert_eq!(sending_result_message("crate::tasks", "Divide"), "Sending channeled task result = {}::crate::tasks::Divide");
}

#[test]
fn paths_are_joined_with_double_colons() {
    assert_eq!(path_to_string(false, &strings(&["self"])), "self");
    assert_eq!(path_to_string(false, &strings(&["crate", "tasks", "defs"])), "crate::tasks::defs");
    assert_eq!(path_to_string(true, &strings(&["a", "b"])), "::::a::b");
    assert_eq!(path_to_string(true, &strings(&[])), "::");
    assert_eq!(path_to_string(false, &strings(&[])), "");
}

#[test]
fn attributes_match_single_identifiers_only() {
    assert!(attribute_is(&strings(&["method_taskifier_worker_fn"]), "method_taskifier_worker_fn"));
    assert!(!attribute_is(&strings(&["x", "method_taskifier_worker_fn"]), "method_taskifier_worker_fn"));
    assert!(!attribute_is(&strings(&["method_taskifier_worker_fn", "x"]), "method_taskifier_worker_fn"));
    assert!(!attribute_is(&strings(&[]), "method_taskifier_worker_fn"));
    assert!(!attribute_is(&strings(&["inline"]), "method_taskifier_worker_fn"));
    assert!(same_text("abc", "abc"));
    assert!(!same_text("abc", "abd"));
}

#[test]
fn arguments_are_parsed_in_any_order() {
    let mut p: ArgsParser<&str, &str> = ArgsParser::new();
    assert_eq!(p.accept_name("use_serde"), Ok(ArgKind::UseSerde));
    assert_eq!(p.accept_name("client_name"), Ok(ArgKind::ClientName));
    p.set_client_name("MyClient");
    assert_eq!(p.accept_name("task_definitions_module_path"), Ok(ArgKind::DefinitionsPath));
    p.set_definitions_path("self");
    let args = p.finish().unwrap();
    assert_eq!(args.task_definitions_module_path, "self");
    assert_eq!(args.client_name, "MyClient");
    assert!(args.use_serde);
    assert!(!args.debug_mode);
}

#[test]
fn repeated_and_unknown_arguments_are_refused() {
    let mut p: ArgsParser<&str, &str> = ArgsParser::new();
    assert_eq!(p.accept_name("debug"), Ok(ArgKind::Debug));
    let e = p.accept_name("debug").unwrap_err();
    assert_eq!(e, ArgError::Repeated(ArgKind::Debug));
    assert_eq!(e.message(), "multiple parameter: `debug`");

    assert_eq!(p.accept_name("client_name"), Ok(ArgKind::ClientName));
    p.set_client_name("C");
    assert_eq!(p.accept_name("client_name").unwrap_err().message(), "multiple parameter: `client_name`");

    let e = p.accept_name("verbose").unwrap_err();
    assert_eq!(e, ArgError::Unexpected("verbose".to_string()));
    assert_eq!(e.message(), "unexpected parameter `verbose`");
    assert_eq!(classify_arg_name("use_serde"), Some(ArgKind::UseSerde));
    assert_eq!(classify_arg_name("Use_serde"), None);
}

#[test]
fn missing_arguments_are_refused_path_first() {
    let p: ArgsParser<&str, &str> = ArgsParser::new();
    let e = p.finish().err().unwrap();
    assert_eq!(e, ArgError::Missing(ArgKind::DefinitionsPath));
    assert_eq!(e.message(), "missing parameter: `task_definitions_module_path`");

    let mut p: ArgsParser<&str, &str> = ArgsParser::new();
    p.accept_name("task_definitions_module_path").unwrap();
    p.set_definitions_path("self");
    let e = p.finish().err().unwrap();
    assert_eq!(e, ArgError::Missing(ArgKind::ClientName));
    assert_eq!(e.message(), "missing parameter: `client_name`");
}

#[test]
fn marked_methods_are_split_out() {
    let worker = ImplItemShape {
        is_fn: true,
        attributes: vec![strings(&["inline"]), strings(&["method_taskifier_worker_fn"])],
    };
    let plan = plan_item(&worker);
    assert!(plan.is_worker);
    assert!(!plan.is_client);
    assert_eq!(plan.kept_attributes, vec![true, false]);

    let both = ImplItemShape {
        is_fn: true,
        attributes: vec![strings(&["method_taskifier_client_fn"]), strings(&["method_taskifier_worker_fn"])],
    };
    let not_fn = ImplItemShape { is_fn: false, attributes: vec![strings(&["method_taskifier_worker_fn"])] };
    let plain = ImplItemShape { is_fn: true, attributes: vec![] };
    let plans = plan_items(&vec![both, not_fn, plain]);
    assert_eq!(plans.len(), 3);
    assert!(plans[0].is_worker && plans[0].is_client);
    assert_eq!(plans[0].kept_attributes, vec![false, false]);
    assert!(!plans[1].is_worker && !plans[1].is_client);
    assert_eq!(plans[1].kept_attributes, vec![true]);
    assert!(!plans[2].is_worker && !plans[2].is_client);
    assert!(plans[2].kept_attributes.is_empty());
}

#[test]
fn async_methods_and_typed_inputs() {
    assert!(!has_async_method(&vec![]));
    assert!(!has_async_method(&vec![false, false]));
    assert!(has_async_method(&vec![false, true]));
    assert_eq!(typed_input_positions(&vec![true, false, false]), vec![1, 2]);
    assert_eq!(typed_input_positions(&vec![true]), Vec::<usize>::new());
    assert_eq!(typed_input_positions(&vec![false]), vec![0]);
}

#[test]
fn argument_list_grammar() {
    // task_definitions_module_path = self, client_name = C, use_serde,
    let mut p: ArgsParser<&str, &str> = ArgsParser::new();
    assert_eq!(p.next_step(false), ArgsStep::Name);
    assert_eq!(p.accept_name("task_definitions_module_path"), Ok(ArgKind::DefinitionsPath));
    p.set_definitions_path("self");
    assert_eq!(p.next_step(false), ArgsStep::Comma);
    p.accept_comma();
    assert_eq!(p.next_step(false), ArgsStep::Name);
    assert_eq!(p.accept_name("client_name"), Ok(ArgKind::ClientName));
    p.set_client_name("C");
    assert_eq!(p.next_step(false), ArgsStep::Comma);
    p.accept_comma();
    assert_eq!(p.accept_name("use_serde"), Ok(ArgKind::UseSerde));
    // a flag completes its argument: a comma, not a value, comes next
    assert_eq!(p.next_step(false), ArgsStep::Comma);
    p.accept_comma();
    // a trailing comma is accepted
    assert_eq!(p.next_step(true), ArgsStep::Finish);
    let args = p.finish().unwrap();
    assert!(args.use_serde);
    assert!(!args.debug_mode);
}

#[test]
fn argument_order_does_not_matter() {
    let read = |order: &[&str]| {
        let mut p: ArgsParser<&str, &str> = ArgsParser::new();
        for name in order {
            match p.accept_name(name).unwrap() {
                ArgKind::DefinitionsPath => p.set_definitions_path("crate::tasks"),
                ArgKind::ClientName => p.set_client_name("Client"),
                ArgKind::UseSerde | ArgKind::Debug => {}
            }
            p.accept_comma();
        }
        let args = p.finish().unwrap();
        (args.task_definitions_module_path, args.client_name, args.use_serde, args.debug_mode)
    };
    let expected = ("crate::tasks", "Client", true, true);
    assert_eq!(read(&["task_definitions_module_path", "client_name", "use_serde", "debug"]), expected);
    assert_eq!(read(&["debug", "use_serde", "client_name", "task_definitions_module_path"]), expected);
    assert_eq!(read(&["client_name", "debug", "task_definitions_module_path", "use_serde"]), expected);
}

#[test]
fn code_shape_choices() {
    assert!(derives_serde(true, GeneratedItem::ParamsStruct));
    assert!(derives_serde(true, GeneratedItem::ResultStruct));
    assert!(derives_serde(true, GeneratedItem::TaskEnum));
    assert!(derives_serde(true, GeneratedItem::TaskResultEnum));
    assert!(!derives_serde(true, GeneratedItem::ChanneledTaskEnum));
    assert!(!derives_serde(false, GeneratedItem::TaskEnum));

    assert!(!executor_method_is_async(ExecutorMethod::ExecuteTask, false));
    assert!(executor_method_is_async(ExecutorMethod::ExecuteTask, true));
    assert!(executor_method_is_async(ExecutorMethod::ExecuteChanneledTaskFromQueue, false));
    assert!(executor_method_is_async(ExecutorMethod::ExecuteChanneledTasksFromQueueUntilClientsDropped, false));
    assert!(!executor_method_is_async(ExecutorMethod::ExecuteRemainingChanneledTasksFromQueue, false));
    assert!(!executor_method_is_async(ExecutorMethod::TryExecuteChanneledTaskFromQueue, false));
    assert!(executor_awaits_channeled_execution(true));
    assert!(!executor_awaits_channeled_execution(false));
    assert!(awaits_worker_call(true));
    assert!(!awaits_worker_call(false));

    assert_eq!(result_type(false), ResultType::Unit);
    assert_eq!(result_type(true), ResultType::Declared);
    assert_eq!(expansion(true), Expansion::PanicWithCode);
    assert_eq!(expansion(false), Expansion::Emit);
}

#[test]
fn reading_whole_argument_lists() {
    let items = vec![
        ("client_name".to_string(), 0u8, "Client"),
        ("debug".to_string(), 0u8, ""),
        ("task_definitions_module_path".to_string(), 7u8, ""),
    ];
    let parser = read_arguments(items).ok().unwrap();
    assert_eq!(parser.definitions_path, Some(7));
    assert_eq!(parser.client_name, Some("Client"));
    assert!(parser.debug);
    assert!(!parser.use_serde);
    assert!(!parser.after_argument);

    let repeated = vec![("debug".to_string(), 0u8, ""), ("debug".to_string(), 0u8, "")];
    assert_eq!(read_arguments(repeated).err(), Some(ArgError::Repeated(ArgKind::Debug)));
    let unknown = vec![("colour".to_string(), 0u8, "")];
    assert_eq!(read_arguments(unknown).err(), Some(ArgError::Unexpected("colour".to_string())));
}
