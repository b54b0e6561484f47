use function_compose::plan::chain_is_async;
use function_compose::plan::emit_steps;
use function_compose::plan::invocation_target;
use function_compose::plan::parse_compose;
use function_compose::plan::ComposeParseError;
use function_compose::plan::PipeToken;
use function_compose::plan::StepRegistry;
use function_compose::retry::RetryPolicy;
use function_compose::sig::analyze_signature;
use function_compose::sig::FnSignature;
use function_compose::sig::ParamKind;
use function_compose::sig::ReturnShape;
use function_compose::sig::StepInfo;
use function_compose::strings::async_probe_name;
use function_compose::strings::boxed_type_name;
use function_compose::strings::generate_generics_parameters;
use function_compose::strings::generate_ident_with_prefix;
use function_compose::strings::generate_return_type_param;
use function_compose::strings::lift_target_name;
use function_compose::strings::lifted_fn_name;
use function_compose::strings::retry_fn_name;
use function_compose::strings::retryable_probe_name;

fn name(n: &str) -> PipeToken {
    PipeToken::Name(n.to_owned())
}

fn info_for(is_async: bool, retry: Option<RetryPolicy>) -> StepInfo {
    let sig = FnSignature {
        name: "step".to_owned(),
        params: vec![ParamKind::Owned],
        ret: if is_async {
            ReturnShape::BoxedFutureResult
        } else {
            ReturnShape::ResultShape
        },
        has_async_qualifier: false,
        retry,
    };
    analyze_signature(&sig).unwrap()
}

#[test]
fn parses_a_plain_two_step_chain() {
    let tokens = vec![
        name("add_10"),
        PipeToken::Arrow,
        name("add_100"),
        PipeToken::Arrow,
        PipeToken::WithArgs(0),
    ];
    let plan = parse_compose(&tokens).unwrap();
    assert_eq!(plan.nodes.len(), 2);
    assert!(plan.nodes[0].initial);
    assert!(!plan.nodes[1].initial);
    assert_eq!(plan.nodes[0].function, "add_10");
    assert_eq!(plan.nodes[0].lifted_fn, "fn_composer__lifted_fn_add_10");
    assert_eq!(plan.nodes[0].async_probe, "fn_composer__is_async_add_10");
    assert_eq!(plan.nodes[0].retry_probe, "fn_composer__is_retryable_add_10");
    assert_eq!(plan.nodes[1].function, "add_100");
    assert!(plan.nodes[0].provided.is_empty());
    assert_eq!(plan.terminal_args, 0);
}

#[test]
fn parses_provides_in_source_order() {
    let tokens = vec![
        name("add_3_arg_async"),
        PipeToken::Provide(100),
        PipeToken::Provide(200),
        PipeToken::Arrow,
        name("add_100_async"),
        PipeToken::Arrow,
        PipeToken::WithArgs(10),
    ];
    let plan = parse_compose(&tokens).unwrap();
    assert_eq!(plan.nodes.len(), 2);
    assert_eq!(plan.nodes[0].provided, vec![100, 200]);
    assert!(plan.nodes[1].provided.is_empty());
    assert_eq!(plan.terminal_args, 10);
}

#[test]
fn rejects_a_chain_without_terminal_args() {
    let tokens = vec![name("add_10"), PipeToken::Arrow, name("add_100")];
    assert_eq!(
        parse_compose(&tokens).unwrap_err(),
        ComposeParseError::MissingWithArgs
    );
}

#[test]
fn rejects_malformed_chains_by_state() {
    assert_eq!(
        parse_compose(&vec![PipeToken::Arrow]).unwrap_err(),
        ComposeParseError::ExpectedFunctionName
    );
    assert_eq!(
        parse_compose(&vec![name("f"), PipeToken::WithArgs(0)]).unwrap_err(),
        ComposeParseError::ExpectedProvideOrArrow
    );
    assert_eq!(
        parse_compose(&vec![name("f"), PipeToken::Arrow, PipeToken::Provide(1)]).unwrap_err(),
        ComposeParseError::ExpectedStepOrWithArgs
    );
    assert_eq!(
        parse_compose(&vec![
            name("f"),
            PipeToken::Arrow,
            PipeToken::WithArgs(0),
            PipeToken::Arrow,
        ])
        .unwrap_err(),
        ComposeParseError::TokenAfterTerminal
    );
    assert_eq!(
        parse_compose(&vec![]).unwrap_err(),
        ComposeParseError::MissingWithArgs
    );
}

#[test]
fn chain_asynchrony_folds_over_the_probes() {
    let tokens = vec![
        name("fetch"),
        PipeToken::Arrow,
        name("pack"),
        PipeToken::Arrow,
        PipeToken::WithArgs(0),
    ];
    let plan = parse_compose(&tokens).unwrap();

    let mut registry = StepRegistry::new();
    registry.register("fetch".to_owned(), info_for(true, None));
    registry.register("pack".to_owned(), info_for(false, None));
    assert_eq!(chain_is_async(&plan, &registry).unwrap(), true);

    let mut registry = StepRegistry::new();
    registry.register("fetch".to_owned(), info_for(false, None));
    registry.register("pack".to_owned(), info_for(false, None));
    assert_eq!(chain_is_async(&plan, &registry).unwrap(), false);

    let registry = StepRegistry::new();
    let missing = chain_is_async(&plan, &registry).unwrap_err();
    assert_eq!(missing.index, 0);
}

#[test]
fn retryable_steps_are_invoked_through_their_wrapper() {
    let tokens = vec![name("add_10"), PipeToken::Arrow, PipeToken::WithArgs(0)];
    let plan = parse_compose(&tokens).unwrap();
    let plain = info_for(false, None);
    let retryable = info_for(false, Some(RetryPolicy::fixed(100, 2)));
    assert_eq!(invocation_target(&plan.nodes[0], &plain), "add_10");
    assert_eq!(
        invocation_target(&plan.nodes[0], &retryable),
        "fn_composer__retry_add_10"
    );
}

#[test]
fn generated_names_follow_the_declaration() {
    assert_eq!(generate_ident_with_prefix("x"), "fn_composer__x");
    assert_eq!(lifted_fn_name("add"), "fn_composer__lifted_fn_add");
    assert_eq!(async_probe_name("add"), "fn_composer__is_async_add");
    assert_eq!(retryable_probe_name("add"), "fn_composer__is_retryable_add");
    assert_eq!(retry_fn_name("add"), "fn_composer__retry_add");
    assert_eq!(lift_target_name(3, false), "lift_sync_fn3");
    assert_eq!(lift_target_name(3, true), "lift_async_fn3");
    assert_eq!(boxed_type_name(2, false), "BoxedFn2");
    assert_eq!(boxed_type_name(2, true), "BoxedAsyncFn2");
}

#[test]
fn generated_type_parameters_count_and_render() {
    assert_eq!(generate_return_type_param(1), "T1");
    assert_eq!(generate_return_type_param(10), "T10");
    assert_eq!(generate_return_type_param(255), "T255");
    assert_eq!(generate_generics_parameters(0), "");
    assert_eq!(generate_generics_parameters(1), "T1,");
    assert_eq!(generate_generics_parameters(4), "T1,T2,T3,T4,");
    assert_eq!(generate_generics_parameters(12).ends_with("T11,T12,"), true);
}

#[test]
fn emission_selects_wrapper_and_asynchrony_per_step() {
    let tokens = vec![
        name("fetch"),
        PipeToken::Provide(1),
        PipeToken::Arrow,
        name("pack"),
        PipeToken::Arrow,
        PipeToken::WithArgs(0),
    ];
    let plan = parse_compose(&tokens).unwrap();
    let mut registry = StepRegistry::new();
    registry.register("fetch".to_owned(), info_for(true, Some(RetryPolicy::fixed(50, 1))));
    registry.register("pack".to_owned(), info_for(false, None));
    let emissions = emit_steps(&plan, &registry).unwrap();
    assert_eq!(emissions.len(), 2);
    assert_eq!(emissions[0].lifted_fn, "fn_composer__lifted_fn_fetch");
    assert_eq!(emissions[0].target, "fn_composer__retry_fetch");
    assert!(emissions[0].is_async);
    assert_eq!(emissions[1].lifted_fn, "fn_composer__lifted_fn_pack");
    assert_eq!(emissions[1].target, "pack");
    assert!(!emissions[1].is_async);

    let empty = StepRegistry::new();
    assert_eq!(emit_steps(&plan, &empty).unwrap_err().index, 0);
}
