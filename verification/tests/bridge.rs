use jq_rs::BridgeAction;
use jq_rs::BridgePhase;
use jq_rs::EngineEvent;
use jq_rs::JqColorization;
use jq_rs::JqError;
use jq_rs::JqIndentation;
use jq_rs::JqOptions;
use jq_rs::begin_invocation;
use jq_rs::bridge::JQ_FLAG_COLORIZE;
use jq_rs::bridge::JQ_FLAG_PRETTY;
use jq_rs::bridge::JQ_FLAG_RAW_INPUT;
use jq_rs::bridge::JQ_FLAG_RAW_OUTPUT;
use jq_rs::bridge::JQ_FLAG_SLURP;
use jq_rs::bridge::JQ_FLAG_SORT_KEYS;
use jq_rs::bridge::JQ_FLAG_TABS;
use jq_rs::bridge_step;
use jq_rs::join_outputs;
use jq_rs::palette_acceptable;
use jq_rs::translate_options;

#[test]
fn translate_default_is_all_zero() {
    let f = translate_options(&JqOptions::default()).unwrap();
    assert_eq!(f.dump_flags, 0);
    assert_eq!(f.indent_width, 0);
    assert!(f.palette.is_none());
}

#[test]
fn translate_spaces_sets_pretty_and_width() {
    let o = JqOptions::default().with_indentation(JqIndentation::Spaces(2));
    let f = translate_options(&o).unwrap();
    assert_eq!(f.dump_flags, JQ_FLAG_PRETTY);
    assert_eq!(f.indent_width, 2);
}

#[test]
fn translate_zero_spaces_is_accepted() {
    let o = JqOptions::default().with_indentation(JqIndentation::Spaces(0));
    let f = translate_options(&o).unwrap();
    assert_eq!(f.dump_flags, JQ_FLAG_PRETTY);
    assert_eq!(f.indent_width, 0);
}

#[test]
fn translate_tabs_sets_pretty_and_tabs() {
    let o = JqOptions::default().with_indentation(JqIndentation::Tabs);
    let f = translate_options(&o).unwrap();
    assert_eq!(f.dump_flags, JQ_FLAG_PRETTY | JQ_FLAG_TABS);
    assert_eq!(f.indent_width, 0);
}

#[test]
fn translate_every_boolean_maps_to_one_flag() {
    let o = JqOptions::default()
        .with_raw_output(true)
        .with_raw_input(true)
        .with_slurp(true)
        .with_sort_keys(true)
        .with_colorization(JqColorization::Colorize);
    let f = translate_options(&o).unwrap();
    assert_eq!(
        f.dump_flags,
        JQ_FLAG_RAW_OUTPUT | JQ_FLAG_RAW_INPUT | JQ_FLAG_SLURP | JQ_FLAG_SORT_KEYS
            | JQ_FLAG_COLORIZE
    );
    assert_eq!(f.dump_flags, 0x1f);
    assert!(f.palette.is_none());
}

#[test]
fn translate_custom_palette_is_passed_through() {
    let o = JqOptions::default().with_colorization(JqColorization::Custom("0;39:1;30"));
    let f = translate_options(&o).unwrap();
    assert_eq!(f.dump_flags, JQ_FLAG_COLORIZE);
    assert_eq!(f.palette.as_deref(), Some("0;39:1;30"));
}

#[test]
fn negative_space_count_is_a_configuration_error() {
    let o = JqOptions::default().with_indentation(JqIndentation::Spaces(-1));
    match translate_options(&o) {
        Err(JqError::Configuration(m)) => {
            assert_eq!(m, "invalid indentation: negative space count");
        }
        _ => panic!("a negative space count must yield a configuration error"),
    }
}

#[test]
fn malformed_palette_is_a_configuration_error() {
    let o = JqOptions::default().with_colorization(JqColorization::Custom("bold red"));
    match translate_options(&o) {
        Err(JqError::Configuration(m)) => {
            assert_eq!(m, "invalid colorization: malformed palette string");
        }
        _ => panic!("a malformed palette must yield a configuration error"),
    }
}

#[test]
fn palette_syntax_check_accepts_digits_colon_semicolon() {
    assert!(palette_acceptable(""));
    assert!(palette_acceptable("0;39"));
    assert!(palette_acceptable("1;30:0;39:0;39:0;39:0;32:1;39:1;39"));
    assert!(!palette_acceptable("bold"));
    assert!(!palette_acceptable("0;39 "));
    assert!(!palette_acceptable("0;39:red"));
}

#[test]
fn invalid_options_finish_before_the_engine_is_touched() {
    let o = JqOptions::default().with_indentation(JqIndentation::Spaces(-3));
    let (phase, action) = begin_invocation(&o);
    assert!(matches!(action, BridgeAction::Finish));
    match phase {
        BridgePhase::Finished(Err(JqError::Configuration(m))) => {
            assert_eq!(m, "invalid indentation: negative space count");
        }
        _ => panic!("invalid options must finish at once with a configuration error"),
    }
}

#[test]
fn valid_options_demand_compilation_first() {
    let (phase, action) = begin_invocation(&JqOptions::default());
    assert!(matches!(action, BridgeAction::CompileProgram));
    match phase {
        BridgePhase::Compiling(f) => {
            assert_eq!(f.dump_flags, 0);
        }
        _ => panic!("valid options must enter the compiling phase"),
    }
}

#[test]
fn compile_failure_finishes_without_evaluation() {
    let (phase, _) = begin_invocation(&JqOptions::default());
    let (next, action) = bridge_step(
        phase,
        EngineEvent::CompileFailed("1 compile error".to_string()),
    );
    assert!(matches!(action, BridgeAction::Finish));
    match next {
        BridgePhase::Finished(Err(e)) => {
            assert!(matches!(e, JqError::Compile(_)));
            assert_eq!(e.diagnostic(), "1 compile error");
            assert!(!e.diagnostic().is_empty());
        }
        _ => panic!("a compile failure must finish the invocation"),
    }
}

#[test]
fn compile_success_demands_evaluation_under_same_flags() {
    let o = JqOptions::default().with_indentation(JqIndentation::Spaces(2));
    let (phase, _) = begin_invocation(&o);
    let (next, action) = bridge_step(phase, EngineEvent::CompileSucceeded);
    assert!(matches!(action, BridgeAction::EvaluateInput));
    match next {
        BridgePhase::Evaluating(f) => {
            assert_eq!(f.dump_flags, JQ_FLAG_PRETTY);
            assert_eq!(f.indent_width, 2);
        }
        _ => panic!("a compile success must enter the evaluating phase"),
    }
}

fn run_to_eval(o: &JqOptions) -> BridgePhase {
    let (phase, _) = begin_invocation(o);
    let (next, _) = bridge_step(phase, EngineEvent::CompileSucceeded);
    next
}

#[test]
fn evaluation_failure_surfaces_the_diagnostic_verbatim() {
    let phase = run_to_eval(&JqOptions::default());
    let (next, action) = bridge_step(
        phase,
        EngineEvent::EvalFailed("parse error: Invalid numeric literal".to_string()),
    );
    assert!(matches!(action, BridgeAction::Finish));
    match next {
        BridgePhase::Finished(Err(JqError::Evaluation(m))) => {
            assert_eq!(m, "parse error: Invalid numeric literal");
        }
        _ => panic!("an evaluation failure must finish with an evaluation error"),
    }
}

#[test]
fn quoted_and_raw_records_pass_through_joined() {
    let phase = run_to_eval(&JqOptions::default());
    let (next, _) = bridge_step(phase, EngineEvent::EvalSucceeded(vec!["\"hi\"".to_string()]));
    match next {
        BridgePhase::Finished(Ok(out)) => assert_eq!(out, "\"hi\"\n"),
        _ => panic!("a successful evaluation must finish with the joined output"),
    }
    let phase = run_to_eval(&JqOptions::default().with_raw_output(true));
    let (next, _) = bridge_step(phase, EngineEvent::EvalSucceeded(vec!["hi".to_string()]));
    match next {
        BridgePhase::Finished(Ok(out)) => assert_eq!(out, "hi\n"),
        _ => panic!("a successful evaluation must finish with the joined output"),
    }
}

#[test]
fn zero_records_finish_with_empty_output_not_an_error() {
    let phase = run_to_eval(&JqOptions::default());
    let (next, action) = bridge_step(phase, EngineEvent::EvalSucceeded(vec![]));
    assert!(matches!(action, BridgeAction::Finish));
    match next {
        BridgePhase::Finished(Ok(out)) => assert_eq!(out, ""),
        _ => panic!("zero records must finish with empty output"),
    }
}

#[test]
fn join_terminates_every_record_with_one_newline() {
    assert_eq!(join_outputs(&vec![]), "");
    assert_eq!(join_outputs(&vec!["1".to_string()]), "1\n");
    assert_eq!(
        join_outputs(&vec!["{}".to_string(), "[1,2]".to_string(), "null".to_string()]),
        "{}\n[1,2]\nnull\n"
    );
}

#[test]
fn diagnostic_returns_the_carried_text_for_every_kind() {
    let c = JqError::Configuration("a".to_string());
    let p = JqError::Compile("b".to_string());
    let e = JqError::Evaluation("c".to_string());
    assert_eq!(c.diagnostic(), "a");
    assert_eq!(p.diagnostic(), "b");
    assert_eq!(e.diagnostic(), "c");
}

#[test]
fn identical_invocations_yield_byte_identical_output() {
    let o = JqOptions::default()
        .with_sort_keys(true)
        .with_indentation(JqIndentation::Spaces(2));
    let mut outputs: Vec<String> = Vec::new();
    for _ in 0..2 {
        let (phase, action) = begin_invocation(&o);
        assert!(matches!(action, BridgeAction::CompileProgram));
        let (phase, action) = bridge_step(phase, EngineEvent::CompileSucceeded);
        assert!(matches!(action, BridgeAction::EvaluateInput));
        let (phase, action) = bridge_step(
            phase,
            EngineEvent::EvalSucceeded(vec!["{\n  \"a\": 1\n}".to_string()]),
        );
        assert!(matches!(action, BridgeAction::Finish));
        match phase {
            BridgePhase::Finished(Ok(out)) => outputs.push(out),
            _ => panic!("the invocation must finish with output"),
        }
    }
    assert_eq!(outputs[0], outputs[1]);
    assert_eq!(outputs[0].as_bytes(), outputs[1].as_bytes());
}
