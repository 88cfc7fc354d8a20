use katsite::invoker::{outcome_of, plan_command, InputPlan, OutputPlan};
use katsite::plugin::{HookInvocation, HookResult, InvokeOutcome, PluginSpec};

#[test]
fn chain_request_becomes_a_command_with_input() {
    let plugin = PluginSpec::new("katsite-essentials");
    let plan = plan_command(&HookInvocation {
        plugin: &plugin,
        hook_name: "markdown",
        input: Some(b"# Hi"),
        extra_arg: Some("docs/a.md"),
    });
    assert_eq!(plan.program, "plugins/katsite-essentials");
    assert_eq!(plan.arguments, vec!["markdown", "docs/a.md"]);
    assert_eq!(plan.stdin, InputPlan::FeedThenClose);
    assert_eq!(plan.stdout, OutputPlan::Captured);
    assert_eq!(plan.stderr, OutputPlan::Inherited);
}

#[test]
fn broadcast_request_becomes_a_command_without_input() {
    let plugin = PluginSpec::new("bin/scss");
    let plan = plan_command(&HookInvocation {
        plugin: &plugin,
        hook_name: "postinit",
        input: None,
        extra_arg: None,
    });
    assert_eq!(plan.program, "plugins/bin/scss");
    assert_eq!(plan.arguments, vec!["postinit"]);
    assert_eq!(plan.stdin, InputPlan::Detached);
    assert_eq!(plan.stdout, OutputPlan::Captured);
    assert_eq!(plan.stderr, OutputPlan::Inherited);
}

#[test]
fn empty_payload_is_still_a_payload() {
    let plugin = PluginSpec::new("p");
    let plan = plan_command(&HookInvocation {
        plugin: &plugin,
        hook_name: "html",
        input: Some(b""),
        extra_arg: None,
    });
    assert_eq!(plan.stdin, InputPlan::FeedThenClose);
    assert_eq!(plan.arguments, vec!["html"]);
}

#[test]
fn exit_status_counts_only_after_a_full_delivery() {
    let left = |exit_success| Some(HookResult { exit_success, output: b"out".to_vec() });
    match outcome_of(true, left(true)) {
        InvokeOutcome::Exited(result) => {
            assert!(result.exit_success);
            assert_eq!(result.output, b"out");
        }
        _ => panic!("the plugin ran to its end"),
    }
    match outcome_of(true, left(false)) {
        InvokeOutcome::Exited(result) => assert!(!result.exit_success),
        _ => panic!("the plugin ran to its end"),
    }
    assert!(matches!(outcome_of(false, left(true)), InvokeOutcome::TransportFailed));
    assert!(matches!(outcome_of(false, left(false)), InvokeOutcome::TransportFailed));
    assert!(matches!(outcome_of(true, None), InvokeOutcome::TransportFailed));
    assert!(matches!(outcome_of(false, None), InvokeOutcome::TransportFailed));
}

#[test]
fn plugin_path_is_joined_to_the_plugins_directory() {
    let program = |path: &str| {
        let plugin = PluginSpec::new(path);
        plan_command(&HookInvocation {
            plugin: &plugin,
            hook_name: "init",
            input: None,
            extra_arg: None,
        })
        .program
    };
    assert_eq!(program("tool"), "plugins/tool");
    assert_eq!(program("sub/tool"), "plugins/sub/tool");
    assert_eq!(program("/usr/bin/tool"), "/usr/bin/tool");
    assert_eq!(program(""), "plugins/");
}
