//! The hook dispatcher: how a hook is driven across the plugin list.
//!
//! A *broadcast* hook asks every plugin once, with no input, and uses no
//! output. A *chain* hook threads one byte buffer through the plugins in list
//! order. Neither mode is stopped by a plugin that fails; only a plugin that
//! cannot be started ends the run.
use crate::plugin::{
    plugin_paths, warning_for, warning_views, HookInvocation, InvocationView, InvokeOutcome,
    OutcomeView, PluginSpec, PluginWarning, WarningKind, WarningView,
};
use vstd::prelude::*;

verus! {

/// The bytes of one document on their way through a chain hook. Each build
/// job has a buffer of its own; no two jobs ever share one.
pub type PipelineBuffer = Vec<u8>;

/// Whether a chain step with this outcome puts the plugin's output in place
/// of the buffer: only a plugin that exited with status zero and wrote at
/// least one byte does.
pub open spec fn replaces_buffer(outcome: OutcomeView) -> bool {
    outcome matches OutcomeView::Exited { exit_success, output } && exit_success && output.len() > 0
}

/// The buffer after one chain step.
pub open spec fn chain_step(buffer: Seq<u8>, outcome: OutcomeView) -> Seq<u8> {
    match outcome {
        OutcomeView::Exited { exit_success, output } => if exit_success && output.len() > 0 {
            output
        } else {
            buffer
        },
        _ => buffer,
    }
}

/// The buffer after the chain steps with `outcomes`, taken in order from
/// `start`.
pub open spec fn chain_fold(start: Seq<u8>, outcomes: Seq<OutcomeView>) -> Seq<u8>
    decreases outcomes.len(),
{
    if outcomes.len() == 0 {
        start
    } else {
        chain_step(chain_fold(start, outcomes.drop_last()), outcomes.last())
    }
}

/// The warnings that `outcomes` call for when `outcomes[i]` is the outcome of
/// `plugins[i]`: one for each plugin that failed without ending the run, in
/// list order.
pub open spec fn hook_warnings(
    plugins: Seq<Seq<char>>,
    hook_name: Seq<char>,
    outcomes: Seq<OutcomeView>,
) -> Seq<WarningView>
    recommends
        outcomes.len() <= plugins.len(),
    decreases outcomes.len(),
{
    if outcomes.len() == 0 {
        Seq::empty()
    } else {
        let before = hook_warnings(plugins, hook_name, outcomes.drop_last());
        match warning_for(plugins[outcomes.len() - 1], hook_name, outcomes.last()) {
            Some(warning) => before.push(warning),
            None => before,
        }
    }
}

/// The index of the first outcome that ends the run, if there is one.
pub open spec fn first_fatal(outcomes: Seq<OutcomeView>) -> Option<int>
    decreases outcomes.len(),
{
    if outcomes.len() == 0 {
        None
    } else {
        match first_fatal(outcomes.drop_last()) {
            Some(i) => Some(i),
            None => if outcomes.last().is_fatal() {
                Some(outcomes.len() - 1)
            } else {
                None
            },
        }
    }
}

/// What is asked of `plugin` at a chain hook when the buffer holds `buffer`.
pub open spec fn chain_request(
    plugin: Seq<char>,
    hook_name: Seq<char>,
    buffer: Seq<u8>,
    source_name: Seq<char>,
) -> InvocationView {
    InvocationView { plugin, hook_name, input: Some(buffer), extra_arg: Some(source_name) }
}

/// What is asked of `plugin` at a broadcast hook.
pub open spec fn broadcast_request(plugin: Seq<char>, hook_name: Seq<char>) -> InvocationView {
    InvocationView { plugin, hook_name, input: None, extra_arg: None }
}

/// Whether `invoke`, asked `request`, may answer `outcome`.
#[verifier::opaque]
pub open spec fn may_answer<F: Fn(HookInvocation) -> InvokeOutcome>(
    invoke: &F,
    request: InvocationView,
    outcome: OutcomeView,
) -> bool {
    exists|asked: HookInvocation, answer: InvokeOutcome|
        asked@ == request && answer@ == outcome && #[trigger] call_ensures(invoke, (asked,), answer)
}

/// Whether step `i` of a chain run of `hook_name` over `plugins` from `start`
/// asked `plugins[i]`, fed it the buffer as the steps before had left it, and
/// had `outcomes[i]` for an answer, for every step that `outcomes` records.
pub open spec fn asked_in_order<F: Fn(HookInvocation) -> InvokeOutcome>(
    invoke: &F,
    plugins: Seq<PluginSpec>,
    hook_name: Seq<char>,
    source_name: Seq<char>,
    start: Seq<u8>,
    outcomes: Seq<OutcomeView>,
) -> bool {
    &&& outcomes.len() <= plugins.len()
    &&& forall|i: int|
        0 <= i < outcomes.len() ==> may_answer(
            invoke,
            chain_request(
                plugins[i]@,
                hook_name,
                chain_fold(start, outcomes.take(i)),
                source_name,
            ),
            #[trigger] outcomes[i],
        )
}

/// Whether `outcomes` can be the record of one whole chain run of
/// `hook_name` over `plugins` that began with `start` in the buffer: the
/// plugins were asked in list order, and the run went on to the end of the
/// list unless a step ended the run, after which no plugin was asked.
pub open spec fn is_chain_record<F: Fn(HookInvocation) -> InvokeOutcome>(
    invoke: &F,
    plugins: Seq<PluginSpec>,
    hook_name: Seq<char>,
    source_name: Seq<char>,
    start: Seq<u8>,
    outcomes: Seq<OutcomeView>,
) -> bool {
    &&& asked_in_order(invoke, plugins, hook_name, source_name, start, outcomes)
    &&& forall|i: int| 0 <= i < outcomes.len() - 1 ==> !(#[trigger] outcomes[i]).is_fatal()
    &&& outcomes.len() < plugins.len() ==> outcomes.len() > 0 && outcomes.last().is_fatal()
}

/// One more step extends the fold by one [`chain_step`].
pub proof fn lemma_fold_push(start: Seq<u8>, before: Seq<OutcomeView>, next: OutcomeView)
    ensures
        chain_fold(start, before.push(next)) == chain_step(chain_fold(start, before), next),
{
    assert(before.push(next).drop_last() =~= before);
}

/// One more step adds the warning that its outcome calls for, if any.
pub proof fn lemma_warnings_push(
    plugins: Seq<Seq<char>>,
    hook_name: Seq<char>,
    before: Seq<OutcomeView>,
    next: OutcomeView,
)
    ensures
        hook_warnings(plugins, hook_name, before.push(next)) == match warning_for(
            plugins[before.len() as int],
            hook_name,
            next,
        ) {
            Some(warning) => hook_warnings(plugins, hook_name, before).push(warning),
            None => hook_warnings(plugins, hook_name, before),
        },
{
    assert(before.push(next).drop_last() =~= before);
}

/// One more step is the first to end the run exactly when none before it did
/// and it does.
pub proof fn lemma_first_fatal_push(before: Seq<OutcomeView>, next: OutcomeView)
    ensures
        first_fatal(before.push(next)) == match first_fatal(before) {
            Some(i) => Some(i),
            None => if next.is_fatal() {
                Some(before.len() as int)
            } else {
                None
            },
        },
{
    assert(before.push(next).drop_last() =~= before);
}

/// A record of steps asked in order stays one when the next plugin in the
/// list is asked with the buffer that the record left.
pub proof fn lemma_asked_in_order_push<F: Fn(HookInvocation) -> InvokeOutcome>(
    invoke: &F,
    plugins: Seq<PluginSpec>,
    hook_name: Seq<char>,
    source_name: Seq<char>,
    start: Seq<u8>,
    before: Seq<OutcomeView>,
    next: OutcomeView,
)
    requires
        asked_in_order(invoke, plugins, hook_name, source_name, start, before),
        before.len() < plugins.len(),
        may_answer(
            invoke,
            chain_request(
                plugins[before.len() as int]@,
                hook_name,
                chain_fold(start, before),
                source_name,
            ),
            next,
        ),
    ensures
        asked_in_order(invoke, plugins, hook_name, source_name, start, before.push(next)),
{
    let after = before.push(next);
    assert forall|i: int| 0 <= i < after.len() implies may_answer(
        invoke,
        chain_request(plugins[i]@, hook_name, chain_fold(start, after.take(i)), source_name),
        #[trigger] after[i],
    ) by {
        if i < before.len() {
            assert(after.take(i) =~= before.take(i));
            assert(after[i] == before[i]);
        } else {
            assert(after.take(i) =~= before);
        }
    }
}

/// The parts of `parts`, one after another.
pub open spec fn joined(parts: Seq<Seq<u8>>) -> Seq<u8>
    decreases parts.len(),
{
    if parts.len() == 0 {
        Seq::empty()
    } else {
        joined(parts.drop_last()) + parts.last()
    }
}

/// A chain over an empty plugin list is a pass-through: its only record is
/// the empty one, so the buffer comes out as it went in and nothing is warned
/// about.
pub proof fn lemma_empty_list_passes_through<F: Fn(HookInvocation) -> InvokeOutcome>(
    invoke: &F,
    plugins: Seq<PluginSpec>,
    hook_name: Seq<char>,
    source_name: Seq<char>,
    start: Seq<u8>,
    outcomes: Seq<OutcomeView>,
)
    requires
        plugins.len() == 0,
        is_chain_record(invoke, plugins, hook_name, source_name, start, outcomes),
    ensures
        outcomes.len() == 0,
        chain_fold(start, outcomes) == start,
        hook_warnings(plugin_paths(plugins), hook_name, outcomes).len() == 0,
        first_fatal(outcomes) is None,
{
}

/// A plugin that exits with status zero and writes nothing changes nothing:
/// the buffer after its step is the buffer before it, byte for byte, and the
/// step is not warned about.
pub proof fn lemma_silent_success_keeps_buffer(
    plugin: Seq<char>,
    hook_name: Seq<char>,
    buffer: Seq<u8>,
)
    ensures
        chain_step(buffer, OutcomeView::Exited { exit_success: true, output: Seq::empty() })
            == buffer,
        warning_for(
            plugin,
            hook_name,
            OutcomeView::Exited { exit_success: true, output: Seq::empty() },
        ) is None,
{
}

/// A plugin that exits with a non-zero status leaves the buffer as it was,
/// whatever it wrote, and its step adds exactly one warning, which names
/// that plugin and the hook.
pub proof fn lemma_failure_keeps_buffer_and_warns_once(
    plugins: Seq<Seq<char>>,
    hook_name: Seq<char>,
    start: Seq<u8>,
    before: Seq<OutcomeView>,
    output: Seq<u8>,
)
    ensures
        ({
            let failed = OutcomeView::Exited { exit_success: false, output };
            let after = before.push(failed);
            &&& chain_fold(start, after) == chain_fold(start, before)
            &&& hook_warnings(plugins, hook_name, after) == hook_warnings(
                plugins,
                hook_name,
                before,
            ).push(
                WarningView {
                    plugin: plugins[before.len() as int],
                    hook_name,
                    kind: WarningKind::NonZeroExit,
                },
            )
        }),
{
    let failed = OutcomeView::Exited { exit_success: false, output };
    lemma_fold_push(start, before, failed);
    lemma_warnings_push(plugins, hook_name, before, failed);
}

/// The number of warnings of a hook is the number of plugins that failed
/// without ending the run: each such plugin is warned about once, and no
/// other plugin is.
pub proof fn lemma_one_warning_per_failure(
    plugins: Seq<Seq<char>>,
    hook_name: Seq<char>,
    outcomes: Seq<OutcomeView>,
)
    ensures
        hook_warnings(plugins, hook_name, outcomes).len() == outcomes.filter(
            |o: OutcomeView| o.warns(),
        ).len(),
    decreases outcomes.len(),
{
    let warns = |o: OutcomeView| o.warns();
    if outcomes.len() == 0 {
        assert(outcomes.filter(warns) =~= Seq::<OutcomeView>::empty()) by {
            reveal(Seq::filter);
        }
    } else {
        lemma_one_warning_per_failure(plugins, hook_name, outcomes.drop_last());
        assert(outcomes.filter(warns).len() == outcomes.drop_last().filter(warns).len() + (
        if warns(outcomes.last()) {
            1int
        } else {
            0int
        })) by {
            reveal(Seq::filter);
        }
    }
}

/// The plugins of a chain act in list order. If every plugin runs, exits
/// with status zero and answers with its input followed by a mark of its
/// own, then the buffer ends as the start followed by the marks in list
/// order.
pub proof fn lemma_marks_come_in_list_order(
    start: Seq<u8>,
    marks: Seq<Seq<u8>>,
    outcomes: Seq<OutcomeView>,
)
    requires
        outcomes.len() == marks.len(),
        forall|i: int|
            0 <= i < outcomes.len() ==> #[trigger] outcomes[i] == (OutcomeView::Exited {
                exit_success: true,
                output: chain_fold(start, outcomes.take(i)) + marks[i],
            }),
    ensures
        chain_fold(start, outcomes) == start + joined(marks),
    decreases outcomes.len(),
{
    if outcomes.len() == 0 {
        assert(start + joined(marks) =~= start);
    } else {
        let n = outcomes.len() - 1;
        let head = outcomes.drop_last();
        assert forall|i: int| 0 <= i < head.len() implies #[trigger] head[i] == (
        OutcomeView::Exited {
            exit_success: true,
            output: chain_fold(start, head.take(i)) + marks.drop_last()[i],
        }) by {
            assert(head.take(i) =~= outcomes.take(i));
            assert(head[i] == outcomes[i]);
        }
        lemma_marks_come_in_list_order(start, marks.drop_last(), head);
        assert(outcomes.take(n) =~= head);
        assert(outcomes[n] == outcomes.last());
        let fed = chain_fold(start, head);
        if (fed + marks[n]).len() == 0 {
            assert(fed =~= fed + marks[n]);
        }
        assert(chain_fold(start, outcomes) == fed + marks[n]);
        assert((start + joined(marks.drop_last())) + marks.last() =~= start + joined(marks));
    }
}

/// What a hook left behind besides the buffer.
#[derive(Clone, Debug)]
pub struct HookReport {
    /// One warning for each plugin that failed without ending the run, in
    /// list order.
    pub warnings: Vec<PluginWarning>,
    /// The list index of the plugin that could not be started, if one could
    /// not. The run must not go on past it.
    pub unavailable: Option<usize>,
}

/// Takes one plugin's outcome into the buffer. A plugin that exited with
/// status zero and wrote output replaces the buffer with it. Any other
/// outcome leaves the buffer as it was: a plugin that has nothing to say
/// about a document need not echo it, and a failed plugin's output is
/// dropped.
pub fn apply_outcome(buffer: &mut PipelineBuffer, outcome: InvokeOutcome) -> (replaced: bool)
    ensures
        final(buffer)@ == chain_step(old(buffer)@, outcome@),
        replaced == replaces_buffer(outcome@),
        !replaced ==> final(buffer)@ == old(buffer)@,
{
    match outcome {
        InvokeOutcome::Exited(result) => {
            if result.exit_success && result.output.len() > 0 {
                *buffer = result.output;
                true
            } else {
                false
            }
        },
        _ => false,
    }
}

/// Runs the chain hook `hook` over `list`, in list order, on `buffer`.
///
/// Each plugin is handed the buffer as the plugins before it left it, with
/// `filename` as its extra argument, and its outcome is taken in as
/// [`apply_outcome`] says. A plugin that fails is warned about and the chain
/// goes on with the buffer unchanged. A plugin that cannot be started ends
/// the chain at once: it is named in the report and no later plugin is
/// asked.
pub fn run_plugins<F: Fn(HookInvocation) -> InvokeOutcome>(
    buffer: &mut PipelineBuffer,
    hook: &str,
    filename: &str,
    list: &Vec<PluginSpec>,
    invoke: &F,
) -> (report: HookReport)
    requires
        forall|asked: HookInvocation| call_requires(invoke, (asked,)),
    ensures
        exists|outcomes: Seq<OutcomeView>|
            {
                &&& #[trigger] is_chain_record(
                    invoke,
                    list@,
                    hook@,
                    filename@,
                    old(buffer)@,
                    outcomes,
                )
                &&& final(buffer)@ == chain_fold(old(buffer)@, outcomes)
                &&& warning_views(report.warnings@) == hook_warnings(
                    plugin_paths(list@),
                    hook@,
                    outcomes,
                )
                &&& match report.unavailable {
                    Some(i) => first_fatal(outcomes) == Some(i as int),
                    None => first_fatal(outcomes) is None,
                }
            },
        list@.len() == 0 ==> final(buffer)@ == old(buffer)@ && report.warnings@.len() == 0
            && report.unavailable is None,
        report.unavailable matches Some(i) ==> i < list@.len(),
{
    let mut warnings: Vec<PluginWarning> = Vec::new();
    let mut unavailable: Option<usize> = None;
    let ghost start = buffer@;
    let ghost mut outcomes: Seq<OutcomeView> = Seq::empty();
    let mut i: usize = 0;
    proof {
        assert(warning_views(warnings@) =~= hook_warnings(plugin_paths(list@), hook@, outcomes));
    }
    while i < list.len() && unavailable.is_none()
        invariant
            forall|asked: HookInvocation| call_requires(invoke, (asked,)),
            i <= list@.len(),
            outcomes.len() == i,
            asked_in_order(invoke, list@, hook@, filename@, start, outcomes),
            forall|j: int| 0 <= j < i - 1 ==> !(#[trigger] outcomes[j]).is_fatal(),
            unavailable is None ==> first_fatal(outcomes) is None,
            unavailable is None && i > 0 ==> !outcomes[i - 1].is_fatal(),
            unavailable matches Some(k) ==> k == i - 1 && outcomes[k as int].is_fatal()
                && first_fatal(outcomes) == Some(k as int),
            buffer@ == chain_fold(start, outcomes),
            warning_views(warnings@) == hook_warnings(plugin_paths(list@), hook@, outcomes),
        decreases list@.len() - i,
    {
        let plugin = &list[i];
        let asked = HookInvocation {
            plugin,
            hook_name: hook,
            input: Some(buffer.as_slice()),
            extra_arg: Some(filename),
        };
        let ghost request = asked@;
        let ghost asked_copy = asked;
        let answer = invoke(asked);
        let ghost before = outcomes;
        let ghost old_warnings = warnings@;
        proof {
            assert(may_answer(invoke, request, answer@)) by {
                reveal(may_answer);
                assert(call_ensures(invoke, (asked_copy,), answer));
            }
            outcomes = before.push(answer@);
            lemma_asked_in_order_push(invoke, list@, hook@, filename@, start, before, answer@);
            lemma_fold_push(start, before, answer@);
            lemma_first_fatal_push(before, answer@);
            lemma_warnings_push(plugin_paths(list@), hook@, before, answer@);
            assert(plugin_paths(list@)[i as int] == list@[i as int]@);
        }
        match PluginWarning::from_outcome(plugin, hook, &answer) {
            Some(warning) => {
                warnings.push(warning);
                proof {
                    assert(warning_views(warnings@) =~= warning_views(old_warnings).push(
                        warning@,
                    ));
                }
            },
            None => {},
        }
        if let InvokeOutcome::SpawnFailed = answer {
            unavailable = Some(i);
        }
        apply_outcome(buffer, answer);
        i += 1;
    }
    proof {
        assert(is_chain_record(invoke, list@, hook@, filename@, start, outcomes));
    }
    HookReport { warnings, unavailable }
}

/// The requests that the broadcast hook `hook` makes of `list`: one for each
/// plugin, in list order, each with no input and no extra argument. They do
/// not depend on one another and may be carried out side by side.
pub fn init_plugins<'a>(hook: &'a str, list: &'a Vec<PluginSpec>) -> (requests: Vec<
    HookInvocation<'a>,
>)
    ensures
        requests@.len() == list@.len(),
        forall|i: int|
            0 <= i < list@.len() ==> (#[trigger] requests@[i])@ == broadcast_request(
                list@[i]@,
                hook@,
            ),
{
    let mut requests: Vec<HookInvocation<'a>> = Vec::new();
    let mut i: usize = 0;
    while i < list.len()
        invariant
            i <= list@.len(),
            requests@.len() == i,
            forall|j: int|
                0 <= j < i ==> (#[trigger] requests@[j])@ == broadcast_request(list@[j]@, hook@),
        decreases list@.len() - i,
    {
        requests.push(
            HookInvocation { plugin: &list[i], hook_name: hook, input: None, extra_arg: None },
        );
        i += 1;
    }
    requests
}

/// Sums up a broadcast hook once every plugin has answered: `outcomes[i]` is
/// the outcome of `list[i]`. Each plugin that failed is warned about on its
/// own account; no failure touches another plugin's outcome or stops the
/// hook. Only a plugin that could not be started is reported as ending the
/// run.
pub fn broadcast_report(hook: &str, list: &Vec<PluginSpec>, outcomes: &Vec<InvokeOutcome>) -> (report:
    HookReport)
    requires
        outcomes@.len() == list@.len(),
    ensures
        warning_views(report.warnings@) == hook_warnings(
            plugin_paths(list@),
            hook@,
            outcome_views(outcomes@),
        ),
        match report.unavailable {
            Some(i) => first_fatal(outcome_views(outcomes@)) == Some(i as int),
            None => first_fatal(outcome_views(outcomes@)) is None,
        },
{
    let mut warnings: Vec<PluginWarning> = Vec::new();
    let mut unavailable: Option<usize> = None;
    let ghost views = outcome_views(outcomes@);
    let mut i: usize = 0;
    proof {
        assert(views.take(0) =~= Seq::<OutcomeView>::empty());
        assert(warning_views(warnings@) =~= hook_warnings(
            plugin_paths(list@),
            hook@,
            views.take(0),
        ));
    }
    while i < outcomes.len()
        invariant
            outcomes@.len() == list@.len(),
            views == outcome_views(outcomes@),
            i <= outcomes@.len(),
            warning_views(warnings@) == hook_warnings(
                plugin_paths(list@),
                hook@,
                views.take(i as int),
            ),
            match unavailable {
                Some(k) => first_fatal(views.take(i as int)) == Some(k as int),
                None => first_fatal(views.take(i as int)) is None,
            },
        decreases outcomes@.len() - i,
    {
        let ghost old_warnings = warnings@;
        proof {
            assert(views.take(i + 1) =~= views.take(i as int).push(outcomes@[i as int]@));
            lemma_first_fatal_push(views.take(i as int), outcomes@[i as int]@);
            lemma_warnings_push(
                plugin_paths(list@),
                hook@,
                views.take(i as int),
                outcomes@[i as int]@,
            );
            assert(plugin_paths(list@)[i as int] == list@[i as int]@);
        }
        match PluginWarning::from_outcome(&list[i], hook, &outcomes[i]) {
            Some(warning) => {
                warnings.push(warning);
                proof {
                    assert(warning_views(warnings@) =~= warning_views(old_warnings).push(
                        warning@,
                    ));
                }
            },
            None => {},
        }
        if unavailable.is_none() {
            if let InvokeOutcome::SpawnFailed = outcomes[i] {
                unavailable = Some(i);
            }
        }
        i += 1;
    }
    proof {
        assert(views.take(i as int) =~= views);
    }
    HookReport { warnings, unavailable }
}

/// The views of a list of outcomes, in list order.
pub open spec fn outcome_views(outcomes: Seq<InvokeOutcome>) -> Seq<OutcomeView> {
    Seq::new(outcomes.len(), |i: int| outcomes[i]@)
}

} // verus!
