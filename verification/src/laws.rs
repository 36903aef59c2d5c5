//! What holds of a whole session, whatever its events: the state after a
//! sequence of events is the events folded in one step at a time, and the
//! laws below say what that fold amounts to.
use vstd::prelude::*;
use crate::events::{
    addressed_to, initial_model, response_model, step_model, DrainModel, EventModel, MetadataModel, NotificationModel,
    ToolCallModel, ToolResultModel,
};

verus! {

/// The state after folding `events` into `s`, one `step_model` at a time.
pub open spec fn drain_model(s: DrainModel, events: Seq<EventModel>) -> DrainModel
    decreases events.len(),
{
    if events.len() == 0 {
        s
    } else {
        step_model(drain_model(s, events.drop_last()), events.last()).0
    }
}

/// The notifications forwarded, in order, while `events` are folded into `s`.
pub open spec fn forwarded(s: DrainModel, events: Seq<EventModel>) -> Seq<NotificationModel>
    decreases events.len(),
{
    if events.len() == 0 {
        Seq::empty()
    } else {
        let before = forwarded(s, events.drop_last());
        match step_model(drain_model(s, events.drop_last()), events.last()).1 {
            Some(n) => before.push(n),
            None => before,
        }
    }
}

/// No event but possibly the last one ends the session.
pub open spec fn no_early_finish(events: Seq<EventModel>) -> bool {
    forall|i: int| 0 <= i < events.len() - 1 ==> !(#[trigger] events[i] is Finished)
}

/// Folding two sequences one after the other is folding their concatenation.
pub proof fn lemma_drain_concat(s: DrainModel, a: Seq<EventModel>, b: Seq<EventModel>)
    ensures
        drain_model(s, a + b) == drain_model(drain_model(s, a), b),
        forwarded(s, a + b) == forwarded(s, a) + forwarded(drain_model(s, a), b),
    decreases b.len(),
{
    if b.len() == 0 {
        assert(a + b =~= a);
        assert(forwarded(s, a) + forwarded(drain_model(s, a), b) =~= forwarded(s, a));
    } else {
        assert((a + b).drop_last() =~= a + b.drop_last());
        assert((a + b).last() == b.last());
        lemma_drain_concat(s, a, b.drop_last());
        let n = step_model(drain_model(s, a + b.drop_last()), b.last()).1;
        match n {
            Some(x) => {
                assert(forwarded(s, a) + forwarded(drain_model(s, a), b.drop_last()).push(x)
                    =~= (forwarded(s, a) + forwarded(drain_model(s, a), b.drop_last())).push(x));
            },
            None => {},
        }
    }
}

/// Once the session has finished, further events change nothing and are not
/// forwarded.
pub proof fn lemma_finished_is_final(s: DrainModel, events: Seq<EventModel>)
    requires
        s.finished,
    ensures
        drain_model(s, events) == s,
        forwarded(s, events) == Seq::<NotificationModel>::empty(),
    decreases events.len(),
{
    if events.len() > 0 {
        lemma_finished_is_final(s, events.drop_last());
    }
}

/// Nothing after the event that finishes the session counts: the state and
/// the notifications are those of the events up to and including it.
pub proof fn lemma_nothing_counts_after_finish(s: DrainModel, events: Seq<EventModel>, k: int)
    requires
        0 <= k < events.len(),
        events[k] is Finished,
    ensures
        drain_model(s, events) == drain_model(s, events.take(k + 1)),
        forwarded(s, events) == forwarded(s, events.take(k + 1)),
{
    let head = events.take(k + 1);
    let tail = events.skip(k + 1);
    assert(events =~= head + tail);
    lemma_drain_concat(s, head, tail);
    assert(head.drop_last() =~= events.take(k));
    assert(head.last() == events[k]);
    let mid = drain_model(s, head);
    assert(mid.finished);
    lemma_finished_is_final(mid, tail);
    assert(forwarded(s, head) + Seq::<NotificationModel>::empty() =~= forwarded(s, head));
}

/// A session is over exactly when it was over before or one of the events
/// finished it.
pub proof fn lemma_finished_iff_reported(s: DrainModel, events: Seq<EventModel>)
    ensures
        drain_model(s, events).finished <==> (s.finished || exists|i: int|
            0 <= i < events.len() && #[trigger] events[i] is Finished),
    decreases events.len(),
{
    if events.len() > 0 {
        let p = events.drop_last();
        lemma_finished_iff_reported(s, p);
        if exists|i: int| 0 <= i < p.len() && #[trigger] p[i] is Finished {
            let i = choose|i: int| 0 <= i < p.len() && #[trigger] p[i] is Finished;
            assert(events[i] == p[i]);
        }
        if exists|i: int| 0 <= i < events.len() && #[trigger] events[i] is Finished {
            let i = choose|i: int| 0 <= i < events.len() && #[trigger] events[i] is Finished;
            if i < p.len() {
                assert(events[i] == p[i]);
            }
        }
        assert(events.last() == events[events.len() - 1]);
    }
}

/// Before the last event of a sequence with no early finish, the session is open.
proof fn lemma_open_before_last(s: DrainModel, events: Seq<EventModel>)
    requires
        !s.finished,
        no_early_finish(events),
        events.len() > 0,
    ensures
        !drain_model(s, events.drop_last()).finished,
        no_early_finish(events.drop_last()),
{
    let p = events.drop_last();
    assert forall|i: int| 0 <= i < p.len() implies !(#[trigger] p[i] is Finished) by {
        assert(p[i] == events[i]);
    }
    lemma_finished_iff_reported(s, p);
}

/// The output a run shows after `events`, starting from `init`: the text of
/// the last complete output, or `init` if there was none, followed by every
/// piece of output reported after it.
pub open spec fn shown_output(init: Seq<char>, events: Seq<EventModel>) -> Seq<char>
    decreases events.len(),
{
    if events.len() == 0 {
        init
    } else {
        match events.last() {
            EventModel::FinalText { text } => text,
            EventModel::TextDelta { text } => shown_output(init, events.drop_last()) + text,
            _ => shown_output(init, events.drop_last()),
        }
    }
}

/// The output after a session is the last complete output followed by the
/// pieces reported after it.
pub proof fn lemma_output(s: DrainModel, events: Seq<EventModel>)
    requires
        !s.finished,
        no_early_finish(events),
    ensures
        drain_model(s, events).output == shown_output(s.output, events),
    decreases events.len(),
{
    if events.len() > 0 {
        lemma_open_before_last(s, events);
        lemma_output(s, events.drop_last());
    }
}

/// The session id announced first by a `Started` event that carries one.
pub open spec fn first_announced(events: Seq<EventModel>) -> Option<Seq<char>>
    decreases events.len(),
{
    if events.len() == 0 {
        None
    } else {
        match events[0] {
            EventModel::Started { session_id: Some(id), .. } => Some(id),
            _ => first_announced(events.drop_first()),
        }
    }
}

/// `first_announced` seen from the end of the sequence.
proof fn lemma_first_announced_last(events: Seq<EventModel>)
    requires
        events.len() > 0,
    ensures
        first_announced(events) == match first_announced(events.drop_last()) {
            Some(id) => Some(id),
            None => match events.last() {
                EventModel::Started { session_id: Some(id), .. } => Some(id),
                _ => None,
            },
        },
    decreases events.len(),
{
    if events.len() > 1 {
        let rest = events.drop_first();
        assert(rest.drop_last() =~= events.drop_last().drop_first());
        assert(rest.last() == events.last());
        assert(events.drop_last()[0] == events[0]);
        lemma_first_announced_last(rest);
    } else {
        assert(events.drop_first() =~= Seq::<EventModel>::empty());
        assert(events.drop_last() =~= Seq::<EventModel>::empty());
        assert(events.last() == events[0]);
    }
}

/// A run keeps the session id it was opened with; a run opened without one
/// takes the first one that a `Started` event announces.
pub proof fn lemma_session_id(s: DrainModel, events: Seq<EventModel>)
    requires
        !s.finished,
        no_early_finish(events),
    ensures
        drain_model(s, events).session_id == match s.session_id {
            Some(id) => Some(id),
            None => first_announced(events),
        },
    decreases events.len(),
{
    if events.len() > 0 {
        lemma_open_before_last(s, events);
        lemma_session_id(s, events.drop_last());
        lemma_first_announced_last(events);
    }
}

/// A known session id is never replaced, whatever the events.
pub proof fn lemma_session_id_kept(s: DrainModel, events: Seq<EventModel>, id: Seq<char>)
    requires
        s.session_id == Some(id),
    ensures
        drain_model(s, events).session_id == Some(id),
    decreases events.len(),
{
    if events.len() > 0 {
        lemma_session_id_kept(s, events.drop_last(), id);
    }
}

/// Once a session id is known, every notification forwarded is addressed to it.
pub proof fn lemma_notifications_addressed(s: DrainModel, events: Seq<EventModel>, id: Seq<char>)
    requires
        s.session_id == Some(id),
    ensures
        forall|i: int|
            0 <= i < forwarded(s, events).len() ==> (#[trigger] forwarded(s, events)[i]).session_id()
                == id,
    decreases events.len(),
{
    if events.len() > 0 {
        let p = events.drop_last();
        lemma_notifications_addressed(s, p, id);
        lemma_session_id_kept(s, p, id);
        let prev = drain_model(s, p);
        assert(addressed_to(prev) == id);
        match step_model(prev, events.last()).1 {
            Some(n) => {
                assert(n.session_id() == id);
                assert(forwarded(s, events) == forwarded(s, p).push(n));
                assert forall|i: int| 0 <= i < forwarded(s, events).len() implies (
                #[trigger] forwarded(s, events)[i]).session_id() == id by {
                    if i < forwarded(s, p).len() {
                        assert(forwarded(s, events)[i] == forwarded(s, p)[i]);
                    }
                }
            },
            None => {},
        }
    }
}

/// An error that the session cannot recover from.
pub open spec fn is_fatal(e: EventModel) -> bool {
    e matches EventModel::Error { recoverable: false, .. }
}

/// The exit code that the last event reports, if it finishes the session with one.
pub open spec fn reported_exit_code(events: Seq<EventModel>) -> Option<i32> {
    if events.len() > 0 {
        match events.last() {
            EventModel::Finished { exit_code } => exit_code,
            _ => None,
        }
    } else {
        None
    }
}

/// The exit code of a run: the one the session finished with, else 1 if an
/// unrecoverable error was reported, else `init`.
pub open spec fn final_exit_code(init: i32, events: Seq<EventModel>) -> i32 {
    match reported_exit_code(events) {
        Some(code) => code,
        None => if exists|i: int| 0 <= i < events.len() && #[trigger] is_fatal(events[i]) {
            1
        } else {
            init
        },
    }
}

/// The exit code after a session is the one it finished with, else 1 after an
/// unrecoverable error, else unchanged.
pub proof fn lemma_exit_code(s: DrainModel, events: Seq<EventModel>)
    requires
        !s.finished,
        no_early_finish(events),
    ensures
        drain_model(s, events).exit_code == final_exit_code(s.exit_code, events),
    decreases events.len(),
{
    if events.len() > 0 {
        let p = events.drop_last();
        lemma_open_before_last(s, events);
        lemma_exit_code(s, p);
        assert(reported_exit_code(p) is None) by {
            if p.len() > 0 {
                assert(p.last() == events[p.len() - 1]);
            }
        }
        let fatal_p = exists|i: int| 0 <= i < p.len() && #[trigger] is_fatal(p[i]);
        let fatal_e = exists|i: int| 0 <= i < events.len() && #[trigger] is_fatal(events[i]);
        if fatal_p {
            let i = choose|i: int| 0 <= i < p.len() && #[trigger] is_fatal(p[i]);
            assert(p[i] == events[i]);
            assert(is_fatal(events[i]));
        }
        if !is_fatal(events.last()) && fatal_e {
            let i = choose|i: int| 0 <= i < events.len() && #[trigger] is_fatal(events[i]);
            assert(i != events.len() - 1);
            assert(p[i] == events[i]);
            assert(is_fatal(p[i]));
        }
        if is_fatal(events.last()) {
            assert(is_fatal(events[events.len() - 1]));
        }
    }
}

/// The texts of the reasoning events, in order.
pub open spec fn thinking_of(events: Seq<EventModel>) -> Seq<Seq<char>>
    decreases events.len(),
{
    if events.len() == 0 {
        Seq::empty()
    } else {
        let rest = thinking_of(events.drop_last());
        match events.last() {
            EventModel::Thinking { text } => rest.push(text),
            _ => rest,
        }
    }
}

/// The messages of the error events, in order.
pub open spec fn errors_of(events: Seq<EventModel>) -> Seq<Seq<char>>
    decreases events.len(),
{
    if events.len() == 0 {
        Seq::empty()
    } else {
        let rest = errors_of(events.drop_last());
        match events.last() {
            EventModel::Error { message, .. } => rest.push(message),
            _ => rest,
        }
    }
}

/// The tool calls, in order.
pub open spec fn tool_calls_of(events: Seq<EventModel>) -> Seq<ToolCallModel>
    decreases events.len(),
{
    if events.len() == 0 {
        Seq::empty()
    } else {
        let rest = tool_calls_of(events.drop_last());
        match events.last() {
            EventModel::ToolCall { tool_name, arguments, server } => rest.push(
                ToolCallModel { tool_name, arguments, server },
            ),
            _ => rest,
        }
    }
}

/// The tool results, in order.
pub open spec fn tool_results_of(events: Seq<EventModel>) -> Seq<ToolResultModel>
    decreases events.len(),
{
    if events.len() == 0 {
        Seq::empty()
    } else {
        let rest = tool_results_of(events.drop_last());
        match events.last() {
            EventModel::ToolResult { tool_name, output, success } => rest.push(
                ToolResultModel { tool_name, output, success },
            ),
            _ => rest,
        }
    }
}

/// The artifacts and reported metadata, in order.
pub open spec fn metadata_of(events: Seq<EventModel>) -> Seq<MetadataModel>
    decreases events.len(),
{
    if events.len() == 0 {
        Seq::empty()
    } else {
        let rest = metadata_of(events.drop_last());
        match events.last() {
            EventModel::Artifact { artifact_id, metadata } => rest.push(
                MetadataModel::Artifact { artifact_id, metadata },
            ),
            EventModel::Metadata { metadata } => rest.push(MetadataModel::Reported { metadata }),
            _ => rest,
        }
    }
}

/// Every reasoning text, error message, tool call, tool result and piece of
/// metadata of a session is kept, once each and in the order reported.
pub proof fn lemma_records(s: DrainModel, events: Seq<EventModel>)
    requires
        !s.finished,
        no_early_finish(events),
    ensures
        drain_model(s, events).thinking == s.thinking + thinking_of(events),
        drain_model(s, events).errors == s.errors + errors_of(events),
        drain_model(s, events).tool_calls == s.tool_calls + tool_calls_of(events),
        drain_model(s, events).tool_results == s.tool_results + tool_results_of(events),
        drain_model(s, events).metadata == s.metadata + metadata_of(events),
    decreases events.len(),
{
    if events.len() == 0 {
        assert(s.thinking + thinking_of(events) =~= s.thinking);
        assert(s.errors + errors_of(events) =~= s.errors);
        assert(s.tool_calls + tool_calls_of(events) =~= s.tool_calls);
        assert(s.tool_results + tool_results_of(events) =~= s.tool_results);
        assert(s.metadata + metadata_of(events) =~= s.metadata);
    } else {
        let p = events.drop_last();
        lemma_open_before_last(s, events);
        lemma_records(s, p);
        match events.last() {
            EventModel::Thinking { text } => {
                assert(s.thinking + thinking_of(p).push(text) =~= (s.thinking + thinking_of(p)).push(text));
            },
            EventModel::Error { message, .. } => {
                assert(s.errors + errors_of(p).push(message) =~= (s.errors + errors_of(p)).push(message));
            },
            EventModel::ToolCall { tool_name, arguments, server } => {
                let r = ToolCallModel { tool_name, arguments, server };
                assert(s.tool_calls + tool_calls_of(p).push(r) =~= (s.tool_calls + tool_calls_of(p)).push(r));
            },
            EventModel::ToolResult { tool_name, output, success } => {
                let r = ToolResultModel { tool_name, output, success };
                assert(s.tool_results + tool_results_of(p).push(r) =~= (s.tool_results
                    + tool_results_of(p)).push(r));
            },
            EventModel::Artifact { artifact_id, metadata } => {
                let m = MetadataModel::Artifact { artifact_id, metadata };
                assert(s.metadata + metadata_of(p).push(m) =~= (s.metadata + metadata_of(p)).push(m));
            },
            EventModel::Metadata { metadata } => {
                let m = MetadataModel::Reported { metadata };
                assert(s.metadata + metadata_of(p).push(m) =~= (s.metadata + metadata_of(p)).push(m));
            },
            _ => {},
        }
    }
}

/// Whatever the session did, the backend a response names begins with `gemini`.
pub proof fn lemma_backend_names_gemini(s: DrainModel, model: Seq<char>, duration_ms: u64)
    ensures
        "gemini"@.is_prefix_of(response_model(s, model, duration_ms).backend),
{
    reveal_strlit("gemini");
    reveal_strlit("gemini:");
    reveal_strlit("gemini-native:");
}

/// What a caller shows after the notifications `notes`, starting from
/// `shown`: it appends each piece of output and replaces what it shows with
/// each complete output.
pub open spec fn rebuilt_output(shown: Seq<char>, notes: Seq<NotificationModel>) -> Seq<char>
    decreases notes.len(),
{
    if notes.len() == 0 {
        shown
    } else {
        let before = rebuilt_output(shown, notes.drop_last());
        match notes.last() {
            NotificationModel::Output { text, is_final, .. } => if is_final {
                text
            } else {
                before + text
            },
            _ => before,
        }
    }
}

/// Output is streamed as it comes: a caller that appends every forwarded
/// piece of output and replaces what it shows with every forwarded complete
/// output ends up showing exactly the run's output.
pub proof fn lemma_streamed_output_rebuilds(s: DrainModel, events: Seq<EventModel>)
    requires
        !s.finished,
        no_early_finish(events),
    ensures
        rebuilt_output(s.output, forwarded(s, events)) == drain_model(s, events).output,
    decreases events.len(),
{
    if events.len() > 0 {
        let p = events.drop_last();
        lemma_open_before_last(s, events);
        lemma_streamed_output_rebuilds(s, p);
        let prev = drain_model(s, p);
        match step_model(prev, events.last()).1 {
            Some(n) => {
                let notes = forwarded(s, events);
                assert(notes == forwarded(s, p).push(n));
                assert(notes.drop_last() =~= forwarded(s, p));
            },
            None => {},
        }
    }
}

/// Each piece of output is forwarded as itself, in the order it came: two
/// pieces give two output notifications, each with its own text, neither final.
pub proof fn lemma_deltas_forwarded_as_sent(s: DrainModel, a: Seq<char>, b: Seq<char>)
    requires
        !s.finished,
    ensures
        ({
            let to = match s.session_id {
                Some(id) => id,
                None => Seq::<char>::empty(),
            };
            forwarded(s, seq![EventModel::TextDelta { text: a }, EventModel::TextDelta { text: b }])
                == seq![
                NotificationModel::Output { session_id: to, text: a, is_final: false },
                NotificationModel::Output { session_id: to, text: b, is_final: false },
            ]
        }),
        drain_model(s, seq![EventModel::TextDelta { text: a }, EventModel::TextDelta { text: b }]).output
            == s.output + a + b,
{
    let es = seq![EventModel::TextDelta { text: a }, EventModel::TextDelta { text: b }];
    let first = es.drop_last();
    assert(first.drop_last() =~= Seq::<EventModel>::empty());
    assert(first.last() == EventModel::TextDelta { text: a });
    assert(es.last() == EventModel::TextDelta { text: b });
    let to = match s.session_id {
        Some(id) => id,
        None => Seq::<char>::empty(),
    };
    assert(drain_model(s, first.drop_last()) == s);
    assert(forwarded(s, first.drop_last()) == Seq::<NotificationModel>::empty());
    assert(step_model(s, EventModel::TextDelta { text: a }).1 == Some(
        NotificationModel::Output { session_id: to, text: a, is_final: false },
    ));
    let mid = drain_model(s, first);
    assert(mid == step_model(s, EventModel::TextDelta { text: a }).0);
    assert(mid.session_id == s.session_id && !mid.finished);
    assert(forwarded(s, first) =~= seq![
        NotificationModel::Output { session_id: to, text: a, is_final: false },
    ]);
    assert(forwarded(s, es) =~= seq![
        NotificationModel::Output { session_id: to, text: a, is_final: false },
        NotificationModel::Output { session_id: to, text: b, is_final: false },
    ]);
}

/// The driver label a run ends with: that of the last `Started` event that
/// names one, else `init`.
pub open spec fn announced_backend(init: Seq<char>, events: Seq<EventModel>) -> Seq<char>
    decreases events.len(),
{
    if events.len() == 0 {
        init
    } else {
        match events.last() {
            EventModel::Started { backend, .. } => if backend.len() > 0 {
                backend
            } else {
                announced_backend(init, events.drop_last())
            },
            _ => announced_backend(init, events.drop_last()),
        }
    }
}

/// The driver label after a session is the last one a `Started` event named,
/// or the one it was opened with.
pub proof fn lemma_backend_label(s: DrainModel, events: Seq<EventModel>)
    requires
        !s.finished,
        no_early_finish(events),
    ensures
        drain_model(s, events).backend_label == announced_backend(s.backend_label, events),
    decreases events.len(),
{
    if events.len() > 0 {
        lemma_open_before_last(s, events);
        lemma_backend_label(s, events.drop_last());
    }
}

/// A response reports the time it is given as the run's duration, whatever
/// the session did.
pub proof fn lemma_response_duration(s: DrainModel, model: Seq<char>, duration_ms: u64)
    ensures
        response_model(s, model, duration_ms).duration_ms == duration_ms,
        response_model(s, model, duration_ms).exit_code == s.exit_code,
        response_model(s, model, duration_ms).output == s.output,
{
}

/// What a run reports: for a session opened with `session_id` and driver label
/// `label` whose events finish it at the latest with the last one, the
/// response holds the output those events show, every record they carry in
/// order, the session id it was opened with or else the first one announced,
/// the exit code they finish with, and a backend name for the model.
pub proof fn lemma_run_response(
    session_id: Option<Seq<char>>,
    label: Seq<char>,
    events: Seq<EventModel>,
    model: Seq<char>,
    duration_ms: u64,
)
    requires
        no_early_finish(events),
    ensures
        ({
            let r = response_model(
                drain_model(initial_model(session_id, label), events),
                model,
                duration_ms,
            );
            &&& r.output == shown_output(Seq::empty(), events)
            &&& r.thinking == thinking_of(events)
            &&& r.errors == errors_of(events)
            &&& r.tool_calls == tool_calls_of(events)
            &&& r.tool_results == tool_results_of(events)
            &&& r.metadata == metadata_of(events)
            &&& r.exit_code == final_exit_code(0, events)
            &&& r.session_id == match session_id {
                Some(id) => id,
                None => match first_announced(events) {
                    Some(id) => id,
                    None => Seq::empty(),
                },
            }
            &&& "gemini"@.is_prefix_of(r.backend)
            &&& r.duration_ms == duration_ms
            &&& r.backend == if announced_backend(label, events).len() == 0 {
                "gemini:"@ + model
            } else {
                "gemini-native:"@ + model
            }
        }),
{
    let s = initial_model(session_id, label);
    lemma_output(s, events);
    lemma_records(s, events);
    lemma_exit_code(s, events);
    lemma_session_id(s, events);
    lemma_backend_label(s, events);
    lemma_backend_names_gemini(drain_model(s, events), model, duration_ms);
    assert(s.thinking + thinking_of(events) =~= thinking_of(events));
    assert(s.errors + errors_of(events) =~= errors_of(events));
    assert(s.tool_calls + tool_calls_of(events) =~= tool_calls_of(events));
    assert(s.tool_results + tool_results_of(events) =~= tool_results_of(events));
    assert(s.metadata + metadata_of(events) =~= metadata_of(events));
}

} // verus!
