//! The streaming core: the typed events a caller receives, the model of one
//! whole run of the multiplexer, the per-event decisions the orchestrating
//! loop consults, and the laws the event stream obeys.

use vstd::prelude::*;
use vstd::string::*;

verus! {

/// One event on the outbound stream.
#[derive(Debug, PartialEq)]
pub enum Event {
    Log(String),
    AgentOutputLine(String),
    Error(String),
    UpdatedState(Vec<u8>),
}

pub ghost enum EventModel {
    Log(Seq<char>),
    AgentOutputLine(Seq<char>),
    Error(Seq<char>),
    UpdatedState(Seq<u8>),
}

impl View for Event {
    type V = EventModel;

    open spec fn view(&self) -> EventModel {
        match self {
            Event::Log(s) => EventModel::Log(s@),
            Event::AgentOutputLine(s) => EventModel::AgentOutputLine(s@),
            Event::Error(s) => EventModel::Error(s@),
            Event::UpdatedState(b) => EventModel::UpdatedState(b@),
        }
    }
}

/// The text of a forwarded diagnostic line, marked with its origin.
pub open spec fn stderr_log_text(line: Seq<char>) -> Seq<char> {
    "[STDERR] "@ + line
}

/// The text of a terminal error event for a failure description.
pub open spec fn error_text(detail: Seq<char>) -> Seq<char> {
    "Agent error: "@ + detail
}

/// The events forwarded for a sequence of primary-channel lines, in order.
pub open spec fn output_events(lines: Seq<Seq<char>>) -> Seq<EventModel> {
    lines.map_values(|l: Seq<char>| EventModel::AgentOutputLine(l))
}

/// The event run appended after a clean exit: one state capture when a
/// rollout was extracted, none otherwise; a non-zero status suppresses it.
pub open spec fn final_events(exit_ok: bool, rollout: Option<Seq<u8>>) -> Seq<EventModel> {
    if exit_ok {
        match rollout {
            Option::Some(b) => seq![EventModel::UpdatedState(b)],
            Option::None => Seq::empty(),
        }
    } else {
        Seq::empty()
    }
}

/// The outcome of one whole run of the multiplexer on the primary channel.
pub ghost struct RunModel {
    pub events: Seq<EventModel>,
    pub child_killed: bool,
}

/// The model of a run: the child emitted `lines` on its primary channel; a
/// disconnection observed while forwarding line `i` (none of line `i` and
/// nothing after it is delivered) kills the child and ends the run; without
/// one, the run ends with the exit status's final events.
pub open spec fn run_model(
    lines: Seq<Seq<char>>,
    cancel_at: Option<int>,
    exit_ok: bool,
    rollout: Option<Seq<u8>>,
) -> RunModel {
    match cancel_at {
        Option::Some(i) => RunModel { events: output_events(lines.take(i)), child_killed: true },
        Option::None => RunModel {
            events: output_events(lines) + final_events(exit_ok, rollout),
            child_killed: false,
        },
    }
}

/// What the forwarding loop does after attempting one delivery.
#[derive(Debug, Clone, Copy, PartialEq, Eq, Structural)]
pub enum StreamDirective {
    Continue,
    KillChild,
}

/// The sole cancellation trigger: a failed delivery means the caller is
/// gone, and the child is to be killed at once; a successful one continues.
pub fn after_forward(delivered: bool) -> (d: StreamDirective)
    ensures
        d == (if delivered {
            StreamDirective::Continue
        } else {
            StreamDirective::KillChild
        }),
{
    if delivered {
        StreamDirective::Continue
    } else {
        StreamDirective::KillChild
    }
}

/// The event forwarded for one primary-channel line.
pub fn agent_output_event(line: &str) -> (e: Event)
    ensures
        e@ == EventModel::AgentOutputLine(line@),
{
    Event::AgentOutputLine(line.to_owned())
}

/// The event forwarded for one diagnostic-channel line.
pub fn stderr_log_event(line: &str) -> (e: Event)
    ensures
        e@ == EventModel::Log(stderr_log_text(line@)),
{
    let mut s = String::new();
    s.append("[STDERR] ");
    s.append(line);
    assert(s@ =~= stderr_log_text(line@));
    Event::Log(s)
}

/// The single terminal error event for a failure description.
pub fn error_event(detail: &str) -> (e: Event)
    ensures
        e@ == EventModel::Error(error_text(detail@)),
{
    let mut s = String::new();
    s.append("Agent error: ");
    s.append(detail);
    assert(s@ =~= error_text(detail@));
    Event::Error(s)
}

/// The event that ends a run after the child exited: a state capture exactly
/// when the exit was clean and a rollout was extracted.
pub fn completion_event(exit_ok: bool, rollout: Option<Vec<u8>>) -> (e: Option<Event>)
    ensures
        match e {
            Option::Some(ev) => exit_ok && rollout is Some && ev@ == EventModel::UpdatedState(
                rollout.unwrap()@,
            ),
            Option::None => !exit_ok || rollout is None,
        },
{
    if exit_ok {
        match rollout {
            Option::Some(b) => Option::Some(Event::UpdatedState(b)),
            Option::None => Option::None,
        }
    } else {
        Option::None
    }
}

/// Replays one whole run from its transcript: the primary-channel lines,
/// the point of disconnection if the caller disconnected, the exit status
/// and the extracted rollout. Returns the delivered events and whether the
/// child was killed; the orchestrating loop makes the same decisions one
/// line at a time.
pub fn replay_run(
    lines: &Vec<String>,
    cancel_at: Option<usize>,
    exit_ok: bool,
    rollout: Option<Vec<u8>>,
) -> (r: (Vec<Event>, bool))
    requires
        match cancel_at {
            Option::Some(i) => i <= lines.len(),
            Option::None => true,
        },
    ensures
        ({
            let rm = run_model(
                lines@.map_values(|s: String| s@),
                match cancel_at {
                    Option::Some(i) => Option::Some(i as int),
                    Option::None => Option::None,
                },
                exit_ok,
                match rollout {
                    Option::Some(b) => Option::Some(b@),
                    Option::None => Option::None,
                },
            );
            r.0@.map_values(|e: Event| e@) == rm.events && r.1 == rm.child_killed
        }),
{
    let ghost lm = lines@.map_values(|s: String| s@);
    let mut events: Vec<Event> = Vec::new();
    let stop: usize = match cancel_at {
        Option::Some(i) => i,
        Option::None => lines.len(),
    };
    let mut j: usize = 0;
    while j < stop
        invariant
            j <= stop,
            stop <= lines.len(),
            lm == lines@.map_values(|s: String| s@),
            events@.map_values(|e: Event| e@) == output_events(lm.take(j as int)),
        decreases stop - j,
    {
        let ghost prev = events@;
        let ev = agent_output_event(lines[j].as_str());
        assert(ev@ == EventModel::AgentOutputLine(lm[j as int]));
        events.push(ev);
        proof {
            let left = events@.map_values(|e: Event| e@);
            let right = output_events(lm.take(j + 1));
            assert(prev.map_values(|e: Event| e@).len() == prev.len());
            assert forall|k: int| 0 <= k < left.len() implies left[k] == right[k] by {
                assert(left[k] == events@[k]@);
                if k < prev.len() {
                    assert(events@[k] == prev[k]);
                    assert(prev.map_values(|e: Event| e@)[k] == prev[k]@);
                    assert(output_events(lm.take(j as int))[k] == EventModel::AgentOutputLine(
                        lm[k],
                    ));
                }
                assert(right[k] == EventModel::AgentOutputLine(lm.take(j + 1)[k]));
            }
            assert(left =~= right);
        }
        j = j + 1;
    }
    match cancel_at {
        Option::Some(_) => (events, true),
        Option::None => {
            proof {
                assert(lm.take(lines.len() as int) =~= lm);
            }
            let ghost prev = events@;
            match completion_event(exit_ok, rollout) {
                Option::Some(ev) => {
                    events.push(ev);
                    proof {
                        let left = events@.map_values(|e: Event| e@);
                        let right = output_events(lm) + final_events(
                            exit_ok,
                            Option::Some(rollout.unwrap()@),
                        );
                        assert(prev.map_values(|e: Event| e@).len() == prev.len());
                        assert forall|k: int| 0 <= k < left.len() implies left[k] == right[k] by {
                            assert(left[k] == events@[k]@);
                            if k < prev.len() {
                                assert(events@[k] == prev[k]);
                                assert(prev.map_values(|e: Event| e@)[k] == prev[k]@);
                            }
                        }
                        assert(left =~= right);
                    }
                },
                Option::None => {
                    assert(events@.map_values(|e: Event| e@) =~= output_events(lm) + final_events(
                        exit_ok,
                        match rollout {
                            Option::Some(b) => Option::Some(b@),
                            Option::None => Option::None,
                        },
                    ));
                },
            }
            (events, false)
        },
    }
}

/// Whether an event carries a primary-channel line.
pub open spec fn is_output_event(e: EventModel) -> bool {
    e is AgentOutputLine
}

proof fn lemma_filter_all_outputs(lines: Seq<Seq<char>>)
    ensures
        output_events(lines).filter(|e: EventModel| is_output_event(e)) == output_events(lines),
    decreases lines.len(),
{
    reveal(Seq::filter);
    let pred = |e: EventModel| is_output_event(e);
    if lines.len() == 0 {
        assert(output_events(lines).len() == 0);
    } else {
        lemma_filter_all_outputs(lines.drop_last());
        let evs = output_events(lines);
        assert(evs.drop_last() =~= output_events(lines.drop_last()));
        assert(evs.last() == EventModel::AgentOutputLine(lines.last()));
        assert(pred(evs.last()));
        assert(evs.filter(pred) == evs.drop_last().filter(pred).push(evs.last()));
        assert(evs.filter(pred) =~= evs);
    }
}

/// Law: in a run without a disconnection, the agent-output events are
/// exactly the child's primary-channel lines, in their original order — no
/// line is dropped, reordered or duplicated.
pub proof fn lemma_output_order(lines: Seq<Seq<char>>, exit_ok: bool, rollout: Option<Seq<u8>>)
    ensures
        run_model(lines, Option::None, exit_ok, rollout).events.filter(
            |e: EventModel| is_output_event(e),
        ) == output_events(lines),
        forall|j: int|
            0 <= j < lines.len() ==> run_model(lines, Option::None, exit_ok, rollout).events[j]
                == EventModel::AgentOutputLine(#[trigger] lines[j]),
{
    reveal(Seq::filter);
    let pred = |e: EventModel| is_output_event(e);
    let outs = output_events(lines);
    let fins = final_events(exit_ok, rollout);
    Seq::filter_distributes_over_add(outs, fins, pred);
    lemma_filter_all_outputs(lines);
    if fins.len() > 0 {
        assert(fins.len() == 1);
        assert(!pred(fins.last()));
        assert(fins.filter(pred) == fins.drop_last().filter(pred));
        assert(fins.drop_last() =~= Seq::<EventModel>::empty());
        assert(Seq::<EventModel>::empty().filter(pred) =~= Seq::<EventModel>::empty());
        assert(fins.filter(pred) =~= Seq::<EventModel>::empty());
    } else {
        assert(fins =~= Seq::<EventModel>::empty());
        assert(fins.filter(pred) =~= Seq::<EventModel>::empty());
    }
    assert(outs + fins.filter(pred) =~= outs);
    assert forall|j: int| 0 <= j < lines.len() implies run_model(
        lines,
        Option::None,
        exit_ok,
        rollout,
    ).events[j] == EventModel::AgentOutputLine(lines[j]) by {
        assert(outs[j] == EventModel::AgentOutputLine(lines[j]));
    }
}

/// Law: when the caller's receiver disconnects while line `i` is being
/// forwarded, the child is killed, exactly the lines before `i` were
/// delivered, and no error or state-capture event is delivered at all.
pub proof fn lemma_cancellation(
    lines: Seq<Seq<char>>,
    i: int,
    exit_ok: bool,
    rollout: Option<Seq<u8>>,
)
    requires
        0 <= i <= lines.len(),
    ensures
        run_model(lines, Option::Some(i), exit_ok, rollout).child_killed,
        run_model(lines, Option::Some(i), exit_ok, rollout).events.len() == i,
        forall|j: int|
            0 <= j < i ==> run_model(lines, Option::Some(i), exit_ok, rollout).events[j]
                == EventModel::AgentOutputLine(#[trigger] lines[j]),
        forall|j: int|
            0 <= j < i ==> !(#[trigger] run_model(lines, Option::Some(i), exit_ok, rollout).events[j]
                is Error) && !(run_model(lines, Option::Some(i), exit_ok, rollout).events[j]
                is UpdatedState),
{
    let evs = run_model(lines, Option::Some(i), exit_ok, rollout).events;
    assert forall|j: int| 0 <= j < i implies evs[j] == EventModel::AgentOutputLine(lines[j]) by {
        assert(evs[j] == EventModel::AgentOutputLine(lines.take(i)[j]));
    }
}

/// Law: a run whose child exits with a non-zero status delivers no
/// state-capture event.
pub proof fn lemma_no_state_on_failure(
    lines: Seq<Seq<char>>,
    cancel_at: Option<int>,
    rollout: Option<Seq<u8>>,
)
    ensures
        forall|j: int|
            0 <= j < run_model(lines, cancel_at, false, rollout).events.len() ==> !(
            #[trigger] run_model(lines, cancel_at, false, rollout).events[j] is UpdatedState),
{
    let evs = run_model(lines, cancel_at, false, rollout).events;
    assert forall|j: int| 0 <= j < evs.len() implies !(evs[j] is UpdatedState) by {
        match cancel_at {
            Option::Some(i) => {
                assert(evs[j] == EventModel::AgentOutputLine(lines.take(i)[j]));
            },
            Option::None => {
                assert(final_events(false, rollout).len() == 0);
                assert(evs[j] == output_events(lines)[j]);
                assert(evs[j] == EventModel::AgentOutputLine(lines[j]));
            },
        }
    }
}

/// Law: a run whose child exits cleanly and for which a rollout was
/// extracted delivers exactly one state-capture event: it carries those
/// bytes and stands last, after all output lines.
pub proof fn lemma_single_state_on_success(lines: Seq<Seq<char>>, bytes: Seq<u8>)
    ensures
        run_model(lines, Option::None, true, Option::Some(bytes)).events.len() == lines.len() + 1,
        run_model(lines, Option::None, true, Option::Some(bytes)).events.last()
            == EventModel::UpdatedState(bytes),
        forall|j: int|
            0 <= j < lines.len() ==> !(#[trigger] run_model(
                lines,
                Option::None,
                true,
                Option::Some(bytes),
            ).events[j] is UpdatedState),
{
    let evs = run_model(lines, Option::None, true, Option::Some(bytes)).events;
    assert forall|j: int| 0 <= j < lines.len() implies !(evs[j] is UpdatedState) by {
        assert(evs[j] == output_events(lines)[j]);
        assert(evs[j] == EventModel::AgentOutputLine(lines[j]));
    }
}

} // verus!
