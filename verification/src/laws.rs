//! What holds of a sink over every record and over every sequence of records.

use vstd::prelude::*;
use crate::level::{Level, LevelFilter};
use crate::producer::{guard_life, lemma_guard_ends_once, EmissionView};
use crate::record::{
    app_prefix, channel_of, end_tag, pause_tag, progress_tag, shown_target, Channel, RecordView,
};
use crate::render::{above_text, extended_text, terse_text};
use crate::sink::{admitted, fresh, step, ActionView, SinkView, SpinnerView};

verus! {

/// One arrival at a sink: the record, and the time to show for it.
pub struct Input {
    pub record: RecordView,
    pub timestamp: Seq<char>,
}

/// The sink after it has taken `inputs` in their order.
pub open spec fn run(sink: SinkView, inputs: Seq<Input>) -> SinkView
    decreases inputs.len(),
{
    if inputs.len() == 0 {
        sink
    } else {
        step(run(sink, inputs.drop_last()), inputs.last().record, inputs.last().timestamp).0
    }
}

/// The actions that a sink issues while it takes `inputs`, one for each.
pub open spec fn trace(sink: SinkView, inputs: Seq<Input>) -> Seq<ActionView>
    decreases inputs.len(),
{
    if inputs.len() == 0 {
        Seq::empty()
    } else {
        trace(sink, inputs.drop_last()).push(
            step(run(sink, inputs.drop_last()), inputs.last().record, inputs.last().timestamp).1,
        )
    }
}

/// What an action does to the number of spinners on the terminal.
pub open spec fn change(action: ActionView) -> int {
    match action {
        ActionView::Start(_) => 1,
        ActionView::Finish(_) => -1,
        _ => 0,
    }
}

/// The number of spinners on a terminal that had none and has since carried
/// out `actions`.
pub open spec fn live(actions: Seq<ActionView>) -> int
    decreases actions.len(),
{
    if actions.len() == 0 {
        0
    } else {
        live(actions.drop_last()) + change(actions.last())
    }
}

/// The number of spinners a sink holds.
pub open spec fn held(sink: SinkView) -> int {
    if sink.spinner is Some {
        1
    } else {
        0
    }
}

/// An action that puts `::` at the start of a line: a line that begins so, or
/// anything a spinner draws.
pub open spec fn marked(action: ActionView) -> bool {
    match action {
        ActionView::Skip | ActionView::Hide | ActionView::Show => false,
        ActionView::Stdout(line) | ActionView::Stderr(line) | ActionView::Above(line) => "::"@
            .is_prefix_of(line),
        ActionView::Start(_) | ActionView::Finish(_) => true,
    }
}

/// The records that the framework makes of emissions, all on one thread, each
/// with a time to show.
pub open spec fn arrivals(emissions: Seq<EmissionView>, thread: Seq<char>, timestamp: Seq<char>)
    -> Seq<Input> {
    Seq::new(
        emissions.len(),
        |i: int|
            Input {
                record: RecordView {
                    level: emissions[i].level,
                    target: emissions[i].target,
                    message: emissions[i].message,
                    thread,
                },
                timestamp,
            },
    )
}

/// Each reserved tag has its own channel: the three tags differ.
pub proof fn lemma_reserved_channels()
    ensures
        channel_of(progress_tag()) == Some(Channel::Begin),
        channel_of(pause_tag()) == Some(Channel::Pause),
        channel_of(end_tag()) == Some(Channel::End),
{
    reveal_strlit("progress");
    reveal_strlit("progress_pause");
    reveal_strlit("progress_end");
    assert(progress_tag().len() == 8 && pause_tag().len() == 14 && end_tag().len() == 12);
}

/// The target that a verbose line shows for an admitted record begins with
/// the application's prefix, and for a reserved tag it is that prefix.
pub proof fn lemma_shown_target_is_of_the_application(target: Seq<char>)
    requires
        channel_of(target) is Some,
    ensures
        app_prefix().is_prefix_of(shown_target(target)),
        channel_of(target) != Some(Channel::Plain) ==> shown_target(target) == app_prefix(),
{
    let shown = shown_target(target);
    if shown != target {
        assert(app_prefix() =~= shown.subrange(0, app_prefix().len() as int));
    }
}

/// A step keeps the verbosity, and its action changes the terminal's spinners
/// as it changes the slot.
pub proof fn lemma_step_keeps_count(sink: SinkView, record: RecordView, timestamp: Seq<char>)
    ensures
        step(sink, record, timestamp).0.level == sink.level,
        held(step(sink, record, timestamp).0) == held(sink) + change(
            step(sink, record, timestamp).1,
        ),
{
}

/// One more input is one more step from where the inputs before it have left
/// the sink, and its action is the last.
pub proof fn lemma_run_push(sink: SinkView, inputs: Seq<Input>, next: Input)
    ensures
        run(sink, inputs.push(next)) == step(run(sink, inputs), next.record, next.timestamp).0,
        trace(sink, inputs.push(next)) == trace(sink, inputs).push(
            step(run(sink, inputs), next.record, next.timestamp).1,
        ),
{
    assert(inputs.push(next).drop_last() =~= inputs);
}

/// The sink after the first `k` inputs and the actions issued for them do not
/// depend on the inputs that follow.
pub proof fn lemma_trace_prefix(sink: SinkView, inputs: Seq<Input>, k: int)
    requires
        0 <= k <= inputs.len(),
    ensures
        trace(sink, inputs).len() == inputs.len(),
        trace(sink, inputs).take(k) == trace(sink, inputs.take(k)),
    decreases inputs.len(),
{
    if k == inputs.len() {
        if inputs.len() > 0 {
            lemma_trace_prefix(sink, inputs.drop_last(), k - 1);
        }
        assert(inputs.take(k) =~= inputs);
        assert(trace(sink, inputs).take(k) =~= trace(sink, inputs));
    } else {
        lemma_trace_prefix(sink, inputs.drop_last(), k);
        assert(inputs.drop_last().take(k) =~= inputs.take(k));
        assert(trace(sink, inputs).take(k) =~= trace(sink, inputs.drop_last()).take(k));
    }
}

/// The action for an input is the step that the sink takes from where the
/// inputs before it have left it.
pub proof fn lemma_trace_at(sink: SinkView, inputs: Seq<Input>, i: int)
    requires
        0 <= i < inputs.len(),
    ensures
        trace(sink, inputs).len() == inputs.len(),
        trace(sink, inputs)[i] == step(
            run(sink, inputs.take(i)),
            inputs[i].record,
            inputs[i].timestamp,
        ).1,
{
    lemma_trace_prefix(sink, inputs, i + 1);
    lemma_trace_prefix(sink, inputs.take(i), i);
    lemma_run_push(sink, inputs.take(i), inputs[i]);
    assert(inputs.take(i + 1) =~= inputs.take(i).push(inputs[i]));
    assert(trace(sink, inputs)[i] == trace(sink, inputs).take(i + 1)[i]);
}

/// A terminal that carries out a sink's actions from the sink's creation on
/// holds as many spinners as the sink's slot, whatever the records were.
pub proof fn lemma_live_is_held(level: LevelFilter, inputs: Seq<Input>)
    ensures
        run(fresh(level), inputs).level == level,
        live(trace(fresh(level), inputs)) == held(run(fresh(level), inputs)),
    decreases inputs.len(),
{
    if inputs.len() > 0 {
        let before = inputs.drop_last();
        lemma_live_is_held(level, before);
        lemma_step_keeps_count(
            run(fresh(level), before),
            inputs.last().record,
            inputs.last().timestamp,
        );
        assert(trace(fresh(level), inputs).drop_last() =~= trace(fresh(level), before));
    }
}

/// At most one spinner is live at any point: after each of the actions that a
/// sink issues from its creation on, the terminal holds one spinner or none.
pub proof fn lemma_at_most_one_spinner(level: LevelFilter, inputs: Seq<Input>, k: int)
    requires
        0 <= k <= inputs.len(),
    ensures
        0 <= live(trace(fresh(level), inputs).take(k)) <= 1,
{
    lemma_trace_prefix(fresh(level), inputs, k);
    lemma_live_is_held(level, inputs.take(k));
}

/// A verbose sink answers an admitted record with its verbose line on
/// standard output and any other record with nothing. The line does not begin
/// with `::`, and the slot stays as it is.
pub proof fn lemma_verbose_is_plain(sink: SinkView, record: RecordView, timestamp: Seq<char>)
    requires
        sink.level.is_verbose(),
    ensures
        step(sink, record, timestamp).0 == sink,
        step(sink, record, timestamp).1 == if admitted(sink.level, record) {
            ActionView::Stdout(extended_text(timestamp, record))
        } else {
            ActionView::Skip
        },
        !marked(step(sink, record, timestamp).1),
{
    reveal_strlit("[");
    reveal_strlit("::");
    let line = extended_text(timestamp, record);
    assert(line[0] == '[');
    if "::"@.is_prefix_of(line) {
        assert(line.subrange(0, 2)[0] == "::"@[0]);
    }
}

/// A sink that was created verbose is after any sequence of records as it was
/// created.
pub proof fn lemma_verbose_keeps_slot(level: LevelFilter, inputs: Seq<Input>)
    requires
        level.is_verbose(),
    ensures
        run(fresh(level), inputs) == fresh(level),
    decreases inputs.len(),
{
    if inputs.len() > 0 {
        lemma_verbose_keeps_slot(level, inputs.drop_last());
        lemma_verbose_is_plain(fresh(level), inputs.last().record, inputs.last().timestamp);
    }
}

/// In verbose mode no spinner is ever constructed and nothing is written
/// behind `::`: the slot of a sink that was created verbose stays empty over
/// any sequence of records, and none of its actions starts a spinner or is
/// marked.
pub proof fn lemma_verbose_never_spins(level: LevelFilter, inputs: Seq<Input>, i: int)
    requires
        level.is_verbose(),
        0 <= i < inputs.len(),
    ensures
        run(fresh(level), inputs) == fresh(level),
        trace(fresh(level), inputs).len() == inputs.len(),
        !(trace(fresh(level), inputs)[i] is Start),
        !marked(trace(fresh(level), inputs)[i]),
{
    lemma_verbose_keeps_slot(level, inputs);
    lemma_verbose_keeps_slot(level, inputs.take(i));
    lemma_trace_at(fresh(level), inputs, i);
    lemma_verbose_is_plain(fresh(level), inputs[i].record, inputs[i].timestamp);
}

/// A terse sink writes no verbose line: whatever it writes, on either stream
/// or above the spinner, begins with `::`.
pub proof fn lemma_terse_is_marked(sink: SinkView, record: RecordView, timestamp: Seq<char>)
    requires
        !sink.level.is_verbose(),
    ensures
        match step(sink, record, timestamp).1 {
            ActionView::Skip | ActionView::Hide | ActionView::Show => true,
            action => marked(action),
        },
{
    reveal_strlit("::");
    reveal_strlit(":: ");
    reveal_strlit(":: \u{2192} ");
    let terse = terse_text(record.message);
    let above = above_text(record.message);
    assert("::"@ =~= terse.subrange(0, 2));
    assert("::"@ =~= above.subrange(0, 2));
}

/// A terse sink with an empty slot writes a record of the application behind
/// `:: `: to standard output where it is less severe than a warning, to
/// standard error otherwise.
pub proof fn lemma_terse_streams(sink: SinkView, record: RecordView, timestamp: Seq<char>)
    requires
        !sink.level.is_verbose(),
        sink.spinner is None,
        admitted(sink.level, record),
        channel_of(record.target) == Some(Channel::Plain),
    ensures
        step(sink, record, timestamp).0 == sink,
        record.level.spec_rank() > Level::Warn.spec_rank() ==> step(sink, record, timestamp).1
            == ActionView::Stdout(terse_text(record.message)),
        record.level.spec_rank() <= Level::Warn.spec_rank() ==> step(sink, record, timestamp).1
            == ActionView::Stderr(terse_text(record.message)),
{
}

/// A record whose target is no reserved tag and does not begin with the
/// application's prefix does nothing, whatever the sink.
pub proof fn lemma_foreign_is_dropped(sink: SinkView, record: RecordView, timestamp: Seq<char>)
    requires
        channel_of(record.target) is None,
    ensures
        step(sink, record, timestamp) == (sink, ActionView::Skip),
{
}

/// A pause that a terse sink admits changes a spinner in the slot between
/// drawn and hidden, and does nothing to an empty slot.
pub proof fn lemma_pause_toggles(sink: SinkView, record: RecordView, timestamp: Seq<char>)
    requires
        !sink.level.is_verbose(),
        admitted(sink.level, record),
        record.target == pause_tag(),
    ensures
        match sink.spinner {
            Some(spinner) => step(sink, record, timestamp) == (
                SinkView {
                    spinner: Some(SpinnerView { hidden: !spinner.hidden, ..spinner }),
                    ..sink
                },
                if spinner.hidden {
                    ActionView::Show
                } else {
                    ActionView::Hide
                },
            ),
            None => step(sink, record, timestamp) == (sink, ActionView::Skip),
        },
{
    lemma_reserved_channels();
}

/// Two pauses of one severity in a row leave every sink as it was: the second
/// gives a spinner the visibility it had before the first.
pub proof fn lemma_pause_twice(
    sink: SinkView,
    first: Input,
    second: Input,
)
    requires
        first.record.target == pause_tag(),
        second.record.target == pause_tag(),
        first.record.level == second.record.level,
    ensures
        run(sink, seq![first, second]) == sink,
{
    lemma_reserved_channels();
    lemma_run_push(sink, Seq::empty(), first);
    lemma_run_push(sink, seq![first], second);
    assert(Seq::<Input>::empty().push(first) =~= seq![first]);
    assert(seq![first].push(second) =~= seq![first, second]);
}

/// The end of a progress that finds the slot of a terse sink empty does
/// nothing.
pub proof fn lemma_end_without_spinner(sink: SinkView, record: RecordView, timestamp: Seq<char>)
    requires
        !sink.level.is_verbose(),
        sink.spinner is None,
        record.target == end_tag(),
    ensures
        step(sink, record, timestamp) == (sink, ActionView::Skip),
{
    lemma_reserved_channels();
}

/// The end of a progress takes the spinner out of the slot and finishes it:
/// under the record's message, or under the spinner's own where the record's
/// is empty.
pub proof fn lemma_end_finishes(
    sink: SinkView,
    spinner: SpinnerView,
    record: RecordView,
    timestamp: Seq<char>,
)
    requires
        !sink.level.is_verbose(),
        sink.spinner == Some(spinner),
        admitted(sink.level, record),
        record.target == end_tag(),
    ensures
        step(sink, record, timestamp).0 == (SinkView { spinner: None, ..sink }),
        record.message.len() == 0 ==> step(sink, record, timestamp).1 == ActionView::Finish(
            spinner.message,
        ),
        record.message.len() > 0 ==> step(sink, record, timestamp).1 == ActionView::Finish(
            record.message,
        ),
{
    lemma_reserved_channels();
}

/// A progress that begins while the slot is occupied does not replace the
/// spinner: its message goes above it, behind `:: `, an arrow and a space. So
/// does every record of the application, whatever its severity.
pub proof fn lemma_occupied_interleaves(sink: SinkView, record: RecordView, timestamp: Seq<char>)
    requires
        !sink.level.is_verbose(),
        sink.spinner is Some,
        admitted(sink.level, record),
        record.target == progress_tag() || channel_of(record.target) == Some(Channel::Plain),
    ensures
        step(sink, record, timestamp) == (sink, ActionView::Above(above_text(record.message))),
{
}

/// A progress that begins while the slot is empty puts a drawn spinner with
/// the record's message in it.
pub proof fn lemma_begin_starts(sink: SinkView, record: RecordView, timestamp: Seq<char>)
    requires
        !sink.level.is_verbose(),
        sink.spinner is None,
        admitted(sink.level, record),
        record.target == progress_tag(),
    ensures
        step(sink, record, timestamp) == (
            SinkView {
                spinner: Some(SpinnerView { message: record.message, hidden: false }),
                ..sink
            },
            ActionView::Start(record.message),
        ),
{
}

/// No spinner outlives its guard: a terse sink that lets informational
/// records through and takes all that a guard's owner emits, from the
/// beginning of the progress to the end of the guard, has an empty slot
/// afterwards, whether the guard was stopped or only let go of.
pub proof fn lemma_guard_clears_slot(
    sink: SinkView,
    begin: Seq<char>,
    stop: Option<Seq<char>>,
    thread: Seq<char>,
    timestamp: Seq<char>,
)
    requires
        !sink.level.is_verbose(),
        sink.level.admits(Level::Info),
    ensures
        run(sink, arrivals(guard_life(begin, stop), thread, timestamp)).spinner is None,
{
    lemma_reserved_channels();
    lemma_guard_ends_once(begin, stop);
    let inputs = arrivals(guard_life(begin, stop), thread, timestamp);
    lemma_run_push(sink, Seq::empty(), inputs[0]);
    lemma_run_push(sink, seq![inputs[0]], inputs[1]);
    assert(Seq::<Input>::empty().push(inputs[0]) =~= seq![inputs[0]]);
    assert(seq![inputs[0]].push(inputs[1]) =~= inputs);
}

} // verus!
