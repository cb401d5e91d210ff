use vstd::prelude::*;

use crate::git::{accepts, exit_step, stderr_step, stdout_step};
use crate::types::{result_of, StateView};

verus! {

/// A delivery from the host after launch, with chunks already decoded to text.
pub ghost enum Event {
    Stdout { pid: u64, chunk: Seq<char>, now: Option<u64> },
    Stderr { pid: u64, chunk: Seq<char> },
    Exit { pid: u64, code: i32 },
}

pub open spec fn step(s: StateView, e: Event) -> StateView {
    match e {
        Event::Stdout { pid, chunk, now } => stdout_step(s, pid, chunk, now),
        Event::Stderr { pid, chunk } => stderr_step(s, pid, chunk),
        Event::Exit { pid, code } => exit_step(s, pid, code),
    }
}

/// The state after delivering `events` in order.
pub open spec fn run(s: StateView, events: Seq<Event>) -> StateView
    decreases events.len(),
{
    if events.len() == 0 {
        s
    } else {
        step(run(s, events.drop_last()), events.last())
    }
}

/// All chunks joined in order.
pub open spec fn concat(chunks: Seq<Seq<char>>) -> Seq<char>
    decreases chunks.len(),
{
    if chunks.len() == 0 {
        Seq::empty()
    } else {
        concat(chunks.drop_last()) + chunks.last()
    }
}

pub open spec fn stdout_events(pid: u64, chunks: Seq<Seq<char>>) -> Seq<Event> {
    chunks.map_values(|c: Seq<char>| Event::Stdout { pid, chunk: c, now: None })
}

pub open spec fn stderr_events(pid: u64, chunks: Seq<Seq<char>>) -> Seq<Event> {
    chunks.map_values(|c: Seq<char>| Event::Stderr { pid, chunk: c })
}

/// Delivering two sequences one after the other is delivering their concatenation.
pub proof fn lemma_run_append(s: StateView, a: Seq<Event>, b: Seq<Event>)
    ensures
        run(s, a + b) == run(run(s, a), b),
    decreases b.len(),
{
    if b.len() == 0 {
        assert(a + b =~= a);
    } else {
        assert((a + b).drop_last() =~= a + b.drop_last());
        lemma_run_append(s, a, b.drop_last());
    }
}

/// A completed state is a fixed point: no event sequence changes anything in it.
pub proof fn completed_state_is_final(s: StateView, events: Seq<Event>)
    requires
        s.completed,
    ensures
        run(s, events) == s,
    decreases events.len(),
{
    if events.len() > 0 {
        completed_state_is_final(s, events.drop_last());
    }
}

/// Once a prefix of the deliveries has completed the run, the rest change nothing: the
/// completion flag stays set, and the exit code, both buffers and the error stay as they were.
pub proof fn completion_is_permanent(s: StateView, events: Seq<Event>, i: int)
    requires
        0 <= i <= events.len(),
        run(s, events.take(i)).completed,
    ensures
        run(s, events) == run(s, events.take(i)),
{
    assert(events =~= events.take(i) + events.skip(i));
    lemma_run_append(s, events.take(i), events.skip(i));
    completed_state_is_final(run(s, events.take(i)), events.skip(i));
}

/// Chunks and exit notifications from a process other than the tracked one change nothing.
pub proof fn foreign_deliveries_are_discarded(
    s: StateView,
    pid: u64,
    chunk: Seq<char>,
    now: Option<u64>,
    code: i32,
)
    requires
        s.active_process != Some(pid),
    ensures
        stdout_step(s, pid, chunk, now) == s,
        stderr_step(s, pid, chunk) == s,
        exit_step(s, pid, code) == s,
{
}

/// Stdout chunks of the tracked process, delivered in order without a clock reading, leave the
/// buffer extended by exactly their concatenation and nothing else changed.
pub proof fn stdout_chunks_concatenate(s: StateView, pid: u64, chunks: Seq<Seq<char>>)
    requires
        accepts(s, pid),
    ensures
        run(s, stdout_events(pid, chunks)) == (StateView {
            stdout_buffer: s.stdout_buffer + concat(chunks),
            ..s
        }),
    decreases chunks.len(),
{
    if chunks.len() == 0 {
        assert(s.stdout_buffer + concat(chunks) =~= s.stdout_buffer);
    } else {
        let init = chunks.drop_last();
        assert(stdout_events(pid, chunks).drop_last() =~= stdout_events(pid, init));
        stdout_chunks_concatenate(s, pid, init);
        assert(s.stdout_buffer + concat(init) + chunks.last() =~= s.stdout_buffer + concat(
            chunks,
        ));
    }
}

/// Stderr chunks of the tracked process, delivered in order, leave the buffer extended by
/// exactly their concatenation and nothing else changed.
pub proof fn stderr_chunks_concatenate(s: StateView, pid: u64, chunks: Seq<Seq<char>>)
    requires
        accepts(s, pid),
    ensures
        run(s, stderr_events(pid, chunks)) == (StateView {
            stderr_buffer: s.stderr_buffer + concat(chunks),
            ..s
        }),
    decreases chunks.len(),
{
    if chunks.len() == 0 {
        assert(s.stderr_buffer + concat(chunks) =~= s.stderr_buffer);
    } else {
        let init = chunks.drop_last();
        assert(stderr_events(pid, chunks).drop_last() =~= stderr_events(pid, init));
        stderr_chunks_concatenate(s, pid, init);
        assert(s.stderr_buffer + concat(init) + chunks.last() =~= s.stderr_buffer + concat(
            chunks,
        ));
    }
}

/// The record reports success exactly when the exit code is 0 and no error was recorded.
pub proof fn success_iff_clean_exit(s: StateView, now: Option<u64>)
    ensures
        result_of(s, now).success <==> (s.exit_code == Some(0i32) && s.validation_error is None),
{
}

/// A repeated exit notification is ignored: the state is as after the first one alone.
pub proof fn repeated_exit_is_ignored(s: StateView, pid: u64, code: i32, repeated_code: i32)
    ensures
        exit_step(exit_step(s, pid, code), pid, repeated_code) == exit_step(s, pid, code),
{
}

} // verus!
