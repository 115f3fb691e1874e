//! What the state machine does over many events.

use crate::activity::{activity_of, Activity};
use crate::controller::{Machine, Operation, Phase, Signal, POLL_PERIOD_SECS};
use crate::snapshot::{presentation_of, Media};
use vstd::prelude::*;

verus! {

/// The state after a run of signals, each answered in turn.
pub open spec fn state_after(start: Machine, signals: Seq<Signal>) -> Machine
    decreases signals.len(),
{
    if signals.len() == 0 {
        start
    } else {
        state_after(start, signals.drop_last()).next(signals.last())
    }
}

/// Everything that is done over a run of signals, in order.
pub open spec fn done_over(start: Machine, signals: Seq<Signal>) -> Seq<Operation>
    decreases signals.len(),
{
    if signals.len() == 0 {
        Seq::empty()
    } else {
        done_over(start, signals.drop_last()) + state_after(start, signals.drop_last()).answer(
            signals.last(),
        )
    }
}

/// The three things that are done on the presence channel.
pub enum ChannelUse {
    Connect,
    Push,
    Close,
}

/// Whether an operation is a use of the channel of the given kind.
pub open spec fn is_use(operation: Operation, kind: ChannelUse) -> bool {
    match kind {
        ChannelUse::Connect => operation is Connect,
        ChannelUse::Push => operation is Push,
        ChannelUse::Close => operation is Close,
    }
}

/// How many uses of the channel of one kind a list of operations holds.
pub open spec fn uses(operations: Seq<Operation>, kind: ChannelUse) -> nat
    decreases operations.len(),
{
    if operations.len() == 0 {
        0
    } else {
        uses(operations.drop_last(), kind) + if is_use(operations.last(), kind) {
            1nat
        } else {
            0nat
        }
    }
}

/// How many connect attempts a list of operations holds.
pub open spec fn connects(operations: Seq<Operation>) -> nat {
    uses(operations, ChannelUse::Connect)
}

/// How many pushes a list of operations holds.
pub open spec fn pushes(operations: Seq<Operation>) -> nat {
    uses(operations, ChannelUse::Push)
}

/// How many closes a list of operations holds.
pub open spec fn closes(operations: Seq<Operation>) -> nat {
    uses(operations, ChannelUse::Close)
}

/// Every push in the list is a push of `activity`.
pub open spec fn pushes_only(operations: Seq<Operation>, activity: Activity) -> bool {
    forall|i: int|
        0 <= i < operations.len() && operations[i] is Push ==> operations[i] == Operation::Push(
            activity,
        )
}

/// The uses in two lists add up.
pub proof fn uses_add(first: Seq<Operation>, second: Seq<Operation>, kind: ChannelUse)
    ensures
        uses(first + second, kind) == uses(first, kind) + uses(second, kind),
    decreases second.len(),
{
    if second.len() == 0 {
    } else {
        assert((first + second).drop_last() =~= first + second.drop_last());
        uses_add(first, second.drop_last(), kind);
    }
}

/// One where the list has a use of the kind at `at`, nought where it has not.
spec fn use_at(operations: Seq<Operation>, at: int, kind: ChannelUse) -> nat {
    if 0 <= at < operations.len() && is_use(operations[at], kind) {
        1
    } else {
        0
    }
}

/// The uses in an answer, place by place: no answer has more than four
/// operations.
proof fn uses_in_answer(operations: Seq<Operation>, kind: ChannelUse)
    requires
        operations.len() <= 4,
    ensures
        uses(operations, kind) == use_at(operations, 0, kind) + use_at(operations, 1, kind)
            + use_at(operations, 2, kind) + use_at(operations, 3, kind),
    decreases operations.len(),
{
    if operations.len() > 0 {
        let front = operations.drop_last();
        uses_in_answer(front, kind);
    }
}

/// The uses of every kind in an answer.
proof fn all_uses_in_answer(operations: Seq<Operation>)
    requires
        operations.len() <= 4,
    ensures
        connects(operations) == use_at(operations, 0, ChannelUse::Connect) + use_at(
            operations,
            1,
            ChannelUse::Connect,
        ) + use_at(operations, 2, ChannelUse::Connect) + use_at(operations, 3, ChannelUse::Connect),
        pushes(operations) == use_at(operations, 0, ChannelUse::Push) + use_at(
            operations,
            1,
            ChannelUse::Push,
        ) + use_at(operations, 2, ChannelUse::Push) + use_at(operations, 3, ChannelUse::Push),
        closes(operations) == use_at(operations, 0, ChannelUse::Close) + use_at(
            operations,
            1,
            ChannelUse::Close,
        ) + use_at(operations, 2, ChannelUse::Close) + use_at(operations, 3, ChannelUse::Close),
{
    uses_in_answer(operations, ChannelUse::Connect);
    uses_in_answer(operations, ChannelUse::Push);
    uses_in_answer(operations, ChannelUse::Close);
}

/// The uses in a run and in the answer that follows it add up.
proof fn all_uses_add(first: Seq<Operation>, second: Seq<Operation>)
    ensures
        connects(first + second) == connects(first) + connects(second),
        pushes(first + second) == pushes(first) + pushes(second),
        closes(first + second) == closes(first) + closes(second),
{
    uses_add(first, second, ChannelUse::Connect);
    uses_add(first, second, ChannelUse::Push);
    uses_add(first, second, ChannelUse::Close);
}

/// A list that counts no use of a kind holds none.
proof fn no_use_among(operations: Seq<Operation>, kind: ChannelUse)
    requires
        uses(operations, kind) == 0,
    ensures
        forall|i: int| 0 <= i < operations.len() ==> !is_use(operations[i], kind),
    decreases operations.len(),
{
    if operations.len() > 0 {
        no_use_among(operations.drop_last(), kind);
        assert(forall|i: int|
            0 <= i < operations.len() - 1 ==> operations[i] == operations.drop_last()[i]);
    }
}

/// A run that goes on by one more signal goes on from where it stood.
pub proof fn run_extends(start: Machine, signals: Seq<Signal>, signal: Signal)
    ensures
        state_after(start, signals.push(signal)) == state_after(start, signals).next(signal),
        done_over(start, signals.push(signal)) == done_over(start, signals) + state_after(
            start,
            signals,
        ).answer(signal),
{
    assert(signals.push(signal).drop_last() =~= signals);
}

/// While connected, the text that was announced is on record.
pub open spec fn sound(machine: Machine) -> bool {
    machine.connected() ==> machine.last_presentation is Some
}

/// The record of what was announced is there at startup and is kept by every
/// step, whatever happens.
pub proof fn soundness_is_kept(machine: Machine, signal: Signal)
    ensures
        sound(Machine::initial()),
        sound(machine) ==> sound(machine.next(signal)),
{
}

/// Every answer ends the cycle in one of two ways: with a connect attempt,
/// whose outcome the machine then awaits, or with a wait of one period. A
/// connect attempt stands nowhere but at the end of an answer.
pub proof fn answer_ends_in_attempt_or_wait(machine: Machine, signal: Signal)
    ensures
        machine.answer(signal).len() > 0,
        machine.answer(signal).last() is Connect <==> machine.next(signal).phase is Opening,
        !(machine.answer(signal).last() is Connect) ==> machine.answer(signal).last() == (
        Operation::Wait { seconds: POLL_PERIOD_SECS as int }),
        forall|i: int|
            0 <= i < machine.answer(signal).len() - 1 ==> !(machine.answer(signal)[i] is Connect),
{
}

/// Whatever is pushed is the activity of the text on record, with the start
/// of the presence session, and it is pushed over an open connection.
pub proof fn pushed_is_on_record(machine: Machine, signal: Signal)
    requires
        sound(machine),
    ensures
        forall|i: int|
            0 <= i < machine.answer(signal).len() && machine.answer(signal)[i] is Push ==> {
                let reached = machine.next(signal);
                &&& reached.connected()
                &&& reached.last_presentation is Some
                &&& machine.answer(signal)[i] == Operation::Push(
                    activity_of(reached.last_presentation->0, reached.session_start),
                )
            },
{
}

/// The same snapshot, seen `times` times in a row.
pub open spec fn seen_repeatedly(media: Media, times: nat) -> Seq<Signal> {
    Seq::new(times, |i: int| Signal::Observed(media))
}

/// While connected, a snapshot that goes on showing what was announced is
/// answered, look after look, by one push and nothing else on the channel:
/// after any number of looks there were as many pushes, no connect attempt
/// and no close, every push carried the start of the presence session, and
/// the state is what it was.
pub proof fn steady_content_only_refreshes(machine: Machine, media: Media, times: nat)
    requires
        machine.connected(),
        presentation_of(media) is Some,
        machine.last_presentation == presentation_of(media),
    ensures
        state_after(machine, seen_repeatedly(media, times)) == machine,
        pushes(done_over(machine, seen_repeatedly(media, times))) == times,
        connects(done_over(machine, seen_repeatedly(media, times))) == 0,
        closes(done_over(machine, seen_repeatedly(media, times))) == 0,
        pushes_only(
            done_over(machine, seen_repeatedly(media, times)),
            activity_of(presentation_of(media)->0, machine.session_start),
        ),
    decreases times,
{
    if times > 0 {
        let look = Signal::Observed(media);
        let before = seen_repeatedly(media, (times - 1) as nat);
        assert(seen_repeatedly(media, times) =~= before.push(look));
        steady_content_only_refreshes(machine, media, (times - 1) as nat);
        run_extends(machine, before, look);
        all_uses_add(done_over(machine, before), machine.answer(look));
        all_uses_in_answer(machine.answer(look));
    }
}

/// A look that finds `media`, then `failures` failed connect attempts.
pub open spec fn attempts_run(media: Media, failures: nat) -> Seq<Signal> {
    seq![Signal::Observed(media)] + Seq::new(failures, |i: int| Signal::ConnectFailed)
}

/// A look that finds `media`, then `failures` failed connect attempts, then
/// one that succeeds at `now`.
pub open spec fn opening_run(media: Media, failures: nat, now: int) -> Seq<Signal> {
    attempts_run(media, failures).push(Signal::ConnectEstablished { now })
}

/// From a state without a connection, a look that finds something to show
/// starts a sequence of connect attempts that no failure ends: after any
/// number of failures the machine still awaits an attempt for that text, one
/// more attempt than there were failures was asked for, and nothing was pushed
/// or closed.
pub proof fn failed_attempts_are_repeated(machine: Machine, media: Media, failures: nat)
    requires
        !machine.connected(),
        presentation_of(media) is Some,
    ensures
        state_after(machine, attempts_run(media, failures)) == (Machine {
            phase: Phase::Opening(presentation_of(media)->0),
            ..machine
        }),
        connects(done_over(machine, attempts_run(media, failures))) == failures + 1,
        pushes(done_over(machine, attempts_run(media, failures))) == 0,
        closes(done_over(machine, attempts_run(media, failures))) == 0,
    decreases failures,
{
    let look = Signal::Observed(media);
    if failures == 0 {
        run_extends(machine, Seq::empty(), look);
        all_uses_in_answer(machine.answer(look));
    } else {
        let fewer = attempts_run(media, (failures - 1) as nat);
        assert(attempts_run(media, failures) =~= fewer.push(Signal::ConnectFailed));
        failed_attempts_are_repeated(machine, media, (failures - 1) as nat);
        run_extends(machine, fewer, Signal::ConnectFailed);
        let answer = state_after(machine, fewer).answer(Signal::ConnectFailed);
        all_uses_add(done_over(machine, fewer), answer);
        all_uses_in_answer(answer);
    }
}

/// From a state without a connection, a look that finds something to show
/// opens the presence session: however many attempts fail first, once one
/// succeeds the machine is connected, the presence session starts at the time
/// of that success, the text is on record, and one activity was pushed, which
/// carries the text and that start. There was one connect attempt for every
/// failure and one for the success: exactly one where nothing failed.
pub proof fn content_opens_the_session(machine: Machine, media: Media, failures: nat, now: int)
    requires
        !machine.connected(),
        presentation_of(media) is Some,
    ensures
        state_after(machine, opening_run(media, failures, now)) == (Machine {
            phase: Phase::Connected,
            session_start: now,
            last_presentation: presentation_of(media),
        }),
        connects(done_over(machine, opening_run(media, failures, now))) == failures + 1,
        pushes(done_over(machine, opening_run(media, failures, now))) == 1,
        closes(done_over(machine, opening_run(media, failures, now))) == 0,
        pushes_only(
            done_over(machine, opening_run(media, failures, now)),
            activity_of(presentation_of(media)->0, now),
        ),
{
    let attempts = attempts_run(media, failures);
    let success = Signal::ConnectEstablished { now };
    failed_attempts_are_repeated(machine, media, failures);
    run_extends(machine, attempts, success);
    let earlier = done_over(machine, attempts);
    let answer = state_after(machine, attempts).answer(success);
    all_uses_add(earlier, answer);
    all_uses_in_answer(answer);
    no_use_among(earlier, ChannelUse::Push);
}

/// While connected and showing one text, a look that finds another closes the
/// connection: one close, no push, no connect attempt, and the machine is
/// disconnected with the old text still on record. The next look that finds
/// the new text opens a presence session of its own: one connect attempt is
/// asked for, and once it succeeds at `later` the machine is connected, the
/// session starts at `later`, and the new text is on record and was pushed
/// once, with that start.
pub proof fn changed_content_reopens(machine: Machine, changed: Media, later: int)
    requires
        machine.connected(),
        presentation_of(changed) is Some,
        machine.last_presentation != presentation_of(changed),
    ensures
        ({
            let look = Signal::Observed(changed);
            let success = Signal::ConnectEstablished { now: later };
            let closed = machine.next(look);
            let opening = closed.next(look);
            &&& closed == Machine { phase: Phase::Disconnected, ..machine }
            &&& closes(machine.answer(look)) == 1
            &&& pushes(machine.answer(look)) == 0
            &&& connects(machine.answer(look)) == 0
            &&& closed.answer(look) == seq![Operation::Connect]
            &&& opening.next(success) == Machine {
                phase: Phase::Connected,
                session_start: later,
                last_presentation: presentation_of(changed),
            }
            &&& connects(opening.answer(success)) == 0
            &&& closes(opening.answer(success)) == 0
            &&& pushes(opening.answer(success)) == 1
            &&& pushes_only(
                opening.answer(success),
                activity_of(presentation_of(changed)->0, later),
            )
        }),
{
    let look = Signal::Observed(changed);
    let opening = machine.next(look).next(look);
    all_uses_in_answer(machine.answer(look));
    all_uses_in_answer(opening.answer(Signal::ConnectEstablished { now: later }));
}

/// While connected, a look that finds nothing to show closes the connection:
/// one close, no push, no connect attempt, and the machine is disconnected.
pub proof fn vanished_content_closes(machine: Machine)
    requires
        machine.connected(),
    ensures
        machine.next(Signal::Observed(Media::Idle)) == (Machine {
            phase: Phase::Disconnected,
            ..machine
        }),
        closes(machine.answer(Signal::Observed(Media::Idle))) == 1,
        pushes(machine.answer(Signal::Observed(Media::Idle))) == 0,
        connects(machine.answer(Signal::Observed(Media::Idle))) == 0,
{
    all_uses_in_answer(machine.answer(Signal::Observed(Media::Idle)));
}

/// Without a connection, a look that finds nothing to show does nothing on
/// the channel, and the machine is disconnected after it.
pub proof fn idle_stays_disconnected(machine: Machine)
    requires
        !machine.connected(),
    ensures
        machine.next(Signal::Observed(Media::Idle)).phase is Disconnected,
        closes(machine.answer(Signal::Observed(Media::Idle))) == 0,
        pushes(machine.answer(Signal::Observed(Media::Idle))) == 0,
        connects(machine.answer(Signal::Observed(Media::Idle))) == 0,
{
    all_uses_in_answer(machine.answer(Signal::Observed(Media::Idle)));
}

} // verus!
