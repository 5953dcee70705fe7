use vstd::prelude::*;
use crate::tray::TrayMessage;

verus! {

/// The exit status the process ends with when the user asks it to quit.
pub const EXIT_STATUS: i32 = 0;

/// What the dispatcher thread does after handling one message.
#[derive(Clone, Copy, Debug, PartialEq, Eq, Structural)]
pub enum DispatchAction {
    /// Go back to waiting for the next message.
    Continue,
    /// End the process at once with the given status; no further message is
    /// handled.
    Terminate(i32),
}

/// The visibility flag after one message: `ShowWindow` raises it, `Exit`
/// leaves it as it was.
pub open spec fn cell_after(cell: bool, msg: TrayMessage) -> bool {
    match msg {
        TrayMessage::ShowWindow => true,
        TrayMessage::Exit => cell,
    }
}

/// The dispatcher's reaction to one message.
pub open spec fn action_for(msg: TrayMessage) -> DispatchAction {
    match msg {
        TrayMessage::ShowWindow => DispatchAction::Continue,
        TrayMessage::Exit => DispatchAction::Terminate(EXIT_STATUS),
    }
}

/// Handles one message taken from the signal channel. `cell` is the shared
/// visibility flag, borrowed for as long as the caller holds its lock.
pub fn dispatch(cell: &mut bool, msg: TrayMessage) -> (r: DispatchAction)
    ensures
        *final(cell) == cell_after(*old(cell), msg),
        r == action_for(msg),
{
    match msg {
        TrayMessage::ShowWindow => {
            *cell = true;
            DispatchAction::Continue
        },
        TrayMessage::Exit => DispatchAction::Terminate(EXIT_STATUS),
    }
}

/// The outcome of feeding a queue of messages to the dispatcher in order,
/// stopping at the first one that ends the process: the final flag, how many
/// messages were handled, and whether the process ended.
pub open spec fn dispatch_run(cell: bool, msgs: Seq<TrayMessage>) -> (bool, nat, bool)
    decreases msgs.len(),
{
    if msgs.len() == 0 {
        (cell, 0, false)
    } else {
        let next = cell_after(cell, msgs[0]);
        if action_for(msgs[0]) is Terminate {
            (next, 1, true)
        } else {
            let rest = dispatch_run(next, msgs.drop_first());
            (rest.0, rest.1 + 1, rest.2)
        }
    }
}

/// Every message of the sequence is a `ShowWindow`.
pub open spec fn all_show(msgs: Seq<TrayMessage>) -> bool {
    forall|i: int| 0 <= i < msgs.len() ==> msgs[i] is ShowWindow
}

/// A queue of `ShowWindow` messages, however the sends of several producers
/// were interleaved into it, is handled in full and leaves the flag raised
/// as soon as it holds one message; the flag is never lowered.
pub proof fn lemma_show_messages_merge(cell: bool, msgs: Seq<TrayMessage>)
    requires
        all_show(msgs),
    ensures
        dispatch_run(cell, msgs) == (cell || msgs.len() > 0, msgs.len(), false),
    decreases msgs.len(),
{
    if msgs.len() > 0 {
        let rest = msgs.drop_first();
        assert forall|i: int| 0 <= i < rest.len() implies rest[i] is ShowWindow by {
            assert(rest[i] == msgs[i + 1]);
        }
        lemma_show_messages_merge(true, rest);
    }
}

/// However the `ShowWindow` sends of two producers are interleaved in the
/// channel, every one of them is handled, and the flag ends raised as soon as
/// either producer sent one.
pub proof fn lemma_producers_merge(
    cell: bool,
    first: Seq<TrayMessage>,
    second: Seq<TrayMessage>,
    queue: Seq<TrayMessage>,
)
    requires
        all_show(first),
        all_show(second),
        queue.to_multiset() == first.to_multiset().add(second.to_multiset()),
    ensures
        dispatch_run(cell, queue) == (
            cell || first.len() + second.len() > 0,
            first.len() + second.len(),
            false,
        ),
{
    broadcast use vstd::seq_lib::group_to_multiset_ensures, vstd::multiset::group_multiset_axioms;

    assert forall|i: int| 0 <= i < queue.len() implies queue[i] is ShowWindow by {
        let x = queue[i];
        assert(queue.contains(x));
        assert(queue.to_multiset().count(x) > 0);
        assert(first.to_multiset().add(second.to_multiset()).count(x) == first.to_multiset().count(
            x,
        ) + second.to_multiset().count(x));
        if first.contains(queue[i]) {
            let j = choose|j: int| 0 <= j < first.len() && first[j] == queue[i];
            assert(first[j] is ShowWindow);
        } else {
            assert(second.contains(queue[i]));
            let j = choose|j: int| 0 <= j < second.len() && second[j] == queue[i];
            assert(second[j] is ShowWindow);
        }
    }
    assert(queue.to_multiset().len() == queue.len());
    assert(first.to_multiset().len() == first.len());
    assert(second.to_multiset().len() == second.len());
    assert(first.to_multiset().add(second.to_multiset()).len() == first.to_multiset().len()
        + second.to_multiset().len());
    lemma_show_messages_merge(cell, queue);
}

/// An `Exit` ends the process wherever it stands in the queue: the messages
/// before it are handled, it is handled, and nothing after it is.
pub proof fn lemma_exit_ends_dispatch(
    cell: bool,
    before: Seq<TrayMessage>,
    after: Seq<TrayMessage>,
)
    requires
        all_show(before),
    ensures
        dispatch_run(cell, before + seq![TrayMessage::Exit] + after) == (
            cell || before.len() > 0,
            before.len() + 1,
            true,
        ),
    decreases before.len(),
{
    let msgs = before + seq![TrayMessage::Exit] + after;
    if before.len() == 0 {
        assert(msgs[0] == TrayMessage::Exit);
    } else {
        let rest = before.drop_first();
        assert forall|i: int| 0 <= i < rest.len() implies rest[i] is ShowWindow by {
            assert(rest[i] == before[i + 1]);
        }
        assert(msgs.drop_first() =~= rest + seq![TrayMessage::Exit] + after);
        assert(msgs[0] == before[0]);
        lemma_exit_ends_dispatch(true, rest, after);
    }
}

} // verus!
