//! The outbound half of a channel's bridge: from what the process's output
//! stream brings to what is pushed to the channel.
use vstd::prelude::*;
use vstd::string::{StrSliceExecFns, StringSliceAdditionalSpecFns};
use vstd::utf8::encode_utf8;

verus! {

/// The notice that a channel gets when its process's output has ended.
pub const EXIT_NOTICE: &'static str = "Docker Container exited process\r\n";

/// What an error of the output stream is announced with.
pub const ERROR_PREFIX: &'static str = "Error: ";

/// What the output stream of a process brings: a chunk of output, an error
/// in place of one, or its end.
#[derive(Debug)]
pub enum StreamEvent {
    Item(Result<Vec<u8>, String>),
    End,
}

/// The mathematical value of a `StreamEvent`.
pub enum StreamEventView {
    Item(Result<Seq<u8>, Seq<char>>),
    End,
}

/// The value of one item of the output stream.
pub open spec fn item_view(item: Result<Vec<u8>, String>) -> Result<Seq<u8>, Seq<char>> {
    match item {
        Ok(bytes) => Ok(bytes@),
        Err(text) => Err(text@),
    }
}

impl View for StreamEvent {
    type V = StreamEventView;

    open spec fn view(&self) -> StreamEventView {
        match self {
            StreamEvent::Item(item) => StreamEventView::Item(item_view(*item)),
            StreamEvent::End => StreamEventView::End,
        }
    }
}

/// What the bridge asks to be done on the channel.
#[derive(Debug)]
pub enum BridgeAction {
    /// Push these bytes to the channel.
    Data(Vec<u8>),
    /// Close the channel.
    Close,
    /// Remove the channel's entry from the registry.
    Release,
}

/// The mathematical value of a `BridgeAction`.
pub enum BridgeActionView {
    Data(Seq<u8>),
    Close,
    Release,
}

impl View for BridgeAction {
    type V = BridgeActionView;

    open spec fn view(&self) -> BridgeActionView {
        match self {
            BridgeAction::Data(bytes) => BridgeActionView::Data(bytes@),
            BridgeAction::Close => BridgeActionView::Close,
            BridgeAction::Release => BridgeActionView::Release,
        }
    }
}

/// The values of a list of actions, in the same order.
pub open spec fn actions(list: Seq<BridgeAction>) -> Seq<BridgeActionView> {
    list.map_values(|a: BridgeAction| a@)
}

/// The bytes that are pushed to the channel for one item of the output
/// stream: a chunk goes out as it is, an error as the prefix and its text.
pub open spec fn outbound_payload(item: Result<Seq<u8>, Seq<char>>) -> Seq<u8> {
    match item {
        Ok(bytes) => bytes,
        Err(text) => ERROR_PREFIX.spec_bytes() + encode_utf8(text),
    }
}

/// What the end of the output stream asks for: the notice, then the close
/// of the channel, then the removal of its entry.
pub open spec fn farewell() -> Seq<BridgeActionView> {
    seq![
        BridgeActionView::Data(EXIT_NOTICE.spec_bytes()),
        BridgeActionView::Close,
        BridgeActionView::Release,
    ]
}

/// One step of the bridge: from whether it has finished, and an event, to
/// whether it has finished afterwards and what is to be done. A bridge
/// that has finished does nothing more. A running bridge forwards each
/// item and goes on running, after an error too; the end of the stream
/// makes it take its farewell and finish.
pub open spec fn bridge_step(finished: bool, event: StreamEventView) -> (
    bool,
    Seq<BridgeActionView>,
) {
    if finished {
        (true, Seq::<BridgeActionView>::empty())
    } else {
        match event {
            StreamEventView::Item(item) => (
                false,
                seq![BridgeActionView::Data(outbound_payload(item))],
            ),
            StreamEventView::End => (true, farewell()),
        }
    }
}

/// Whether a bridge that starts from `finished` has finished after `events`.
pub open spec fn finished_after(finished: bool, events: Seq<StreamEventView>) -> bool
    decreases events.len(),
{
    if events.len() == 0 {
        finished
    } else {
        bridge_step(finished_after(finished, events.drop_last()), events.last()).0
    }
}

/// All that a bridge that starts from `finished` asks for over `events`, in order.
pub open spec fn bridge_trace(finished: bool, events: Seq<StreamEventView>) -> Seq<
    BridgeActionView,
>
    decreases events.len(),
{
    if events.len() == 0 {
        Seq::<BridgeActionView>::empty()
    } else {
        bridge_trace(finished, events.drop_last()) + bridge_step(
            finished_after(finished, events.drop_last()),
            events.last(),
        ).1
    }
}

/// Computes the bytes to push to the channel for one item of the output stream.
pub fn forward_container_output_to_session(item: Result<Vec<u8>, String>) -> (payload: Vec<u8>)
    ensures
        payload@ == outbound_payload(item_view(item)),
{
    match item {
        Ok(bytes) => bytes,
        Err(text) => {
            let mut line = ERROR_PREFIX.as_bytes_vec();
            let mut rest = text.as_str().as_bytes_vec();
            line.append(&mut rest);
            line
        },
    }
}

/// The outbound half of a channel's bridge: it turns what the process's
/// output stream brings into what is to be done on the channel.
pub struct Bridge {
    finished: bool,
}

impl Bridge {
    /// Whether the bridge has taken its farewell.
    pub closed spec fn finished(&self) -> bool {
        self.finished
    }

    /// A bridge that runs.
    pub fn new() -> (bridge: Self)
        ensures
            !bridge.finished(),
    {
        Bridge { finished: false }
    }

    /// Whether the bridge has taken its farewell.
    pub fn is_finished(&self) -> (finished: bool)
        ensures
            finished == self.finished(),
    {
        self.finished
    }

    /// Takes one event of the output stream and says what is to be done.
    pub fn step(&mut self, event: StreamEvent) -> (todo: Vec<BridgeAction>)
        ensures
            (final(self).finished(), actions(todo@)) == bridge_step(old(self).finished(), event@),
    {
        let mut todo: Vec<BridgeAction> = Vec::new();
        if self.finished {
            assert(actions(todo@) =~= Seq::<BridgeActionView>::empty());
            return todo;
        }
        match event {
            StreamEvent::Item(item) => {
                let ghost shown = outbound_payload(item_view(item));
                todo.push(BridgeAction::Data(forward_container_output_to_session(item)));
                assert(actions(todo@) =~= seq![BridgeActionView::Data(shown)]);
            },
            StreamEvent::End => {
                todo.push(BridgeAction::Data(EXIT_NOTICE.as_bytes_vec()));
                todo.push(BridgeAction::Close);
                todo.push(BridgeAction::Release);
                self.finished = true;
                assert(actions(todo@) =~= farewell());
            },
        }
        todo
    }
}

/// Whether every event of the list is an item, so that the stream has not ended in it.
pub open spec fn all_items(events: Seq<StreamEventView>) -> bool {
    forall|i: int| 0 <= i < events.len() ==> #[trigger] events[i] is Item
}

/// While the output stream has not ended, the bridge goes on running and
/// asks for exactly one push per item, in the order of the items: a chunk
/// as it is, an error as its announcement. An error does not end the bridge.
pub proof fn lemma_bridge_forwards_in_order(events: Seq<StreamEventView>)
    requires
        all_items(events),
    ensures
        !finished_after(false, events),
        bridge_trace(false, events).len() == events.len(),
        forall|i: int|
            0 <= i < events.len() ==> #[trigger] bridge_trace(false, events)[i]
                == BridgeActionView::Data(outbound_payload(events[i]->Item_0)),
    decreases events.len(),
{
    if events.len() > 0 {
        let earlier = events.drop_last();
        lemma_bridge_forwards_in_order(earlier);
        assert(events.last() is Item);
        assert forall|i: int| 0 <= i < events.len() implies #[trigger] bridge_trace(false, events)[i]
            == BridgeActionView::Data(outbound_payload(events[i]->Item_0)) by {
            if i < earlier.len() {
                assert(bridge_trace(false, events)[i] == bridge_trace(false, earlier)[i]);
                assert(earlier[i] == events[i]);
            }
        }
    }
}

/// Once the output stream has ended, the bridge stays finished whatever follows.
pub proof fn lemma_bridge_stays_finished(events: Seq<StreamEventView>)
    ensures
        finished_after(true, events),
        bridge_trace(true, events) == Seq::<BridgeActionView>::empty(),
    decreases events.len(),
{
    if events.len() > 0 {
        lemma_bridge_stays_finished(events.drop_last());
    }
    assert(bridge_trace(true, events) =~= Seq::<BridgeActionView>::empty());
}

/// The end of the output stream is answered once: after the pushes for the
/// items before it come the exit notice, one close and one release, and
/// nothing more, whatever events follow the end.
pub proof fn lemma_bridge_takes_farewell_once(
    before: Seq<StreamEventView>,
    after: Seq<StreamEventView>,
)
    requires
        all_items(before),
    ensures
        finished_after(false, before.push(StreamEventView::End) + after),
        bridge_trace(false, before.push(StreamEventView::End) + after) == bridge_trace(
            false,
            before,
        ) + farewell(),
    decreases after.len(),
{
    let events = before.push(StreamEventView::End) + after;
    if after.len() == 0 {
        lemma_bridge_forwards_in_order(before);
        assert(events =~= before.push(StreamEventView::End));
        assert(events.drop_last() =~= before);
    } else {
        let earlier = before.push(StreamEventView::End) + after.drop_last();
        lemma_bridge_takes_farewell_once(before, after.drop_last());
        assert(events.drop_last() =~= earlier);
        assert(bridge_trace(false, events) =~= bridge_trace(false, earlier));
    }
}

} // verus!
