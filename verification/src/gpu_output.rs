//! Uses of GPU output buffers, matched with the events of their video source.

use crate::castkms_actor::frames::{VideoFrame, VideoSourceActorEvent};
use crate::castkms_actor::{IdentityView, PipeWireBufferTransport, VideoNodeIdentity};
use crate::nonzero::{nonzero_u32_ext, nonzero_u64_ext, NonZeroU32};
use crate::text::texts_view;
use vstd::prelude::*;

verus! {

broadcast use {nonzero_u32_ext, nonzero_u64_ext};

/// How a buffer of the pool stands.
#[derive(Debug, Clone, Copy, PartialEq, Eq, Structural)]
pub enum SlotState {
    Unprepared,
    Used,
}

/// One buffer as the media graph knows it.
#[derive(Debug, Clone, Copy, PartialEq, Eq, Structural)]
pub struct TransportSlot {
    pub id: NonZeroU32,
    pub initialized: bool,
    /// The sequence of the frame that is published in it.
    pub publication: Option<u64>,
}

/// Why an operation on an output is refused.
#[derive(Debug, PartialEq, Eq)]
pub struct OutputError(pub &'static str);

/// One immutable media generation and the buffers that are handed on.
///
/// Sequences grow strictly over the generation. They, and not times, tell the
/// uses of a buffer apart.
#[derive(Debug)]
pub struct GpuOutput {
    pub identity: VideoNodeIdentity,
    pub slots: Vec<TransportSlot>,
    pub last_sequence: Option<u64>,
    pub stopped: bool,
}

/// The contents of a [`GpuOutput`].
pub struct OutputView {
    pub identity: IdentityView,
    pub slots: Seq<TransportSlot>,
    pub last_sequence: Option<u64>,
    pub stopped: bool,
}

impl View for GpuOutput {
    type V = OutputView;

    open spec fn view(&self) -> OutputView {
        OutputView {
            identity: self.identity@,
            slots: self.slots@,
            last_sequence: self.last_sequence,
            stopped: self.stopped,
        }
    }
}

/// Buffers have different IDs.
pub open spec fn distinct_ids(slots: Seq<TransportSlot>) -> bool {
    forall|i: int, j: int|
        0 <= i < j < slots.len() ==> (#[trigger] slots[i]).id != (#[trigger] slots[j]).id
}

impl OutputView {
    /// Buffers have different IDs, and nothing is published that is newer than
    /// the last sequence, or in a buffer that is not initialized.
    pub open spec fn wf(self) -> bool {
        &&& distinct_ids(self.slots)
        &&& forall|i: int|
            0 <= i < self.slots.len() ==> ((#[trigger] self.slots[i]).publication matches Some(
                sequence,
            ) ==> self.slots[i].initialized && self.last_sequence is Some && sequence
                <= self.last_sequence->0)
    }

    /// The place of a buffer.
    pub open spec fn place(self, id: NonZeroU32, index: int) -> bool {
        0 <= index < self.slots.len() && self.slots[index].id == id
    }

    pub open spec fn knows(self, id: NonZeroU32) -> bool {
        exists|index: int| self.place(id, index)
    }
}

/// An access to a buffer that has finished.
#[derive(Debug, Clone, Copy, PartialEq, Eq, Structural)]
pub enum AccessReady {
    Writable { slot: usize },
    Publish { slot: usize },
}

impl AccessReady {
    pub open spec fn slot(self) -> usize {
        match self {
            AccessReady::Writable { slot } => slot,
            AccessReady::Publish { slot } => slot,
        }
    }
}

/// What can be done with a buffer from now on.
#[derive(Debug, Clone, Copy, PartialEq, Eq, Structural)]
pub enum OutputReady {
    Writable(NonZeroU32),
    Publish { slot: usize },
}

/// How the buffers were taken back that were published when the source ended.
#[derive(Debug, PartialEq, Eq)]
pub struct OutputRetirement {
    /// The buffers to wait for.
    pub waits: Vec<usize>,
    /// Why the others stay quarantined.
    pub errors: Vec<String>,
}

/// The buffers that were taken back, in order.
pub open spec fn taken_back(replies: Seq<(usize, Result<(), String>)>) -> Seq<usize>
    decreases replies.len(),
{
    if replies.len() == 0 {
        Seq::empty()
    } else {
        let earlier = taken_back(replies.drop_last());
        if replies.last().1 is Ok {
            earlier.push(replies.last().0)
        } else {
            earlier
        }
    }
}

/// Why the other buffers were not, in order.
pub open spec fn quarantined(replies: Seq<(usize, Result<(), String>)>) -> Seq<Seq<char>>
    decreases replies.len(),
{
    if replies.len() == 0 {
        Seq::empty()
    } else {
        let earlier = quarantined(replies.drop_last());
        match replies.last().1 {
            Ok(_) => earlier,
            Err(text) => earlier.push(text@),
        }
    }
}

/// Sort the replies of the pool about the buffers of an ended source.
pub fn retire(replies: &Vec<(usize, Result<(), String>)>) -> (retirement: OutputRetirement)
    ensures
        retirement.waits@ == taken_back(replies@),
        texts_view(retirement.errors@) == quarantined(replies@),
{
    let mut waits: Vec<usize> = Vec::new();
    let mut errors: Vec<String> = Vec::new();
    let mut index: usize = 0;
    proof {
        assert(replies@.take(0) =~= Seq::empty());
        assert(texts_view(errors@) =~= Seq::empty());
    }
    while index < replies.len()
        invariant
            index <= replies@.len(),
            waits@ == taken_back(replies@.take(index as int)),
            texts_view(errors@) == quarantined(replies@.take(index as int)),
        decreases replies@.len() - index,
    {
        let ghost earlier = texts_view(errors@);
        proof {
            let upto = replies@.take(index + 1);
            assert(upto.drop_last() =~= replies@.take(index as int));
            assert(upto.last() == replies@[index as int]);
        }
        let reply = &replies[index];
        match &reply.1 {
            Ok(()) => {
                waits.push(reply.0);
            },
            Err(text) => {
                errors.push(text.clone());
                proof {
                    assert(texts_view(errors@) =~= earlier.push(text@));
                }
            },
        }
        index += 1;
    }
    proof {
        assert(replies@.take(index as int) =~= replies@);
    }
    OutputRetirement { waits, errors }
}

/// What is left to do about an event.
#[derive(Debug, PartialEq, Eq)]
pub enum OutputEvent {
    Ignored,
    /// Prepare the buffer for its first use.
    Prepare { slot: usize },
    /// Take the buffer of a publication back.
    Return { slot: usize, sequence: u64 },
    /// The generation is over: take back what is still published.
    Stopped(Vec<usize>),
}

/// The IDs describe the pool: one for each buffer, none twice, and no buffer
/// used yet.
pub open spec fn registers(ids: Seq<NonZeroU32>, pool: Seq<SlotState>) -> bool {
    &&& 0 < ids.len()
    &&& ids.len() == pool.len()
    &&& ids.no_duplicates()
    &&& forall|i: int| 0 <= i < pool.len() ==> pool[i] == SlotState::Unprepared
}

/// The buffers of a fresh output.
pub open spec fn fresh_slots(ids: Seq<NonZeroU32>) -> Seq<TransportSlot> {
    ids.map_values(
        |id: NonZeroU32| TransportSlot { id, initialized: false, publication: None },
    )
}

/// The buffers with something published in them, in order.
pub open spec fn published_slots(slots: Seq<TransportSlot>) -> Seq<int>
    decreases slots.len(),
{
    if slots.len() == 0 {
        Seq::empty()
    } else {
        let earlier = published_slots(slots.drop_last());
        if slots.last().publication is Some {
            earlier.push(slots.len() - 1)
        } else {
            earlier
        }
    }
}

/// The buffers once nothing is published any more.
pub open spec fn withdrawn_slots(slots: Seq<TransportSlot>) -> Seq<TransportSlot> {
    slots.map_values(|slot: TransportSlot| TransportSlot { publication: None, ..slot })
}

/// The places in a list, as numbers.
pub open spec fn places(list: Seq<usize>) -> Seq<int> {
    list.map_values(|place: usize| place as int)
}

/// What an event about a buffer does to an output, and what is left to do.
pub open spec fn handled(output: OutputView, event: VideoSourceActorEvent, index: int) -> (
    OutputView,
    Result<OutputEvent, Seq<char>>,
) {
    if event.generation() != output.identity.media_generation || output.stopped {
        (output, Ok(OutputEvent::Ignored))
    } else {
        match event {
            VideoSourceActorEvent::BufferAvailable { media_generation, buffer_id, transport } => {
                if !output.knows(buffer_id) {
                    (output, Err("unknown GPU output buffer"@))
                } else if output.slots[index].initialized || transport
                    != PipeWireBufferTransport::ReadyBeforePublish {
                    (
                        output,
                        Err("GPU output requires one ready-before-publish availability event"@),
                    )
                } else {
                    (
                        OutputView {
                            slots: output.slots.update(
                                index,
                                TransportSlot { initialized: true, ..output.slots[index] },
                            ),
                            ..output
                        },
                        Ok(OutputEvent::Prepare { slot: index as usize }),
                    )
                }
            },
            VideoSourceActorEvent::BufferReleased { media_generation, buffer_id, sequence } => {
                if !output.knows(buffer_id) {
                    (output, Err("unknown GPU output buffer"@))
                } else if output.slots[index].publication != Some(sequence) {
                    (output, Err("release does not match the active GPU publication"@))
                } else {
                    (
                        OutputView {
                            slots: output.slots.update(
                                index,
                                TransportSlot { publication: None, ..output.slots[index] },
                            ),
                            ..output
                        },
                        Ok(OutputEvent::Return { slot: index as usize, sequence }),
                    )
                }
            },
            VideoSourceActorEvent::GenerationFailed { identity, error } => (output, Ok(
                OutputEvent::Ignored,
            )),
        }
    }
}

/// The output once its source is gone.
pub open spec fn quiet(output: OutputView) -> OutputView {
    OutputView { stopped: true, slots: withdrawn_slots(output.slots), ..output }
}

impl GpuOutput {
    /// An output for a pool, whose buffers the media graph knows by `ids`.
    pub fn new(identity: VideoNodeIdentity, pool: &Vec<SlotState>, ids: Vec<NonZeroU32>) -> (result: Result<
        Self,
        OutputError,
    >)
        ensures
            result is Ok <==> registers(ids@, pool@),
            result matches Ok(output) ==> output@ == (OutputView {
                identity: identity@,
                slots: fresh_slots(ids@),
                last_sequence: None,
                stopped: false,
            }) && output@.wf(),
            result matches Err(error) ==> error.0@ == (if ids@.len() == 0 || ids@.len()
                != pool@.len() {
                "output registration does not match pool size"@
            } else {
                "output registration is duplicate or already used"@
            }),
    {
        if ids.len() == 0 || ids.len() != pool.len() {
            return Err(OutputError("output registration does not match pool size"));
        }
        let mut slots: Vec<TransportSlot> = Vec::new();
        let mut index: usize = 0;
        while index < ids.len()
            invariant
                index <= ids@.len(),
                ids@.len() == pool@.len(),
                ids@.len() > 0,
                slots@ == fresh_slots(ids@).take(index as int),
                forall|i: int, j: int| 0 <= i < j < index ==> ids@[i] != ids@[j],
                forall|i: int| 0 <= i < index ==> pool@[i] == SlotState::Unprepared,
            decreases ids@.len() - index,
        {
            let id = ids[index];
            let mut earlier: usize = 0;
            while earlier < index
                invariant
                    earlier <= index,
                    index < ids@.len(),
                    ids@.len() == pool@.len(),
                    id == ids@[index as int],
                    forall|i: int| 0 <= i < earlier ==> ids@[i] != id,
                decreases index - earlier,
            {
                if ids[earlier] == id {
                    proof {
                        assert(ids@[earlier as int] == ids@[index as int]);
                    }
                    return Err(OutputError("output registration is duplicate or already used"));
                }
                earlier += 1;
            }
            if pool[index] != SlotState::Unprepared {
                return Err(OutputError("output registration is duplicate or already used"));
            }
            slots.push(TransportSlot { id, initialized: false, publication: None });
            index += 1;
            proof {
                assert(slots@ =~= fresh_slots(ids@).take(index as int));
            }
        }
        proof {
            assert(fresh_slots(ids@).take(index as int) =~= fresh_slots(ids@));
            assert(ids@.no_duplicates());
            assert(distinct_ids(slots@)) by {
                assert forall|i: int, j: int| 0 <= i < j < slots@.len() implies (
                #[trigger] slots@[i]).id != (#[trigger] slots@[j]).id by {
                    assert(slots@[i].id == ids@[i] && slots@[j].id == ids@[j]);
                }
            }
        }
        Ok(GpuOutput { identity, slots, last_sequence: None, stopped: false })
    }

    /// The place of a buffer.
    pub fn index(&self, id: NonZeroU32) -> (result: Result<usize, OutputError>)
        ensures
            match result {
                Ok(index) => self@.place(id, index as int) && forall|i: int|
                    0 <= i < index ==> (#[trigger] self@.slots[i]).id != id,
                Err(error) => !self@.knows(id) && error.0@ == "unknown GPU output buffer"@,
            },
    {
        let mut index: usize = 0;
        while index < self.slots.len()
            invariant
                index <= self.slots@.len(),
                forall|i: int| 0 <= i < index ==> (#[trigger] self.slots@[i]).id != id,
            decreases self.slots@.len() - index,
        {
            if self.slots[index].id == id {
                proof {
                    assert(self@.place(id, index as int));
                }
                return Ok(index);
            }
            index += 1;
        }
        Err(OutputError("unknown GPU output buffer"))
    }

    /// Refuse what only a running generation may do.
    pub fn running(&self) -> (result: Result<(), OutputError>)
        ensures
            result is Ok <==> !self@.stopped,
            result matches Err(error) ==> error.0@ == "GPU output generation is stopped"@,
    {
        if self.stopped {
            Err(OutputError("GPU output generation is stopped"))
        } else {
            Ok(())
        }
    }

    /// The buffer to claim for writing, while the generation runs. A buffer that
    /// is not initialized has nothing to claim yet.
    pub fn claim(&self, id: NonZeroU32) -> (result: Result<usize, OutputError>)
        requires
            self@.wf(),
        ensures
            match result {
                Ok(index) => {
                    &&& !self@.stopped
                    &&& self@.place(id, index as int)
                    &&& self@.slots[index as int].initialized
                },
                Err(error) => if self@.stopped {
                    error.0@ == "GPU output generation is stopped"@
                } else if !self@.knows(id) {
                    error.0@ == "unknown GPU output buffer"@
                } else {
                    &&& error.0@ == "GPU output buffer is not initialized"@
                    &&& forall|index: int|
                        #[trigger] self@.place(id, index) ==> !self@.slots[index].initialized
                },
            },
    {
        if let Err(error) = self.running() {
            return Err(error);
        }
        let index: usize = match self.index(id) {
            Ok(index) => index,
            Err(error) => {
                return Err(error);
            },
        };
        proof {
            assert(self@.place(id, index as int));
            assert forall|other: int| #[trigger] self@.place(id, other) implies other == index by {
                one_place(self@, id, index as int, other);
            }
        }
        if !self.slots[index].initialized {
            return Err(OutputError("GPU output buffer is not initialized"));
        }
        Ok(index)
    }

    /// What a finished access makes possible.
    pub fn complete(&self, access: AccessReady) -> (ready: OutputReady)
        requires
            access.slot() < self@.slots.len(),
        ensures
            ready == match access {
                AccessReady::Writable { slot } => OutputReady::Writable(
                    self@.slots[slot as int].id,
                ),
                AccessReady::Publish { slot } => OutputReady::Publish { slot },
            },
    {
        match access {
            AccessReady::Writable { slot } => OutputReady::Writable(self.slots[slot].id),
            AccessReady::Publish { slot } => OutputReady::Publish { slot },
        }
    }

    /// Whether a frame may be published: its buffer is the one of the permit,
    /// is initialized and holds nothing published, and its sequence is new.
    pub open spec fn may_publish(output: OutputView, slot: int, permit: usize, frame: VideoFrame) -> bool {
        &&& slot == permit
        &&& output.slots[slot].initialized
        &&& output.slots[slot].publication is None
        &&& frame.acquire_point is None
        &&& output.last_sequence matches Some(last) ==> frame.sequence > last
    }

    /// Check a frame before its buffer is published.
    pub fn begin_publish(&self, permit: usize, frame: VideoFrame) -> (result: Result<
        usize,
        OutputError,
    >)
        requires
            self@.wf(),
        ensures
            match result {
                Ok(slot) => {
                    &&& !self@.stopped
                    &&& self@.place(frame.buffer_id, slot as int)
                    &&& Self::may_publish(self@, slot as int, permit, frame)
                },
                Err(error) => if self@.stopped {
                    error.0@ == "GPU output generation is stopped"@
                } else if !self@.knows(frame.buffer_id) {
                    error.0@ == "unknown GPU output buffer"@
                } else {
                    &&& error.0@ == "invalid GPU output publication"@
                    &&& forall|slot: int|
                        self@.place(frame.buffer_id, slot) ==> !#[trigger] Self::may_publish(
                            self@,
                            slot,
                            permit,
                            frame,
                        )
                },
            },
    {
        if let Err(error) = self.running() {
            return Err(error);
        }
        let slot: usize = match self.index(frame.buffer_id) {
            Ok(slot) => slot,
            Err(error) => {
                return Err(error);
            },
        };
        let repeated = match self.last_sequence {
            Some(last) => frame.sequence <= last,
            None => false,
        };
        if slot != permit || !self.slots[slot].initialized || self.slots[slot].publication.is_some()
            || frame.acquire_point.is_some() || repeated {
            proof {
                assert(self@.place(frame.buffer_id, slot as int));
                assert forall|other: int|
                    self@.place(frame.buffer_id, other) implies !#[trigger] Self::may_publish(
                    self@,
                    other,
                    permit,
                    frame,
                ) by {
                    one_place(self@, frame.buffer_id, slot as int, other);
                }
            }
            return Err(OutputError("invalid GPU output publication"));
        }
        Ok(slot)
    }

    /// Note a frame as published, once its buffer is. An error of the source
    /// does not undo it: the matching release does, or the end of the source.
    pub fn published(&mut self, slot: usize, sequence: u64)
        requires
            old(self)@.wf(),
            slot < old(self)@.slots.len(),
            old(self)@.slots[slot as int].initialized,
            old(self)@.last_sequence matches Some(last) ==> sequence > last,
        ensures
            final(self)@.wf(),
            final(self)@ == (OutputView {
                slots: old(self)@.slots.update(
                    slot as int,
                    TransportSlot {
                        publication: Some(sequence),
                        ..old(self)@.slots[slot as int]
                    },
                ),
                last_sequence: Some(sequence),
                ..old(self)@
            }),
    {
        let ghost before = self@;
        let held = self.slots[slot];
        self.slots[slot] = TransportSlot {
            id: held.id,
            initialized: held.initialized,
            publication: Some(sequence),
        };
        self.last_sequence = Some(sequence);
        proof {
            assert(distinct_ids(self@.slots)) by {
                assert forall|i: int, j: int| 0 <= i < j < self@.slots.len() implies (
                #[trigger] self@.slots[i]).id != (#[trigger] self@.slots[j]).id by {
                    assert(before.slots[i].id != before.slots[j].id);
                }
            }
            assert forall|i: int| 0 <= i < self@.slots.len() implies ((
            #[trigger] self@.slots[i]).publication matches Some(other) ==> self@.slots[i].initialized
                && self@.last_sequence is Some && other <= self@.last_sequence->0) by {
                if i != slot {
                    assert(self@.slots[i] == before.slots[i]);
                }
            }
        }
    }

    /// Take in an event of the source.
    pub fn handle_event(&mut self, event: &VideoSourceActorEvent) -> (result: Result<
        OutputEvent,
        OutputError,
    >)
        requires
            old(self)@.wf(),
        ensures
            final(self)@.wf(),
            match *event {
                VideoSourceActorEvent::GenerationFailed { identity, error } => {
                    if identity.media_generation != old(self)@.identity.media_generation || old(
                        self,
                    )@.stopped {
                        result == Ok::<_, OutputError>(OutputEvent::Ignored) && final(self)@ == old(
                            self,
                        )@
                    } else if identity@ != old(self)@.identity {
                        &&& result is Err
                        &&& result->Err_0.0@
                            == "shutdown report does not match the active GPU source"@
                        &&& final(self)@ == old(self)@
                    } else {
                        &&& final(self)@ == quiet(old(self)@)
                        &&& result matches Ok(OutputEvent::Stopped(waits)) && places(waits@)
                            == published_slots(old(self)@.slots)
                    }
                },
                VideoSourceActorEvent::BufferAvailable { buffer_id, .. } => handled_at(
                    old(self)@,
                    *event,
                    buffer_id,
                    final(self)@,
                    result,
                ),
                VideoSourceActorEvent::BufferReleased { buffer_id, .. } => handled_at(
                    old(self)@,
                    *event,
                    buffer_id,
                    final(self)@,
                    result,
                ),
            },
    {
        let ghost before = self@;
        let generation = crate::castkms_actor::frames::source_event_generation(event);
        if generation != self.identity.media_generation || self.stopped {
            proof {
                if !(event is GenerationFailed) {
                    let id = event_buffer(*event);
                    assert(handled_at(
                        before,
                        *event,
                        id,
                        self@,
                        Ok::<_, OutputError>(OutputEvent::Ignored),
                    ));
                }
            }
            return Ok(OutputEvent::Ignored);
        }
        match event {
            VideoSourceActorEvent::BufferAvailable { buffer_id, transport, .. } => {
                let slot: usize = match self.index(*buffer_id) {
                    Ok(slot) => slot,
                    Err(error) => {
                        return Err(error);
                    },
                };
                proof {
                    assert(before.place(*buffer_id, slot as int));
                }
                let held = self.slots[slot];
                if held.initialized || *transport != PipeWireBufferTransport::ReadyBeforePublish {
                    return Err(
                        OutputError(
                            "GPU output requires one ready-before-publish availability event",
                        ),
                    );
                }
                self.slots[slot] = TransportSlot {
                    id: held.id,
                    initialized: true,
                    publication: held.publication,
                };
                proof {
                    slot_changed(before, self@, slot as int);
                }
                Ok(OutputEvent::Prepare { slot })
            },
            VideoSourceActorEvent::BufferReleased { buffer_id, sequence, .. } => {
                let slot: usize = match self.index(*buffer_id) {
                    Ok(slot) => slot,
                    Err(error) => {
                        return Err(error);
                    },
                };
                proof {
                    assert(before.place(*buffer_id, slot as int));
                }
                let held = self.slots[slot];
                let matching = match held.publication {
                    Some(active) => active == *sequence,
                    None => false,
                };
                if !matching {
                    return Err(
                        OutputError("release does not match the active GPU publication"),
                    );
                }
                self.slots[slot] = TransportSlot {
                    id: held.id,
                    initialized: held.initialized,
                    publication: None,
                };
                proof {
                    slot_changed(before, self@, slot as int);
                }
                Ok(OutputEvent::Return { slot, sequence: *sequence })
            },
            VideoSourceActorEvent::GenerationFailed { identity, .. } => {
                match self.quiesced(identity) {
                    Ok(waits) => Ok(OutputEvent::Stopped(waits)),
                    Err(error) => Err(error),
                }
            },
        }
    }

    /// Take in that the source is gone: the buffers to take back.
    ///
    /// Releases may be queued that nobody has seen yet. The end of the source
    /// covers every publication that is noted here.
    pub fn quiesced(&mut self, identity: &VideoNodeIdentity) -> (result: Result<
        Vec<usize>,
        OutputError,
    >)
        requires
            old(self)@.wf(),
        ensures
            final(self)@.wf(),
            if identity@ != old(self)@.identity || old(self)@.stopped {
                &&& result is Err
                &&& result->Err_0.0@ == "shutdown report does not match the active GPU source"@
                &&& final(self)@ == old(self)@
            } else {
                &&& result is Ok
                &&& final(self)@ == quiet(old(self)@)
                &&& places(result->Ok_0@) == published_slots(old(self)@.slots)
            },
    {
        if !identity.same(&self.identity) || self.stopped {
            return Err(OutputError("shutdown report does not match the active GPU source"));
        }
        let ghost before = self@;
        let mut waits: Vec<usize> = Vec::new();
        let mut index: usize = 0;
        proof {
            assert(before.slots.take(0) =~= Seq::empty());
            assert(places(waits@) =~= Seq::empty());
        }
        while index < self.slots.len()
            invariant
                index <= self.slots@.len(),
                self.slots@.len() == before.slots.len(),
                self.identity@ == before.identity,
                self.last_sequence == before.last_sequence,
                forall|i: int|
                    0 <= i < index ==> #[trigger] self.slots@[i] == withdrawn_slots(
                        before.slots,
                    )[i],
                forall|i: int|
                    index <= i < before.slots.len() ==> #[trigger] self.slots@[i]
                        == before.slots[i],
                places(waits@) == published_slots(before.slots.take(index as int)),
            decreases self.slots@.len() - index,
        {
            let ghost done = places(waits@);
            let held = self.slots[index];
            proof {
                let upto = before.slots.take(index + 1);
                assert(upto.drop_last() =~= before.slots.take(index as int));
                assert(upto.last() == before.slots[index as int]);
            }
            if held.publication.is_some() {
                self.slots[index] = TransportSlot {
                    id: held.id,
                    initialized: held.initialized,
                    publication: None,
                };
                waits.push(index);
                proof {
                    assert(places(waits@) =~= done.push(index as int));
                }
            }
            index += 1;
        }
        self.stopped = true;
        proof {
            assert(before.slots.take(index as int) =~= before.slots);
            assert(self@.slots =~= withdrawn_slots(before.slots));
            assert(distinct_ids(self@.slots)) by {
                assert forall|i: int, j: int| 0 <= i < j < self@.slots.len() implies (
                #[trigger] self@.slots[i]).id != (#[trigger] self@.slots[j]).id by {
                    assert(before.slots[i].id != before.slots[j].id);
                }
            }
        }
        Ok(waits)
    }
}

/// The buffer that an event is about.
pub open spec fn event_buffer(event: VideoSourceActorEvent) -> NonZeroU32 {
    match event {
        VideoSourceActorEvent::BufferAvailable { buffer_id, .. } => buffer_id,
        VideoSourceActorEvent::BufferReleased { buffer_id, .. } => buffer_id,
        _ => arbitrary(),
    }
}

/// The event was handled as it is due, at the place of its buffer.
pub open spec fn handled_at(
    before: OutputView,
    event: VideoSourceActorEvent,
    id: NonZeroU32,
    after: OutputView,
    result: Result<OutputEvent, OutputError>,
) -> bool {
    forall|index: int|
        before.place(id, index) || !before.knows(id) ==> {
            let (expected, outcome) = #[trigger] handled(before, event, index);
            &&& after == expected
            &&& match outcome {
                Ok(step) => result == Ok::<_, OutputError>(step),
                Err(text) => result is Err && result->Err_0.0@ == text,
            }
        }
}

proof fn one_place(output: OutputView, id: NonZeroU32, left: int, right: int)
    requires
        output.wf(),
        output.place(id, left),
        output.place(id, right),
    ensures
        left == right,
{
    if left < right {
        assert(output.slots[left].id != output.slots[right].id);
    } else if right < left {
        assert(output.slots[right].id != output.slots[left].id);
    }
}

proof fn slot_changed(before: OutputView, after: OutputView, slot: int)
    requires
        before.wf(),
        0 <= slot < before.slots.len(),
        after.slots.len() == before.slots.len(),
        after.last_sequence == before.last_sequence,
        after.slots == before.slots.update(slot, after.slots[slot]),
        after.slots[slot].id == before.slots[slot].id,
        after.slots[slot].publication is None || after.slots[slot].publication
            == before.slots[slot].publication && after.slots[slot].initialized,
    ensures
        after.wf(),
        forall|index: int|
            before.place(before.slots[slot].id, index) ==> index == slot,
{
    assert(distinct_ids(after.slots)) by {
        assert forall|i: int, j: int| 0 <= i < j < after.slots.len() implies (
        #[trigger] after.slots[i]).id != (#[trigger] after.slots[j]).id by {
            assert(before.slots[i].id != before.slots[j].id);
        }
    }
    assert forall|i: int| 0 <= i < after.slots.len() implies ((
    #[trigger] after.slots[i]).publication matches Some(sequence) ==> after.slots[i].initialized
        && after.last_sequence is Some && sequence <= after.last_sequence->0) by {
        if i == slot {
            assert(before.slots[slot].publication matches Some(sequence) ==> sequence
                <= before.last_sequence->0);
        } else {
            assert(after.slots[i] == before.slots[i]);
        }
    }
    assert forall|index: int| before.place(before.slots[slot].id, index) implies index == slot by {
        one_place(before, before.slots[slot].id, slot, index);
    }
}

/// Once a use of a buffer has been released, the same release is refused.
pub proof fn publications_are_returned_once(
    output: OutputView,
    event: VideoSourceActorEvent,
    index: int,
)
    requires
        output.wf(),
        event is BufferReleased,
        output.place(event_buffer(event), index),
        handled(output, event, index).1 is Ok,
        handled(output, event, index).1->Ok_0 is Return,
    ensures
        handled(handled(output, event, index).0, event, index).1 is Err,
{
    let after = handled(output, event, index).0;
    assert(after.slots[index].publication is None);
    assert(after.place(event_buffer(event), index));
}

/// A buffer that holds a publication is not published again before the
/// publication was taken back.
pub proof fn published_buffers_are_held(
    output: OutputView,
    slot: int,
    permit: usize,
    frame: VideoFrame,
)
    requires
        0 <= slot < output.slots.len(),
        output.slots[slot].publication is Some,
    ensures
        !GpuOutput::may_publish(output, slot, permit, frame),
{
}

/// A stopped output ignores every event, and takes no report a second time.
pub proof fn stopped_outputs_stay_stopped(output: OutputView, event: VideoSourceActorEvent, index: int)
    requires
        output.stopped,
    ensures
        handled(output, event, index) == (output, Ok::<_, Seq<char>>(OutputEvent::Ignored)),
        quiet(quiet(output)) == quiet(output),
{
    assert(quiet(quiet(output)).slots =~= quiet(output).slots);
}

/// Lists of replies are sorted one after the other: a buffer that was taken back
/// is waited for, and the reason why another was not is kept.
pub proof fn replies_are_sorted_one_by_one(
    left: Seq<(usize, Result<(), String>)>,
    right: Seq<(usize, Result<(), String>)>,
    slot: usize,
    why: String,
)
    ensures
        taken_back(left + right) == taken_back(left) + taken_back(right),
        quarantined(left + right) == quarantined(left) + quarantined(right),
        taken_back(seq![(slot, Ok::<(), String>(()))]) == seq![slot],
        taken_back(seq![(slot, Err::<(), String>(why))]) == Seq::<usize>::empty(),
        quarantined(seq![(slot, Ok::<(), String>(()))]) == Seq::<Seq<char>>::empty(),
        quarantined(seq![(slot, Err::<(), String>(why))]) == seq![why@],
        taken_back(left).len() + quarantined(left).len() == left.len(),
    decreases left.len() + right.len(),
{
    let fine = seq![(slot, Ok::<(), String>(()))];
    let broken = seq![(slot, Err::<(), String>(why))];
    assert(fine.drop_last() =~= Seq::empty());
    assert(broken.drop_last() =~= Seq::empty());
    assert(taken_back(fine.drop_last()) == Seq::<usize>::empty());
    assert(quarantined(fine.drop_last()) == Seq::<Seq<char>>::empty());
    assert(taken_back(fine) =~= seq![slot]);
    assert(quarantined(broken) =~= seq![why@]);
    if right.len() > 0 {
        replies_are_sorted_one_by_one(left, right.drop_last(), slot, why);
        assert((left + right).drop_last() =~= left + right.drop_last());
        assert((left + right).last() == right.last());
        assert(taken_back(left + right) =~= taken_back(left) + taken_back(right));
        assert(quarantined(left + right) =~= quarantined(left) + quarantined(right));
    } else {
        assert(left + right =~= left);
        assert(taken_back(left) + taken_back(right) =~= taken_back(left));
        assert(quarantined(left) + quarantined(right) =~= quarantined(left));
        if left.len() > 0 {
            replies_are_sorted_one_by_one(left.drop_last(), right, slot, why);
        }
    }
}

/// The buffers to take back are exactly those that hold a publication, each once,
/// in their order.
pub proof fn exactly_published_buffers_are_taken_back(slots: Seq<TransportSlot>)
    ensures
        forall|place: int|
            published_slots(slots).contains(place) <==> 0 <= place < slots.len()
                && slots[place].publication is Some,
        forall|i: int, j: int|
            0 <= i < j < published_slots(slots).len() ==> #[trigger] published_slots(slots)[i]
                < #[trigger] published_slots(slots)[j],
    decreases slots.len(),
{
    if slots.len() > 0 {
        let earlier = slots.drop_last();
        let before = published_slots(earlier);
        let all = published_slots(slots);
        exactly_published_buffers_are_taken_back(earlier);
        assert forall|i: int| 0 <= i < before.len() implies 0 <= #[trigger] before[i]
            < earlier.len() by {
            assert(before.contains(before[i]));
        }
        assert forall|place: int|
            all.contains(place) <==> 0 <= place < slots.len()
                && slots[place].publication is Some by {
            if all.contains(place) {
                let at = choose|at: int| 0 <= at < all.len() && all[at] == place;
                if at < before.len() {
                    assert(before[at] == place);
                    assert(before.contains(place));
                    assert(earlier[place] == slots[place]);
                }
            }
            if 0 <= place < slots.len() && slots[place].publication is Some {
                if place < earlier.len() {
                    assert(earlier[place] == slots[place]);
                    assert(before.contains(place));
                    let at = choose|at: int| 0 <= at < before.len() && before[at] == place;
                    assert(all[at] == place);
                } else {
                    assert(all[before.len() as int] == place);
                }
            }
        }
    }
}

/// The end of a source withdraws every publication and stops the output. The
/// buffers keep their IDs and stay prepared, and sequences go on.
pub proof fn ended_sources_hold_nothing(output: OutputView)
    ensures
        quiet(output).stopped,
        quiet(output).identity == output.identity,
        quiet(output).last_sequence == output.last_sequence,
        quiet(output).slots.len() == output.slots.len(),
        forall|i: int|
            0 <= i < output.slots.len() ==> {
                let slot = #[trigger] quiet(output).slots[i];
                &&& slot.publication is None
                &&& slot.id == output.slots[i].id
                &&& slot.initialized == output.slots[i].initialized
            },
        published_slots(quiet(output).slots).len() == 0,
{
    let after = published_slots(quiet(output).slots);
    exactly_published_buffers_are_taken_back(quiet(output).slots);
    if after.len() > 0 {
        assert(after.contains(after[0]));
        assert(quiet(output).slots[after[0]].publication is None);
    }
}

/// A fresh output has one buffer for each ID, in order; none is prepared and
/// nothing is published.
pub proof fn fresh_outputs_are_unprepared(ids: Seq<NonZeroU32>)
    ensures
        fresh_slots(ids).len() == ids.len(),
        forall|i: int|
            0 <= i < ids.len() ==> {
                let slot = #[trigger] fresh_slots(ids)[i];
                slot.id == ids[i] && !slot.initialized && slot.publication is None
            },
{
}

/// Only a pool is registered that is not empty, has an ID for each buffer and none
/// twice, and of which nothing was used.
pub proof fn registered_pools_are_unused(ids: Seq<NonZeroU32>, pool: Seq<SlotState>, i: int, j: int)
    requires
        0 <= i < pool.len(),
        0 <= j < ids.len(),
    ensures
        registers(ids, pool) ==> ids.len() == pool.len() && (ids[i] == ids[j] ==> i == j) && !(
        pool[i] is Used),
        ids.len() == 1 && pool.len() == 1 && pool[0] is Unprepared ==> registers(ids, pool),
{
}

/// A buffer becomes available once: the first event about it prepares it and
/// changes nothing else. An unknown buffer, a second event and another transport
/// are refused.
pub proof fn buffers_become_available_once(
    before: OutputView,
    event: VideoSourceActorEvent,
    index: int,
    after: OutputView,
    result: Result<OutputEvent, OutputError>,
)
    requires
        event is BufferAvailable,
        event->BufferAvailable_media_generation == before.identity.media_generation,
        !before.stopped,
        before.slots.len() <= usize::MAX,
        before.place(event->BufferAvailable_buffer_id, index),
        handled_at(before, event, event->BufferAvailable_buffer_id, after, result),
    ensures
        result is Ok <==> !before.slots[index].initialized
            && event->BufferAvailable_transport is ReadyBeforePublish,
        result is Err ==> after == before,
        result matches Ok(step) ==> {
            &&& step is Prepare
            &&& step->Prepare_slot as int == index
            &&& after.slots[index].initialized
            &&& after.slots[index].id == event->BufferAvailable_buffer_id
            &&& after.slots[index].publication == before.slots[index].publication
            &&& after.slots.len() == before.slots.len()
            &&& forall|i: int|
                0 <= i < before.slots.len() && i != index ==> #[trigger] after.slots[i]
                    == before.slots[i]
            &&& after.identity == before.identity
            &&& after.last_sequence == before.last_sequence
            &&& !after.stopped
        },
{
    let (expected, outcome) = handled(before, event, index);
    assert(before.knows(event->BufferAvailable_buffer_id));
}

/// A release takes back exactly the publication that it names, and leaves the
/// buffer prepared for the next one.
pub proof fn releases_take_back_what_they_name(
    before: OutputView,
    event: VideoSourceActorEvent,
    index: int,
    after: OutputView,
    result: Result<OutputEvent, OutputError>,
)
    requires
        event is BufferReleased,
        event->BufferReleased_media_generation == before.identity.media_generation,
        !before.stopped,
        before.slots.len() <= usize::MAX,
        before.place(event->BufferReleased_buffer_id, index),
        handled_at(before, event, event->BufferReleased_buffer_id, after, result),
    ensures
        result is Ok <==> before.slots[index].publication == Some(event->BufferReleased_sequence),
        result is Err ==> after == before,
        result matches Ok(step) ==> {
            &&& step is Return
            &&& step->Return_slot as int == index
            &&& step->Return_sequence == event->BufferReleased_sequence
            &&& after.slots[index].publication is None
            &&& after.slots[index].id == event->BufferReleased_buffer_id
            &&& after.slots[index].initialized == before.slots[index].initialized
            &&& after.slots.len() == before.slots.len()
            &&& forall|i: int|
                0 <= i < before.slots.len() && i != index ==> #[trigger] after.slots[i]
                    == before.slots[i]
            &&& after.identity == before.identity
            &&& after.last_sequence == before.last_sequence
            &&& !after.stopped
        },
{
    let (expected, outcome) = handled(before, event, index);
    assert(before.knows(event->BufferReleased_buffer_id));
}

/// Events of another generation are ignored, and events about buffers that the
/// output does not have are refused; neither changes anything.
pub proof fn foreign_events_change_nothing(
    before: OutputView,
    event: VideoSourceActorEvent,
    after: OutputView,
    result: Result<OutputEvent, OutputError>,
)
    requires
        event is BufferAvailable || event is BufferReleased,
        handled_at(before, event, event_buffer(event), after, result),
        before.stopped || event.generation() != before.identity.media_generation || forall|i: int|
            0 <= i < before.slots.len() ==> (#[trigger] before.slots[i]).id != event_buffer(event),
    ensures
        after == before,
        before.stopped || event.generation() != before.identity.media_generation
            ==> (result matches Ok(step) && step is Ignored),
        !before.stopped && event.generation() == before.identity.media_generation
            ==> result is Err,
{
    let id = event_buffer(event);
    if before.knows(id) {
        let index = choose|index: int| before.place(id, index);
        let (expected, outcome) = handled(before, event, index);
    } else {
        let (expected, outcome) = handled(before, event, 0);
    }
}

/// A frame is published in the buffer of its permit, once that is prepared and
/// free, without a fence, and after every frame that was published before it.
pub proof fn published_frames_come_in_order(
    output: OutputView,
    slot: int,
    permit: usize,
    frame: VideoFrame,
)
    ensures
        GpuOutput::may_publish(output, slot, permit, frame) && output.last_sequence is Some
            ==> output.last_sequence->0 < frame.sequence,
        GpuOutput::may_publish(output, slot, permit, frame) ==> slot == permit
            && output.slots[slot].initialized && output.slots[slot].publication is None
            && frame.acquire_point is None,
        slot == permit && output.slots[slot].initialized && output.slots[slot].publication is None
            && frame.acquire_point is None && (output.last_sequence is None
            || output.last_sequence->0 < frame.sequence) ==> GpuOutput::may_publish(
            output,
            slot,
            permit,
            frame,
        ),
{
}

/// An output shows all that it holds; places are told as they are listed.
pub proof fn outputs_show_what_they_hold(output: GpuOutput, list: Seq<usize>, i: int)
    ensures
        output@.identity == output.identity@,
        output@.slots == output.slots@,
        output@.last_sequence == output.last_sequence,
        output@.stopped == output.stopped,
        places(list).len() == list.len(),
        0 <= i < list.len() ==> places(list)[i] == list[i] as int,
{
}

} // verus!
