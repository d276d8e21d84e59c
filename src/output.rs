//! Output batches: the slots that one native "get outputs" call fills, held
//! together until one native "release outputs" call covers all of them.
//!
//! The engine touches every output slot of the model on both calls, so a
//! request always names all `n` slots and a release always hands all `n`
//! back, however many of them the caller reads.
use vstd::prelude::*;
use crate::error::{Error, decimal, push_decimal, status_error, status_msg};

verus! {

/// One output slot as the native engine reads and fills it.
#[derive(Debug, Copy, Clone, PartialEq, Eq, Structural)]
pub struct RawOutput {
    /// Ask the engine to convert the data to 32-bit floats.
    pub want_float: bool,
    /// Whether the caller allocated the buffer (never, here).
    pub is_prealloc: bool,
    /// Output index of the slot.
    pub index: u32,
    /// Address of the slot's buffer; zero when there is none.
    pub buf: usize,
    /// Byte length of the slot's buffer.
    pub size: u32,
}

/// Slot `i` of a fresh request: zeroed, with the caller's conversion flag.
pub open spec fn request_slot(i: int, want_float: bool) -> RawOutput {
    RawOutput { want_float, is_prealloc: false, index: i as u32, buf: 0, size: 0 }
}

/// All `n` slots of a fresh request.
pub open spec fn request_slots(n: u32, want_float: bool) -> Seq<RawOutput> {
    Seq::new(n as nat, |i: int| request_slot(i, want_float))
}

/// Message for an output index that the model does not have.
pub open spec fn index_range_msg(index: u32, n: u32) -> Seq<char> {
    "output index "@ + decimal(index as int) + " out of range (model has "@ + decimal(n as int)
        + " outputs)"@
}

/// Message for a requested slot that came back without a buffer.
pub open spec fn null_buffer_msg(index: u32) -> Seq<char> {
    "rknn_outputs_get returned null buffer for output index "@ + decimal(index as int)
}

/// The operation named in a failed acquisition.
pub open spec fn outputs_get_op() -> Seq<char> {
    "rknn_outputs_get failed."@
}

/// What a request for one output is made of.
pub struct RequestModel {
    pub context: u64,
    pub index: u32,
    pub slots: Seq<RawOutput>,
}

/// A request for one output of a model, ready to hand to the engine.
#[derive(Debug)]
pub struct OutputRequest {
    context: u64,
    index: u32,
    slots: Vec<RawOutput>,
}

impl View for OutputRequest {
    type V = RequestModel;

    closed spec fn view(&self) -> RequestModel {
        RequestModel { context: self.context, index: self.index, slots: self.slots@ }
    }
}

/// What a held batch is made of; it is live while it holds slots.
pub struct BatchModel {
    pub context: u64,
    pub index: u32,
    pub slots: Seq<RawOutput>,
    /// Address of the requested slot's buffer.
    pub addr: usize,
    /// Number of elements in the view over the requested slot.
    pub len: nat,
}

/// The batch that a successful acquisition holds: all slots as the engine
/// filled them, and a view of `size / elem_size` elements over the
/// requested one.
pub open spec fn settled_batch(req: RequestModel, filled: Seq<RawOutput>, elem_size: nat) -> BatchModel {
    BatchModel {
        context: req.context,
        index: req.index,
        slots: filled,
        addr: filled[req.index as int].buf,
        len: filled[req.index as int].size as nat / elem_size,
    }
}

/// Releasing a batch: a live batch hands back every slot it holds and holds
/// none after; a batch without slots hands back nothing.
pub open spec fn release_model(b: BatchModel) -> (BatchModel, Option<Seq<RawOutput>>) {
    if b.slots.len() > 0 {
        (BatchModel { slots: Seq::empty(), ..b }, Some(b.slots))
    } else {
        (b, None)
    }
}

/// A held output batch with a typed view over one of its slots.
#[derive(Debug)]
pub struct OutputBatch {
    context: u64,
    index: u32,
    slots: Vec<RawOutput>,
    addr: usize,
    len: usize,
}

impl View for OutputBatch {
    type V = BatchModel;

    closed spec fn view(&self) -> BatchModel {
        BatchModel {
            context: self.context,
            index: self.index,
            slots: self.slots@,
            addr: self.addr,
            len: self.len as nat,
        }
    }
}

/// How an acquisition ended.
#[derive(Debug)]
pub enum OutputFetch {
    /// The requested slot has data; the batch must be released later.
    Ready(OutputBatch),
    /// The engine failed; nothing was acquired and nothing is to release.
    Failed(Error),
    /// The requested slot came back empty: release these slots, all of
    /// them, then report the error.
    ReleaseThenFail(Vec<RawOutput>, Error),
}

impl OutputRequest {
    /// The requested slot is one of the slots.
    #[verifier::type_invariant]
    spec fn requests_own_slot(&self) -> bool {
        self.index < self.slots@.len()
    }

    /// Builds the request for output `index` of a model with `n_output`
    /// outputs: all `n_output` slots, zeroed, each with `want_float`. An
    /// index the model does not have is refused here, before any native
    /// call can be made.
    pub fn new(context: u64, n_output: u32, index: u32, want_float: bool) -> (r: Result<
        OutputRequest,
        Error,
    >)
        ensures
            r is Ok <==> index < n_output,
            r is Ok ==> r->Ok_0@ == (RequestModel {
                context,
                index,
                slots: request_slots(n_output, want_float),
            }),
            r is Err ==> r->Err_0.msg() == index_range_msg(index, n_output),
    {
        if index >= n_output {
            let mut s = String::from_str("output index ");
            push_decimal(&mut s, index as i128);
            s.append(" out of range (model has ");
            push_decimal(&mut s, n_output as i128);
            s.append(" outputs)");
            return Err(Error(s));
        }
        let mut slots: Vec<RawOutput> = Vec::new();
        let mut i: u32 = 0;
        while i < n_output
            invariant
                i <= n_output,
                slots@ =~= request_slots(i, want_float),
            decreases n_output - i,
        {
            slots.push(RawOutput { want_float, is_prealloc: false, index: i, buf: 0, size: 0 });
            i = i + 1;
        }
        assert(slots@ =~= request_slots(n_output, want_float));
        Ok(OutputRequest { context, index, slots })
    }

    /// The session the request is for.
    pub fn context(&self) -> (r: u64)
        ensures
            r == self@.context,
    {
        self.context
    }

    /// The requested output index.
    pub fn index(&self) -> (r: u32)
        ensures
            r == self@.index,
    {
        self.index
    }

    /// The slots to hand to the native "get outputs" call.
    pub fn slots(&self) -> (r: &Vec<RawOutput>)
        ensures
            r@ == self@.slots,
    {
        &self.slots
    }

    /// Decides on the outcome of the native "get outputs" call, given its
    /// status and the slots as it filled them, for elements of `elem_size`
    /// bytes.
    pub fn settle(self, status: i32, filled: Vec<RawOutput>, elem_size: usize) -> (r: OutputFetch)
        requires
            filled@.len() == self@.slots.len(),
            elem_size > 0,
        ensures
            status != 0 ==> (r matches OutputFetch::Failed(e) && e.msg() == status_msg(
                outputs_get_op(),
                status as int,
            )),
            status == 0 && filled@[self@.index as int].buf == 0 ==> (
            r matches OutputFetch::ReleaseThenFail(rel, e) && rel@ == filled@ && e.msg()
                == null_buffer_msg(self@.index)),
            status == 0 && filled@[self@.index as int].buf != 0 ==> (r matches OutputFetch::Ready(b)
                && b@ == settled_batch(self@, filled@, elem_size as nat)),
    {
        proof {
            use_type_invariant(&self);
        }
        if status != 0 {
            return OutputFetch::Failed(status_error("rknn_outputs_get failed.", status));
        }
        let desired = filled[self.index as usize];
        if desired.buf == 0 {
            let mut s = String::from_str("rknn_outputs_get returned null buffer for output index ");
            push_decimal(&mut s, self.index as i128);
            return OutputFetch::ReleaseThenFail(filled, Error(s));
        }
        let len = desired.size as usize / elem_size;
        OutputFetch::Ready(
            OutputBatch { context: self.context, index: self.index, slots: filled, addr: desired.buf, len },
        )
    }
}

impl OutputBatch {
    /// The session the batch belongs to.
    pub fn context(&self) -> (r: u64)
        ensures
            r == self@.context,
    {
        self.context
    }

    /// The output index the view is over.
    pub fn index(&self) -> (r: u32)
        ensures
            r == self@.index,
    {
        self.index
    }

    /// Address of the viewed buffer.
    pub fn addr(&self) -> (r: usize)
        ensures
            r == self@.addr,
    {
        self.addr
    }

    /// Number of elements in the view.
    pub fn len(&self) -> (r: usize)
        ensures
            r == self@.len,
    {
        self.len
    }

    /// Number of slots still held (all of them until release, then none).
    pub fn slot_count(&self) -> (r: usize)
        ensures
            r == self@.slots.len(),
    {
        self.slots.len()
    }

    /// Gives up the batch: the first call hands back every slot for the one
    /// native release call; every later call hands back nothing.
    pub fn release(&mut self) -> (r: Option<Vec<RawOutput>>)
        ensures
            final(self)@ == release_model(old(self)@).0,
            r is Some <==> release_model(old(self)@).1 is Some,
            r is Some ==> Some(r->Some_0@) == release_model(old(self)@).1,
    {
        if self.slots.len() == 0 {
            return None;
        }
        let mut taken: Vec<RawOutput> = Vec::new();
        std::mem::swap(&mut taken, &mut self.slots);
        assert(self.slots@ =~= Seq::<RawOutput>::empty());
        Some(taken)
    }
}

/// Once an output has been acquired with data in the requested slot, the
/// batch is released exactly once, and that release covers every one of
/// the model's `n_output` slots: never fewer, never a second time.
pub proof fn lemma_release_covers_batch_once(
    context: u64,
    n_output: u32,
    index: u32,
    want_float: bool,
    filled: Seq<RawOutput>,
    elem_size: nat,
)
    requires
        index < n_output,
        filled.len() == n_output,
        filled[index as int].buf != 0,
        elem_size > 0,
    ensures
        ({
            let req = RequestModel { context, index, slots: request_slots(n_output, want_float) };
            let b = settled_batch(req, filled, elem_size);
            let (after, first) = release_model(b);
            &&& first == Some(filled)
            &&& first->Some_0.len() == n_output
            &&& release_model(after).1 is None
            &&& release_model(release_model(after).0).1 is None
        }),
{
}

} // verus!
