//! Persistent graph workspace, deterministic sub-allocation and the state a
//! thread keeps while it prepares, replays or captures.
use std::rc::Rc;

use vstd::prelude::*;

use crate::buffer::{BufferView, CudaBuffer};
use crate::context::CudaContext;
use crate::error::Error;
use crate::ops::gemm::execution::{NativePolicy, TuningBindings};
#[allow(unused_imports)]
use crate::ops::gemm::execution::CreationTerms;
use crate::ops::gemm::instance::{InstanceKey, SharedExecution};

verus! {

/// Every sub-allocation starts at a multiple of this many bytes.
pub const WORKSPACE_ALIGNMENT: usize = 256;

pub const EMPTY_WORKSPACE_TEXT: &'static str =
    "static inference workspace capacity must be non-zero";

pub const OFFSET_OVERFLOW_TEXT: &'static str = "static inference workspace offset overflow";

pub const SIZE_OVERFLOW_TEXT: &'static str = "static inference workspace size overflow";

pub const NESTED_TEXT: &'static str = "nested static inference workspaces are not supported";

pub const MULTI_STREAM_TEXT: &'static str = "multi-stream capture is not supported";

/// An instance prepared in a workspace, and what it is kept under.
#[derive(Debug)]
struct CachedInstance {
    key: InstanceKey,
    instance: Rc<SharedExecution>,
}

/// An instance of a one-shot request made outside any workspace, with all of
/// that request.
#[derive(Debug)]
struct EagerInstance {
    key: InstanceKey,
    policy: NativePolicy,
    tuning: TuningBindings,
    instance: Rc<SharedExecution>,
}

/// What the instance of a one-shot request made outside any workspace is kept
/// under.
#[verifier::ext_equal]
pub struct EagerKey {
    pub key: InstanceKey,
    pub terms: CreationTerms,
}

spec fn pairs(entries: Seq<CachedInstance>) -> Seq<(InstanceKey, Rc<SharedExecution>)> {
    entries.map_values(|e: CachedInstance| (e.key, e.instance))
}

spec fn eager_pairs(entries: Seq<EagerInstance>) -> Seq<(EagerKey, Rc<SharedExecution>)> {
    entries.map_values(
        |e: EagerInstance| (EagerKey { key: e.key, terms: e.policy.terms(e.tuning) }, e.instance),
    )
}

spec fn has_entry<K>(entries: Seq<(K, Rc<SharedExecution>)>, key: K) -> bool {
    exists|i: int| 0 <= i < entries.len() && (#[trigger] entries[i]).0 == key
}

spec fn position<K>(entries: Seq<(K, Rc<SharedExecution>)>, key: K) -> int {
    choose|i: int| 0 <= i < entries.len() && (#[trigger] entries[i]).0 == key
}

/// No two entries have the same key.
spec fn unique<K>(entries: Seq<(K, Rc<SharedExecution>)>) -> bool {
    forall|i: int, j: int|
        0 <= i < j < entries.len() ==> (#[trigger] entries[i]).0 != (#[trigger] entries[j]).0
}

/// The map that a list of entries stands for.
spec fn entries_map<K>(entries: Seq<(K, Rc<SharedExecution>)>) -> Map<K, Rc<SharedExecution>> {
    Map::new(|k: K| has_entry(entries, k), |k: K| entries[position(entries, k)].1)
}

proof fn lemma_entry_found<K>(entries: Seq<(K, Rc<SharedExecution>)>, i: int)
    requires
        unique(entries),
        0 <= i < entries.len(),
    ensures
        entries_map(entries).dom().contains(entries[i].0),
        entries_map(entries)[entries[i].0] == entries[i].1,
{
    let p = position(entries, entries[i].0);
    assert(has_entry(entries, entries[i].0));
    assert(p == i);
}

proof fn lemma_entry_added<K>(
    entries: Seq<(K, Rc<SharedExecution>)>,
    key: K,
    instance: Rc<SharedExecution>,
)
    requires
        unique(entries),
        !has_entry(entries, key),
    ensures
        unique(entries.push((key, instance))),
        entries_map(entries.push((key, instance))) == entries_map(entries).insert(key, instance),
{
    let after = entries.push((key, instance));
    assert forall|i: int, j: int| 0 <= i < j < after.len() implies (#[trigger] after[i]).0 != (
    #[trigger] after[j]).0 by {
        assert(after[i] == entries[i]);
        if j < entries.len() {
            assert(after[j] == entries[j]);
        }
    }
    lemma_same_entries(entries, after, key, instance, entries.len() as int);
}

proof fn lemma_entry_replaced<K>(
    entries: Seq<(K, Rc<SharedExecution>)>,
    i: int,
    instance: Rc<SharedExecution>,
)
    requires
        unique(entries),
        0 <= i < entries.len(),
    ensures
        unique(entries.update(i, (entries[i].0, instance))),
        entries_map(entries.update(i, (entries[i].0, instance))) == entries_map(entries).insert(
            entries[i].0,
            instance,
        ),
{
    let after = entries.update(i, (entries[i].0, instance));
    assert forall|x: int, y: int| 0 <= x < y < after.len() implies (#[trigger] after[x]).0 != (
    #[trigger] after[y]).0 by {
        assert(after[x].0 == entries[x].0);
        assert(after[y].0 == entries[y].0);
    }
    lemma_same_entries(entries, after, entries[i].0, instance, i);
}

/// Lists that agree but for the entry of `key` at `i` stand for maps that
/// agree but for `key`.
proof fn lemma_same_entries<K>(
    before: Seq<(K, Rc<SharedExecution>)>,
    after: Seq<(K, Rc<SharedExecution>)>,
    key: K,
    instance: Rc<SharedExecution>,
    i: int,
)
    requires
        unique(before),
        unique(after),
        0 <= i < after.len(),
        before.len() <= after.len(),
        after[i] == (key, instance),
        forall|j: int| 0 <= j < after.len() && j != i ==> j < before.len() && after[j] == before[j],
        i < before.len() ==> before[i].0 == key,
    ensures
        entries_map(after) == entries_map(before).insert(key, instance),
{
    let expected = entries_map(before).insert(key, instance);
    lemma_entry_found(after, i);
    assert forall|k: K| #[trigger] entries_map(after).dom().contains(k) == expected.dom().contains(
        k,
    ) && (expected.dom().contains(k) ==> entries_map(after)[k] == expected[k]) by {
        if k != key {
            if has_entry(after, k) {
                let p = position(after, k);
                assert(after[p].0 == k && before[p] == after[p]);
                lemma_entry_found(after, p);
                lemma_entry_found(before, p);
            }
            if has_entry(before, k) {
                let p = position(before, k);
                assert(before[p].0 == k);
                assert(p != i);
                assert(after[p] == before[p]);
                lemma_entry_found(after, p);
                lemma_entry_found(before, p);
            }
        }
    }
    assert(entries_map(after) =~= expected);
}

fn find_entry(entries: &Vec<CachedInstance>, key: &InstanceKey) -> (found: Option<usize>)
    ensures
        match found {
            Some(i) => i < entries.len() && entries[i as int].key == *key,
            None => !has_entry(pairs(entries@), *key),
        },
{
    let mut i: usize = 0;
    while i < entries.len()
        invariant
            i <= entries.len(),
            forall|j: int| 0 <= j < i ==> entries[j].key != *key,
        decreases entries.len() - i,
    {
        if entries[i].key == *key {
            return Some(i);
        }
        i = i + 1;
    }
    None
}

fn find_eager(
    entries: &Vec<EagerInstance>,
    key: &InstanceKey,
    policy: &NativePolicy,
    tuning: &TuningBindings,
) -> (found: Option<usize>)
    ensures
        match found {
            Some(i) => i < entries.len() && eager_pairs(entries@)[i as int].0 == (EagerKey {
                key: *key,
                terms: policy.terms(*tuning),
            }),
            None => !has_entry(
                eager_pairs(entries@),
                EagerKey { key: *key, terms: policy.terms(*tuning) },
            ),
        },
{
    let ghost wanted = EagerKey { key: *key, terms: policy.terms(*tuning) };
    let mut i: usize = 0;
    while i < entries.len()
        invariant
            i <= entries.len(),
            wanted == (EagerKey { key: *key, terms: policy.terms(*tuning) }),
            forall|j: int| 0 <= j < i ==> (#[trigger] eager_pairs(entries@)[j]).0 != wanted,
        decreases entries.len() - i,
    {
        if entries[i].key == *key && entries[i].tuning == *tuning && entries[i].policy.agrees(
            policy,
        ) {
            return Some(i);
        }
        i = i + 1;
    }
    None
}

/// Keeps an instance under its key, in place of an earlier one.
fn put_entry(entries: Vec<CachedInstance>, key: InstanceKey, instance: Rc<SharedExecution>) -> (kept:
    Vec<CachedInstance>)
    requires
        unique(pairs(entries@)),
    ensures
        unique(pairs(kept@)),
        entries_map(pairs(kept@)) == entries_map(pairs(entries@)).insert(key, instance),
{
    let ghost before = pairs(entries@);
    let mut entries: Vec<CachedInstance> = entries;
    match find_entry(&entries, &key) {
        Some(i) => {
            assert(before[i as int].0 == key);
            proof {
                lemma_entry_replaced(before, i as int, instance);
            }
            entries.set(i, CachedInstance { key, instance });
            assert(pairs(entries@) =~= before.update(i as int, (key, instance)));
        },
        None => {
            proof {
                lemma_entry_added(before, key, instance);
            }
            entries.push(CachedInstance { key, instance });
            assert(pairs(entries@) =~= before.push((key, instance)));
        },
    }
    entries
}

/// Keeps an instance under all of its request, in place of an earlier one.
fn put_eager(
    entries: Vec<EagerInstance>,
    key: InstanceKey,
    policy: NativePolicy,
    tuning: TuningBindings,
    instance: Rc<SharedExecution>,
) -> (kept: Vec<EagerInstance>)
    requires
        unique(eager_pairs(entries@)),
    ensures
        unique(eager_pairs(kept@)),
        entries_map(eager_pairs(kept@)) == entries_map(eager_pairs(entries@)).insert(
            EagerKey { key, terms: policy.terms(tuning) },
            instance,
        ),
{
    let ghost before = eager_pairs(entries@);
    let ghost kept_under = EagerKey { key, terms: policy.terms(tuning) };
    let mut entries: Vec<EagerInstance> = entries;
    match find_eager(&entries, &key, &policy, &tuning) {
        Some(i) => {
            proof {
                lemma_entry_replaced(before, i as int, instance);
            }
            entries.set(i, EagerInstance { key, policy, tuning, instance });
            assert(eager_pairs(entries@) =~= before.update(i as int, (kept_under, instance)));
        },
        None => {
            proof {
                lemma_entry_added(before, kept_under, instance);
            }
            entries.push(EagerInstance { key, policy, tuning, instance });
            assert(eager_pairs(entries@) =~= before.push((kept_under, instance)));
        },
    }
    entries
}

/// Persistent device arena used by a fixed-shape CUDA graph.
#[derive(Debug)]
pub struct GraphWorkspace {
    instances: Vec<CachedInstance>,
    storage: CudaBuffer,
    offset: usize,
}

/// The arena, how much of it is taken, and the instances prepared in it.
#[verifier::ext_equal]
pub struct WorkspaceView {
    pub storage: BufferView,
    pub offset: usize,
    pub instances: Map<InstanceKey, Rc<SharedExecution>>,
}

impl View for GraphWorkspace {
    type V = WorkspaceView;

    closed spec fn view(&self) -> WorkspaceView {
        WorkspaceView {
            storage: self.storage.range(),
            offset: self.offset,
            instances: entries_map(pairs(self.instances@)),
        }
    }
}

/// The least multiple of the alignment that is not below `offset`.
pub open spec fn align_up(offset: int) -> int {
    ((offset + (WORKSPACE_ALIGNMENT - 1)) / WORKSPACE_ALIGNMENT as int) * WORKSPACE_ALIGNMENT
}

impl WorkspaceView {
    /// Why a sub-allocation is refused, if it is.
    pub open spec fn allocation_rejection(self, bytes: usize, device: usize) -> Option<Error> {
        if device != self.storage.device {
            Some(
                Error::WorkspaceDevice {
                    workspace_device: self.storage.device,
                    operation_device: device,
                },
            )
        } else if self.offset + (WORKSPACE_ALIGNMENT - 1) > usize::MAX {
            Some(Error::Other(OFFSET_OVERFLOW_TEXT))
        } else if align_up(self.offset as int) + bytes > usize::MAX {
            Some(Error::Other(SIZE_OVERFLOW_TEXT))
        } else if align_up(self.offset as int) + bytes > self.storage.len {
            Some(
                Error::WorkspaceExhausted {
                    need: (align_up(self.offset as int) + bytes) as usize,
                    capacity: self.storage.len,
                },
            )
        } else {
            None
        }
    }

    /// The arena after a sub-allocation.
    pub open spec fn allocated(self, bytes: usize) -> WorkspaceView {
        WorkspaceView { offset: (align_up(self.offset as int) + bytes) as usize, ..self }
    }

    /// The range that a sub-allocation hands out.
    pub open spec fn allocation(self, bytes: usize) -> BufferView {
        self.storage.part(align_up(self.offset as int) as usize, bytes)
    }

    /// The arena as a traversal finds it: empty, and without instances where
    /// they are about to be prepared anew.
    pub open spec fn entered(self, prepare: bool) -> WorkspaceView {
        WorkspaceView {
            offset: 0,
            instances: if prepare {
                Map::empty()
            } else {
                self.instances
            },
            ..self
        }
    }

    /// The arena after a call.
    pub open spec fn after_call(self, call: ArenaCall) -> WorkspaceView {
        match call {
            ArenaCall::Allocate { bytes, device } => if self.allocation_rejection(
                bytes,
                device,
            ) is None {
                self.allocated(bytes)
            } else {
                self
            },
            ArenaCall::Keep { key, instance } => WorkspaceView {
                instances: self.instances.insert(key, instance),
                ..self
            },
            ArenaCall::Enter { prepare } => self.entered(prepare),
        }
    }

    /// The arena after a series of calls.
    pub open spec fn after_calls(self, calls: Seq<ArenaCall>) -> WorkspaceView
        decreases calls.len(),
    {
        if calls.len() == 0 {
            self
        } else {
            self.after_calls(calls.drop_last()).after_call(calls.last())
        }
    }
}

/// What can be done with an arena.
pub enum ArenaCall {
    /// Take bytes for work on a device; a refused request takes none.
    Allocate { bytes: usize, device: usize },
    /// Keep an instance that was prepared in the arena.
    Keep { key: InstanceKey, instance: Rc<SharedExecution> },
    /// Begin a traversal.
    Enter { prepare: bool },
}

impl GraphWorkspace {
    /// What is taken lies inside the arena, and no key has two instances.
    #[verifier::type_invariant]
    spec fn well_formed(self) -> bool {
        &&& self.offset <= self.storage.range().len
        &&& unique(pairs(self.instances@))
    }

    /// An arena of `capacity_bytes` bytes over what their allocation gave.
    ///
    /// An empty arena is refused whatever the allocation gave; any other
    /// allocation is of just the bytes asked for.
    pub fn new(capacity_bytes: usize, allocated: Result<CudaBuffer, Error>) -> (workspace: Result<
        Self,
        Error,
    >)
        requires
            capacity_bytes > 0 ==> (allocated matches Ok(b) ==> b.range().len == capacity_bytes),
        ensures
            match workspace {
                Ok(w) => {
                    &&& capacity_bytes > 0
                    &&& allocated is Ok
                    &&& w@ == (WorkspaceView {
                        storage: allocated->Ok_0.range(),
                        offset: 0,
                        instances: Map::empty(),
                    })
                    &&& w@.storage.len == capacity_bytes
                },
                Err(e) => if capacity_bytes == 0 {
                    e == Error::Other(EMPTY_WORKSPACE_TEXT)
                } else {
                    allocated == Err::<CudaBuffer, Error>(e)
                },
            },
    {
        if capacity_bytes == 0 {
            return Err(Error::Other(EMPTY_WORKSPACE_TEXT));
        }
        match allocated {
            Ok(storage) => {
                let workspace: GraphWorkspace = GraphWorkspace {
                    instances: Vec::new(),
                    storage,
                    offset: 0,
                };
                assert(workspace@.instances =~= Map::empty());
                Ok(workspace)
            },
            Err(e) => Err(e),
        }
    }

    /// Bytes in the arena.
    pub fn capacity(&self) -> (bytes: usize)
        ensures
            bytes == self@.storage.len,
    {
        self.storage.len()
    }

    /// Bytes taken, alignment gaps included.
    pub fn used(&self) -> (bytes: usize)
        ensures
            bytes == self@.offset,
            bytes <= self@.storage.len,
    {
        proof {
            use_type_invariant(self);
        }
        self.offset
    }

    fn reset(&mut self)
        ensures
            final(self)@ == (WorkspaceView { offset: 0, ..old(self)@ }),
    {
        proof {
            use_type_invariant(&*self);
        }
        self.offset = 0;
    }

    /// Takes `bytes` bytes at the next aligned offset.
    pub fn allocate(&mut self, bytes: usize, device: usize) -> (allocation: Result<
        CudaBuffer,
        Error,
    >)
        ensures
            match allocation {
                Ok(buffer) => {
                    &&& old(self)@.allocation_rejection(bytes, device) is None
                    &&& buffer.range() == old(self)@.allocation(bytes)
                    &&& buffer.range().ptr == old(self)@.storage.ptr + align_up(
                        old(self)@.offset as int,
                    )
                    &&& final(self)@ == old(self)@.allocated(bytes)
                    &&& final(self)@.offset == align_up(old(self)@.offset as int) + bytes
                },
                Err(e) => {
                    &&& old(self)@.allocation_rejection(bytes, device) == Some(e)
                    &&& final(self)@ == old(self)@
                },
            },
            final(self)@ == old(self)@.after_call(ArenaCall::Allocate { bytes, device }),
    {
        proof {
            use_type_invariant(&*self);
        }
        let target: usize = self.storage.device();
        if device != target {
            return Err(
                Error::WorkspaceDevice { workspace_device: target, operation_device: device },
            );
        }
        let offset: usize = self.offset;
        let padded: usize = match offset.checked_add(WORKSPACE_ALIGNMENT - 1) {
            Some(padded) => padded,
            None => {
                return Err(Error::Other(OFFSET_OVERFLOW_TEXT));
            },
        };
        let start: usize = padded & !(WORKSPACE_ALIGNMENT - 1);
        assert(start == (padded / 256) * 256 && start <= padded) by (bit_vector)
            requires
                start == padded & !((256usize - 1) as usize),
        ;
        let end: usize = match start.checked_add(bytes) {
            Some(end) => end,
            None => {
                return Err(Error::Other(SIZE_OVERFLOW_TEXT));
            },
        };
        let capacity: usize = self.storage.len();
        if end > capacity {
            return Err(Error::WorkspaceExhausted { need: end, capacity });
        }
        self.offset = end;
        let part: Result<CudaBuffer, Error> = self.storage.view(start, bytes);
        part
    }
}

impl WorkspaceView {
    /// The arena after a series of sub-allocations.
    pub open spec fn after(self, requests: Seq<usize>) -> WorkspaceView
        decreases requests.len(),
    {
        if requests.len() == 0 {
            self
        } else {
            self.after(requests.drop_last()).allocated(requests.last())
        }
    }

    /// The range that the `i`-th of a series of sub-allocations hands out.
    pub open spec fn handed_out(self, requests: Seq<usize>, i: int) -> BufferView {
        self.after(requests.take(i)).allocation(requests[i])
    }

    /// None of a series of sub-allocations is refused.
    pub open spec fn serves(self, requests: Seq<usize>) -> bool {
        forall|i: int|
            0 <= i < requests.len() ==> (#[trigger] self.after(
                requests.take(i),
            )).allocation_rejection(requests[i], self.storage.device) is None
    }
}

proof fn lemma_after_step(w: WorkspaceView, requests: Seq<usize>, i: int)
    requires
        0 <= i < requests.len(),
    ensures
        w.after(requests.take(i + 1)) == w.after(requests.take(i)).allocated(requests[i]),
        w.after(requests.take(i)).storage == w.storage,
    decreases i,
{
    assert(requests.take(i + 1).drop_last() =~= requests.take(i));
    if i > 0 {
        lemma_after_step(w, requests, i - 1);
    }
}

proof fn lemma_offsets_grow(w: WorkspaceView, requests: Seq<usize>, i: int, j: int)
    requires
        w.serves(requests),
        0 <= i <= j < requests.len(),
    ensures
        w.after(requests.take(i)).offset <= w.after(requests.take(j)).offset,
    decreases j - i,
{
    if i < j {
        lemma_offsets_grow(w, requests, i, j - 1);
        lemma_after_step(w, requests, j - 1);
        assert(w.after(requests.take(j - 1)).allocation_rejection(
            requests[j - 1],
            w.storage.device,
        ) is None);
    }
}

/// The ranges handed out in one traversal lie inside the arena, start at
/// aligned offsets, and no two of them share an address.
pub proof fn law_allocations_are_disjoint(w: WorkspaceView, requests: Seq<usize>, i: int, j: int)
    requires
        w.storage.ptr + w.storage.len <= usize::MAX,
        w.serves(requests),
        0 <= i < j < requests.len(),
    ensures
        w.storage.ptr <= w.handed_out(requests, i).ptr,
        w.handed_out(requests, i).ptr + requests[i] <= w.storage.ptr + w.storage.len,
        (w.handed_out(requests, i).ptr - w.storage.ptr) % WORKSPACE_ALIGNMENT as int == 0,
        w.handed_out(requests, i).ptr + requests[i] <= w.handed_out(requests, j).ptr,
        !w.handed_out(requests, i).overlaps(w.handed_out(requests, j)),
{
    lemma_after_step(w, requests, i);
    lemma_after_step(w, requests, j);
    lemma_offsets_grow(w, requests, i + 1, j);
    assert(w.after(requests.take(i)).allocation_rejection(requests[i], w.storage.device) is None);
    assert(w.after(requests.take(j)).allocation_rejection(requests[j], w.storage.device) is None);
}

proof fn lemma_offsets_ignore_instances(
    a: WorkspaceView,
    b: WorkspaceView,
    requests: Seq<usize>,
    i: int,
)
    requires
        a.storage == b.storage,
        a.offset == b.offset,
        0 <= i <= requests.len(),
    ensures
        a.after(requests.take(i)).offset == b.after(requests.take(i)).offset,
        a.after(requests.take(i)).storage == b.after(requests.take(i)).storage,
    decreases i,
{
    if i > 0 {
        lemma_offsets_ignore_instances(a, b, requests, i - 1);
        assert(requests.take(i).drop_last() =~= requests.take(i - 1));
    }
}

/// A traversal that repeats the requests of an earlier one on the same arena
/// is handed the same ranges, whatever the arena was left with in between:
/// where a range lies depends only on the requests before it.
pub proof fn law_replayed_allocations_coincide(
    earlier: WorkspaceView,
    later: WorkspaceView,
    prepared: bool,
    requests: Seq<usize>,
    i: int,
)
    requires
        earlier.storage == later.storage,
        0 <= i < requests.len(),
    ensures
        earlier.entered(prepared).handed_out(requests, i) == later.entered(false).handed_out(
            requests,
            i,
        ),
{
    lemma_offsets_ignore_instances(earlier.entered(prepared), later.entered(false), requests, i);
}

proof fn lemma_after_calls_step(w: WorkspaceView, calls: Seq<ArenaCall>, i: int)
    requires
        0 <= i < calls.len(),
    ensures
        w.after_calls(calls.take(i + 1)) == w.after_calls(calls.take(i)).after_call(calls[i]),
{
    assert(calls.take(i + 1).drop_last() =~= calls.take(i));
}

/// Whatever is done with an arena, its capacity stays what it was, and what is
/// used never exceeds it.
pub proof fn law_capacity_is_constant_and_bounds_what_is_used(
    w: WorkspaceView,
    calls: Seq<ArenaCall>,
)
    requires
        w.offset <= w.storage.len,
    ensures
        w.after_calls(calls).storage == w.storage,
        w.after_calls(calls).offset <= w.storage.len,
    decreases calls.len(),
{
    if calls.len() > 0 {
        law_capacity_is_constant_and_bounds_what_is_used(w, calls.drop_last());
    }
}

/// Whatever is done with an arena, what is used falls only to zero, and only
/// when a traversal begins.
pub proof fn law_use_falls_only_to_zero_on_entry(w: WorkspaceView, calls: Seq<ArenaCall>, i: int)
    requires
        w.offset <= w.storage.len,
        0 <= i < calls.len(),
    ensures
        calls[i] is Enter ==> w.after_calls(calls.take(i + 1)).offset == 0,
        !(calls[i] is Enter) ==> w.after_calls(calls.take(i)).offset <= w.after_calls(
            calls.take(i + 1),
        ).offset,
{
    lemma_after_calls_step(w, calls, i);
}

/// The stream that a capture records.
#[derive(Clone, Copy, Debug, PartialEq, Eq, Structural)]
pub struct CaptureTarget {
    pub device: usize,
    pub stream: usize,
}

/// What a thread keeps between operators: the workspace it works in, whether
/// it is preparing it, the stream it captures, and the instances that the
/// capture, or eager work, has to keep alive.
#[derive(Debug)]
pub struct ThreadState {
    active: Option<GraphWorkspace>,
    preparing: bool,
    target: Option<CaptureTarget>,
    captured: Vec<Rc<SharedExecution>>,
    eager: Vec<EagerInstance>,
    created: u64,
}

#[verifier::ext_equal]
pub struct ThreadView {
    /// The workspace of the running traversal.
    pub active: Option<WorkspaceView>,
    /// The traversal prepares the workspace.
    pub preparing: bool,
    /// The stream being captured.
    pub target: Option<CaptureTarget>,
    /// Instances that the capture has used, each once.
    pub captured: Seq<Rc<SharedExecution>>,
    /// Instances of one-shot requests made outside any workspace.
    pub eager: Map<EagerKey, Rc<SharedExecution>>,
    /// Native instances created since the count was last reset.
    pub created: u64,
}

/// `instance` is among `list`.
pub open spec fn holds(list: Seq<Rc<SharedExecution>>, instance: &SharedExecution) -> bool {
    exists|i: int| 0 <= i < list.len() && (#[trigger] list[i]).raw == instance.raw
}

/// No instance occurs twice.
pub open spec fn distinct(list: Seq<Rc<SharedExecution>>) -> bool {
    forall|i: int, j: int|
        0 <= i < j < list.len() ==> (#[trigger] list[i]).raw != (#[trigger] list[j]).raw
}

/// `instances` are those of `cache`, one for each key.
pub open spec fn lists(
    instances: Seq<Rc<SharedExecution>>,
    cache: Map<EagerKey, Rc<SharedExecution>>,
) -> bool {
    exists|keys: Seq<EagerKey>|
        {
            &&& #[trigger] keys.no_duplicates()
            &&& forall|k: EagerKey| keys.contains(k) == #[trigger] cache.dom().contains(k)
            &&& instances.len() == keys.len()
            &&& forall|i: int|
                0 <= i < keys.len() ==> (#[trigger] instances[i]) == cache[keys[i]]
        }
}

impl ThreadView {
    /// The thread after a capture, if there is one, has taken hold of an instance.
    pub open spec fn retaining(self, instance: Rc<SharedExecution>) -> ThreadView {
        if self.target is Some && !holds(self.captured, &instance) {
            ThreadView { captured: self.captured.push(instance), ..self }
        } else {
            self
        }
    }

    /// The instance that was prepared in the active workspace under a key, if
    /// there is one.
    pub open spec fn prepared(self, key: InstanceKey) -> Option<Rc<SharedExecution>> {
        match self.active {
            Some(w) => if w.instances.dom().contains(key) {
                Some(w.instances[key])
            } else {
                None
            },
            None => None,
        }
    }

    /// The instance that a one-shot request of this thread reuses, if there is
    /// one: in a workspace one under the same key, and outside any workspace
    /// one that was created for the same request.
    pub open spec fn cached(self, key: InstanceKey, terms: CreationTerms) -> Option<
        Rc<SharedExecution>,
    > {
        match self.active {
            Some(_) => self.prepared(key),
            None => if self.eager.dom().contains(EagerKey { key, terms }) {
                Some(self.eager[EagerKey { key, terms }])
            } else {
                None
            },
        }
    }

    /// The thread after an instance was put where its request finds it again.
    pub open spec fn storing(
        self,
        key: InstanceKey,
        terms: CreationTerms,
        instance: Rc<SharedExecution>,
    ) -> ThreadView {
        match self.active {
            Some(w) => ThreadView {
                active: Some(
                    WorkspaceView { instances: w.instances.insert(key, instance), ..w },
                ),
                ..self
            },
            None => ThreadView {
                eager: self.eager.insert(EagerKey { key, terms }, instance),
                ..self
            },
        }
    }

    /// Native resources may be created: while preparing, or outside any workspace.
    pub open spec fn may_create(self) -> bool {
        self.preparing || self.active is None
    }

    /// The thread inside a traversal of `workspace`.
    pub open spec fn entering(self, workspace: WorkspaceView, prepare: bool) -> ThreadView {
        ThreadView { active: Some(workspace.entered(prepare)), preparing: prepare, ..self }
    }

    /// The thread after a traversal has ended.
    pub open spec fn leaving(self) -> ThreadView {
        ThreadView { active: None, preparing: false, ..self }
    }

    /// What a traversal of `workspace` that ends in this state leaves in it.
    pub open spec fn arena_left(self, workspace: WorkspaceView) -> WorkspaceView {
        match self.active {
            Some(w) => if w.storage == workspace.storage {
                w
            } else {
                workspace.entered(true)
            },
            None => workspace.entered(true),
        }
    }

    /// Why work on a stream cannot be enqueued now, if it cannot.
    pub open spec fn target_rejection(self, device: usize, stream: usize) -> Option<Error> {
        match self.target {
            Some(t) => if t.device == device && t.stream == stream {
                None
            } else {
                Some(Error::Other(MULTI_STREAM_TEXT))
            },
            None => None,
        }
    }
}

impl View for ThreadState {
    type V = ThreadView;

    closed spec fn view(&self) -> ThreadView {
        ThreadView {
            active: match self.active {
                Some(w) => Some(w@),
                None => None,
            },
            preparing: self.preparing,
            target: self.target,
            captured: self.captured@,
            eager: entries_map(eager_pairs(self.eager@)),
            created: self.created,
        }
    }
}

impl ThreadState {
    /// A workspace is prepared only while one is active, no captured instance
    /// is held twice, and no request has two eager instances.
    #[verifier::type_invariant]
    spec fn well_formed(self) -> bool {
        &&& self.preparing ==> self.active is Some
        &&& distinct(self.captured@)
        &&& unique(eager_pairs(self.eager@))
    }

    /// A thread that has done nothing yet.
    pub fn new() -> (thread: Self)
        ensures
            thread@ == (ThreadView {
                active: None,
                preparing: false,
                target: None,
                captured: Seq::empty(),
                eager: Map::empty(),
                created: 0,
            }),
    {
        let thread: ThreadState = ThreadState {
            active: None,
            preparing: false,
            target: None,
            captured: Vec::new(),
            eager: Vec::new(),
            created: 0,
        };
        assert(thread@.eager =~= Map::empty());
        thread
    }

    /// Native execution resources may be created only before capture or when
    /// an operation is executed without a graph workspace.
    pub fn may_prepare_native_resources(&self) -> (allowed: bool)
        ensures
            allowed == self@.may_create(),
    {
        self.preparing || self.active.is_none()
    }

    /// Whether execution is the synthetic eager traversal that only prepares
    /// a graph workspace.
    pub fn is_preparing_workspace(&self) -> (preparing: bool)
        ensures
            preparing == self@.preparing,
            preparing ==> self@.active is Some,
    {
        proof {
            use_type_invariant(self);
        }
        self.preparing
    }

    pub fn has_active_workspace(&self) -> (active: bool)
        ensures
            active == (self@.active is Some),
    {
        self.active.is_some()
    }

    pub fn is_capturing(&self) -> (capturing: bool)
        ensures
            capturing == (self@.target is Some),
    {
        self.target.is_some()
    }

    /// Starts to keep the instances that work on `target` uses.
    pub fn begin_capture_retention(&mut self, target: CaptureTarget)
        ensures
            final(self)@ == (ThreadView {
                target: Some(target),
                captured: Seq::empty(),
                ..old(self)@
            }),
    {
        proof {
            use_type_invariant(&*self);
        }
        self.captured = Vec::new();
        self.target = Some(target);
        assert(self@ =~= (ThreadView {
            target: Some(target),
            captured: Seq::empty(),
            ..old(self)@
        }));
    }

    /// Ends the capture and hands out the instances it used, each once.
    pub fn end_capture_retention(&mut self) -> (instances: Vec<Rc<SharedExecution>>)
        ensures
            instances@ == old(self)@.captured,
            distinct(instances@),
            final(self)@ == (ThreadView { target: None, captured: Seq::empty(), ..old(self)@ }),
    {
        proof {
            use_type_invariant(&*self);
        }
        self.target = None;
        let mut instances: Vec<Rc<SharedExecution>> = Vec::new();
        std::mem::swap(&mut instances, &mut self.captured);
        assert(self@ =~= (ThreadView { target: None, captured: Seq::empty(), ..old(self)@ }));
        instances
    }

    /// Refuses work on a stream other than the one being captured.
    pub fn validate_capture_target(&self, device: usize, stream: usize) -> (r: Result<(), Error>)
        ensures
            match r {
                Ok(()) => self@.target_rejection(device, stream) is None,
                Err(e) => self@.target_rejection(device, stream) == Some(e),
            },
    {
        match self.target {
            Some(t) => {
                if t.device == device && t.stream == stream {
                    Ok(())
                } else {
                    Err(Error::Other(MULTI_STREAM_TEXT))
                }
            },
            None => Ok(()),
        }
    }

    /// Lets a running capture keep `instance` alive.
    pub fn retain_gemm_instance(&mut self, instance: &Rc<SharedExecution>)
        ensures
            final(self)@ == old(self)@.retaining(*instance),
    {
        proof {
            use_type_invariant(&*self);
        }
        if self.target.is_none() {
            return ;
        }
        let mut i: usize = 0;
        while i < self.captured.len()
            invariant
                i <= self.captured.len(),
                *self == *old(self),
                self.target is Some,
                distinct(self.captured@),
                forall|j: int| 0 <= j < i ==> (#[trigger] self.captured@[j]).raw != instance.raw,
            decreases self.captured.len() - i,
        {
            if self.captured[i].raw == instance.raw {
                assert(holds(self@.captured, instance));
                return ;
            }
            i = i + 1;
        }
        let mut kept: Vec<Rc<SharedExecution>> = Vec::new();
        std::mem::swap(&mut kept, &mut self.captured);
        kept.push(Rc::clone(instance));
        self.captured = kept;
        assert(self@ =~= old(self)@.retaining(*instance));
    }

    /// Finds an instance of the active workspace under its key and lets a
    /// running capture keep it alive.
    pub fn lookup_gemm_instance(&mut self, key: &InstanceKey) -> (found: Option<
        Rc<SharedExecution>,
    >)
        ensures
            found == old(self)@.prepared(*key),
            final(self)@ == (match found {
                Some(instance) => old(self)@.retaining(instance),
                None => old(self)@,
            }),
    {
        let found: Option<Rc<SharedExecution>> = match &self.active {
            Some(workspace) => {
                proof {
                    use_type_invariant(workspace);
                }
                match find_entry(&workspace.instances, key) {
                    Some(i) => {
                        proof {
                            lemma_entry_found(pairs(workspace.instances@), i as int);
                        }
                        Some(Rc::clone(&workspace.instances[i].instance))
                    },
                    None => None,
                }
            },
            None => None,
        };
        match found {
            Some(instance) => {
                self.retain_gemm_instance(&instance);
                Some(instance)
            },
            None => None,
        }
    }

    /// Finds the instance that a one-shot request reuses and lets a running
    /// capture keep it alive.
    pub fn lookup_reusable_instance(
        &mut self,
        key: &InstanceKey,
        policy: &NativePolicy,
        tuning: &TuningBindings,
    ) -> (found: Option<Rc<SharedExecution>>)
        ensures
            found == old(self)@.cached(*key, policy.terms(*tuning)),
            final(self)@ == (match found {
                Some(instance) => old(self)@.retaining(instance),
                None => old(self)@,
            }),
    {
        if self.active.is_some() {
            return self.lookup_gemm_instance(key);
        }
        proof {
            use_type_invariant(&*self);
        }
        match find_eager(&self.eager, key, policy, tuning) {
            Some(i) => {
                proof {
                    lemma_entry_found(eager_pairs(self.eager@), i as int);
                }
                let instance: Rc<SharedExecution> = Rc::clone(&self.eager[i].instance);
                self.retain_gemm_instance(&instance);
                Some(instance)
            },
            None => None,
        }
    }

    /// Puts an instance into the active workspace, or else among the
    /// thread's eager instances.
    pub fn store_gemm_instance(
        &mut self,
        key: InstanceKey,
        policy: NativePolicy,
        tuning: TuningBindings,
        instance: Rc<SharedExecution>,
    )
        ensures
            final(self)@ == old(self)@.storing(key, policy.terms(tuning), instance),
            old(self)@.active matches Some(w) ==> final(self)@.active == Some(
                w.after_call(ArenaCall::Keep { key, instance }),
            ),
    {
        proof {
            use_type_invariant(&*self);
        }
        let preparing: bool = self.preparing;
        self.preparing = false;
        let mut active: Option<GraphWorkspace> = None;
        std::mem::swap(&mut active, &mut self.active);
        match active {
            Some(workspace) => {
                proof {
                    use_type_invariant(&workspace);
                }
                let instances: Vec<CachedInstance> = put_entry(workspace.instances, key, instance);
                self.active = Some(
                    GraphWorkspace {
                        instances,
                        storage: workspace.storage,
                        offset: workspace.offset,
                    },
                );
                self.preparing = preparing;
            },
            None => {
                let mut eager: Vec<EagerInstance> = Vec::new();
                std::mem::swap(&mut eager, &mut self.eager);
                self.eager = put_eager(eager, key, policy, tuning, instance);
            },
        }
        assert(self@ =~= old(self)@.storing(key, policy.terms(tuning), instance));
    }

    /// Hands out the instances of one-shot requests made outside any
    /// workspace, so that later requests create theirs anew.
    pub fn release_eager_instances(&mut self) -> (instances: Vec<Rc<SharedExecution>>)
        ensures
            lists(instances@, old(self)@.eager),
            final(self)@ == (ThreadView { eager: Map::empty(), ..old(self)@ }),
    {
        proof {
            use_type_invariant(&*self);
        }
        let mut eager: Vec<EagerInstance> = Vec::new();
        std::mem::swap(&mut eager, &mut self.eager);
        assert(self@.eager =~= Map::empty());
        assert(self@ =~= (ThreadView { eager: Map::empty(), ..old(self)@ }));
        let ghost all = eager_pairs(eager@);
        let mut instances: Vec<Rc<SharedExecution>> = Vec::new();
        let mut i: usize = 0;
        while i < eager.len()
            invariant
                i <= eager.len(),
                all == eager_pairs(eager@),
                instances@.len() == i,
                forall|j: int| 0 <= j < i ==> (#[trigger] instances@[j]) == all[j].1,
            decreases eager.len() - i,
        {
            instances.push(Rc::clone(&eager[i].instance));
            i = i + 1;
        }
        proof {
            let keys = all.map_values(|p: (EagerKey, Rc<SharedExecution>)| p.0);
            assert forall|k: EagerKey| keys.contains(k) == #[trigger] old(
                self,
            )@.eager.dom().contains(k) by {
                if has_entry(all, k) {
                    assert(keys[position(all, k)] == k);
                }
                if keys.contains(k) {
                    let p = choose|p: int| 0 <= p < keys.len() && keys[p] == k;
                    assert(all[p].0 == k);
                }
            }
            assert forall|j: int| 0 <= j < keys.len() implies (#[trigger] instances@[j]) == old(
                self,
            )@.eager[keys[j]] by {
                lemma_entry_found(all, j);
            }
            assert forall|x: int, y: int|
                0 <= x < keys.len() && 0 <= y < keys.len() && x != y implies keys[x] != keys[y] by {
                assert(all[x].0 != all[y].0);
            }
            assert(keys.no_duplicates());
        }
        instances
    }

    /// Notes that a native instance was created.
    pub fn note_creation(&mut self)
        ensures
            final(self)@ == (ThreadView {
                created: if old(self)@.created == u64::MAX {
                    u64::MAX
                } else {
                    (old(self)@.created + 1) as u64
                },
                ..old(self)@
            }),
    {
        proof {
            use_type_invariant(&*self);
        }
        self.created = self.created.saturating_add(1);
    }

    /// Starts to count native instances from zero.
    pub fn reset_prepared_execution_create_count(&mut self)
        ensures
            final(self)@ == (ThreadView { created: 0, ..old(self)@ }),
    {
        proof {
            use_type_invariant(&*self);
        }
        self.created = 0;
    }

    /// Native instances created since the count was last reset.
    pub fn prepared_execution_create_count(&self) -> (count: u64)
        ensures
            count == self@.created,
    {
        self.created
    }
}

/// Where an operator's output goes.
#[derive(Clone, Debug)]
pub enum OutputBuffer {
    /// A range of the active workspace.
    Arena(CudaBuffer),
    /// A zeroed allocation of its own, still to be made.
    Allocate { bytes: usize, device: usize },
}

/// Storage for an operator's output: taken from the active workspace, or else
/// to be allocated.
pub fn output_buffer(thread: &mut ThreadState, ctx: &CudaContext, bytes: usize) -> (output: Result<
    OutputBuffer,
    Error,
>)
    ensures
        match old(thread)@.active {
            None => {
                &&& output == Ok::<OutputBuffer, Error>(
                    OutputBuffer::Allocate { bytes, device: ctx.device_id },
                )
                &&& final(thread)@ == old(thread)@
            },
            Some(w) => match output {
                Ok(found) => {
                    &&& w.allocation_rejection(bytes, ctx.device_id) is None
                    &&& found matches OutputBuffer::Arena(buffer) && buffer.range()
                        == w.allocation(bytes)
                    &&& final(thread)@ == (ThreadView {
                        active: Some(w.allocated(bytes)),
                        ..old(thread)@
                    })
                },
                Err(e) => {
                    &&& w.allocation_rejection(bytes, ctx.device_id) == Some(e)
                    &&& final(thread)@ == old(thread)@
                },
            },
        },
        old(thread)@.active matches Some(w) ==> final(thread)@.active == Some(
            w.after_call(ArenaCall::Allocate { bytes, device: ctx.device_id }),
        ),
{
    proof {
        use_type_invariant(&*thread);
    }
    let preparing: bool = thread.preparing;
    thread.preparing = false;
    let mut active: Option<GraphWorkspace> = None;
    std::mem::swap(&mut active, &mut thread.active);
    let mut output: Result<OutputBuffer, Error> = Ok(
        OutputBuffer::Allocate { bytes, device: ctx.device_id },
    );
    match active {
        Some(workspace) => {
            let mut workspace: GraphWorkspace = workspace;
            let allocation: Result<CudaBuffer, Error> = workspace.allocate(bytes, ctx.device_id);
            output = match allocation {
                Ok(buffer) => Ok(OutputBuffer::Arena(buffer)),
                Err(e) => Err(e),
            };
            thread.active = Some(workspace);
            thread.preparing = preparing;
        },
        None => {},
    }
    output
}

/// Runs `operation` with `workspace` as the thread's arena.
///
/// The arena starts empty; preparing also forgets its instances. Traversals
/// do not nest. Afterwards the thread is as it was, and the workspace holds
/// what the operation left in it.
fn with_workspace_phase<T, F: FnOnce(&mut ThreadState) -> Result<T, Error>>(
    thread: &mut ThreadState,
    workspace: &mut GraphWorkspace,
    prepare: bool,
    operation: F,
) -> (result: Result<T, Error>)
    requires
        old(thread)@.active is None ==> forall|inner: &mut ThreadState|
            inner@ == old(thread)@.entering(old(workspace)@, prepare) ==> operation.requires(
                (inner,),
            ),
    ensures
        match old(thread)@.active {
            Some(_) => {
                &&& result == Err::<T, Error>(Error::Other(NESTED_TEXT))
                &&& final(thread)@ == old(thread)@
                &&& final(workspace)@ == old(workspace)@.after_call(ArenaCall::Enter { prepare })
            },
            None => exists|inner: &mut ThreadState| #![trigger operation.ensures((inner,), result)]
                {
                    &&& inner@ == old(thread)@.entering(old(workspace)@, prepare)
                    &&& operation.ensures((inner,), result)
                    &&& final(thread)@ == (*final(inner))@.leaving()
                    &&& final(workspace)@ == (*final(inner))@.arena_left(old(workspace)@)
                },
        },
        final(workspace)@.storage == old(workspace)@.storage,
        final(workspace)@.offset <= final(workspace)@.storage.len,
{
    let ghost before = *thread;
    let ghost arena = *workspace;
    proof {
        use_type_invariant(&*workspace);
    }
    if prepare {
        workspace.instances = Vec::new();
    }
    workspace.reset();
    assert(workspace@ =~= arena@.entered(prepare));
    if thread.active.is_some() {
        return Err(Error::Other(NESTED_TEXT));
    }
    proof {
        use_type_invariant(&*thread);
    }
    let mut inside: GraphWorkspace = GraphWorkspace {
        instances: Vec::new(),
        storage: workspace.storage.clone(),
        offset: 0,
    };
    std::mem::swap(&mut inside, workspace);
    thread.active = Some(inside);
    thread.preparing = prepare;
    assert(thread@ =~= before@.entering(arena@, prepare));
    let result: Result<T, Error> = operation(thread);
    proof {
        use_type_invariant(&*thread);
    }
    thread.preparing = false;
    let mut left: Option<GraphWorkspace> = None;
    std::mem::swap(&mut left, &mut thread.active);
    assert(workspace@ =~= arena@.entered(true));
    match left {
        Some(used) => {
            proof {
                use_type_invariant(&used);
            }
            if used.storage.is_same(&workspace.storage) {
                *workspace = used;
            }
        },
        None => {},
    }
    result
}

/// Runs the traversal that creates the instances of a workspace.
pub fn prepare_with_workspace<T, F: FnOnce(&mut ThreadState) -> Result<T, Error>>(
    thread: &mut ThreadState,
    workspace: &mut GraphWorkspace,
    operation: F,
) -> (result: Result<T, Error>)
    requires
        old(thread)@.active is None ==> forall|inner: &mut ThreadState|
            inner@ == old(thread)@.entering(old(workspace)@, true) ==> operation.requires(
                (inner,),
            ),
    ensures
        match old(thread)@.active {
            Some(_) => {
                &&& result == Err::<T, Error>(Error::Other(NESTED_TEXT))
                &&& final(thread)@ == old(thread)@
                &&& final(workspace)@ == old(workspace)@.after_call(ArenaCall::Enter { prepare: true })
            },
            None => exists|inner: &mut ThreadState| #![trigger operation.ensures((inner,), result)]
                {
                    &&& inner@ == old(thread)@.entering(old(workspace)@, true)
                    &&& operation.ensures((inner,), result)
                    &&& final(thread)@ == (*final(inner))@.leaving()
                    &&& final(workspace)@ == (*final(inner))@.arena_left(old(workspace)@)
                },
        },
        final(workspace)@.storage == old(workspace)@.storage,
        final(workspace)@.offset <= final(workspace)@.storage.len,
{
    with_workspace_phase(thread, workspace, true, operation)
}

/// Runs a traversal on the instances a workspace already has.
pub fn with_workspace<T, F: FnOnce(&mut ThreadState) -> Result<T, Error>>(
    thread: &mut ThreadState,
    workspace: &mut GraphWorkspace,
    operation: F,
) -> (result: Result<T, Error>)
    requires
        old(thread)@.active is None ==> forall|inner: &mut ThreadState|
            inner@ == old(thread)@.entering(old(workspace)@, false) ==> operation.requires(
                (inner,),
            ),
    ensures
        match old(thread)@.active {
            Some(_) => {
                &&& result == Err::<T, Error>(Error::Other(NESTED_TEXT))
                &&& final(thread)@ == old(thread)@
                &&& final(workspace)@ == old(workspace)@.after_call(ArenaCall::Enter { prepare: false })
            },
            None => exists|inner: &mut ThreadState| #![trigger operation.ensures((inner,), result)]
                {
                    &&& inner@ == old(thread)@.entering(old(workspace)@, false)
                    &&& operation.ensures((inner,), result)
                    &&& final(thread)@ == (*final(inner))@.leaving()
                    &&& final(workspace)@ == (*final(inner))@.arena_left(old(workspace)@)
                },
        },
        final(workspace)@.storage == old(workspace)@.storage,
        final(workspace)@.offset <= final(workspace)@.storage.len,
{
    with_workspace_phase(thread, workspace, false, operation)
}

/// A sub-allocation starts at the next multiple of 256 bytes behind what is
/// taken, is as long as was asked for, lies in the arena's own memory, and
/// takes the arena up to its end; it is refused exactly where it does not fit
/// or is for another device.
pub proof fn law_allocation_takes_the_next_aligned_bytes(
    w: WorkspaceView,
    bytes: usize,
    device: usize,
)
    requires
        w.offset <= w.storage.len,
        w.storage.ptr + w.storage.len <= usize::MAX,
    ensures
        align_up(w.offset as int) % 256 == 0,
        w.offset <= align_up(w.offset as int) < w.offset + 256,
        w.allocation_rejection(bytes, device) is None ==> {
            &&& device == w.storage.device
            &&& w.allocation(bytes).ptr == w.storage.ptr + align_up(w.offset as int)
            &&& w.allocation(bytes).len == bytes
            &&& w.allocation(bytes).device == device
            &&& w.allocation(bytes).owner == w.storage.owner
            &&& w.allocated(bytes).offset == align_up(w.offset as int) + bytes
            &&& w.allocated(bytes).offset <= w.storage.len
            &&& w.allocated(bytes).storage == w.storage
            &&& w.allocated(bytes).instances == w.instances
        },
        w.offset + 255 <= usize::MAX ==> (w.allocation_rejection(bytes, device) is None <==> device == w.storage.device
            && align_up(w.offset as int) + bytes <= w.storage.len),
{
}

/// An instance that is kept is found again by its own request, and no other
/// request finds anything it did not find before.
pub proof fn law_keeping_an_instance_disturbs_no_other(
    thread: ThreadView,
    key: InstanceKey,
    terms: CreationTerms,
    instance: Rc<SharedExecution>,
    other: InstanceKey,
    other_terms: CreationTerms,
)
    ensures
        ({
            let after = thread.storing(key, terms, instance);
            &&& after.cached(key, terms) == Some(instance)
            &&& thread.active is Some ==> after.prepared(key) == Some(instance)
            &&& other != key ==> after.prepared(other) == thread.prepared(other)
            &&& other != key ==> after.cached(other, other_terms) == thread.cached(other, other_terms)
            &&& thread.active is None ==> after.prepared(key) is None
            &&& after.captured == thread.captured && after.target == thread.target && after.preparing == thread.preparing
            &&& after.created == thread.created
            &&& after.active is Some <==> thread.active is Some
            &&& thread.active matches Some(w) ==> after.active.unwrap().offset == w.offset && after.active.unwrap().storage == w.storage
        }),
{
}

/// A traversal begins with an empty arena; one that prepares begins without
/// instances and may create some, any other begins with those that are there
/// and may create none. Once it has ended, the thread is in no workspace and
/// may create again, and all else is as the traversal left it.
pub proof fn law_traversals_begin_and_end_cleanly(
    thread: ThreadView,
    workspace: WorkspaceView,
    prepare: bool,
    key: InstanceKey,
)
    ensures
        ({
            let inside = thread.entering(workspace, prepare);
            &&& inside.active is Some
            &&& inside.active.unwrap().offset == 0
            &&& inside.active.unwrap().storage == workspace.storage
            &&& prepare ==> inside.prepared(key) is None
            &&& !prepare ==> (inside.prepared(key) matches Some(instance) ==> workspace.instances[key] == instance)
            &&& !prepare ==> (inside.prepared(key) is Some <==> workspace.instances.dom().contains(key))
            &&& inside.may_create() <==> prepare
            &&& inside.captured == thread.captured && inside.target == thread.target && inside.eager == thread.eager
            &&& inside.leaving().active is None
            &&& inside.leaving().may_create()
            &&& thread.active is None && !thread.preparing ==> inside.leaving() == thread
            &&& inside.arena_left(workspace) == workspace.entered(prepare)
        }),
        thread.may_create() <==> thread.preparing || thread.active is None,
{
}

/// While a stream is captured, work on that stream goes on and work on any
/// other is refused; without a capture nothing is refused.
pub proof fn law_only_the_captured_stream_is_worked_on(thread: ThreadView, device: usize, stream: usize)
    ensures
        thread.target_rejection(device, stream) is None <==> (thread.target matches Some(t) ==> t.device == device
            && t.stream == stream),
        thread.target_rejection(device, stream) matches Some(e) ==> e == Error::Other(MULTI_STREAM_TEXT),
{
}

} // verus!
