//! Tuned tactics and where they are kept.
use vstd::prelude::*;

use crate::context::{CudaContext, CudaDeviceCaps};
use crate::error::Error;

verus! {

/// Operation a tactic was tuned for.
#[derive(Clone, Copy, Debug, PartialEq, Eq, Structural)]
pub enum GemmOp {
    F16,
    Bf16,
    Fp8F16,
}

impl GemmOp {
    /// Name used in messages.
    pub open spec fn label(self) -> Seq<char> {
        match self {
            GemmOp::F16 => "F16"@,
            GemmOp::Bf16 => "Bf16"@,
            GemmOp::Fp8F16 => "Fp8F16"@,
        }
    }

    /// Name used in messages.
    pub fn name(self) -> (name: &'static str)
        ensures
            name@ == self.label(),
    {
        match self {
            GemmOp::F16 => "F16",
            GemmOp::Bf16 => "Bf16",
            GemmOp::Fp8F16 => "Fp8F16",
        }
    }
}

#[derive(Clone, Copy, Debug, PartialEq, Eq, Structural)]
pub enum TuningDType {
    F16,
    BF16,
    F8E4M3,
}

#[derive(Clone, Copy, Debug, PartialEq, Eq, Structural)]
pub enum GemmLayout {
    RowMajor,
}

#[derive(Clone, Copy, Debug, PartialEq, Eq, Structural)]
pub enum ScaleMode {
    Unscaled,
    PerTensor,
}

#[derive(Clone, Copy, Debug, PartialEq, Eq, Structural)]
pub enum Epilogue {
    Plain,
    Bias,
}

/// Implementation that a tactic selects.
#[derive(Clone, Copy, Debug, PartialEq, Eq, Structural)]
pub enum TacticBackend {
    Cutlass,
    CublasLt,
    CublasLtCustom,
    CublasLtCustomBias,
    CublasLtCustomSplitSerial,
    CublasLtCustomSplitGeGluCutlass,
    CublasLtCustomSplitGeGluCutlass2SmAuto,
    CublasLtCustomSplitGeGluCutlass2SmStage3,
    CublasLtCustomSplitGeGluCutlassM522Explicit2Sm,
    CutlassFp8DualGeGlu,
    CutlassBf16DualGeGluM522,
    CutlassBf16DualGeGluM533,
    CublasLtCustomSplitGeGluCutlassBf16,
    Vendor,
}

/// What a tuned tactic holds for, as far as the device goes.
#[derive(Clone, Copy, Debug, PartialEq, Eq, Structural)]
pub struct DeviceFingerprint {
    pub compute_major: u32,
    pub compute_minor: u32,
    pub multiprocessor_count: u32,
    pub total_global_memory: u64,
}

impl DeviceFingerprint {
    /// The fingerprint of a device of these capabilities.
    pub open spec fn of(caps: &CudaDeviceCaps) -> DeviceFingerprint {
        DeviceFingerprint {
            compute_major: caps.compute_major,
            compute_minor: caps.compute_minor,
            multiprocessor_count: caps.multiprocessor_count,
            total_global_memory: caps.total_global_memory,
        }
    }

    pub fn from_caps(caps: &CudaDeviceCaps) -> (fingerprint: Self)
        ensures
            fingerprint == DeviceFingerprint::of(caps),
    {
        DeviceFingerprint {
            compute_major: caps.compute_major,
            compute_minor: caps.compute_minor,
            multiprocessor_count: caps.multiprocessor_count,
            total_global_memory: caps.total_global_memory,
        }
    }
}

/// What a tactic is kept under.
#[derive(Clone, Copy, Debug, PartialEq, Eq, Structural)]
pub struct GemmTuningKey {
    pub op: GemmOp,
    pub device: DeviceFingerprint,
    pub m: usize,
    pub n: usize,
    pub k: usize,
    pub activation_dtype: TuningDType,
    pub weight_dtype: TuningDType,
    pub output_dtype: TuningDType,
    pub layout: GemmLayout,
    pub scale_mode: ScaleMode,
    pub epilogue: Epilogue,
    pub workspace_limit: usize,
}

/// A backend and its own number for a configuration.
#[derive(Clone, Copy, Debug, PartialEq, Eq, Structural)]
pub struct TacticId {
    pub backend: TacticBackend,
    pub value: i32,
}

#[derive(Clone, Copy, Debug, PartialEq, Eq, Structural)]
pub struct GemmRecord {
    pub key: GemmTuningKey,
    pub tactic: TacticId,
}

/// The key of a static FP8 product with FP16 output on a context's device.
pub open spec fn fp8_key(ctx: &CudaContext, m: usize, n: usize, k: usize) -> GemmTuningKey {
    GemmTuningKey {
        op: GemmOp::Fp8F16,
        device: DeviceFingerprint::of(&ctx.caps),
        m,
        n,
        k,
        activation_dtype: TuningDType::F8E4M3,
        weight_dtype: TuningDType::F8E4M3,
        output_dtype: TuningDType::F16,
        layout: GemmLayout::RowMajor,
        scale_mode: ScaleMode::PerTensor,
        epilogue: Epilogue::Plain,
        workspace_limit: usize::MAX,
    }
}

/// The key of a static FP8 product with FP16 output on a context's device.
pub fn tuning_key(ctx: &CudaContext, m: usize, n: usize, k: usize) -> (key: GemmTuningKey)
    ensures
        key == fp8_key(ctx, m, n, k),
{
    GemmTuningKey {
        op: GemmOp::Fp8F16,
        device: DeviceFingerprint::from_caps(&ctx.caps),
        m,
        n,
        k,
        activation_dtype: TuningDType::F8E4M3,
        weight_dtype: TuningDType::F8E4M3,
        output_dtype: TuningDType::F16,
        layout: GemmLayout::RowMajor,
        scale_mode: ScaleMode::PerTensor,
        epilogue: Epilogue::Plain,
        workspace_limit: usize::MAX,
    }
}

pub const CONFLICT_TEXT: &'static str = "conflicting CUDA tactics for one tuning key";

pub const INSTALLED_TEXT: &'static str = "a CUDA tactic store is already installed";

/// Tactics, at most one per key, in the order they were recorded.
#[derive(Debug)]
pub struct TacticStore {
    records: Vec<GemmRecord>,
}

impl View for TacticStore {
    type V = Seq<GemmRecord>;

    closed spec fn view(&self) -> Seq<GemmRecord> {
        self.records@
    }
}

/// No key is recorded twice.
pub open spec fn keyed(records: Seq<GemmRecord>) -> bool {
    forall|i: int, j: int|
        0 <= i < j < records.len() ==> (#[trigger] records[i]).key != (#[trigger] records[j]).key
}

/// What `records` select for `key`: the first record of it.
pub open spec fn selects(records: Seq<GemmRecord>, key: GemmTuningKey) -> Option<TacticId>
    decreases records.len(),
{
    if records.len() == 0 {
        None
    } else if records[0].key == key {
        Some(records[0].tactic)
    } else {
        selects(records.drop_first(), key)
    }
}

proof fn lemma_selects_at(records: Seq<GemmRecord>, i: int)
    requires
        0 <= i < records.len(),
        forall|j: int| 0 <= j < i ==> (#[trigger] records[j]).key != records[i].key,
    ensures
        selects(records, records[i].key) == Some(records[i].tactic),
    decreases i,
{
    if i > 0 {
        assert(records[0].key != records[i].key);
        let rest = records.drop_first();
        assert(rest[i - 1] == records[i]);
        assert forall|j: int| 0 <= j < i - 1 implies (#[trigger] rest[j]).key != rest[i - 1].key by {
            assert(rest[j] == records[j + 1]);
        }
        lemma_selects_at(rest, i - 1);
    }
}

proof fn lemma_selects_nothing(records: Seq<GemmRecord>, key: GemmTuningKey)
    requires
        forall|j: int| 0 <= j < records.len() ==> (#[trigger] records[j]).key != key,
    ensures
        selects(records, key) is None,
    decreases records.len(),
{
    if records.len() > 0 {
        assert(records[0].key != key);
        let rest = records.drop_first();
        assert forall|j: int| 0 <= j < rest.len() implies (#[trigger] rest[j]).key != key by {
            assert(rest[j] == records[j + 1]);
        }
        lemma_selects_nothing(rest, key);
    }
}

proof fn lemma_selects_push(records: Seq<GemmRecord>, record: GemmRecord, key: GemmTuningKey)
    ensures
        selects(records.push(record), key) == (if selects(records, key) is Some {
            selects(records, key)
        } else if record.key == key {
            Some(record.tactic)
        } else {
            None
        }),
    decreases records.len(),
{
    let longer = records.push(record);
    if records.len() == 0 {
        assert(longer.drop_first() =~= Seq::<GemmRecord>::empty());
        assert(selects(longer.drop_first(), key) is None);
        assert(longer[0] == record);
    } else {
        assert(longer[0] == records[0]);
        assert(longer.drop_first() =~= records.drop_first().push(record));
        lemma_selects_push(records.drop_first(), record, key);
    }
}

/// `records` with one more, unless it repeats one; `None` where it contradicts
/// one.
pub open spec fn with_record(records: Seq<GemmRecord>, record: GemmRecord) -> Option<
    Seq<GemmRecord>,
> {
    match selects(records, record.key) {
        None => Some(records.push(record)),
        Some(tactic) => if tactic == record.tactic {
            Some(records)
        } else {
            None
        },
    }
}

/// `records` with the first `count` of `more`, one by one.
pub open spec fn with_records(
    records: Seq<GemmRecord>,
    more: Seq<GemmRecord>,
    count: int,
) -> Option<Seq<GemmRecord>>
    decreases count,
{
    if count <= 0 {
        Some(records)
    } else {
        match with_records(records, more, count - 1) {
            None => None,
            Some(so_far) => with_record(so_far, more[count - 1]),
        }
    }
}

/// The records of the first `count` stores, merged in order; `None` where two
/// stores hold different tactics for one key.
pub open spec fn merged(stores: Seq<TacticStore>, count: int) -> Option<Seq<GemmRecord>>
    decreases count,
{
    if count <= 0 {
        Some(Seq::empty())
    } else {
        match merged(stores, count - 1) {
            None => None,
            Some(so_far) => with_records(so_far, stores[count - 1]@, stores[count - 1]@.len() as int),
        }
    }
}

proof fn lemma_merge_stops(stores: Seq<TacticStore>, i: int, count: int)
    requires
        0 <= i <= count,
        merged(stores, i) is None,
    ensures
        merged(stores, count) is None,
    decreases count - i,
{
    if i < count {
        lemma_merge_stops(stores, i, count - 1);
    }
}

proof fn lemma_records_stop(records: Seq<GemmRecord>, more: Seq<GemmRecord>, i: int, count: int)
    requires
        0 <= i <= count,
        with_records(records, more, i) is None,
    ensures
        with_records(records, more, count) is None,
    decreases count - i,
{
    if i < count {
        lemma_records_stop(records, more, i, count - 1);
    }
}

proof fn lemma_push_keyed(records: Seq<GemmRecord>, record: GemmRecord)
    requires
        keyed(records),
        selects(records, record.key) is None,
    ensures
        keyed(records.push(record)),
{
    let longer = records.push(record);
    assert forall|i: int, j: int| 0 <= i < j < longer.len() implies (#[trigger] longer[i]).key != (
    #[trigger] longer[j]).key by {
        if j == records.len() && longer[i].key == record.key {
            lemma_first_of_key(records, i);
        }
    }
}

proof fn lemma_first_of_key(records: Seq<GemmRecord>, i: int)
    requires
        keyed(records),
        0 <= i < records.len(),
    ensures
        selects(records, records[i].key) == Some(records[i].tactic),
{
    assert forall|j: int| 0 <= j < i implies (#[trigger] records[j]).key != records[i].key by {}
    lemma_selects_at(records, i);
}

/// The two lists select the same tactic for every key.
pub open spec fn agree(a: Seq<GemmRecord>, b: Seq<GemmRecord>) -> bool {
    forall|key: GemmTuningKey| #[trigger] selects(a, key) == selects(b, key)
}

impl TacticStore {
    #[verifier::type_invariant]
    spec fn well_formed(self) -> bool {
        keyed(self.records@)
    }

    /// A store without tactics.
    pub fn new() -> (store: Self)
        ensures
            store@ == Seq::<GemmRecord>::empty(),
    {
        TacticStore { records: Vec::new() }
    }

    /// The tactics, in the order they were recorded.
    pub fn gemm_records(&self) -> (records: &Vec<GemmRecord>)
        ensures
            records@ == self@,
            keyed(records@),
    {
        proof {
            use_type_invariant(self);
        }
        &self.records
    }

    /// The tactic recorded for exactly this key.
    pub fn lookup_exact(&self, key: &GemmTuningKey) -> (tactic: Option<TacticId>)
        ensures
            tactic == selects(self@, *key),
    {
        let mut i: usize = 0;
        while i < self.records.len()
            invariant
                i <= self.records.len(),
                forall|j: int| 0 <= j < i ==> (#[trigger] self.records@[j]).key != *key,
            decreases self.records.len() - i,
        {
            if self.records[i].key == *key {
                proof {
                    lemma_selects_at(self.records@, i as int);
                }
                return Some(self.records[i].tactic);
            }
            i = i + 1;
        }
        proof {
            lemma_selects_nothing(self.records@, *key);
        }
        None
    }

    /// Records a tactic: again the same is fine, another for its key is not.
    pub fn record(&mut self, record: GemmRecord) -> (r: Result<(), Error>)
        ensures
            match r {
                Ok(()) => with_record(old(self)@, record) == Some(final(self)@),
                Err(e) => {
                    &&& with_record(old(self)@, record) is None
                    &&& e == Error::Other(CONFLICT_TEXT)
                    &&& final(self)@ == old(self)@
                },
            },
    {
        proof {
            use_type_invariant(&*self);
        }
        match self.lookup_exact(&record.key) {
            Some(tactic) => if tactic == record.tactic {
                Ok(())
            } else {
                Err(Error::Other(CONFLICT_TEXT))
            },
            None => {
                proof {
                    lemma_push_keyed(self.records@, record);
                }
                let mut records: Vec<GemmRecord> = Vec::new();
                std::mem::swap(&mut records, &mut self.records);
                records.push(record);
                self.records = records;
                Ok(())
            },
        }
    }

    fn absorb(&mut self, other: &TacticStore) -> (r: Result<(), Error>)
        ensures
            match r {
                Ok(()) => with_records(old(self)@, other@, other@.len() as int) == Some(
                    final(self)@,
                ),
                Err(e) => {
                    &&& with_records(old(self)@, other@, other@.len() as int) is None
                    &&& e == Error::Other(CONFLICT_TEXT)
                },
            },
    {
        let more: &Vec<GemmRecord> = other.gemm_records();
        let ghost start = self@;
        let mut i: usize = 0;
        while i < more.len()
            invariant
                i <= more.len(),
                more@ == other@,
                start == old(self)@,
                with_records(start, more@, i as int) == Some(self@),
            decreases more.len() - i,
        {
            match self.record(more[i]) {
                Ok(()) => {},
                Err(e) => {
                    proof {
                        lemma_records_stop(start, more@, i + 1, more@.len() as int);
                    }
                    return Err(e);
                },
            }
            i = i + 1;
        }
        Ok(())
    }

    /// One store of all tactics of several; refused where two disagree.
    pub fn merge(stores: Vec<TacticStore>) -> (store: Result<TacticStore, Error>)
        ensures
            match store {
                Ok(s) => merged(stores@, stores@.len() as int) == Some(s@),
                Err(e) => merged(stores@, stores@.len() as int) is None && e == Error::Other(
                    CONFLICT_TEXT,
                ),
            },
    {
        let mut store: TacticStore = TacticStore::new();
        let mut i: usize = 0;
        while i < stores.len()
            invariant
                i <= stores.len(),
                merged(stores@, i as int) == Some(store@),
            decreases stores.len() - i,
        {
            match store.absorb(&stores[i]) {
                Ok(()) => {},
                Err(e) => {
                    proof {
                        lemma_merge_stops(stores@, i + 1, stores@.len() as int);
                    }
                    return Err(e);
                },
            }
            i = i + 1;
        }
        Ok(store)
    }

    /// Whether the two select the same tactics.
    pub fn same(&self, other: &TacticStore) -> (r: bool)
        ensures
            r == agree(self@, other@),
    {
        if !self.covered_by(other) {
            return false;
        }
        if !other.covered_by(self) {
            return false;
        }
        proof {
            assert forall|key: GemmTuningKey| #[trigger] selects(self@, key) == selects(
                other@,
                key,
            ) by {
                lemma_selected_is_recorded(self@, key);
                lemma_selected_is_recorded(other@, key);
            }
        }
        true
    }

    /// Whether every tactic of this store is selected by the other.
    fn covered_by(&self, other: &TacticStore) -> (r: bool)
        ensures
            r ==> forall|i: int|
                0 <= i < self@.len() ==> selects(other@, (#[trigger] self@[i]).key) == Some(
                    self@[i].tactic,
                ),
            !r ==> !agree(self@, other@),
    {
        proof {
            use_type_invariant(self);
        }
        let mut i: usize = 0;
        while i < self.records.len()
            invariant
                i <= self.records.len(),
                keyed(self.records@),
                forall|j: int|
                    0 <= j < i ==> selects(other@, (#[trigger] self@[j]).key) == Some(
                        self@[j].tactic,
                    ),
            decreases self.records.len() - i,
        {
            let found: Option<TacticId> = other.lookup_exact(&self.records[i].key);
            proof {
                lemma_first_of_key(self.records@, i as int);
            }
            match found {
                Some(tactic) => {
                    if tactic != self.records[i].tactic {
                        assert(selects(self@, self@[i as int].key) != selects(
                            other@,
                            self@[i as int].key,
                        ));
                        return false;
                    }
                },
                None => {
                    assert(selects(self@, self@[i as int].key) != selects(
                        other@,
                        self@[i as int].key,
                    ));
                    return false;
                },
            }
            i = i + 1;
        }
        true
    }
}

proof fn lemma_selected_is_recorded(records: Seq<GemmRecord>, key: GemmTuningKey)
    ensures
        selects(records, key) matches Some(tactic) ==> exists|i: int|
            0 <= i < records.len() && (#[trigger] records[i]).key == key && records[i].tactic
                == tactic,
    decreases records.len(),
{
    if records.len() > 0 && records[0].key != key {
        let rest = records.drop_first();
        lemma_selected_is_recorded(rest, key);
        if selects(rest, key) is Some {
            let tactic = selects(rest, key).unwrap();
            let i = choose|i: int|
                0 <= i < rest.len() && (#[trigger] rest[i]).key == key && rest[i].tactic == tactic;
            assert(records[i + 1] == rest[i]);
        }
    }
}

/// A process's tactics: none, or one store that never changes.
#[derive(Debug)]
pub struct TuningRegistry {
    installed: Option<TacticStore>,
}

impl View for TuningRegistry {
    type V = Option<Seq<GemmRecord>>;

    closed spec fn view(&self) -> Option<Seq<GemmRecord>> {
        match self.installed {
            Some(store) => Some(store@),
            None => None,
        }
    }
}

/// What installed tactics select for `key`.
pub open spec fn installed_tactic(
    registry: Option<Seq<GemmRecord>>,
    key: GemmTuningKey,
) -> Option<TacticId> {
    match registry {
        Some(records) => selects(records, key),
        None => None,
    }
}

impl TuningRegistry {
    /// A registry without a store.
    pub fn new() -> (registry: Self)
        ensures
            registry@ is None,
    {
        TuningRegistry { installed: None }
    }

    /// The installed store.
    pub fn installed(&self) -> (store: Option<&TacticStore>)
        ensures
            match store {
                Some(s) => self@ == Some(s@),
                None => self@ is None,
            },
    {
        self.installed.as_ref()
    }

    /// Installs a store where there is none.
    pub fn install(&mut self, store: TacticStore) -> (r: Result<(), Error>)
        ensures
            match old(self)@ {
                None => r is Ok && final(self)@ == Some(store@),
                Some(_) => r == Err::<(), Error>(Error::Other(INSTALLED_TEXT)) && final(self)@
                    == old(self)@,
            },
    {
        if self.installed.is_some() {
            return Err(Error::Other(INSTALLED_TEXT));
        }
        self.installed = Some(store);
        Ok(())
    }

    /// The tactic installed for exactly this key.
    pub fn lookup_gemm_exact(&self, key: &GemmTuningKey) -> (tactic: Option<TacticId>)
        ensures
            tactic == installed_tactic(self@, *key),
    {
        match &self.installed {
            Some(store) => store.lookup_exact(key),
            None => None,
        }
    }
}

/// The tactic installed for exactly this static FP8 product.
pub fn exact_fp8_tactic(
    registry: &TuningRegistry,
    ctx: &CudaContext,
    m: usize,
    n: usize,
    k: usize,
) -> (tactic: Option<TacticId>)
    ensures
        tactic == installed_tactic(registry@, fp8_key(ctx, m, n, k)),
{
    registry.lookup_gemm_exact(&tuning_key(ctx, m, n, k))
}

/// The CUTLASS tactic for `m` rows where no record decides.
pub open spec fn default_cutlass_tactic(m: usize) -> i32 {
    if m <= 16 {
        0
    } else if m <= 64 {
        1
    } else if m <= 256 {
        2
    } else {
        3
    }
}

/// The CUTLASS tactic that an exact or, failing that, a near record selects;
/// a record of another backend selects none.
pub open spec fn cutlass_choice(
    exact: Option<TacticId>,
    near: Option<TacticId>,
    m: usize,
) -> i32 {
    let found = if exact is Some {
        exact
    } else {
        near
    };
    match found {
        Some(tactic) => if tactic.backend == TacticBackend::Cutlass {
            tactic.value
        } else {
            default_cutlass_tactic(m)
        },
        None => default_cutlass_tactic(m),
    }
}

/// The CUTLASS tactic for a product of `m` rows, from the record of exactly
/// its key and from the nearest one.
pub fn selected_cutlass_tactic(exact: Option<TacticId>, near: Option<TacticId>, m: usize) -> (tactic:
    i32)
    ensures
        tactic == cutlass_choice(exact, near, m),
{
    let found: Option<TacticId> = match exact {
        Some(tactic) => Some(tactic),
        None => near,
    };
    match found {
        Some(tactic) => {
            if tactic.backend == TacticBackend::Cutlass {
                return tactic.value;
            }
        },
        None => {},
    }
    if m <= 16 {
        0
    } else if m <= 64 {
        1
    } else if m <= 256 {
        2
    } else {
        3
    }
}

/// What stores agree on survives their merging: the merged store selects for
/// every key what the first store that records it selects.
pub proof fn law_merged_store_selects_what_its_parts_do(
    stores: Seq<TacticStore>,
    count: int,
    i: int,
    key: GemmTuningKey,
)
    requires
        0 <= i < count <= stores.len(),
        merged(stores, count) is Some,
        selects(stores[i]@, key) is Some,
    ensures
        selects(merged(stores, count).unwrap(), key) == selects(stores[i]@, key),
    decreases count,
{
    let before = merged(stores, count - 1).unwrap();
    let added = stores[count - 1]@;
    if i < count - 1 {
        law_merged_store_selects_what_its_parts_do(stores, count - 1, i, key);
        lemma_absorbing_keeps(before, added, added.len() as int, key);
    } else {
        assert(added.take(added.len() as int) =~= added);
        lemma_absorbing_adds(before, added, added.len() as int, key);
    }
}

proof fn lemma_absorbing_keeps(
    records: Seq<GemmRecord>,
    more: Seq<GemmRecord>,
    count: int,
    key: GemmTuningKey,
)
    requires
        0 <= count <= more.len(),
        with_records(records, more, count) is Some,
        selects(records, key) is Some,
    ensures
        selects(with_records(records, more, count).unwrap(), key) == selects(records, key),
    decreases count,
{
    if count > 0 {
        lemma_absorbing_keeps(records, more, count - 1, key);
        let so_far = with_records(records, more, count - 1).unwrap();
        lemma_selects_push(so_far, more[count - 1], key);
    }
}

proof fn lemma_absorbing_adds(
    records: Seq<GemmRecord>,
    more: Seq<GemmRecord>,
    count: int,
    key: GemmTuningKey,
)
    requires
        0 <= count <= more.len(),
        with_records(records, more, count) is Some,
        selects(more.take(count), key) is Some,
    ensures
        selects(with_records(records, more, count).unwrap(), key) == selects(more.take(count), key),
    decreases count,
{
    if count > 0 {
        let head = more.take(count - 1);
        assert(more.take(count) =~= head.push(more[count - 1]));
        lemma_selects_push(head, more[count - 1], key);
        let so_far = with_records(records, more, count - 1).unwrap();
        lemma_selects_push(so_far, more[count - 1], key);
        if selects(head, key) is Some {
            lemma_absorbing_adds(records, more, count - 1, key);
        }
    }
}

/// What a list selects for a key is recorded there under that key, and a key
/// that nothing is recorded under has nothing selected.
pub proof fn law_selected_tactics_are_recorded(records: Seq<GemmRecord>, key: GemmTuningKey)
    ensures
        selects(records, key) matches Some(tactic) ==> exists|i: int|
            0 <= i < records.len() && (#[trigger] records[i]).key == key && records[i].tactic
                == tactic,
        selects(records, key) is None ==> forall|i: int|
            0 <= i < records.len() ==> (#[trigger] records[i]).key != key,
        keyed(records) ==> forall|i: int|
            0 <= i < records.len() ==> selects(records, (#[trigger] records[i]).key) == Some(
                records[i].tactic,
            ),
    decreases records.len(),
{
    lemma_selected_is_recorded(records, key);
    if records.len() > 0 && selects(records, key) is None {
        let rest = records.drop_first();
        law_selected_tactics_are_recorded(rest, key);
        assert forall|i: int| 0 <= i < records.len() implies (#[trigger] records[i]).key != key by {
            if i > 0 {
                assert(rest[i - 1] == records[i]);
            }
        }
    }
    if keyed(records) {
        assert forall|i: int| 0 <= i < records.len() implies selects(
            records,
            (#[trigger] records[i]).key,
        ) == Some(records[i].tactic) by {
            lemma_first_of_key(records, i);
        }
    }
}

/// A tactic that is recorded is selected for its key from then on, nothing
/// changes for any other key, and recording is refused exactly where another
/// tactic holds the key.
pub proof fn law_recorded_tactics_are_selected(
    records: Seq<GemmRecord>,
    record: GemmRecord,
    key: GemmTuningKey,
)
    ensures
        with_record(records, record) is None <==> (selects(records, record.key) is Some && selects(
            records,
            record.key,
        ) != Some(record.tactic)),
        with_record(records, record) matches Some(after) ==> {
            &&& selects(after, record.key) == Some(record.tactic)
            &&& key != record.key ==> selects(after, key) == selects(records, key)
        },
        with_record(records, record) matches Some(after) ==> with_record(after, record) == Some(after),
{
    lemma_selects_push(records, record, key);
    lemma_selects_push(records, record, record.key);
}

/// Stores that hold different tactics for one key are never merged.
pub proof fn law_disagreeing_stores_are_refused(
    stores: Seq<TacticStore>,
    i: int,
    j: int,
    key: GemmTuningKey,
)
    requires
        0 <= i < stores.len(),
        0 <= j < stores.len(),
        selects(stores[i]@, key) is Some,
        selects(stores[j]@, key) is Some,
        selects(stores[i]@, key) != selects(stores[j]@, key),
    ensures
        merged(stores, stores.len() as int) is None,
{
    if merged(stores, stores.len() as int) is Some {
        law_merged_store_selects_what_its_parts_do(stores, stores.len() as int, i, key);
        law_merged_store_selects_what_its_parts_do(stores, stores.len() as int, j, key);
    }
}

proof fn lemma_absorbed_origin(
    records: Seq<GemmRecord>,
    more: Seq<GemmRecord>,
    count: int,
    key: GemmTuningKey,
)
    requires
        0 <= count <= more.len(),
        with_records(records, more, count) is Some,
        selects(with_records(records, more, count).unwrap(), key) is Some,
        selects(records, key) is None,
    ensures
        exists|j: int|
            0 <= j < count && (#[trigger] more[j]).key == key && Some(more[j].tactic) == selects(
                with_records(records, more, count).unwrap(),
                key,
            ),
    decreases count,
{
    if count > 0 {
        let so_far = with_records(records, more, count - 1).unwrap();
        lemma_selects_push(so_far, more[count - 1], key);
        if selects(so_far, key) is Some {
            lemma_absorbed_origin(records, more, count - 1, key);
            let j = choose|j: int|
                0 <= j < count - 1 && (#[trigger] more[j]).key == key && Some(more[j].tactic) == selects(
                    so_far,
                    key,
                );
            assert(more[j].key == key);
        } else {
            assert(more[count - 1].key == key);
        }
    }
}

/// A merged store selects nothing that none of its parts does.
pub proof fn law_merged_store_selects_nothing_else(
    stores: Seq<TacticStore>,
    count: int,
    key: GemmTuningKey,
)
    requires
        0 <= count <= stores.len(),
        forall|i: int| 0 <= i < stores.len() ==> keyed((#[trigger] stores[i])@),
        merged(stores, count) is Some,
        selects(merged(stores, count).unwrap(), key) is Some,
    ensures
        exists|i: int|
            0 <= i < count && selects((#[trigger] stores[i])@, key) == selects(
                merged(stores, count).unwrap(),
                key,
            ),
    decreases count,
{
    if count > 0 {
        let before = merged(stores, count - 1).unwrap();
        let added = stores[count - 1]@;
        if selects(before, key) is Some {
            law_merged_store_selects_nothing_else(stores, count - 1, key);
            lemma_absorbing_keeps(before, added, added.len() as int, key);
            let i = choose|i: int|
                0 <= i < count - 1 && selects((#[trigger] stores[i])@, key) == selects(before, key);
            assert(selects(stores[i]@, key) == selects(merged(stores, count).unwrap(), key));
        } else {
            lemma_absorbed_origin(before, added, added.len() as int, key);
            let j = choose|j: int|
                0 <= j < added.len() && (#[trigger] added[j]).key == key && Some(added[j].tactic) == selects(
                    merged(stores, count).unwrap(),
                    key,
                );
            assert(keyed(stores[count - 1]@));
            lemma_first_of_key(added, j);
            assert(selects(stores[count - 1]@, key) == Some(added[j].tactic));
        }
    }
}

proof fn lemma_agreeing_records_are_absorbed(
    records: Seq<GemmRecord>,
    more: Seq<GemmRecord>,
    count: int,
)
    requires
        0 <= count <= more.len(),
        keyed(more),
        forall|j: int|
            0 <= j < more.len() ==> selects(records, (#[trigger] more[j]).key) is None || selects(
                records,
                more[j].key,
            ) == Some(more[j].tactic),
    ensures
        with_records(records, more, count) is Some,
    decreases count,
{
    if count > 0 {
        lemma_agreeing_records_are_absorbed(records, more, count - 1);
        let so_far = with_records(records, more, count - 1).unwrap();
        let last = more[count - 1];
        if selects(so_far, last.key) is Some {
            if selects(records, last.key) is Some {
                lemma_absorbing_keeps(records, more, count - 1, last.key);
            } else {
                lemma_absorbed_origin(records, more, count - 1, last.key);
                let j = choose|j: int|
                    0 <= j < count - 1 && (#[trigger] more[j]).key == last.key && Some(more[j].tactic)
                        == selects(so_far, last.key);
                assert(more[j].key != more[count - 1].key);
            }
        }
    }
}

/// Stores that agree wherever they hold the same key are merged.
pub proof fn law_agreeing_stores_are_merged(stores: Seq<TacticStore>, count: int)
    requires
        0 <= count <= stores.len(),
        forall|i: int| 0 <= i < stores.len() ==> keyed((#[trigger] stores[i])@),
        forall|i: int, j: int, key: GemmTuningKey|
            #![trigger selects(stores[i]@, key), selects(stores[j]@, key)]
            0 <= i < stores.len() && 0 <= j < stores.len() && selects(stores[i]@, key) is Some && selects(
                stores[j]@,
                key,
            ) is Some ==> selects(stores[i]@, key) == selects(stores[j]@, key),
    ensures
        merged(stores, count) is Some,
    decreases count,
{
    if count > 0 {
        law_agreeing_stores_are_merged(stores, count - 1);
        let before = merged(stores, count - 1).unwrap();
        let added = stores[count - 1]@;
        assert(keyed(stores[count - 1]@));
        assert forall|j: int| 0 <= j < added.len() implies selects(before, (#[trigger] added[j]).key) is None
            || selects(before, added[j].key) == Some(added[j].tactic) by {
            lemma_first_of_key(added, j);
            if selects(before, added[j].key) is Some {
                law_merged_store_selects_nothing_else(stores, count - 1, added[j].key);
                let i = choose|i: int|
                    0 <= i < count - 1 && selects((#[trigger] stores[i])@, added[j].key) == selects(
                        before,
                        added[j].key,
                    );
                assert(selects(stores[i]@, added[j].key) == selects(stores[count - 1]@, added[j].key));
            }
        }
        lemma_agreeing_records_are_absorbed(before, added, added.len() as int);
    }
}

/// A tactic is kept for exactly one product on one kind of device: the key
/// names each extent in its own place and every capability of the device.
pub proof fn law_keys_tell_products_and_devices_apart(
    ctx: &CudaContext,
    m: usize,
    n: usize,
    k: usize,
    other: &CudaContext,
    x: usize,
    y: usize,
    z: usize,
)
    ensures
        fp8_key(ctx, m, n, k).m == m,
        fp8_key(ctx, m, n, k).n == n,
        fp8_key(ctx, m, n, k).k == k,
        fp8_key(ctx, m, n, k).device.compute_major == ctx.caps.compute_major,
        fp8_key(ctx, m, n, k).device.compute_minor == ctx.caps.compute_minor,
        fp8_key(ctx, m, n, k).device.multiprocessor_count == ctx.caps.multiprocessor_count,
        fp8_key(ctx, m, n, k).device.total_global_memory == ctx.caps.total_global_memory,
        fp8_key(ctx, m, n, k).op is Fp8F16,
        fp8_key(ctx, m, n, k).activation_dtype is F8E4M3,
        fp8_key(ctx, m, n, k).weight_dtype is F8E4M3,
        fp8_key(ctx, m, n, k).output_dtype is F16,
        fp8_key(ctx, m, n, k).scale_mode is PerTensor,
        fp8_key(ctx, m, n, k).epilogue is Plain,
        fp8_key(ctx, m, n, k).workspace_limit == usize::MAX,
        fp8_key(ctx, m, n, k) == fp8_key(other, x, y, z) <==> ctx.caps == other.caps && m == x && n == y && k == z,
{
}

/// The record of exactly a product decides its CUTLASS tactic; a near one only
/// where there is none; a record of another backend decides nothing; and what
/// no record decides goes by the rows, in steps that never fall.
pub proof fn law_exact_records_decide_before_near_ones(
    exact: Option<TacticId>,
    near: Option<TacticId>,
    m: usize,
    more: usize,
)
    requires
        m <= more,
    ensures
        exact matches Some(t) ==> (t.backend is Cutlass ==> cutlass_choice(exact, near, m) == t.value),
        exact matches Some(t) ==> (!(t.backend is Cutlass) ==> cutlass_choice(exact, near, m) == default_cutlass_tactic(m)),
        exact is None ==> (near matches Some(t) ==> (t.backend is Cutlass ==> cutlass_choice(exact, near, m) == t.value)),
        exact is None ==> (near matches Some(t) ==> (!(t.backend is Cutlass) ==> cutlass_choice(exact, near, m)
            == default_cutlass_tactic(m))),
        exact is None && near is None ==> cutlass_choice(exact, near, m) == default_cutlass_tactic(m),
        0 <= default_cutlass_tactic(m) <= default_cutlass_tactic(more) <= 3,
        default_cutlass_tactic(m) >= 1 <==> m > 16,
        default_cutlass_tactic(m) >= 2 <==> m > 64,
        default_cutlass_tactic(m) == 3 <==> m > 256,
{
}

} // verus!
