//! Installation of tuned tactics before any graph is captured.
use vstd::prelude::*;

use crate::error::Error;
use crate::fp8::dual::{validate_bf16_dual_geglu_record, validate_fp8_dual_geglu_record};
use crate::fp8::tuning::{GemmOp, GemmRecord, TacticBackend, TacticStore, TuningRegistry};
#[allow(unused_imports)]
use crate::fp8::tuning::{CONFLICT_TEXT, INSTALLED_TEXT};

verus! {

pub const DIFFERENT_STORE_TEXT: &'static str = "a different CUDA tactic store is already installed";

pub const CUSTOM_NAME: &'static str = "cublaslt_custom";

pub const CUSTOM_BIAS_NAME: &'static str = "cublaslt_custom_bias";

pub const CUSTOM_SPLIT_NAME: &'static str = "cublaslt_custom_split_serial";

pub const FUSED_NAME: &'static str = "fused GeGLU tactic";

pub const BF16_FUSED_NAME: &'static str = "BF16 fused GeGLU tactic";

pub const BF16_DUAL_NAME: &'static str = "BF16 dual GeGLU";

/// Which plan cache of the matrix library a tactic seeds.
#[derive(Clone, Copy, Debug, PartialEq, Eq, Structural)]
pub enum Seed {
    Bf16Heuristic,
    Fp8Heuristic,
    Bf16Custom,
    Fp8Custom,
    Fp8BiasCustom,
    Bf16SplitCustom,
    Fp8SplitCustom,
}

/// One startup configuration of the matrix library.
#[derive(Clone, Copy, Debug, PartialEq, Eq, Structural)]
pub struct SeedAction {
    pub seed: Seed,
    pub m: usize,
    pub n: usize,
    pub k: usize,
    pub value: i32,
}

/// What a record asks for at startup.
pub enum Seeding {
    Nothing,
    Act(Seed),
    Refuse(Error),
}

/// A backend that seeds one cache for BF16, another for FP8, and knows no
/// other operation.
pub open spec fn by_operation(op: GemmOp, bf16: Seed, fp8: Seed, what: &'static str) -> Seeding {
    match op {
        GemmOp::Bf16 => Seeding::Act(bf16),
        GemmOp::Fp8F16 => Seeding::Act(fp8),
        _ => Seeding::Refuse(Error::TuningOperation { what, op }),
    }
}

/// A backend that seeds a cache for one operation and knows no other.
pub open spec fn only_for(op: GemmOp, known: GemmOp, seed: Seed, what: &'static str) -> Seeding {
    if op == known {
        Seeding::Act(seed)
    } else {
        Seeding::Refuse(Error::TuningOperation { what, op })
    }
}

/// What a record asks for at startup: nothing, a seed of the matrix library,
/// or refusal where its backend does not support its operation or shape.
pub open spec fn seeding(record: GemmRecord) -> Seeding {
    let op = record.key.op;
    let (m, n, k) = (record.key.m, record.key.n, record.key.k);
    let tactic = record.tactic.value;
    match record.tactic.backend {
        TacticBackend::Cutlass => Seeding::Nothing,
        TacticBackend::CublasLt => match op {
            GemmOp::Bf16 => Seeding::Act(Seed::Bf16Heuristic),
            GemmOp::Fp8F16 => Seeding::Act(Seed::Fp8Heuristic),
            _ => Seeding::Nothing,
        },
        TacticBackend::CublasLtCustom => by_operation(
            op,
            Seed::Bf16Custom,
            Seed::Fp8Custom,
            CUSTOM_NAME,
        ),
        TacticBackend::CublasLtCustomBias => only_for(
            op,
            GemmOp::Fp8F16,
            Seed::Fp8BiasCustom,
            CUSTOM_BIAS_NAME,
        ),
        TacticBackend::CublasLtCustomSplitSerial => by_operation(
            op,
            Seed::Bf16SplitCustom,
            Seed::Fp8SplitCustom,
            CUSTOM_SPLIT_NAME,
        ),
        TacticBackend::CublasLtCustomSplitGeGluCutlass
        | TacticBackend::CublasLtCustomSplitGeGluCutlass2SmAuto
        | TacticBackend::CublasLtCustomSplitGeGluCutlass2SmStage3
        | TacticBackend::CublasLtCustomSplitGeGluCutlassM522Explicit2Sm => only_for(
            op,
            GemmOp::Fp8F16,
            Seed::Fp8SplitCustom,
            FUSED_NAME,
        ),
        TacticBackend::CutlassFp8DualGeGlu => if crate::fp8::dual::fp8_dual_record(op, m, n, k, tactic) {
            Seeding::Nothing
        } else {
            Seeding::Refuse(Error::Fp8DualRecord { m, n, k, tactic })
        },
        TacticBackend::CutlassBf16DualGeGluM522 => if crate::fp8::dual::bf16_dual_record(op, m, n, k, tactic, 522) {
            Seeding::Nothing
        } else {
            Seeding::Refuse(Error::Bf16DualRecord { experiment: BF16_DUAL_NAME, expected_m: 522 })
        },
        TacticBackend::CutlassBf16DualGeGluM533 => if crate::fp8::dual::bf16_dual_record(op, m, n, k, tactic, 533) {
            Seeding::Nothing
        } else {
            Seeding::Refuse(Error::Bf16DualRecord { experiment: BF16_DUAL_NAME, expected_m: 533 })
        },
        TacticBackend::CublasLtCustomSplitGeGluCutlassBf16 => only_for(
            op,
            GemmOp::Bf16,
            Seed::Bf16SplitCustom,
            BF16_FUSED_NAME,
        ),
        TacticBackend::Vendor => Seeding::Nothing,
    }
}

/// The seed of a record as an action.
pub open spec fn seed_action(record: GemmRecord, seed: Seed) -> SeedAction {
    SeedAction {
        seed,
        m: record.key.m,
        n: record.key.n,
        k: record.key.k,
        value: record.tactic.value,
    }
}

/// The first refusal among the first `count` records.
pub open spec fn first_refusal(records: Seq<GemmRecord>, count: int) -> Option<Error>
    decreases count,
{
    if count <= 0 {
        None
    } else if first_refusal(records, count - 1) is Some {
        first_refusal(records, count - 1)
    } else {
        match seeding(records[count - 1]) {
            Seeding::Refuse(e) => Some(e),
            _ => None,
        }
    }
}

/// The seeds of the first `count` records, in order, up to the first refusal.
pub open spec fn seeds(records: Seq<GemmRecord>, count: int) -> Seq<SeedAction>
    decreases count,
{
    if count <= 0 {
        Seq::empty()
    } else if first_refusal(records, count - 1) is Some {
        seeds(records, count - 1)
    } else {
        match seeding(records[count - 1]) {
            Seeding::Act(seed) => seeds(records, count - 1).push(
                seed_action(records[count - 1], seed),
            ),
            _ => seeds(records, count - 1),
        }
    }
}

proof fn lemma_refusal_stays(records: Seq<GemmRecord>, i: int, count: int)
    requires
        0 <= i <= count,
        first_refusal(records, i) is Some,
    ensures
        first_refusal(records, count) == first_refusal(records, i),
        seeds(records, count) == seeds(records, i),
    decreases count - i,
{
    if i < count {
        lemma_refusal_stays(records, i, count - 1);
    }
}

fn seed_of(op: GemmOp, bf16: Seed, fp8: Seed, what: &'static str) -> (r: Result<Seed, Error>)
    ensures
        match by_operation(op, bf16, fp8, what) {
            Seeding::Act(seed) => r == Ok::<Seed, Error>(seed),
            Seeding::Refuse(e) => r == Err::<Seed, Error>(e),
            Seeding::Nothing => false,
        },
{
    match op {
        GemmOp::Bf16 => Ok(bf16),
        GemmOp::Fp8F16 => Ok(fp8),
        op => Err(Error::TuningOperation { what, op }),
    }
}

fn seed_only(op: GemmOp, known: GemmOp, seed: Seed, what: &'static str) -> (r: Result<Seed, Error>)
    ensures
        match only_for(op, known, seed, what) {
            Seeding::Act(seed) => r == Ok::<Seed, Error>(seed),
            Seeding::Refuse(e) => r == Err::<Seed, Error>(e),
            Seeding::Nothing => false,
        },
{
    if op == known {
        Ok(seed)
    } else {
        Err(Error::TuningOperation { what, op })
    }
}

/// The seed that a record asks for at startup, if it asks for one.
fn record_seed(record: &GemmRecord) -> (r: Result<Option<Seed>, Error>)
    ensures
        match seeding(*record) {
            Seeding::Nothing => r == Ok::<Option<Seed>, Error>(None),
            Seeding::Act(seed) => r == Ok::<Option<Seed>, Error>(Some(seed)),
            Seeding::Refuse(e) => r == Err::<Option<Seed>, Error>(e),
        },
{
    let op: GemmOp = record.key.op;
    let m: usize = record.key.m;
    let n: usize = record.key.n;
    let k: usize = record.key.k;
    let tactic: i32 = record.tactic.value;
    match record.tactic.backend {
        TacticBackend::Cutlass => Ok(None),
        TacticBackend::CublasLt => match op {
            GemmOp::Bf16 => Ok(Some(Seed::Bf16Heuristic)),
            GemmOp::Fp8F16 => Ok(Some(Seed::Fp8Heuristic)),
            _ => Ok(None),
        },
        TacticBackend::CublasLtCustom => {
            let seed: Seed = seed_of(op, Seed::Bf16Custom, Seed::Fp8Custom, CUSTOM_NAME)?;
            Ok(Some(seed))
        },
        TacticBackend::CublasLtCustomBias => {
            let seed: Seed = seed_only(op, GemmOp::Fp8F16, Seed::Fp8BiasCustom, CUSTOM_BIAS_NAME)?;
            Ok(Some(seed))
        },
        TacticBackend::CublasLtCustomSplitSerial => {
            let seed: Seed = seed_of(
                op,
                Seed::Bf16SplitCustom,
                Seed::Fp8SplitCustom,
                CUSTOM_SPLIT_NAME,
            )?;
            Ok(Some(seed))
        },
        TacticBackend::CublasLtCustomSplitGeGluCutlass
        | TacticBackend::CublasLtCustomSplitGeGluCutlass2SmAuto
        | TacticBackend::CublasLtCustomSplitGeGluCutlass2SmStage3
        | TacticBackend::CublasLtCustomSplitGeGluCutlassM522Explicit2Sm => {
            let seed: Seed = seed_only(op, GemmOp::Fp8F16, Seed::Fp8SplitCustom, FUSED_NAME)?;
            Ok(Some(seed))
        },
        TacticBackend::CutlassFp8DualGeGlu => {
            validate_fp8_dual_geglu_record(op, m, n, k, tactic)?;
            Ok(None)
        },
        TacticBackend::CutlassBf16DualGeGluM522 => {
            validate_bf16_dual_geglu_record(op, m, n, k, tactic, 522, BF16_DUAL_NAME)?;
            Ok(None)
        },
        TacticBackend::CutlassBf16DualGeGluM533 => {
            validate_bf16_dual_geglu_record(op, m, n, k, tactic, 533, BF16_DUAL_NAME)?;
            Ok(None)
        },
        TacticBackend::CublasLtCustomSplitGeGluCutlassBf16 => {
            let seed: Seed = seed_only(op, GemmOp::Bf16, Seed::Bf16SplitCustom, BF16_FUSED_NAME)?;
            Ok(Some(seed))
        },
        TacticBackend::Vendor => Ok(None),
    }
}

/// A merged store to be published: first the actions are made, in order, and
/// then the refusal, where there is one, ends the installation.
#[derive(Debug)]
pub struct InstallPlan {
    pub actions: Vec<SeedAction>,
    pub refusal: Option<Error>,
    pub store: TacticStore,
}

/// How an installation goes on.
#[derive(Debug)]
pub enum InstallStep {
    /// The same tactics are installed already.
    AlreadyInstalled,
    /// The matrix library is to be seeded.
    Seed(InstallPlan),
}

/// `step` is what installing stores that merge into `records` comes to.
pub open spec fn installs(
    registry: Option<Seq<GemmRecord>>,
    records: Seq<GemmRecord>,
    step: Result<InstallStep, Error>,
) -> bool {
    match registry {
        Some(installed) => if crate::fp8::tuning::agree(installed, records) {
            step == Ok::<InstallStep, Error>(InstallStep::AlreadyInstalled)
        } else {
            step == Err::<InstallStep, Error>(Error::Other(DIFFERENT_STORE_TEXT))
        },
        None => {
            &&& step is Ok
            &&& step->Ok_0 is Seed
            &&& step->Ok_0->Seed_0.store@ == records
            &&& step->Ok_0->Seed_0.actions@ == seeds(records, records.len() as int)
            &&& step->Ok_0->Seed_0.refusal == first_refusal(records, records.len() as int)
        },
    }
}

/// Starts to install the tactics of one database.
pub fn install_tuning_db(registry: &TuningRegistry, store: TacticStore) -> (step: Result<
    InstallStep,
    Error,
>)
    ensures
        match crate::fp8::tuning::merged(seq![store], 1) {
            None => step == Err::<InstallStep, Error>(Error::Other(CONFLICT_TEXT)),
            Some(records) => installs(registry@, records, step),
        },
{
    let stores: Vec<TacticStore> = vec![store];
    assert(stores@ =~= seq![store]);
    install_tuning_dbs(registry, stores)
}

/// Starts to install the tactics of several databases as one store.
///
/// The databases are merged before anything is published. The matrix library
/// caches plans of its own, so its startup configuration is seeded before the
/// store is published and inference never changes it.
pub fn install_tuning_dbs(registry: &TuningRegistry, stores: Vec<TacticStore>) -> (step: Result<
    InstallStep,
    Error,
>)
    ensures
        match crate::fp8::tuning::merged(stores@, stores@.len() as int) {
            None => step == Err::<InstallStep, Error>(Error::Other(CONFLICT_TEXT)),
            Some(records) => installs(registry@, records, step),
        },
{
    let store: TacticStore = TacticStore::merge(stores)?;
    match registry.installed() {
        Some(installed) => {
            return if installed.same(&store) {
                Ok(InstallStep::AlreadyInstalled)
            } else {
                Err(Error::Other(DIFFERENT_STORE_TEXT))
            };
        },
        None => {},
    }
    let records: &Vec<GemmRecord> = store.gemm_records();
    let mut actions: Vec<SeedAction> = Vec::new();
    let mut refusal: Option<Error> = None;
    let mut i: usize = 0;
    while i < records.len() && refusal.is_none()
        invariant
            i <= records.len(),
            records@ == store@,
            refusal is None ==> first_refusal(records@, i as int) is None && actions@ == seeds(
                records@,
                i as int,
            ),
            refusal is Some ==> first_refusal(records@, records@.len() as int) == refusal
                && actions@ == seeds(records@, records@.len() as int),
        decreases records.len() - i,
    {
        let record: &GemmRecord = &records[i];
        match record_seed(record) {
            Ok(Some(seed)) => {
                actions.push(
                    SeedAction {
                        seed,
                        m: record.key.m,
                        n: record.key.n,
                        k: record.key.k,
                        value: record.tactic.value,
                    },
                );
            },
            Ok(None) => {},
            Err(e) => {
                refusal = Some(e);
                proof {
                    lemma_refusal_stays(records@, i + 1, records@.len() as int);
                }
            },
        }
        i = i + 1;
    }
    Ok(InstallStep::Seed(InstallPlan { actions, refusal, store }))
}

impl InstallPlan {
    /// Goes on once the actions were made, or one of them failed: publishes
    /// the store unless something stood against it.
    pub fn finish(self, registry: &mut TuningRegistry, seeded: Result<(), Error>) -> (r: Result<
        (),
        Error,
    >)
        ensures
            match seeded {
                Err(e) => r == Err::<(), Error>(e) && final(registry)@ == old(registry)@,
                Ok(()) => match self.refusal {
                    Some(e) => r == Err::<(), Error>(e) && final(registry)@ == old(registry)@,
                    None => match old(registry)@ {
                        None => r is Ok && final(registry)@ == Some(self.store@),
                        Some(_) => r == Err::<(), Error>(Error::Other(INSTALLED_TEXT))
                            && final(registry)@ == old(registry)@,
                    },
                },
            },
    {
        match seeded {
            Err(e) => {
                return Err(e);
            },
            Ok(()) => {},
        }
        match self.refusal {
            Some(e) => Err(e),
            None => registry.install(self.store),
        }
    }
}

/// Installing is idempotent: once stores were published, installing the same
/// again changes nothing and asks for nothing.
pub proof fn law_installing_again_changes_nothing(
    records: Seq<GemmRecord>,
    step: Result<InstallStep, Error>,
)
    requires
        installs(Some(records), records, step),
    ensures
        step == Ok::<InstallStep, Error>(InstallStep::AlreadyInstalled),
{
    assert(crate::fp8::tuning::agree(records, records));
}

/// A store with a record that its backend does not support is never
/// published, whatever the seeding gave.
pub proof fn law_unsupported_records_are_never_published(
    records: Seq<GemmRecord>,
    i: int,
    step: Result<InstallStep, Error>,
)
    requires
        installs(None, records, step),
        0 <= i < records.len(),
        seeding(records[i]) is Refuse,
    ensures
        step is Ok,
        step->Ok_0 is Seed,
        step->Ok_0->Seed_0.refusal is Some,
{
    if first_refusal(records, i) is Some {
        lemma_refusal_stays(records, i, records.len() as int);
    } else {
        lemma_refusal_stays(records, i + 1, records.len() as int);
    }
}

/// A record seeds the cache of its own operation and of its own backend, and
/// only where its operation is one that the cache knows.
pub proof fn law_records_seed_the_cache_of_their_operation(record: GemmRecord)
    ensures
        seeding(record) matches Seeding::Act(seed) ==> {
            &&& record.key.op is Bf16 <==> seed is Bf16Heuristic || seed is Bf16Custom || seed is Bf16SplitCustom
            &&& record.key.op is Fp8F16 <==> seed is Fp8Heuristic || seed is Fp8Custom || seed is Fp8BiasCustom
                || seed is Fp8SplitCustom
            &&& record.tactic.backend is CublasLt <==> seed is Bf16Heuristic || seed is Fp8Heuristic
            &&& record.tactic.backend is CublasLtCustom <==> seed is Bf16Custom || seed is Fp8Custom
            &&& record.tactic.backend is CublasLtCustomBias <==> seed is Fp8BiasCustom
        },
        record.tactic.backend is Cutlass || record.tactic.backend is Vendor ==> seeding(record) is Nothing,
        record.tactic.backend is CublasLt ==> !(seeding(record) is Refuse) && (seeding(record) is Act <==> !(record.key.op is F16)),
        record.tactic.backend is CublasLtCustom || record.tactic.backend is CublasLtCustomSplitSerial ==> (
        seeding(record) is Act <==> !(record.key.op is F16)) && !(seeding(record) is Nothing),
        record.tactic.backend is CublasLtCustomBias || (crate::fp8::fused::fused_choice(Some(record.tactic), 0) is Some
            && !crate::fp8::fused::fused_choice(Some(record.tactic), 0).unwrap().dual) ==> (seeding(record) is Act <==> record.key.op is Fp8F16) && !(seeding(record) is Nothing),
        record.tactic.backend is CublasLtCustomSplitGeGluCutlassBf16 ==> (seeding(record) is Act <==> record.key.op is Bf16)
            && !(seeding(record) is Nothing),
        record.tactic.backend is CutlassFp8DualGeGlu ==> (seeding(record) is Nothing <==> crate::fp8::dual::fp8_dual_record(
            record.key.op,
            record.key.m,
            record.key.n,
            record.key.k,
            record.tactic.value,
        )) && !(seeding(record) is Act),
        record.tactic.backend is CutlassBf16DualGeGluM522 ==> (seeding(record) is Nothing <==> crate::fp8::dual::bf16_dual_record(
            record.key.op,
            record.key.m,
            record.key.n,
            record.key.k,
            record.tactic.value,
            522,
        )) && !(seeding(record) is Act),
        record.tactic.backend is CutlassBf16DualGeGluM533 ==> (seeding(record) is Nothing <==> crate::fp8::dual::bf16_dual_record(
            record.key.op,
            record.key.m,
            record.key.n,
            record.key.k,
            record.tactic.value,
            533,
        )) && !(seeding(record) is Act),
{
}

/// Records are refused exactly where one of them is, by the first that is.
pub proof fn law_one_refused_record_refuses_the_store(records: Seq<GemmRecord>, count: int)
    requires
        0 <= count <= records.len(),
    ensures
        first_refusal(records, count) is None <==> forall|i: int|
            0 <= i < count ==> !(seeding(#[trigger] records[i]) is Refuse),
    decreases count,
{
    if count > 0 {
        law_one_refused_record_refuses_the_store(records, count - 1);
        if first_refusal(records, count - 1) is None && seeding(records[count - 1]) is Refuse {
            assert(seeding(records[count - 1]) is Refuse);
        }
    }
}

/// Nothing is seeded but what a record asks for, for its own shape and with
/// its own tactic.
pub proof fn law_nothing_else_is_seeded(records: Seq<GemmRecord>, count: int, a: int)
    requires
        0 <= count <= records.len(),
        0 <= a < seeds(records, count).len(),
    ensures
        exists|i: int| 0 <= i < count && #[trigger] seeded_by(seeds(records, count)[a], records[i]),
    decreases count,
{
    let before = seeds(records, count - 1);
    if a < before.len() {
        law_nothing_else_is_seeded(records, count - 1, a);
        let i = choose|i: int| 0 <= i < count - 1 && #[trigger] seeded_by(before[a], records[i]);
        assert(seeds(records, count)[a] == before[a]);
        assert(seeded_by(seeds(records, count)[a], records[i]));
    } else {
        assert(seeded_by(seeds(records, count)[a], records[count - 1]));
    }
}

/// Every record that asks for a seed has it made, where none is refused.
pub proof fn law_every_record_is_seeded(records: Seq<GemmRecord>, count: int, i: int)
    requires
        0 <= i < count <= records.len(),
        first_refusal(records, count) is None,
        seeding(records[i]) is Act,
    ensures
        exists|a: int|
            0 <= a < seeds(records, count).len() && #[trigger] seeded_by(seeds(records, count)[a], records[i]),
    decreases count,
{
    let before = seeds(records, count - 1);
    let now = seeds(records, count);
    if i < count - 1 {
        law_every_record_is_seeded(records, count - 1, i);
        let a = choose|a: int| 0 <= a < before.len() && #[trigger] seeded_by(before[a], records[i]);
        assert(now[a] == before[a]);
        assert(seeded_by(now[a], records[i]));
    } else {
        assert(seeded_by(now[now.len() - 1], records[i]));
    }
}

/// The action seeds what the record asks for.
pub open spec fn seeded_by(action: SeedAction, record: GemmRecord) -> bool {
    &&& seeding(record) == Seeding::Act(action.seed)
    &&& action.m == record.key.m
    &&& action.n == record.key.n
    &&& action.k == record.key.k
    &&& action.value == record.tactic.value
}

} // verus!
