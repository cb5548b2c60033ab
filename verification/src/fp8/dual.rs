//! The dual GeGLU backend: its switch, its weight layout and the records it
//! accepts.
use vstd::prelude::*;

use crate::error::Error;
use crate::fp8::tuning::GemmOp;
use crate::text::same_text;

verus! {

/// Whether the dual GeGLU backend is used.
#[derive(Clone, Copy, Debug, PartialEq, Eq, Structural)]
pub enum Fp8DualGeGluMode {
    Auto,
    Off,
    On,
}

impl Fp8DualGeGluMode {
    pub open spec fn label(self) -> Seq<char> {
        match self {
            Fp8DualGeGluMode::Auto => "Auto"@,
            Fp8DualGeGluMode::Off => "Off"@,
            Fp8DualGeGluMode::On => "On"@,
        }
    }

    /// Name used in messages.
    pub fn name(self) -> (name: &'static str)
        ensures
            name@ == self.label(),
    {
        match self {
            Fp8DualGeGluMode::Auto => "Auto",
            Fp8DualGeGluMode::Off => "Off",
            Fp8DualGeGluMode::On => "On",
        }
    }
}

/// Which copy of a weight a fused product reads.
#[derive(Clone, Copy, Debug, PartialEq, Eq, Structural)]
pub enum Fp8DualGeGluWeightRoute {
    Plain,
    InterleavedPrimary,
    InterleavedAuto,
}

/// What the environment holds for the switch.
#[derive(Debug)]
pub enum EnvironmentValue {
    NotPresent,
    NotUnicode,
    Present(String),
}

pub const MODE_UNICODE_TEXT: &'static str = "APXINF_PI05_FP8_DUAL_GEGLU must be valid Unicode";

/// The mode that a text stands for.
pub open spec fn mode_of(value: Seq<char>) -> Option<Fp8DualGeGluMode> {
    if value == "auto"@ {
        Some(Fp8DualGeGluMode::Auto)
    } else if value == "0"@ || value == "off"@ {
        Some(Fp8DualGeGluMode::Off)
    } else if value == "1"@ || value == "on"@ {
        Some(Fp8DualGeGluMode::On)
    } else {
        None
    }
}

/// Reads the switch: absent or `auto`, `0` or `off`, `1` or `on`.
pub fn parse_fp8_dual_geglu_mode(value: Option<&str>) -> (mode: Result<Fp8DualGeGluMode, Error>)
    ensures
        match value {
            None => mode == Ok::<Fp8DualGeGluMode, Error>(Fp8DualGeGluMode::Auto),
            Some(text) => match mode_of(text@) {
                Some(m) => mode == Ok::<Fp8DualGeGluMode, Error>(m),
                None => mode is Err && mode->Err_0 is DualMode && mode->Err_0->given@ == text@,
            },
        },
{
    let text: &str = match value {
        None => {
            return Ok(Fp8DualGeGluMode::Auto);
        },
        Some(text) => text,
    };
    if same_text(text, "auto") {
        Ok(Fp8DualGeGluMode::Auto)
    } else if same_text(text, "0") || same_text(text, "off") {
        Ok(Fp8DualGeGluMode::Off)
    } else if same_text(text, "1") || same_text(text, "on") {
        Ok(Fp8DualGeGluMode::On)
    } else {
        Err(Error::DualMode { given: String::from_str(text) })
    }
}

/// Reads the switch from what the environment holds for it.
pub fn fp8_dual_geglu_mode(variable: EnvironmentValue) -> (mode: Result<Fp8DualGeGluMode, Error>)
    ensures
        match variable {
            EnvironmentValue::NotPresent => mode == Ok::<Fp8DualGeGluMode, Error>(
                Fp8DualGeGluMode::Auto,
            ),
            EnvironmentValue::NotUnicode => mode == Err::<Fp8DualGeGluMode, Error>(
                Error::Other(MODE_UNICODE_TEXT),
            ),
            EnvironmentValue::Present(text) => match mode_of(text@) {
                Some(m) => mode == Ok::<Fp8DualGeGluMode, Error>(m),
                None => mode is Err && mode->Err_0 is DualMode && mode->Err_0->given@ == text@,
            },
        },
{
    match variable {
        EnvironmentValue::NotPresent => parse_fp8_dual_geglu_mode(None),
        EnvironmentValue::NotUnicode => Err(Error::Other(MODE_UNICODE_TEXT)),
        EnvironmentValue::Present(value) => parse_fp8_dual_geglu_mode(Some(value.as_str())),
    }
}

/// The weight that mode, backend and available layouts call for; `None` where
/// they do not go together.
pub open spec fn weight_route(
    mode: Fp8DualGeGluMode,
    dual_mega: bool,
    primary_interleaved: bool,
    auto_interleaved_available: bool,
) -> Option<Fp8DualGeGluWeightRoute> {
    match mode {
        Fp8DualGeGluMode::Off => if !dual_mega && !primary_interleaved
            && !auto_interleaved_available {
            Some(Fp8DualGeGluWeightRoute::Plain)
        } else {
            None
        },
        Fp8DualGeGluMode::On => if dual_mega && primary_interleaved && !auto_interleaved_available {
            Some(Fp8DualGeGluWeightRoute::InterleavedPrimary)
        } else {
            None
        },
        Fp8DualGeGluMode::Auto => if primary_interleaved {
            None
        } else if !dual_mega {
            Some(Fp8DualGeGluWeightRoute::Plain)
        } else if auto_interleaved_available {
            Some(Fp8DualGeGluWeightRoute::InterleavedAuto)
        } else {
            None
        },
    }
}

/// Which copy of the weight a fused product reads.
pub fn fp8_dual_geglu_weight_route(
    mode: Fp8DualGeGluMode,
    dual_mega: bool,
    primary_interleaved: bool,
    auto_interleaved_available: bool,
) -> (route: Result<Fp8DualGeGluWeightRoute, Error>)
    ensures
        match weight_route(mode, dual_mega, primary_interleaved, auto_interleaved_available) {
            Some(r) => route == Ok::<Fp8DualGeGluWeightRoute, Error>(r),
            None => route == Err::<Fp8DualGeGluWeightRoute, Error>(
                Error::DualLayout {
                    mode,
                    dual_mega,
                    primary_interleaved,
                    auto_interleaved: auto_interleaved_available,
                },
            ),
        },
{
    match (mode, dual_mega, primary_interleaved, auto_interleaved_available) {
        (Fp8DualGeGluMode::Off, false, false, false) => Ok(Fp8DualGeGluWeightRoute::Plain),
        (Fp8DualGeGluMode::On, true, true, false) => Ok(
            Fp8DualGeGluWeightRoute::InterleavedPrimary,
        ),
        (Fp8DualGeGluMode::Auto, false, false, _) => Ok(Fp8DualGeGluWeightRoute::Plain),
        (Fp8DualGeGluMode::Auto, true, false, true) => Ok(Fp8DualGeGluWeightRoute::InterleavedAuto),
        _ => Err(
            Error::DualLayout {
                mode,
                dual_mega,
                primary_interleaved,
                auto_interleaved: auto_interleaved_available,
            },
        ),
    }
}

/// The dual backend never reads a plain weight, and no other backend ever
/// reads an interleaved one.
pub proof fn law_only_the_dual_backend_reads_interleaved_weights(
    mode: Fp8DualGeGluMode,
    dual_mega: bool,
    primary_interleaved: bool,
    auto_interleaved_available: bool,
)
    ensures
        match weight_route(mode, dual_mega, primary_interleaved, auto_interleaved_available) {
            Some(Fp8DualGeGluWeightRoute::Plain) => !dual_mega && !primary_interleaved,
            Some(Fp8DualGeGluWeightRoute::InterleavedPrimary) => dual_mega && primary_interleaved,
            Some(Fp8DualGeGluWeightRoute::InterleavedAuto) => dual_mega
                && auto_interleaved_available,
            None => true,
        },
{
}

/// Columns of the products that GeGLU backends are tuned for.
pub const GEGLU_COLUMNS: usize = 32768;

/// Inner extent of the products that GeGLU backends are tuned for.
pub const GEGLU_INNER: usize = 2048;

/// A record that the FP8 dual GeGLU backend accepts.
pub open spec fn fp8_dual_record(op: GemmOp, m: usize, n: usize, k: usize, tactic: i32) -> bool {
    &&& op == GemmOp::Fp8F16
    &&& m == 522 || m == 533
    &&& n == GEGLU_COLUMNS
    &&& k == GEGLU_INNER
    &&& tactic == 0
}

/// A record that a BF16 dual GeGLU backend for `expected_m` rows accepts.
pub open spec fn bf16_dual_record(
    op: GemmOp,
    m: usize,
    n: usize,
    k: usize,
    tactic: i32,
    expected_m: usize,
) -> bool {
    &&& op == GemmOp::Bf16
    &&& m == expected_m
    &&& n == GEGLU_COLUMNS
    &&& k == GEGLU_INNER
    &&& tactic == 0
}

/// Refuses records that the FP8 dual GeGLU backend was not validated for.
pub fn validate_fp8_dual_geglu_record(op: GemmOp, m: usize, n: usize, k: usize, tactic: i32) -> (r:
    Result<(), Error>)
    ensures
        match r {
            Ok(()) => fp8_dual_record(op, m, n, k, tactic),
            Err(e) => !fp8_dual_record(op, m, n, k, tactic) && e == (Error::Fp8DualRecord {
                m,
                n,
                k,
                tactic,
            }),
        },
{
    if op != GemmOp::Fp8F16 || !(m == 522 || m == 533) || n != GEGLU_COLUMNS || k != GEGLU_INNER
        || tactic != 0 {
        return Err(Error::Fp8DualRecord { m, n, k, tactic });
    }
    Ok(())
}

/// Refuses records that a BF16 dual GeGLU backend was not validated for.
pub fn validate_bf16_dual_geglu_record(
    op: GemmOp,
    m: usize,
    n: usize,
    k: usize,
    tactic: i32,
    expected_m: usize,
    experiment: &'static str,
) -> (r: Result<(), Error>)
    ensures
        match r {
            Ok(()) => bf16_dual_record(op, m, n, k, tactic, expected_m),
            Err(e) => !bf16_dual_record(op, m, n, k, tactic, expected_m) && e == (
            Error::Bf16DualRecord { experiment, expected_m }),
        },
{
    if op != GemmOp::Bf16 || m != expected_m || n != GEGLU_COLUMNS || k != GEGLU_INNER || tactic
        != 0 {
        return Err(Error::Bf16DualRecord { experiment, expected_m });
    }
    Ok(())
}

/// The switch is on, off or automatic exactly for the words that say so.
pub proof fn law_switch_words_mean_what_they_say(value: Seq<char>)
    ensures
        mode_of(value) == Some(Fp8DualGeGluMode::Auto) <==> value == "auto"@,
        mode_of(value) == Some(Fp8DualGeGluMode::Off) <==> value == "0"@ || value == "off"@,
        mode_of(value) == Some(Fp8DualGeGluMode::On) <==> value == "1"@ || value == "on"@,
{
    reveal_strlit("auto");
    reveal_strlit("0");
    reveal_strlit("off");
    reveal_strlit("1");
    reveal_strlit("on");
    assert("0"@[0] != "1"@[0]);
    assert("off"@[1] != "on"@[1]);
}

/// The switch is obeyed: switched on, only the dual backend goes on, with the
/// weight interleaved; switched off, only the others do, with the weight
/// plain; left open, either goes on with the layout it reads. Everything else
/// is refused.
pub proof fn law_the_switch_is_obeyed(
    mode: Fp8DualGeGluMode,
    dual_mega: bool,
    primary_interleaved: bool,
    auto_interleaved_available: bool,
)
    ensures
        ({
            let route = weight_route(mode, dual_mega, primary_interleaved, auto_interleaved_available);
            &&& mode is On ==> (route is Some <==> dual_mega && primary_interleaved && !auto_interleaved_available)
            &&& mode is Off ==> (route is Some <==> !dual_mega && !primary_interleaved && !auto_interleaved_available)
            &&& mode is Auto ==> (route is Some <==> !primary_interleaved && (dual_mega ==> auto_interleaved_available))
            &&& route == Some(Fp8DualGeGluWeightRoute::Plain) <==> route is Some && !dual_mega
            &&& route == Some(Fp8DualGeGluWeightRoute::InterleavedPrimary) <==> route is Some && mode is On
            &&& route == Some(Fp8DualGeGluWeightRoute::InterleavedAuto) <==> route is Some && dual_mega && mode is Auto
        }),
{
}

/// A dual backend takes exactly the one shape it was validated for, at the
/// rows it was validated for, for its own operation and with its only tactic.
pub proof fn law_dual_backends_take_only_validated_records(
    op: GemmOp,
    m: usize,
    n: usize,
    k: usize,
    tactic: i32,
    expected_m: usize,
)
    ensures
        fp8_dual_record(op, m, n, k, tactic) <==> op is Fp8F16 && (m == 522 || m == 533) && n == 32768 && k == 2048 && tactic == 0,
        bf16_dual_record(op, m, n, k, tactic, expected_m) <==> op is Bf16 && m == expected_m && n == 32768 && k == 2048
            && tactic == 0,
        !(fp8_dual_record(op, m, n, k, tactic) && bf16_dual_record(op, m, n, k, tactic, expected_m)),
{
}

} // verus!
