//! Optional instrumentation for calibration of BF16 GEMM inputs.
use vstd::prelude::*;

use crate::dtype::DType;
use crate::error::Error;
use crate::ops::gemm::contracts::GemmArgs;
use crate::tensor::Tensor;

verus! {

pub const OBSERVER_TEXT: &'static str = "a BF16 activation observer is already installed";

/// Sees the operands of every BF16 GEMM.
pub trait Bf16ActivationObserver {
    fn observe(&self, activation: &Tensor, weight: &Tensor) -> (r: Result<(), Error>);
}

/// A thread's place for at most one observer.
#[derive(Debug)]
pub struct ObserverSlot<O: Bf16ActivationObserver> {
    installed: Option<O>,
}

/// Proof that an observer was installed, to be given back to remove it.
#[derive(Debug)]
pub struct Bf16ObserverGuard {
    installed: bool,
}

impl<O: Bf16ActivationObserver> View for ObserverSlot<O> {
    type V = Option<O>;

    closed spec fn view(&self) -> Option<O> {
        self.installed
    }
}

impl<O: Bf16ActivationObserver> ObserverSlot<O> {
    /// An empty slot.
    pub fn new() -> (slot: Self)
        ensures
            slot@ is None,
    {
        ObserverSlot { installed: None }
    }
}

/// Installs an observer where there is none.
pub fn install_bf16_observer<O: Bf16ActivationObserver>(
    slot: &mut ObserverSlot<O>,
    observer: O,
) -> (guard: Result<Bf16ObserverGuard, Error>)
    ensures
        match old(slot)@ {
            Some(_) => guard == Err::<Bf16ObserverGuard, Error>(Error::Other(OBSERVER_TEXT))
                && final(slot)@ == old(slot)@,
            None => guard is Ok && final(slot)@ == Some(observer),
        },
{
    if slot.installed.is_some() {
        return Err(Error::Other(OBSERVER_TEXT));
    }
    slot.installed = Some(observer);
    Ok(Bf16ObserverGuard { installed: true })
}

impl Bf16ObserverGuard {
    /// Removes the observer, so that another can be installed.
    pub fn release<O: Bf16ActivationObserver>(self, slot: &mut ObserverSlot<O>)
        ensures
            final(slot)@ is None,
    {
        slot.installed = None;
    }
}

/// Shows a GEMM's operands to the installed observer where both are BF16.
pub fn observe<O: Bf16ActivationObserver>(slot: &ObserverSlot<O>, args: &GemmArgs<'_>) -> (r:
    Result<(), Error>)
    ensures
        if args.a.dtype == DType::BF16 && args.b.dtype == DType::BF16 && slot@ is Some {
            call_ensures(O::observe, (&slot@.unwrap(), args.a, args.b), r)
        } else {
            r is Ok
        },
{
    if args.a.dtype != DType::BF16 || args.b.dtype != DType::BF16 {
        return Ok(());
    }
    match &slot.installed {
        Some(observer) => observer.observe(args.a, args.b),
        None => Ok(()),
    }
}

} // verus!
