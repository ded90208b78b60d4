//! The supplier chain: a fixed pipeline of stages, each of which owns the next one.
//!
//! From the outside in: fader, resampler, time stretcher, looper, recorder. The chain holds
//! no transport state.

use vstd::prelude::*;
use crate::recorder::Recorder;

verus! {

/// The stage that fades the material in and out.
#[derive(Debug)]
pub struct Fader<S> {
    pub supplier: S,
}

/// The stage that reads the material at another sample rate.
#[derive(Debug)]
pub struct Resampler<S> {
    pub supplier: S,
    pub enabled: bool,
}

/// The stage that changes the tempo of the material without changing its pitch.
#[derive(Debug)]
pub struct TimeStretcher<S> {
    pub supplier: S,
    pub enabled: bool,
}

/// The stage that repeats the material.
#[derive(Debug)]
pub struct Looper<S> {
    pub supplier: S,
    pub fades_enabled: bool,
}

impl<S> Fader<S> {
    pub fn new(supplier: S) -> (fader: Self)
        ensures
            fader.supplier == supplier,
    {
        Self { supplier }
    }

    pub fn supplier(&self) -> (supplier: &S)
        ensures
            *supplier == self.supplier,
    {
        &self.supplier
    }

    pub fn supplier_mut(&mut self) -> (supplier: &mut S)
        ensures
            *supplier == old(self).supplier,
            *final(self) == (Fader { supplier: *final(supplier) }),
    {
        &mut self.supplier
    }
}

impl<S> Resampler<S> {
    /// Creates a resampler that is switched off.
    pub fn new(supplier: S) -> (resampler: Self)
        ensures
            resampler.supplier == supplier,
            !resampler.enabled,
    {
        Self { supplier, enabled: false }
    }

    pub fn set_enabled(&mut self, enabled: bool)
        ensures
            final(self).enabled == enabled,
            final(self).supplier == old(self).supplier,
    {
        self.enabled = enabled;
    }

    pub fn supplier(&self) -> (supplier: &S)
        ensures
            *supplier == self.supplier,
    {
        &self.supplier
    }

    pub fn supplier_mut(&mut self) -> (supplier: &mut S)
        ensures
            *supplier == old(self).supplier,
            *final(self) == (Resampler { supplier: *final(supplier), enabled: old(self).enabled }),
    {
        &mut self.supplier
    }
}

impl<S> TimeStretcher<S> {
    /// Creates a time stretcher that is switched off.
    pub fn new(supplier: S) -> (time_stretcher: Self)
        ensures
            time_stretcher.supplier == supplier,
            !time_stretcher.enabled,
    {
        Self { supplier, enabled: false }
    }

    pub fn set_enabled(&mut self, enabled: bool)
        ensures
            final(self).enabled == enabled,
            final(self).supplier == old(self).supplier,
    {
        self.enabled = enabled;
    }

    pub fn supplier(&self) -> (supplier: &S)
        ensures
            *supplier == self.supplier,
    {
        &self.supplier
    }

    pub fn supplier_mut(&mut self) -> (supplier: &mut S)
        ensures
            *supplier == old(self).supplier,
            *final(self) == (TimeStretcher {
                supplier: *final(supplier),
                enabled: old(self).enabled,
            }),
    {
        &mut self.supplier
    }
}

impl<S> Looper<S> {
    /// Creates a looper without fades at the loop boundaries.
    pub fn new(supplier: S) -> (looper: Self)
        ensures
            looper.supplier == supplier,
            !looper.fades_enabled,
    {
        Self { supplier, fades_enabled: false }
    }

    pub fn set_fades_enabled(&mut self, fades_enabled: bool)
        ensures
            final(self).fades_enabled == fades_enabled,
            final(self).supplier == old(self).supplier,
    {
        self.fades_enabled = fades_enabled;
    }

    pub fn supplier(&self) -> (supplier: &S)
        ensures
            *supplier == self.supplier,
    {
        &self.supplier
    }

    pub fn supplier_mut(&mut self) -> (supplier: &mut S)
        ensures
            *supplier == old(self).supplier,
            *final(self) == (Looper {
                supplier: *final(supplier),
                fades_enabled: old(self).fades_enabled,
            }),
    {
        &mut self.supplier
    }
}

/// The chain of suppliers of one clip.
#[derive(Debug)]
pub struct SupplierChain<S, K, P, T> {
    head: Fader<Resampler<TimeStretcher<Looper<Recorder<S, K, P, T>>>>>,
}

impl<S, K, P, T> SupplierChain<S, K, P, T> {
    /// The outermost stage, which holds all others.
    pub closed spec fn spec_head(&self) -> Fader<
        Resampler<TimeStretcher<Looper<Recorder<S, K, P, T>>>>,
    > {
        self.head
    }

    /// The recorder at the inner end of the chain.
    pub open spec fn spec_recorder(&self) -> Recorder<S, K, P, T> {
        self.spec_head().supplier.supplier.supplier.supplier
    }

    /// Wires the stages around `recorder` and switches on resampling, time stretching and
    /// the fades of the looper.
    pub fn new(recorder: Recorder<S, K, P, T>) -> (chain: Self)
        ensures
            chain.spec_recorder() == recorder,
            chain.spec_head().supplier.enabled,
            chain.spec_head().supplier.supplier.enabled,
            chain.spec_head().supplier.supplier.supplier.fades_enabled,
    {
        let mut chain = Self {
            head: Fader::new(Resampler::new(TimeStretcher::new(Looper::new(recorder)))),
        };
        let resampler = chain.resampler_mut();
        resampler.set_enabled(true);
        let time_stretcher = chain.time_stretcher_mut();
        time_stretcher.set_enabled(true);
        let looper = chain.looper_mut();
        looper.set_fades_enabled(true);
        chain
    }

    pub fn head(&self) -> (head: &Fader<Resampler<TimeStretcher<Looper<Recorder<S, K, P, T>>>>>)
        ensures
            *head == self.spec_head(),
    {
        &self.head
    }

    pub fn head_mut(&mut self) -> (head: &mut Fader<
        Resampler<TimeStretcher<Looper<Recorder<S, K, P, T>>>>,
    >)
        ensures
            *head == old(self).spec_head(),
            final(self).spec_head() == *final(head),
    {
        &mut self.head
    }

    pub fn fader(&self) -> (fader: &Fader<Resampler<TimeStretcher<Looper<Recorder<S, K, P, T>>>>>)
        ensures
            *fader == self.spec_head(),
    {
        &self.head
    }

    pub fn fader_mut(&mut self) -> (fader: &mut Fader<
        Resampler<TimeStretcher<Looper<Recorder<S, K, P, T>>>>,
    >)
        ensures
            *fader == old(self).spec_head(),
            final(self).spec_head() == *final(fader),
    {
        &mut self.head
    }

    pub fn resampler(&self) -> (resampler: &Resampler<TimeStretcher<Looper<Recorder<S, K, P, T>>>>)
        ensures
            *resampler == self.spec_head().supplier,
    {
        self.head.supplier()
    }

    pub fn resampler_mut(&mut self) -> (resampler: &mut Resampler<
        TimeStretcher<Looper<Recorder<S, K, P, T>>>,
    >)
        ensures
            *resampler == old(self).spec_head().supplier,
            final(self).spec_head() == (Fader { supplier: *final(resampler) }),
    {
        self.head.supplier_mut()
    }

    pub fn time_stretcher(&self) -> (time_stretcher: &TimeStretcher<Looper<Recorder<S, K, P, T>>>)
        ensures
            *time_stretcher == self.spec_head().supplier.supplier,
    {
        self.resampler().supplier()
    }

    pub fn time_stretcher_mut(&mut self) -> (time_stretcher: &mut TimeStretcher<
        Looper<Recorder<S, K, P, T>>,
    >)
        ensures
            *time_stretcher == old(self).spec_head().supplier.supplier,
            final(self).spec_head() == (Fader {
                supplier: Resampler {
                    supplier: *final(time_stretcher),
                    enabled: old(self).spec_head().supplier.enabled,
                },
            }),
    {
        self.resampler_mut().supplier_mut()
    }

    pub fn looper(&self) -> (looper: &Looper<Recorder<S, K, P, T>>)
        ensures
            *looper == self.spec_head().supplier.supplier.supplier,
    {
        self.time_stretcher().supplier()
    }

    pub fn looper_mut(&mut self) -> (looper: &mut Looper<Recorder<S, K, P, T>>)
        ensures
            *looper == old(self).spec_head().supplier.supplier.supplier,
            final(self).spec_head() == (Fader {
                supplier: Resampler {
                    supplier: TimeStretcher {
                        supplier: *final(looper),
                        enabled: old(self).spec_head().supplier.supplier.enabled,
                    },
                    enabled: old(self).spec_head().supplier.enabled,
                },
            }),
    {
        self.time_stretcher_mut().supplier_mut()
    }

    pub fn recorder(&self) -> (recorder: &Recorder<S, K, P, T>)
        ensures
            *recorder == self.spec_recorder(),
    {
        self.looper().supplier()
    }

    pub fn recorder_mut(&mut self) -> (recorder: &mut Recorder<S, K, P, T>)
        ensures
            *recorder == old(self).spec_recorder(),
            final(self).spec_recorder() == *final(recorder),
            final(self).spec_head().supplier.enabled == old(self).spec_head().supplier.enabled,
            final(self).spec_head().supplier.supplier.enabled == old(
                self,
            ).spec_head().supplier.supplier.enabled,
            final(self).spec_head().supplier.supplier.supplier.fades_enabled == old(
                self,
            ).spec_head().supplier.supplier.supplier.fades_enabled,
    {
        self.looper_mut().supplier_mut()
    }
}

} // verus!
