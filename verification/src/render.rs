//! The renderer: step the assembled pipeline once per sample for the whole
//! duration of the sound.
//!
//! The rendered buffer is pinned exactly: it equals the spec-level run of
//! the pipeline model, so rendering the same sound at the same rate always
//! produces the same samples, and the buffer's length is the sound's
//! duration times the sample rate, rounded to the nearest sample.

use vstd::prelude::*;
use crate::env::{sr_ok, spec_total_samples};
use crate::net::{spec_build, NetModel};
use crate::types::Asyn;

verus! {

/// The pipeline model after `n` steps, with the samples it emitted.
pub open spec fn spec_run(m: NetModel, n: nat) -> (NetModel, Seq<i16>)
    decreases n,
{
    if n == 0 {
        (m, Seq::empty())
    } else {
        let prev = spec_run(m, (n - 1) as nat);
        let st = prev.0.spec_step();
        (st.0, prev.1.push(st.1))
    }
}

/// The buffer that sound `a` renders to at rate `sr`: the emissions of a
/// freshly built pipeline over the sound's whole duration.
pub open spec fn spec_render(a: Asyn, sr: int) -> Seq<i16> {
    spec_run(spec_build(a, sr), spec_total_samples(a.amplitude, sr) as nat).1
}

/// A run emits exactly one sample per step.
pub proof fn lemma_run_len(m: NetModel, n: nat)
    ensures
        spec_run(m, n).1.len() == n,
    decreases n,
{
    if n > 0 {
        lemma_run_len(m, (n - 1) as nat);
    }
}

/// Render `a` into a buffer of 16-bit samples at rate `sr`.
///
/// The result is a pure function of the sound description and the rate:
/// it equals `spec_render(a, sr)`, whose length is the envelope length
/// times the rate, rounded to the nearest whole sample. A sound of length
/// zero renders to an empty buffer.
pub fn render(a: &Asyn, sr: u32) -> (r: Vec<i16>)
    requires
        a.wf(),
        sr_ok(sr),
    ensures
        r@ == spec_render(*a, sr as int),
        r@.len() == spec_total_samples(a.amplitude, sr as int),
        a.amplitude.spec_len() == 0 ==> r@.len() == 0,
{
    let total = crate::env::total_samples(&a.amplitude, sr);
    let mut net = a.to_net(sr);
    let ghost m0 = net.model();
    let mut out: Vec<i16> = Vec::new();
    let mut i: i64 = 0;
    while i < total
        invariant
            0 <= i <= total,
            total == spec_total_samples(a.amplitude, sr as int),
            total <= 15_000_001,
            total > 0 ==> net.wf(),
            net.model() == spec_run(m0, i as nat).0,
            out@ == spec_run(m0, i as nat).1,
            out@.len() == i,
            net.pos == i,
            net.total == total,
            m0 == spec_build(*a, sr as int),
        decreases total - i,
    {
        let x = net.tick();
        out.push(x);
        i = i + 1;
    }
    proof {
        lemma_run_len(m0, total as nat);
    }
    out
}

impl Asyn {
    /// Render this sound at rate `sr`; see [`render`].
    pub fn render(&self, sr: u32) -> (r: Vec<i16>)
        requires
            self.wf(),
            sr_ok(sr),
        ensures
            r@ == spec_render(*self, sr as int),
            r@.len() == spec_total_samples(self.amplitude, sr as int),
    {
        render(self, sr)
    }
}

} // verus!
