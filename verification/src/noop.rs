use vstd::prelude::*;

use crate::config::TracerConfig;
use crate::provider::FlushError;
use crate::provider::TracerProvider;
use crate::provider::TracerView;
use crate::provider::default_tracer_name;

verus! {

/// A tracer whose operations perform no observable work. Used when a
/// backend does not support named functionality or when telemetry is
/// suppressed: callers still get a usable tracer, never an error.
#[derive(Clone, Copy, Debug)]
pub struct NoopTracer;

/// A provider that ignores the requested name and version entirely and
/// returns one shared inert tracer for every call. It owns no span
/// pipelines, so a flush has nothing to report.
#[derive(Clone, Copy, Debug)]
pub struct NoopTracerProvider;

impl NoopTracerProvider {
    /// A provider whose every tracer is inert.
    pub fn new() -> (r: Self)
    {
        NoopTracerProvider
    }
}

impl TracerProvider for NoopTracerProvider {
    type Tracer = NoopTracer;

    open spec fn tracer_view(t: NoopTracer) -> TracerView {
        TracerView { name: default_tracer_name(), version: None, enabled: false }
    }

    open spec fn tracer_for(&self, config: TracerConfig) -> TracerView {
        TracerView { name: default_tracer_name(), version: None, enabled: false }
    }

    open spec fn flush_outcomes(&self) -> Seq<Result<(), FlushError>> {
        Seq::empty()
    }

    fn get_tracer(&self, config: &TracerConfig) -> (r: NoopTracer)
    {
        NoopTracer
    }

    fn force_flush(&self) -> (r: Vec<Result<(), FlushError>>)
    {
        let r: Vec<Result<(), FlushError>> = Vec::new();
        assert(r@ =~= self.flush_outcomes());
        r
    }
}

/// A backend without named functionality may legally ignore the requested
/// name and version: this provider answers every config, whatever its
/// identity, with the one shared inert tracer.
pub proof fn lemma_noop_ignores_identity(
    provider: NoopTracerProvider,
    first: TracerConfig,
    second: TracerConfig,
)
    ensures
        provider.tracer_for(first) == provider.tracer_for(second),
        !provider.tracer_for(first).enabled,
{
}

} // verus!
