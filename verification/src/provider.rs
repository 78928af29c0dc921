use vstd::prelude::*;

use crate::config::TracerConfig;

verus! {

/// The observable behavior of a tracer: the instrumentation identity its
/// spans are attributed to, and whether it records at all. A tracer whose
/// `enabled` is false is inert (a no-op tracer).
#[verifier::ext_equal]
pub ghost struct TracerView {
    pub name: Seq<char>,
    pub version: Option<Seq<char>>,
    pub enabled: bool,
}

/// Why the flush of one span pipeline failed. Failures are reported per
/// pipeline as data, never escalated to a provider-level error.
#[derive(Clone, Copy, Debug, PartialEq, Eq, Structural)]
pub enum FlushError {
    /// The exporter behind the pipeline could not accept the spans.
    ExportFailed,
    /// The pipeline did not finish flushing in time.
    Timeout,
    /// The pipeline had already been shut down.
    AlreadyShutdown,
}

/// The fixed identity a provider substitutes when a caller supplies an
/// empty instrumentation name.
pub open spec fn default_tracer_name() -> Seq<char> {
    "default"@
}

/// An optional string as an optional sequence of characters.
pub open spec fn opt_str_view(v: Option<&'static str>) -> Option<Seq<char>> {
    match v {
        Some(s) => Some(s@),
        None => None,
    }
}

/// The version recorded in a config, as an optional sequence of characters.
pub open spec fn version_view(config: TracerConfig) -> Option<Seq<char>> {
    opt_str_view(config.version)
}

/// The name a provider resolves a config to: an empty name falls back to the
/// default identity, any other name is taken as given. Resolution never
/// fails, so callers never special-case a missing instrumentation name.
pub open spec fn resolved_name(config: TracerConfig) -> Seq<char> {
    if config.name@.len() == 0 {
        default_tracer_name()
    } else {
        config.name@
    }
}

/// An interface to create `Tracer` instances and to flush, on demand, every
/// span pipeline the provider owns.
///
/// Each implementation models itself with three spec functions: what any
/// tracer of its tracer type observably does (`tracer_view`), which tracer it
/// answers a given config with (`tracer_for`), and how a flush of each of its
/// pipelines ends (`flush_outcomes`). The two methods are then pinned to that
/// model, so repeated calls with an equal identity are answered equivalently.
pub trait TracerProvider {
    /// The `Tracer` type that this `TracerProvider` will return.
    type Tracer;

    /// The observable behavior of a tracer of this provider.
    spec fn tracer_view(t: Self::Tracer) -> TracerView;

    /// The behavior of the tracer this provider answers a config with.
    spec fn tracer_for(&self, config: TracerConfig) -> TracerView;

    /// The outcome of flushing each span pipeline this provider owns, in
    /// pipeline order.
    spec fn flush_outcomes(&self) -> Seq<Result<(), FlushError>>;

    /// Creates a named tracer instance. This never fails and never returns an
    /// absent value: an empty name is answered via the provider's default
    /// identity, and a suppressed provider answers with an inert tracer.
    fn get_tracer(&self, config: &TracerConfig) -> (r: Self::Tracer)
        ensures
            Self::tracer_view(r) == self.tracer_for(*config),
    ;

    /// Force flush all remaining spans of every pipeline and return the
    /// results: one entry per pipeline, in order, each reporting success or
    /// failure on its own. One failing pipeline never suppresses or skips
    /// the outcome of another, and no failure is escalated to the caller.
    fn force_flush(&self) -> (r: Vec<Result<(), FlushError>>)
        ensures
            r@ == self.flush_outcomes(),
    ;
}

} // verus!
