use vstd::prelude::*;

use crate::config::TracerConfig;
use crate::provider::FlushError;
use crate::provider::TracerProvider;
use crate::provider::TracerView;
use crate::provider::default_tracer_name;
use crate::provider::opt_str_view;
use crate::provider::resolved_name;
use crate::provider::version_view;

verus! {

/// The administrative state of one span-processing pipeline. It determines
/// how a flush of that pipeline ends; the pipeline's buffering and export
/// machinery itself is outside this core.
#[derive(Clone, Copy, Debug, PartialEq, Eq, Structural)]
pub enum PipelineStatus {
    /// The exporter is reachable: a flush succeeds.
    Active,
    /// The exporter cannot accept spans: a flush reports `ExportFailed`.
    ExporterUnavailable,
    /// The exporter does not answer in time: a flush reports `Timeout`.
    Unresponsive,
    /// The pipeline was shut down: a flush reports `AlreadyShutdown`.
    ShutDown,
}

/// One span-processing pipeline owned by a provider.
#[derive(Clone, Copy, Debug, PartialEq, Eq, Structural)]
pub struct SpanPipeline {
    /// The state that decides this pipeline's flush outcome.
    pub status: PipelineStatus,
}

/// The outcome a flush of a pipeline reports, as a function of that pipeline
/// alone: what one pipeline reports never depends on any other.
pub open spec fn pipeline_flush_outcome(p: SpanPipeline) -> Result<(), FlushError> {
    match p.status {
        PipelineStatus::Active => Ok(()),
        PipelineStatus::ExporterUnavailable => Err(FlushError::ExportFailed),
        PipelineStatus::Unresponsive => Err(FlushError::Timeout),
        PipelineStatus::ShutDown => Err(FlushError::AlreadyShutdown),
    }
}

impl SpanPipeline {
    /// A pipeline in the given administrative state.
    pub fn new(status: PipelineStatus) -> (r: Self)
        ensures
            r.status == status,
    {
        SpanPipeline { status }
    }

    /// Flush this pipeline's buffered spans, reporting success or the
    /// specific failure.
    pub fn flush(&self) -> (r: Result<(), FlushError>)
        ensures
            r == pipeline_flush_outcome(*self),
    {
        match self.status {
            PipelineStatus::Active => Ok(()),
            PipelineStatus::ExporterUnavailable => Err(FlushError::ExportFailed),
            PipelineStatus::Unresponsive => Err(FlushError::Timeout),
            PipelineStatus::ShutDown => Err(FlushError::AlreadyShutdown),
        }
    }
}

/// A tracer of the exporting backend, scoped to a resolved instrumentation
/// identity. When `enabled` is false the tracer is inert: the provider was
/// administratively suppressed when it was issued.
#[derive(Clone, Copy, Debug)]
pub struct SdkTracer {
    /// The resolved instrumentation name; never empty.
    pub name: &'static str,
    /// The instrumentation version, as requested.
    pub version: Option<&'static str>,
    /// Whether this tracer records at all.
    pub enabled: bool,
}

/// A provider for an exporting backend. It resolves every requested identity
/// (an empty name falls back to the default identity), answers with a tracer
/// scoped to that identity, and owns the span pipelines that a provider-wide
/// flush visits.
#[derive(Debug)]
pub struct SdkTracerProvider {
    /// The span pipelines this provider owns, in registration order.
    pub pipelines: Vec<SpanPipeline>,
    /// Whether telemetry from this provider is administratively suppressed:
    /// a suppressed provider issues inert tracers rather than failing.
    pub suppressed: bool,
}

impl SdkTracerProvider {
    /// A provider with no pipelines and telemetry not suppressed.
    pub fn new() -> (r: Self)
        ensures
            r.pipelines@ == Seq::<SpanPipeline>::empty(),
            !r.suppressed,
    {
        let r = SdkTracerProvider { pipelines: Vec::new(), suppressed: false };
        assert(r.pipelines@ =~= Seq::<SpanPipeline>::empty());
        r
    }

    /// Register one more span pipeline, consuming and returning the provider.
    pub fn with_pipeline(self, pipeline: SpanPipeline) -> (r: Self)
        ensures
            r.pipelines@ == self.pipelines@.push(pipeline),
            r.suppressed == self.suppressed,
    {
        let mut pipelines = self.pipelines;
        pipelines.push(pipeline);
        SdkTracerProvider { pipelines, suppressed: self.suppressed }
    }

    /// Set whether telemetry is administratively suppressed, consuming and
    /// returning the provider.
    pub fn with_suppressed(self, suppressed: bool) -> (r: Self)
        ensures
            r.pipelines@ == self.pipelines@,
            r.suppressed == suppressed,
    {
        SdkTracerProvider { pipelines: self.pipelines, suppressed }
    }
}

impl TracerProvider for SdkTracerProvider {
    type Tracer = SdkTracer;

    open spec fn tracer_view(t: SdkTracer) -> TracerView {
        TracerView { name: t.name@, version: opt_str_view(t.version), enabled: t.enabled }
    }

    open spec fn tracer_for(&self, config: TracerConfig) -> TracerView {
        TracerView {
            name: resolved_name(config),
            version: version_view(config),
            enabled: !self.suppressed,
        }
    }

    open spec fn flush_outcomes(&self) -> Seq<Result<(), FlushError>> {
        self.pipelines@.map_values(|p: SpanPipeline| pipeline_flush_outcome(p))
    }

    fn get_tracer(&self, config: &TracerConfig) -> (r: SdkTracer)
    {
        let name: &'static str = if config.name.unicode_len() == 0 {
            "default"
        } else {
            config.name
        };
        SdkTracer { name, version: config.version, enabled: !self.suppressed }
    }

    fn force_flush(&self) -> (r: Vec<Result<(), FlushError>>)
    {
        let mut results: Vec<Result<(), FlushError>> = Vec::new();
        let mut i: usize = 0;
        while i < self.pipelines.len()
            invariant
                i <= self.pipelines@.len(),
                results@.len() == i,
                forall|k: int| 0 <= k < i ==> results@[k] == self.flush_outcomes()[k],
            decreases self.pipelines@.len() - i,
        {
            let outcome = self.pipelines[i].flush();
            results.push(outcome);
            i = i + 1;
        }
        assert(results@ =~= self.flush_outcomes());
        results
    }
}

/// An empty instrumentation name falls back to the provider's default
/// identity: the tracer answered for a config with an empty name behaves
/// exactly as the tracer answered for a config naming the default identity
/// outright, version for version.
pub proof fn lemma_empty_name_uses_default_identity(
    provider: SdkTracerProvider,
    anonymous: TracerConfig,
    named: TracerConfig,
)
    requires
        anonymous.name@.len() == 0,
        named.name@ == default_tracer_name(),
        version_view(named) == version_view(anonymous),
    ensures
        provider.tracer_for(anonymous) == provider.tracer_for(named),
{
    assert(provider.tracer_for(anonymous) =~= provider.tracer_for(named));
}

/// Requesting a tracer is deterministic in the identity: two calls with an
/// equal `(name, version)` pair are answered with tracers of equal
/// observable behavior.
pub proof fn lemma_get_tracer_deterministic(
    provider: SdkTracerProvider,
    first: TracerConfig,
    second: TracerConfig,
)
    requires
        first.name@ == second.name@,
        version_view(first) == version_view(second),
    ensures
        provider.tracer_for(first) == provider.tracer_for(second),
{
    assert(provider.tracer_for(first) =~= provider.tracer_for(second));
}

/// A flush on a provider that owns no pipelines reports an empty outcome
/// sequence: nothing to flush is not a failure.
pub proof fn lemma_flush_with_no_pipelines_is_empty(provider: SdkTracerProvider)
    requires
        provider.pipelines@.len() == 0,
    ensures
        provider.flush_outcomes() == Seq::<Result<(), FlushError>>::empty(),
{
    assert(provider.flush_outcomes() =~= Seq::<Result<(), FlushError>>::empty());
}

/// A flush visits every pipeline unconditionally and reports each on its
/// own: the outcome sequence has exactly one entry per pipeline, each entry
/// is a function of its own pipeline alone, and an entry succeeds exactly
/// when its pipeline is active. A failing pipeline therefore never
/// suppresses or skips the report on any other.
pub proof fn lemma_flush_reports_every_pipeline(provider: SdkTracerProvider)
    ensures
        provider.flush_outcomes().len() == provider.pipelines@.len(),
        forall|k: int| 0 <= k < provider.pipelines@.len() ==>
            provider.flush_outcomes()[k] == pipeline_flush_outcome(provider.pipelines@[k]),
        forall|k: int| 0 <= k < provider.pipelines@.len() ==>
            (provider.flush_outcomes()[k] is Ok
                <==> provider.pipelines@[k].status == PipelineStatus::Active),
{
}

} // verus!
