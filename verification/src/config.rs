use vstd::prelude::*;

verus! {

/// Parameters to pass to a `TracerProvider`'s `get_tracer` method: the
/// identity of the requesting instrumentation library. Immutable once built;
/// a provider reads it, never changes it.
#[derive(Clone, Copy, Debug)]
#[non_exhaustive]
pub struct TracerConfig {
    /// The name of the instrumentation library (not the instrumented one).
    /// May be empty: a provider then falls back to its default identity.
    pub name: &'static str,
    /// The version of the instrumentation library, if any.
    pub version: Option<&'static str>,
}

impl TracerConfig {
    /// Specify the name of the `Tracer`, consuming and returning the config.
    pub fn with_name(self, name: &'static str) -> (r: Self)
        ensures
            r.name == name,
            r.version == self.version,
    {
        TracerConfig { name, version: self.version }
    }

    /// Specify the version of the `Tracer`, consuming and returning the config.
    pub fn with_version(self, version: &'static str) -> (r: Self)
        ensures
            r.name == self.name,
            r.version == Some(version),
    {
        TracerConfig { name: self.name, version: Some(version) }
    }
}

impl Default for TracerConfig {
    /// The anonymous identity: an empty name and no version.
    fn default() -> (r: Self)
        ensures
            r.name@ == Seq::<char>::empty(),
            r.version is None,
    {
        proof {
            reveal_strlit("");
        }
        let r = TracerConfig { name: "", version: None };
        assert(r.name@ =~= Seq::<char>::empty());
        r
    }
}

/// Default `Tracer` configuration: an empty name and no version.
pub fn tracer_config() -> (r: TracerConfig)
    ensures
        r.name@ == Seq::<char>::empty(),
        r.version is None,
{
    TracerConfig::default()
}

} // verus!
