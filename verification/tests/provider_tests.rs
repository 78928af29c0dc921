use tracer_provider::config::tracer_config;
use tracer_provider::noop::NoopTracerProvider;
use tracer_provider::provider::TracerProvider;
use tracer_provider::sdk::SdkTracerProvider;

#[test]
fn empty_name_falls_back_to_default_identity() {
    let provider = SdkTracerProvider::new();
    let anonymous = provider.get_tracer(&tracer_config());
    let named = provider.get_tracer(&tracer_config().with_name("default"));
    assert_eq!(anonymous.name, "default");
    assert_eq!(anonymous.name, named.name);
    assert_eq!(anonymous.version, named.version);
    assert_eq!(anonymous.enabled, named.enabled);
}

#[test]
fn empty_name_with_version_keeps_the_version() {
    let provider = SdkTracerProvider::new();
    let tracer = provider.get_tracer(&tracer_config().with_version("2.1.0"));
    assert_eq!(tracer.name, "default");
    assert_eq!(tracer.version, Some("2.1.0"));
}

#[test]
fn repeated_calls_with_equal_identity_are_equivalent() {
    let provider = SdkTracerProvider::new();
    let config1 = tracer_config().with_name("io.example.lib").with_version("2.1.0");
    let config2 = tracer_config().with_name("io.example.lib").with_version("2.1.0");
    let first = provider.get_tracer(&config1);
    let second = provider.get_tracer(&config2);
    assert_eq!(first.name, second.name);
    assert_eq!(first.version, second.version);
    assert_eq!(first.enabled, second.enabled);
}

#[test]
fn pathological_names_still_get_a_tracer() {
    let provider = SdkTracerProvider::new();

    let long_name: &'static str = Box::leak("verylongname.".repeat(1000).into_boxed_str());
    let long = provider.get_tracer(&tracer_config().with_name(long_name));
    assert_eq!(long.name, long_name);
    assert!(long.enabled);

    let unicode = provider.get_tracer(&tracer_config().with_name("トレーサー-🧪-ü"));
    assert_eq!(unicode.name, "トレーサー-🧪-ü");
    assert!(unicode.enabled);

    let whitespace = provider.get_tracer(&tracer_config().with_name(" \t\n"));
    assert_eq!(whitespace.name, " \t\n");
}

#[test]
fn suppressed_provider_issues_inert_tracers() {
    let provider = SdkTracerProvider::new().with_suppressed(true);
    let tracer = provider.get_tracer(&tracer_config().with_name("io.example.lib"));
    assert!(!tracer.enabled);
    assert_eq!(tracer.name, "io.example.lib");
}

#[test]
fn unsuppressed_provider_issues_recording_tracers() {
    let provider = SdkTracerProvider::new();
    let tracer = provider.get_tracer(&tracer_config().with_name("io.example.lib"));
    assert!(tracer.enabled);
}

#[test]
fn noop_provider_ignores_identity_and_never_fails() {
    let provider = NoopTracerProvider::new();
    let _anonymous = provider.get_tracer(&tracer_config());
    let _named = provider.get_tracer(&tracer_config().with_name("io.example.lib"));
    let _versioned = provider.get_tracer(&tracer_config().with_name("a").with_version("1"));
}

#[test]
fn noop_provider_flush_reports_nothing() {
    let provider = NoopTracerProvider::new();
    let outcomes = provider.force_flush();
    assert!(outcomes.is_empty());
}
