use vrpg::gpu::{GpuCapability, GpuConfig, GpuDetector, GpuEnvironment, GpuOverrides, GpuTier, PerformanceProfile};
use vrpg::tts_error::TtsError;

// Memory is given in megabytes: 24 GB is 24 * 1024 MB.

#[test]
fn test_tier_classification_high_end() {
    let tier = GpuDetector::classify_tier("RTX 4090", 24 * 1024, Some((8, 9)));
    assert_eq!(tier, GpuTier::HighEnd);
}

#[test]
fn test_tier_classification_mid_range() {
    let tier = GpuDetector::classify_tier("RTX 3080", 10 * 1024, Some((8, 6)));
    assert_eq!(tier, GpuTier::MidRange);
}

#[test]
fn test_tier_classification_modest() {
    let tier = GpuDetector::classify_tier("RTX 3050", 4 * 1024, Some((8, 6)));
    assert_eq!(tier, GpuTier::Modest);
}

#[test]
fn test_tier_classification_low_end() {
    let tier = GpuDetector::classify_tier("GTX 1050", 2 * 1024, Some((6, 1)));
    assert_eq!(tier, GpuTier::LowEnd);
}

#[test]
fn test_tier_classification_cpu_only() {
    let tier = GpuDetector::classify_tier("CPU", 0, None);
    assert_eq!(tier, GpuTier::CpuOnly);
}

#[test]
fn test_high_end_config() {
    let capability = GpuCapability {
        gpu_name: "RTX 4090".to_string(),
        vram_total_mb: 24 * 1024,
        compute_capability: Some((8, 9)),
        tier: GpuTier::HighEnd,
    };

    let config = GpuConfig::from_capability(&capability, PerformanceProfile::Auto, &GpuOverrides::default()).unwrap();
    assert_eq!(config.max_parallel_streams, 2);
    assert_eq!(config.vram_limit_mb, 0);
    assert_eq!(config.utilization_target_percent, 90);
}

#[test]
fn test_modest_config() {
    let capability = GpuCapability {
        gpu_name: "RTX 3050".to_string(),
        vram_total_mb: 4 * 1024,
        compute_capability: Some((8, 6)),
        tier: GpuTier::Modest,
    };

    let config = GpuConfig::from_capability(&capability, PerformanceProfile::Auto, &GpuOverrides::default()).unwrap();
    assert_eq!(config.max_parallel_streams, 1);
    assert_eq!(config.vram_limit_mb, 3072);
    assert!(config.yield_between_chunks);
}

#[test]
fn gpu_tier_by_name_and_memory() {
    assert_eq!(GpuDetector::classify_tier("NVIDIA A100-SXM4", 1024, None), GpuTier::HighEnd);
    assert_eq!(GpuDetector::classify_tier("Unknown GPU", 16 * 1024, Some((8, 0))), GpuTier::HighEnd);
    assert_eq!(GpuDetector::classify_tier("Unknown GPU", 16 * 1024, Some((7, 5))), GpuTier::CpuOnly);
    assert_eq!(GpuDetector::classify_tier("Unknown GPU", 6 * 1024 - 1, None), GpuTier::Modest);
    assert_eq!(GpuDetector::classify_tier("geforce gtx 1660 super", 0, None), GpuTier::Modest);
    assert_eq!(GpuDetector::classify_tier("Unknown GPU", 1, None), GpuTier::LowEnd);
    assert_eq!(GpuTier::MidRange.name(), "Mid-Range");
    assert_eq!(GpuTier::CpuOnly.name(), "CPU-Only");
}

#[test]
fn gpu_compute_capability_text() {
    assert_eq!(GpuDetector::parse_compute_capability("8.6"), Some((8, 6)));
    assert_eq!(GpuDetector::parse_compute_capability("+7.5"), Some((7, 5)));
    assert_eq!(GpuDetector::parse_compute_capability("8"), None);
    assert_eq!(GpuDetector::parse_compute_capability("8.6.1"), None);
    assert_eq!(GpuDetector::parse_compute_capability("x.6"), None);
}

#[test]
fn gpu_detect_from_environment() {
    let cpu = GpuDetector::detect(&GpuEnvironment {
        cuda_available: false,
        gpu_name: Some("RTX 4090".to_string()),
        vram_mb: None,
        compute_capability: None,
    })
    .unwrap();
    assert_eq!(cpu.gpu_name, "CPU");
    assert_eq!(cpu.tier, GpuTier::CpuOnly);

    let default = GpuDetector::detect(&GpuEnvironment {
        cuda_available: true,
        gpu_name: None,
        vram_mb: None,
        compute_capability: Some("8.9".to_string()),
    })
    .unwrap();
    assert_eq!(default.gpu_name, "Unknown GPU");
    assert_eq!(default.vram_total_mb, 8192);
    assert_eq!(default.compute_capability, Some((8, 9)));
    assert_eq!(default.tier, GpuTier::MidRange);

    match GpuDetector::detect(&GpuEnvironment {
        cuda_available: true,
        gpu_name: None,
        vram_mb: Some(None),
        compute_capability: None,
    }) {
        Err(TtsError::ModelLoad(m)) => assert_eq!(m, "Invalid VRAM value"),
        other => panic!("unexpected {:?}", other),
    }
}

#[test]
fn gpu_config_overrides() {
    let capability = GpuCapability {
        gpu_name: "GTX 1050".to_string(),
        vram_total_mb: 2048,
        compute_capability: None,
        tier: GpuTier::LowEnd,
    };
    let overrides = GpuOverrides {
        streams: Some("7".to_string()),
        vram_limit_mb: Some("4096".to_string()),
        utilization_target_percent: Some(99),
        prebuffer_ms: Some(100),
    };
    let c = GpuConfig::from_capability(&capability, PerformanceProfile::HighPerformance, &overrides).unwrap();
    assert_eq!(c.max_parallel_streams, 3);
    assert_eq!(c.vram_limit_mb, 4096);
    assert_eq!(c.utilization_target_percent, 95);
    assert_eq!(c.prebuffer_ms, 500);
    assert!(!c.yield_between_chunks);

    let bad = GpuOverrides { streams: Some("many".to_string()), vram_limit_mb: Some("-1".to_string()), ..GpuOverrides::default() };
    let c = GpuConfig::from_capability(&capability, PerformanceProfile::Auto, &bad).unwrap();
    assert_eq!(c.max_parallel_streams, 0);
    assert_eq!(c.vram_limit_mb, 2048);
    assert_eq!(c.utilization_target_percent, 40);
    assert_eq!(c.prebuffer_ms, 800);
    assert_eq!(PerformanceProfile::default(), PerformanceProfile::Auto);
}

#[test]
fn profile_chooses_the_settings() {
    let capability = GpuCapability {
        gpu_name: "RTX 3050".to_string(),
        vram_total_mb: 4 * 1024,
        compute_capability: Some((8, 6)),
        tier: GpuTier::Modest,
    };
    let none = GpuOverrides::default();
    let high = GpuConfig::from_capability(&capability, PerformanceProfile::HighPerformance, &none).unwrap();
    assert_eq!(high.max_parallel_streams, 2);
    assert_eq!(high.vram_limit_mb, 0);
    assert_eq!(high.utilization_target_percent, 90);
    assert_eq!(high.prebuffer_ms, 2500);
    assert!(!high.yield_between_chunks);
    let balanced = GpuConfig::from_capability(&capability, PerformanceProfile::Balanced, &none).unwrap();
    assert_eq!(balanced.vram_limit_mb, 6144);
    assert_eq!(balanced.prebuffer_ms, 1800);
    let auto = GpuConfig::from_capability(&capability, PerformanceProfile::Auto, &none).unwrap();
    assert_eq!(auto.vram_limit_mb, 3072);
    let big = GpuCapability { tier: GpuTier::HighEnd, ..capability };
    let modest = GpuConfig::from_capability(&big, PerformanceProfile::Modest, &none).unwrap();
    assert_eq!(modest.max_parallel_streams, 1);
    assert_eq!(modest.vram_limit_mb, 3072);
    assert!(modest.yield_between_chunks);
}
