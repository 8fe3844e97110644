use vstd::prelude::*;
use crate::text::{ascii_lowered, ascii_text, chars_of, has_infix, lowercase, parse_u32, parse_u32_spec, parse_usize, parse_usize_spec, split_once, split_once_at, text_contains, to_lowercase};
use crate::tts_error::TtsError;

verus! {

/// How capable the graphics hardware is.
#[derive(Debug, Clone, Copy, PartialEq, Eq, Structural)]
pub enum GpuTier {
    /// RTX 4090/5090, A100, H100: 16 GB or more with a recent architecture.
    HighEnd,
    /// RTX 3060-3080, RTX 4060-4070: 6 to 16 GB.
    MidRange,
    /// RTX 3050, GTX 1660: 4 to 6 GB.
    Modest,
    /// Less than 4 GB.
    LowEnd,
    /// No usable GPU.
    CpuOnly,
}

/// How a tier is written.
pub open spec fn tier_label(t: GpuTier) -> Seq<char> {
    match t {
        GpuTier::HighEnd => "High-End"@,
        GpuTier::MidRange => "Mid-Range"@,
        GpuTier::Modest => "Modest"@,
        GpuTier::LowEnd => "Low-End"@,
        GpuTier::CpuOnly => "CPU-Only"@,
    }
}

impl GpuTier {
    /// How the tier is written.
    pub fn name(&self) -> (s: &'static str)
        ensures
            s@ == tier_label(*self),
    {
        match self {
            GpuTier::HighEnd => "High-End",
            GpuTier::MidRange => "Mid-Range",
            GpuTier::Modest => "Modest",
            GpuTier::LowEnd => "Low-End",
            GpuTier::CpuOnly => "CPU-Only",
        }
    }
}

/// What was found of the graphics hardware.  Memory is counted in whole
/// megabytes (1024 per gigabyte), rounded down.
#[derive(Debug, Clone)]
pub struct GpuCapability {
    pub gpu_name: String,
    pub vram_total_mb: u32,
    pub compute_capability: Option<(u32, u32)>,
    pub tier: GpuTier,
}

/// The tier of a device by its lower-case name, its memory in megabytes
/// and its compute capability: known names first, then the memory.
pub open spec fn tier_for(name: Seq<char>, vram_mb: u32, cc: Option<(u32, u32)>) -> GpuTier {
    if has_infix(name, "rtx 4090"@) || has_infix(name, "rtx 5090"@) || has_infix(name, "a100"@)
        || has_infix(name, "h100"@) || (vram_mb >= 16384 && (cc matches Some(c) && c.0 >= 8)) {
        GpuTier::HighEnd
    } else if has_infix(name, "rtx 3080"@) || has_infix(name, "rtx 4070"@) || has_infix(name, "rtx 4060"@)
        || (6144 <= vram_mb && vram_mb < 16384) {
        GpuTier::MidRange
    } else if has_infix(name, "rtx 3050"@) || has_infix(name, "gtx 1660"@) || (4096 <= vram_mb && vram_mb < 6144) {
        GpuTier::Modest
    } else if 0 < vram_mb && vram_mb < 4096 {
        GpuTier::LowEnd
    } else {
        GpuTier::CpuOnly
    }
}

/// What the environment says of the hardware: whether CUDA is usable, and
/// the device name, memory and compute capability when they are given
/// (the memory as `Some(None)` when it was given but is not a number).
#[derive(Debug, Clone)]
pub struct GpuEnvironment {
    pub cuda_available: bool,
    pub gpu_name: Option<String>,
    pub vram_mb: Option<Option<u32>>,
    pub compute_capability: Option<String>,
}

/// A compute capability written `major.minor`.
pub open spec fn compute_capability_of(s: Seq<char>) -> Option<(u32, u32)> {
    match split_once(s, '.') {
        None => None,
        Some(parts) => match (parse_u32_spec(parts.0), parse_u32_spec(parts.1)) {
            (Some(major), Some(minor)) => Some((major, minor)),
            _ => None,
        },
    }
}

/// The view of an optional text.
pub open spec fn text_view(o: Option<String>) -> Option<Seq<char>> {
    match o {
        Some(s) => Some(s@),
        None => None,
    }
}

/// Classifies graphics hardware.
pub struct GpuDetector;

impl GpuDetector {
    /// The tier of a device (see `tier_for`), the name compared in lower
    /// case.
    pub fn classify_tier(gpu_name: &str, vram_mb: u32, compute_cap: Option<(u32, u32)>) -> (t: GpuTier)
        ensures
            t == tier_for(lowercase(gpu_name@), vram_mb, compute_cap),
            ascii_text(gpu_name@) ==> lowercase(gpu_name@) == ascii_lowered(gpu_name@),
    {
        let lower = to_lowercase(gpu_name);
        let n = lower.as_str();
        let recent = match compute_cap {
            Some(c) => c.0 >= 8,
            None => false,
        };
        if text_contains(n, "rtx 4090") || text_contains(n, "rtx 5090") || text_contains(n, "a100")
            || text_contains(n, "h100") || (vram_mb >= 16384 && recent) {
            return GpuTier::HighEnd;
        }
        if text_contains(n, "rtx 3080") || text_contains(n, "rtx 4070") || text_contains(n, "rtx 4060")
            || (6144 <= vram_mb && vram_mb < 16384) {
            return GpuTier::MidRange;
        }
        if text_contains(n, "rtx 3050") || text_contains(n, "gtx 1660") || (4096 <= vram_mb && vram_mb < 6144) {
            return GpuTier::Modest;
        }
        if 0 < vram_mb && vram_mb < 4096 {
            return GpuTier::LowEnd;
        }
        GpuTier::CpuOnly
    }

    /// Reads a compute capability written `major.minor`.
    pub fn parse_compute_capability(text: &str) -> (r: Option<(u32, u32)>)
        ensures
            r == compute_capability_of(text@),
    {
        let v = chars_of(text);
        let n = v.len();
        assert(v@.subrange(0, n as int) == v@);
        match split_once_at(v.as_slice(), 0, n, '.') {
            None => None,
            Some(i) => match (parse_u32(v.as_slice(), 0, i), parse_u32(v.as_slice(), i + 1, n)) {
                (Some(major), Some(minor)) => Some((major, minor)),
                _ => None,
            },
        }
    }

    /// The hardware as the environment describes it: without CUDA, the
    /// CPU; otherwise the given name ("Unknown GPU" when none), the given
    /// memory (8 GB when none; an error when it is not a number) and the
    /// given compute capability when it reads, classified by `tier_for`.
    pub fn detect(env: &GpuEnvironment) -> (res: Result<GpuCapability, TtsError>)
        ensures
            !env.cuda_available ==> (res matches Ok(c) && c.gpu_name@ == "CPU"@ && c.vram_total_mb == 0
                && c.compute_capability is None && c.tier == GpuTier::CpuOnly),
            env.cuda_available && env.vram_mb == Some(None::<u32>) ==> (res matches Err(TtsError::ModelLoad(m))
                && m@ == "Invalid VRAM value"@),
            env.cuda_available && env.vram_mb != Some(None::<u32>) ==> (res matches Ok(c)
                && c.gpu_name@ == (match text_view(env.gpu_name) { Some(s) => s, None => "Unknown GPU"@ })
                && c.vram_total_mb == (match env.vram_mb { Some(Some(m)) => m, _ => 8192 })
                && c.compute_capability == (match text_view(env.compute_capability) {
                    Some(s) => compute_capability_of(s),
                    None => None,
                })
                && c.tier == tier_for(lowercase(c.gpu_name@), c.vram_total_mb, c.compute_capability)),
    {
        if !env.cuda_available {
            return Ok(GpuCapability {
                gpu_name: String::from_str("CPU"),
                vram_total_mb: 0,
                compute_capability: None,
                tier: GpuTier::CpuOnly,
            });
        }
        let gpu_name = match &env.gpu_name {
            Some(name) => name.clone(),
            None => String::from_str("Unknown GPU"),
        };
        let vram_mb: u32 = match env.vram_mb {
            Some(Some(m)) => m,
            Some(None) => return Err(TtsError::ModelLoad(String::from_str("Invalid VRAM value"))),
            None => 8192,
        };
        let compute_capability = match &env.compute_capability {
            Some(text) => Self::parse_compute_capability(text.as_str()),
            None => None,
        };
        let tier = Self::classify_tier(gpu_name.as_str(), vram_mb, compute_capability);
        Ok(GpuCapability { gpu_name, vram_total_mb: vram_mb, compute_capability, tier })
    }
}

/// How much of the GPU to use.
#[derive(Debug, Clone, Copy, PartialEq, Eq, Structural)]
pub enum PerformanceProfile {
    /// Maximum GPU usage: the high-end settings.
    HighPerformance,
    /// Moderate GPU usage: the mid-range settings.
    Balanced,
    /// Conservative GPU usage: the modest settings.
    Modest,
    /// Chosen from the hardware's tier.
    Auto,
}

/// The tier whose settings a profile asks for: the hardware's own under
/// `Auto`.
pub open spec fn profile_tier(profile: PerformanceProfile, hardware: GpuTier) -> GpuTier {
    match profile {
        PerformanceProfile::HighPerformance => GpuTier::HighEnd,
        PerformanceProfile::Balanced => GpuTier::MidRange,
        PerformanceProfile::Modest => GpuTier::Modest,
        PerformanceProfile::Auto => hardware,
    }
}

impl Default for PerformanceProfile {
    fn default() -> (p: Self)
        ensures
            p == PerformanceProfile::Auto,
    {
        PerformanceProfile::Auto
    }
}

/// How synthesis uses the GPU.  The utilization target is in hundredths
/// and the pre-buffer in milliseconds.
#[derive(Debug, Clone, Copy, PartialEq, Eq, Structural)]
pub struct GpuConfig {
    /// Parallel CUDA streams (0 to 3).
    pub max_parallel_streams: usize,
    /// VRAM limit in megabytes; 0 is no limit.
    pub vram_limit_mb: usize,
    /// Target utilization, 30 to 95 hundredths (0 without a GPU).
    pub utilization_target_percent: u32,
    /// Audio to buffer before playback, 500 to 3000 ms.
    pub prebuffer_ms: u32,
    /// Yield the GPU between chunks.
    pub yield_between_chunks: bool,
    /// Let some work fall back to the CPU.
    pub cpu_fallback_enabled: bool,
}

/// The configuration of each tier.
pub open spec fn tier_config(t: GpuTier) -> GpuConfig {
    match t {
        GpuTier::HighEnd => GpuConfig { max_parallel_streams: 2, vram_limit_mb: 0, utilization_target_percent: 90,
            prebuffer_ms: 2500, yield_between_chunks: false, cpu_fallback_enabled: false },
        GpuTier::MidRange => GpuConfig { max_parallel_streams: 1, vram_limit_mb: 6144, utilization_target_percent: 70,
            prebuffer_ms: 1800, yield_between_chunks: false, cpu_fallback_enabled: true },
        GpuTier::Modest => GpuConfig { max_parallel_streams: 1, vram_limit_mb: 3072, utilization_target_percent: 50,
            prebuffer_ms: 1200, yield_between_chunks: true, cpu_fallback_enabled: true },
        GpuTier::LowEnd => GpuConfig { max_parallel_streams: 0, vram_limit_mb: 2048, utilization_target_percent: 40,
            prebuffer_ms: 800, yield_between_chunks: true, cpu_fallback_enabled: true },
        GpuTier::CpuOnly => GpuConfig { max_parallel_streams: 0, vram_limit_mb: 0, utilization_target_percent: 0,
            prebuffer_ms: 500, yield_between_chunks: true, cpu_fallback_enabled: true },
    }
}

/// Settings given from outside: the stream count and VRAM limit as
/// written, the utilization in hundredths and the pre-buffer in ms.
#[derive(Debug, Clone, Default)]
pub struct GpuOverrides {
    pub streams: Option<String>,
    pub vram_limit_mb: Option<String>,
    pub utilization_target_percent: Option<u32>,
    pub prebuffer_ms: Option<u32>,
}

/// `x` brought into `lo..=hi`.
pub open spec fn clamped(x: u32, lo: u32, hi: u32) -> u32 {
    if x < lo { lo } else if x > hi { hi } else { x }
}

/// The configuration with the overrides that read: at most 3 streams, a
/// utilization of 30 to 95 hundredths, a pre-buffer of 500 to 3000 ms.
pub open spec fn overridden(c: GpuConfig, o: GpuOverrides) -> GpuConfig {
    GpuConfig {
        max_parallel_streams: match text_view(o.streams) {
            Some(s) => match parse_usize_spec(s) {
                Some(n) => if n < 3 { n } else { 3 },
                None => c.max_parallel_streams,
            },
            None => c.max_parallel_streams,
        },
        vram_limit_mb: match text_view(o.vram_limit_mb) {
            Some(s) => match parse_usize_spec(s) {
                Some(n) => n,
                None => c.vram_limit_mb,
            },
            None => c.vram_limit_mb,
        },
        utilization_target_percent: match o.utilization_target_percent {
            Some(u) => clamped(u, 30, 95),
            None => c.utilization_target_percent,
        },
        prebuffer_ms: match o.prebuffer_ms {
            Some(p) => clamped(p, 500, 3000),
            None => c.prebuffer_ms,
        },
        ..c
    }
}

/// A written count, if it reads as one.
fn read_count(text: &Option<String>) -> (r: Option<usize>)
    ensures
        r == (match text_view(*text) {
            Some(s) => parse_usize_spec(s),
            None => None,
        }),
{
    match text {
        Some(s) => {
            let v = chars_of(s.as_str());
            assert(v@.subrange(0, v@.len() as int) == v@);
            parse_usize(v.as_slice(), 0, v.len())
        },
        None => None,
    }
}

fn clamp_u32(x: u32, lo: u32, hi: u32) -> (r: u32)
    requires
        lo <= hi,
    ensures
        r == clamped(x, lo, hi),
{
    if x < lo { lo } else if x > hi { hi } else { x }
}

impl GpuConfig {
    /// The configuration of a tier (see `tier_config`).
    fn for_tier(tier: GpuTier) -> (c: GpuConfig)
        ensures
            c == tier_config(tier),
    {
        match tier {
            GpuTier::HighEnd => GpuConfig { max_parallel_streams: 2, vram_limit_mb: 0, utilization_target_percent: 90,
                prebuffer_ms: 2500, yield_between_chunks: false, cpu_fallback_enabled: false },
            GpuTier::MidRange => GpuConfig { max_parallel_streams: 1, vram_limit_mb: 6144, utilization_target_percent: 70,
                prebuffer_ms: 1800, yield_between_chunks: false, cpu_fallback_enabled: true },
            GpuTier::Modest => GpuConfig { max_parallel_streams: 1, vram_limit_mb: 3072, utilization_target_percent: 50,
                prebuffer_ms: 1200, yield_between_chunks: true, cpu_fallback_enabled: true },
            GpuTier::LowEnd => GpuConfig { max_parallel_streams: 0, vram_limit_mb: 2048, utilization_target_percent: 40,
                prebuffer_ms: 800, yield_between_chunks: true, cpu_fallback_enabled: true },
            GpuTier::CpuOnly => GpuConfig { max_parallel_streams: 0, vram_limit_mb: 0, utilization_target_percent: 0,
                prebuffer_ms: 500, yield_between_chunks: true, cpu_fallback_enabled: true },
        }
    }

    /// The settings the profile asks for (those of the hardware's tier under
    /// `Auto`), with the overrides applied.
    pub fn from_capability(capability: &GpuCapability, profile: PerformanceProfile, overrides: &GpuOverrides)
        -> (res: Result<Self, TtsError>)
        ensures
            res matches Ok(c) && c == overridden(tier_config(profile_tier(profile, capability.tier)), *overrides),
    {
        let tier = match profile {
            PerformanceProfile::HighPerformance => GpuTier::HighEnd,
            PerformanceProfile::Balanced => GpuTier::MidRange,
            PerformanceProfile::Modest => GpuTier::Modest,
            PerformanceProfile::Auto => capability.tier,
        };
        let config = Self::for_tier(tier);
        Ok(config.apply_overrides(overrides))
    }

    /// Applies the overrides that read (see `overridden`).
    pub fn apply_overrides(self, overrides: &GpuOverrides) -> (c: Self)
        ensures
            c == overridden(self, *overrides),
    {
        let mut c = self;
        if let Some(n) = read_count(&overrides.streams) {
            c.max_parallel_streams = if n < 3 { n } else { 3 };
        }
        if let Some(n) = read_count(&overrides.vram_limit_mb) {
            c.vram_limit_mb = n;
        }
        if let Some(u) = overrides.utilization_target_percent {
            c.utilization_target_percent = clamp_u32(u, 30, 95);
        }
        if let Some(p) = overrides.prebuffer_ms {
            c.prebuffer_ms = clamp_u32(p, 500, 3000);
        }
        c
    }
}

} // verus!
