//! Geometry resolution: the initial pixel size of a new window, computed
//! from the monitor's dimensions and a percentage/aspect-ratio
//! configuration, with fixed fallback dimensions when no monitor is known.

use vstd::prelude::*;

verus! {

/// Height of the custom title bar in logical pixels.
pub const TITLE_BAR_HEIGHT: u64 = 20;

/// Pixel size of a monitor, as the host windowing system reports it.
#[derive(Clone, Copy, PartialEq, Eq, Structural, Debug)]
pub struct MonitorSize {
    pub width: u32,
    pub height: u32,
}

/// How a window's height is chosen: as a percentage of the screen height,
/// or from the resolved width by a width:height aspect ratio.
#[derive(Clone, Copy, PartialEq, Eq, Structural, Debug)]
pub enum HeightRule {
    ScreenPercent(u64),
    AspectRatio(u64, u64),
}

/// Window sizing configuration: width as a percentage of the screen width,
/// a height rule, and fixed fallback dimensions for when monitor detection
/// fails.
#[derive(Clone, Copy, PartialEq, Eq, Structural, Debug)]
pub struct GeometryConfig {
    pub width_percent: u64,
    pub height_rule: HeightRule,
    pub fallback_width: u64,
    pub fallback_height: u64,
}

impl GeometryConfig {
    pub open spec fn valid(&self) -> bool {
        &&& 1 <= self.width_percent <= 100
        &&& 1 <= self.fallback_width
        &&& 1 <= self.fallback_height
        &&& match self.height_rule {
            HeightRule::ScreenPercent(p) => 1 <= p <= 100,
            HeightRule::AspectRatio(aw, ah) => 1 <= aw <= 10000 && 1 <= ah <= 10000,
        }
    }
}

/// Whether a configuration is well-formed: positive percentages of at
/// most 100, positive bounded aspect parts, positive fallbacks.
pub fn config_is_valid(cfg: &GeometryConfig) -> (r: bool)
    ensures
        r == cfg.valid(),
{
    let rule_ok: bool = match cfg.height_rule {
        HeightRule::ScreenPercent(p) => 1 <= p && p <= 100,
        HeightRule::AspectRatio(aw, ah) => 1 <= aw && aw <= 10000 && 1 <= ah && ah <= 10000,
    };
    1 <= cfg.width_percent && cfg.width_percent <= 100 && 1 <= cfg.fallback_width && 1
        <= cfg.fallback_height && rule_ok
}

/// v * num / den, rounded half up.
pub open spec fn rounded_ratio(v: int, num: int, den: int) -> int
    recommends
        den >= 1,
{
    (2 * v * num + den) / (2 * den)
}

pub open spec fn at_least_one(v: int) -> int {
    if v < 1 {
        1
    } else {
        v
    }
}

pub open spec fn resolved_width_spec(screen_width: u32, cfg: GeometryConfig) -> int {
    at_least_one(rounded_ratio(screen_width as int, cfg.width_percent as int, 100))
}

pub open spec fn resolved_height_spec(monitor: MonitorSize, cfg: GeometryConfig) -> int {
    match cfg.height_rule {
        HeightRule::ScreenPercent(p) => at_least_one(
            rounded_ratio(monitor.height as int, p as int, 100),
        ),
        HeightRule::AspectRatio(aw, ah) => at_least_one(
            rounded_ratio(resolved_width_spec(monitor.width, cfg), ah as int, aw as int),
        ),
    }
}

/// A window's pixel size.
#[derive(Clone, Copy, PartialEq, Eq, Structural, Debug)]
pub struct WindowSize {
    pub width: u64,
    pub height: u64,
}

pub open spec fn resolve_spec(monitor: Option<MonitorSize>, cfg: GeometryConfig) -> WindowSize {
    match monitor {
        None => WindowSize { width: cfg.fallback_width, height: cfg.fallback_height },
        Some(m) => WindowSize {
            width: resolved_width_spec(m.width, cfg) as u64,
            height: resolved_height_spec(m, cfg) as u64,
        },
    }
}

/// Computes the initial size of a new window. With a monitor, the width is
/// the configured percentage of the screen width (rounded), and the height
/// follows the configured rule; without one, the fixed fallback dimensions
/// are used. The result is always positive in both dimensions.
pub fn resolve_window_size(monitor: Option<MonitorSize>, cfg: &GeometryConfig) -> (r: WindowSize)
    requires
        cfg.valid(),
    ensures
        r == resolve_spec(monitor, *cfg),
        monitor matches Some(m) ==> r.width == resolved_width_spec(m.width, *cfg) && r.height
            == resolved_height_spec(m, *cfg),
        1 <= r.width,
        1 <= r.height,
{
    match monitor {
        None => WindowSize { width: cfg.fallback_width, height: cfg.fallback_height },
        Some(m) => {
            let sw: u64 = m.width as u64;
            let num: u64 = cfg.width_percent;
            assert((2 * sw) * num <= 0x2_0000_0000u64 * 100) by (nonlinear_arith)
                requires
                    2 * sw <= 0x2_0000_0000u64,
                    num <= 100,
            ;
            let w_raw: u64 = (2 * sw * num + 100) / 200;
            assert(w_raw <= 0x1_0000_0001u64);
            let w: u64 = if w_raw < 1 {
                1
            } else {
                w_raw
            };
            let h: u64 = match cfg.height_rule {
                HeightRule::ScreenPercent(p) => {
                    let sh: u64 = m.height as u64;
                    assert((2 * sh) * p <= 0x2_0000_0000u64 * 100) by (nonlinear_arith)
                        requires
                            2 * sh <= 0x2_0000_0000u64,
                            p <= 100,
                    ;
                    let h_raw: u64 = (2 * sh * p + 100) / 200;
                    if h_raw < 1 {
                        1
                    } else {
                        h_raw
                    }
                },
                HeightRule::AspectRatio(aw, ah) => {
                    assert((2 * w) * ah <= 0x4_0000_0004u64 * 10000) by (nonlinear_arith)
                        requires
                            2 * w <= 0x4_0000_0004u64,
                            ah <= 10000,
                    ;
                    let h_raw: u64 = (2 * w * ah + aw) / (2 * aw);
                    if h_raw < 1 {
                        1
                    } else {
                        h_raw
                    }
                },
            };
            WindowSize { width: w, height: h }
        },
    }
}

/// The sizing configuration of a content browser window: 73% of the screen
/// width, height from a 7:4 aspect ratio, 1400 x 800 fallback.
pub fn content_window_config() -> (r: GeometryConfig)
    ensures
        r == (GeometryConfig {
            width_percent: 73,
            height_rule: HeightRule::AspectRatio(7, 4),
            fallback_width: 1400,
            fallback_height: 800,
        }),
        r.valid(),
{
    GeometryConfig {
        width_percent: 73,
        height_rule: HeightRule::AspectRatio(7, 4),
        fallback_width: 1400,
        fallback_height: 800,
    }
}

/// The sizing configuration of the main panel window: 47% of the screen
/// width, height from a 3:2 aspect ratio, 1400 x 800 fallback.
pub fn panel_config() -> (r: GeometryConfig)
    ensures
        r == (GeometryConfig {
            width_percent: 47,
            height_rule: HeightRule::AspectRatio(3, 2),
            fallback_width: 1400,
            fallback_height: 800,
        }),
        r.valid(),
{
    GeometryConfig {
        width_percent: 47,
        height_rule: HeightRule::AspectRatio(3, 2),
        fallback_width: 1400,
        fallback_height: 800,
    }
}

} // verus!
