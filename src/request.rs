use vstd::prelude::*;

use crate::config::{ModeSetting, OutputConfig, OutputState, Position, Scale, Transform};

verus! {

/// One of the modes an output advertises: size in pixels, refresh in millihertz.
#[derive(Clone, Copy, Debug, PartialEq, Eq, Structural)]
pub struct OutputMode {
    pub width: i32,
    pub height: i32,
    pub refresh: i32,
}

/// A requested mode: one of the output's known modes, or a custom size with
/// an optional refresh rate.
#[derive(Clone, Copy, Debug, PartialEq, Eq, Structural)]
pub enum ModeConfiguration {
    Mode(OutputMode),
    Custom { width: i32, height: i32, refresh: Option<i32> },
}

/// A requested change to one output. Fields of `Enabled` that are `None`
/// leave the corresponding part of the record as it is.
#[derive(Clone, Copy, Debug, PartialEq, Eq, Structural)]
pub enum OutputConfiguration {
    Enabled {
        mirroring: Option<usize>,
        mode: Option<ModeConfiguration>,
        scale: Option<Scale>,
        transform: Option<Transform>,
        position: Option<Position>,
        adaptive_sync: Option<bool>,
    },
    Disabled,
}

/// A refresh rate reinterpreted as unsigned, two's complement wrapping.
pub open spec fn refresh_bits(r: i32) -> u32 {
    if r >= 0 {
        r as u32
    } else {
        (r + 0x1_0000_0000) as u32
    }
}

/// The mode setting that a requested mode stands for.
pub open spec fn mode_setting(m: ModeConfiguration) -> ModeSetting {
    match m {
        ModeConfiguration::Mode(mode) => ModeSetting {
            width: mode.width,
            height: mode.height,
            refresh: Some(refresh_bits(mode.refresh)),
        },
        ModeConfiguration::Custom { width, height, refresh } => ModeSetting {
            width,
            height,
            refresh: match refresh {
                Some(r) => Some(refresh_bits(r)),
                None => None,
            },
        },
    }
}

/// The value requested if there is one, else the current value.
pub open spec fn or_keep<T>(requested: Option<T>, current: T) -> T {
    match requested {
        Some(v) => v,
        None => current,
    }
}

/// The record that results from applying one request to a record.
pub open spec fn configured(c: OutputConfig, req: OutputConfiguration) -> OutputConfig {
    match req {
        OutputConfiguration::Disabled => OutputConfig { enabled: OutputState::Disabled, ..c },
        OutputConfiguration::Enabled {
            mirroring,
            mode,
            scale,
            transform,
            position,
            adaptive_sync,
        } => OutputConfig {
            mode: match mode {
                Some(m) => mode_setting(m),
                None => c.mode,
            },
            scale: or_keep(scale, c.scale),
            transform: or_keep(transform, c.transform),
            position: or_keep(position, c.position),
            vrr: or_keep(adaptive_sync, c.vrr),
            enabled: match mirroring {
                Some(t) => OutputState::Mirroring(t),
                None => OutputState::Enabled,
            },
        },
    }
}

/// Whether a request, once applied, leaves the output's head enabled:
/// enabled without a mirror target.
pub open spec fn enables_head(req: OutputConfiguration) -> bool {
    match req {
        OutputConfiguration::Enabled { mirroring, .. } => mirroring is None,
        OutputConfiguration::Disabled => false,
    }
}

fn wrap_refresh(r: i32) -> (v: u32)
    ensures
        v == refresh_bits(r),
{
    if r >= 0 {
        r as u32
    } else {
        ((r as i64) + 0x1_0000_0000i64) as u32
    }
}

impl ModeConfiguration {
    /// The mode setting this request selects.
    pub fn setting(&self) -> (m: ModeSetting)
        ensures
            m == mode_setting(*self),
    {
        match self {
            ModeConfiguration::Mode(mode) => ModeSetting {
                width: mode.width,
                height: mode.height,
                refresh: Some(wrap_refresh(mode.refresh)),
            },
            ModeConfiguration::Custom { width, height, refresh } => ModeSetting {
                width: *width,
                height: *height,
                refresh: match refresh {
                    Some(r) => Some(wrap_refresh(*r)),
                    None => None,
                },
            },
        }
    }
}

impl OutputConfiguration {
    /// Whether this request disables its output.
    pub fn is_disabled(&self) -> (r: bool)
        ensures
            r == (*self is Disabled),
    {
        match self {
            OutputConfiguration::Disabled => true,
            OutputConfiguration::Enabled { .. } => false,
        }
    }

    /// Whether the output's head is to be enabled once this request is applied.
    pub fn enables_head(&self) -> (r: bool)
        ensures
            r == enables_head(*self),
    {
        match self {
            OutputConfiguration::Enabled { mirroring, .. } => mirroring.is_none(),
            OutputConfiguration::Disabled => false,
        }
    }

    /// Applies this request to a record in place.
    pub fn apply_to(&self, c: &mut OutputConfig)
        ensures
            *final(c) == configured(*old(c), *self),
    {
        match self {
            OutputConfiguration::Enabled {
                mirroring,
                mode,
                scale,
                transform,
                position,
                adaptive_sync,
            } => {
                match mode {
                    Some(m) => {
                        c.mode = m.setting();
                    },
                    None => {},
                }
                if let Some(s) = scale {
                    c.scale = *s;
                }
                if let Some(t) = transform {
                    c.transform = *t;
                }
                if let Some(p) = position {
                    c.position = *p;
                }
                if let Some(v) = adaptive_sync {
                    c.vrr = *v;
                }
                match mirroring {
                    Some(target) => {
                        c.enabled = OutputState::Mirroring(*target);
                    },
                    None => {
                        c.enabled = OutputState::Enabled;
                    },
                }
            },
            OutputConfiguration::Disabled => {
                c.enabled = OutputState::Disabled;
            },
        }
    }
}

} // verus!
