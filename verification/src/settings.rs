//! The settings an application starts with, worked out from what its
//! configuration holds.

use vstd::prelude::*;

verus! {

/// The width and the height of a window that the configuration says nothing
/// about.
pub const DEFAULT_EXTENT: i32 = 128;

/// The unsigned number with the same thirty-two bits as `v`.
pub open spec fn reinterpreted(v: i32) -> u32 {
    if v >= 0 {
        v as u32
    } else {
        (v + 0x1_0000_0000) as u32
    }
}

/// Reads a configured number as an unsigned one, bit for bit; a number that
/// is missing counts as `fallback`.
pub fn number_or(value: Option<i32>, fallback: i32) -> (r: u32)
    ensures
        r == reinterpreted(
            match value {
                Some(v) => v,
                None => fallback,
            },
        ),
{
    let v = match value {
        Some(v) => v,
        None => fallback,
    };
    if v >= 0 {
        v as u32
    } else {
        (v as i64 + 0x1_0000_0000) as u32
    }
}

/// The pacing of the engine.
#[derive(Debug, Clone, Copy, PartialEq, Eq, Structural)]
pub struct EngineSettings {
    pub min_fps: u32,
    pub max_fps: u32,
    pub max_inactive_fps: u32,
    pub time_smoothing_step: u32,
}

impl EngineSettings {
    /// The pacing that the configured numbers ask for. Every number that is
    /// missing counts as zero.
    pub fn from_values(
        min_fps: Option<i32>,
        max_fps: Option<i32>,
        max_inactive_fps: Option<i32>,
        time_smoothing_step: Option<i32>,
    ) -> (s: Self)
        ensures
            s.min_fps == reinterpreted(min_fps.unwrap_or(0)),
            s.max_fps == reinterpreted(max_fps.unwrap_or(0)),
            s.max_inactive_fps == reinterpreted(max_inactive_fps.unwrap_or(0)),
            s.time_smoothing_step == reinterpreted(time_smoothing_step.unwrap_or(0)),
    {
        EngineSettings {
            min_fps: number_or(min_fps, 0),
            max_fps: number_or(max_fps, 0),
            max_inactive_fps: number_or(max_inactive_fps, 0),
            time_smoothing_step: number_or(time_smoothing_step, 0),
        }
    }
}

/// The title and the size of the window.
#[derive(Debug, Clone, PartialEq, Eq)]
pub struct WindowSettings {
    pub title: String,
    pub width: u32,
    pub height: u32,
}

impl WindowSettings {
    /// The window that the configured values ask for. A missing title is
    /// the name of the engine, a missing width or height is
    /// [`DEFAULT_EXTENT`].
    pub fn from_values(title: Option<String>, width: Option<i32>, height: Option<i32>) -> (s: Self)
        ensures
            s.title@ == (match title {
                Some(t) => t@,
                None => "Lemon3D - Application"@,
            }),
            s.width == reinterpreted(width.unwrap_or(DEFAULT_EXTENT)),
            s.height == reinterpreted(height.unwrap_or(DEFAULT_EXTENT)),
    {
        let title = match title {
            Some(t) => t,
            None => "Lemon3D - Application".to_owned(),
        };
        WindowSettings {
            title,
            width: number_or(width, DEFAULT_EXTENT),
            height: number_or(height, DEFAULT_EXTENT),
        }
    }
}

} // verus!
