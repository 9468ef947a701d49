//! Renderer-side bookkeeping records: identity, per-frame data and
//! frame-timing statistics.

use vstd::prelude::*;
use crate::error::HalaRendererError;

verus! {

/// The kind of environment lighting a ray-traced frame uses.
#[derive(Debug, Clone, Copy, PartialEq, Eq, Structural)]
pub enum HalaEnvType {
    Sky,
    EnvironmentMap,
}

/// The environment type a tag byte denotes, if any.
pub open spec fn spec_env_type_from_u8(value: u8) -> Option<HalaEnvType> {
    if value == 0 {
        Some(HalaEnvType::Sky)
    } else if value == 1 {
        Some(HalaEnvType::EnvironmentMap)
    } else {
        None
    }
}

/// The tag byte of an environment type.
pub open spec fn spec_env_type_to_u8(t: HalaEnvType) -> u8 {
    match t {
        HalaEnvType::Sky => 0u8,
        HalaEnvType::EnvironmentMap => 1u8,
    }
}

impl HalaEnvType {
    /// Parse a tag byte; tags above 1 are rejected, since they may come
    /// from untrusted configuration.
    pub fn from_u8(value: u8) -> (r: Result<Self, HalaRendererError>)
        ensures
            spec_env_type_from_u8(value) matches Some(t) ==> r matches Ok(x) && x == t,
            spec_env_type_from_u8(value) is None ==> r is Err,
    {
        match value {
            0 => Ok(HalaEnvType::Sky),
            1 => Ok(HalaEnvType::EnvironmentMap),
            _ => Err(HalaRendererError::new("Invalid environment type.", None)),
        }
    }

    /// The tag byte of this environment type.
    pub fn to_u8(&self) -> (r: u8)
        ensures
            r == spec_env_type_to_u8(*self),
            spec_env_type_from_u8(r) == Some(*self),
    {
        match self {
            HalaEnvType::Sky => 0u8,
            HalaEnvType::EnvironmentMap => 1u8,
        }
    }
}

/// The renderer's identity: a display name and the output extent.
pub struct HalaRendererInfo {
    pub name: String,
    pub width: u32,
    pub height: u32,
}

impl HalaRendererInfo {
    /// Create a new renderer information record.
    pub fn new(name: &str, width: u32, height: u32) -> (r: Self)
        ensures
            r.name@ == name@,
            r.width == width,
            r.height == height,
    {
        Self { name: name.to_string(), width, height }
    }
}

/// Per-frame renderer data: the swapchain image in flight and whether the
/// device was lost.
pub struct HalaRendererData {
    pub image_index: usize,
    pub is_device_lost: bool,
}

impl Default for HalaRendererData {
    /// A fresh record: image index zero, device not lost.
    fn default() -> (r: Self)
        ensures
            r.image_index == 0,
            !r.is_device_lost,
    {
        Self { image_index: 0, is_device_lost: false }
    }
}

impl HalaRendererData {
    /// Create a new renderer data record.
    pub fn new() -> (r: Self)
        ensures
            r.image_index == 0,
            !r.is_device_lost,
    {
        Self::default()
    }
}

/// One second, in nanoseconds: the length of the statistics window.
pub const STATISTICS_WINDOW_NANOS: u128 = 1_000_000_000;

/// Frame statistics, aggregated over a sliding window of about one second.
///
/// The caller supplies monotonic clock readings in nanoseconds, so the
/// accounting itself is verified.
pub struct HalaRendererStatistics {
    pub total_frames: u64,
    pub last_stat_time_nanos: u128,
    pub elapsed_time_nanos: u128,
    pub total_gpu_nanoseconds: u128,
    pub total_gpu_frames: u64,
}

impl Default for HalaRendererStatistics {
    /// A zeroed record.
    fn default() -> (r: Self)
        ensures
            r.total_frames == 0,
            r.last_stat_time_nanos == 0,
            r.elapsed_time_nanos == 0,
            r.total_gpu_nanoseconds == 0,
            r.total_gpu_frames == 0,
    {
        Self {
            total_frames: 0,
            last_stat_time_nanos: 0,
            elapsed_time_nanos: 0,
            total_gpu_nanoseconds: 0,
            total_gpu_frames: 0,
        }
    }
}

impl HalaRendererStatistics {
    /// Create a new, zeroed statistics record.
    pub fn new() -> (r: Self)
        ensures
            r.total_frames == 0,
            r.last_stat_time_nanos == 0,
            r.elapsed_time_nanos == 0,
            r.total_gpu_nanoseconds == 0,
            r.total_gpu_frames == 0,
    {
        Self::default()
    }

    /// Reset every counter; the window restarts at the supplied clock reading.
    pub fn reset(&mut self, now_nanos: u128)
        ensures
            final(self).total_frames == 0,
            final(self).last_stat_time_nanos == now_nanos,
            final(self).elapsed_time_nanos == 0,
            final(self).total_gpu_nanoseconds == 0,
            final(self).total_gpu_frames == 0,
    {
        self.total_frames = 0;
        self.last_stat_time_nanos = now_nanos;
        self.elapsed_time_nanos = 0;
        self.total_gpu_nanoseconds = 0;
        self.total_gpu_frames = 0;
    }

    /// Account one frame's GPU time against the current window.
    ///
    /// `gpu_time_nanos` is the frame's measured GPU duration and `now_nanos`
    /// the current monotonic clock reading. When the accumulated window
    /// exceeds one second, the window totals restart and one second is
    /// carried out of the elapsed time.
    pub fn set_gpu_time(&mut self, gpu_time_nanos: u128, now_nanos: u128)
        requires
            old(self).total_gpu_nanoseconds + gpu_time_nanos <= u128::MAX,
            old(self).total_gpu_frames < u64::MAX,
            old(self).last_stat_time_nanos <= now_nanos,
            old(self).elapsed_time_nanos + (now_nanos - old(self).last_stat_time_nanos)
                <= u128::MAX,
        ensures
            final(self).total_frames == old(self).total_frames,
            final(self).last_stat_time_nanos == now_nanos,
            ({
                let elapsed = old(self).elapsed_time_nanos
                    + (now_nanos - old(self).last_stat_time_nanos);
                if elapsed > STATISTICS_WINDOW_NANOS {
                    final(self).total_gpu_nanoseconds == 0
                        && final(self).total_gpu_frames == 0
                        && final(self).elapsed_time_nanos == elapsed - STATISTICS_WINDOW_NANOS
                } else {
                    final(self).total_gpu_nanoseconds
                        == old(self).total_gpu_nanoseconds + gpu_time_nanos
                        && final(self).total_gpu_frames == old(self).total_gpu_frames + 1
                        && final(self).elapsed_time_nanos == elapsed
                }
            }),
    {
        self.total_gpu_nanoseconds = self.total_gpu_nanoseconds + gpu_time_nanos;
        self.total_gpu_frames = self.total_gpu_frames + 1;

        let interval: u128 = now_nanos - self.last_stat_time_nanos;
        self.elapsed_time_nanos = self.elapsed_time_nanos + interval;
        if self.elapsed_time_nanos > STATISTICS_WINDOW_NANOS {
            self.total_gpu_nanoseconds = 0;
            self.total_gpu_frames = 0;
            self.elapsed_time_nanos = self.elapsed_time_nanos - STATISTICS_WINDOW_NANOS;
        }
        self.last_stat_time_nanos = now_nanos;
    }

    /// Count one more presented frame.
    pub fn inc_total_frames(&mut self)
        requires
            old(self).total_frames < u64::MAX,
        ensures
            final(self).total_frames == old(self).total_frames + 1,
            final(self).last_stat_time_nanos == old(self).last_stat_time_nanos,
            final(self).elapsed_time_nanos == old(self).elapsed_time_nanos,
            final(self).total_gpu_nanoseconds == old(self).total_gpu_nanoseconds,
            final(self).total_gpu_frames == old(self).total_gpu_frames,
    {
        self.total_frames = self.total_frames + 1;
    }
}

} // verus!
