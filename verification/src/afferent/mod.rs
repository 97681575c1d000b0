//! Afferent subsystem: sensory input.
//!
//! Thermal, pressure and structural strain gauges, polled over DMA in one
//! deterministic pass.
pub mod pressure;
pub mod strain;
pub mod thermal;

use vstd::prelude::*;

verus! {

/// Number of sensor channels on the afferent bus.
pub const CHANNELS: usize = 64;

/// One reading from the metal.
#[derive(Clone, Copy, PartialEq, Eq, Debug, Structural)]
pub struct SensorSample {
    /// Cycle counter value when the sample was taken.
    pub timestamp: u64,
    /// Channel the sample came from.
    pub channel: u8,
    /// The reading, in fixed point (millionths of the channel's unit).
    pub value: i64,
    /// Checksum of the sample.
    pub checksum: u16,
}

/// `x` is within the range of `i64`.
pub open spec fn fits_i64(x: int) -> bool {
    i64::MIN <= x <= i64::MAX
}

/// `a / b` rounded toward zero (`b > 0`).
pub open spec fn div_toward_zero(a: int, b: int) -> int {
    if a >= 0 {
        a / b
    } else {
        -((-a) / b)
    }
}

/// Afferent bus: one sample per channel.
pub struct AfferentBus {
    channels: [SensorSample; 64],
}

impl View for AfferentBus {
    type V = Seq<SensorSample>;

    /// The latest sample of each channel.
    closed spec fn view(&self) -> Seq<SensorSample> {
        self.channels@
    }
}

impl AfferentBus {
    /// Create a bus whose 64 channels hold all-zero samples.
    pub fn new() -> (bus: Self)
        ensures
            bus@.len() == CHANNELS,
            forall|i: int|
                0 <= i < CHANNELS ==> #[trigger] bus@[i] == (SensorSample {
                    timestamp: 0,
                    channel: 0,
                    value: 0,
                    checksum: 0,
                }),
    {
        let zero = SensorSample { timestamp: 0, channel: 0, value: 0, checksum: 0 };
        AfferentBus { channels: [zero; 64] }
    }

    /// Record one DMA pass over all channels: channel `i` is tagged with its
    /// number `i`, takes the timestamp read for it, `timestamps[i]`, and its
    /// value is reset to 0 (the registers are not read yet); its checksum is
    /// kept.
    pub fn poll_dma(&mut self, timestamps: &[u64; 64])
        ensures
            final(self)@.len() == CHANNELS,
            forall|i: int|
                0 <= i < CHANNELS ==> #[trigger] final(self)@[i] == (SensorSample {
                    timestamp: timestamps@[i],
                    channel: i as u8,
                    value: 0,
                    checksum: old(self)@[i].checksum,
                }),
    {
        let mut i: usize = 0;
        while i < 64
            invariant
                i <= 64,
                self@.len() == CHANNELS,
                forall|k: int|
                    0 <= k < i ==> #[trigger] self@[k] == (SensorSample {
                        timestamp: timestamps@[k],
                        channel: k as u8,
                        value: 0,
                        checksum: old(self)@[k].checksum,
                    }),
                forall|k: int| i <= k < CHANNELS ==> #[trigger] self@[k] == old(self)@[k],
            decreases 64 - i,
        {
            let checksum = self.channels[i].checksum;
            self.channels[i] = SensorSample {
                timestamp: timestamps[i],
                channel: i as u8,
                value: 0,
                checksum,
            };
            i = i + 1;
        }
    }

    /// The samples of all channels, channel 0 first.
    pub fn samples(&self) -> (samples: &[SensorSample])
        ensures
            samples@ == self@,
    {
        self.channels.as_slice()
    }
}

} // verus!
