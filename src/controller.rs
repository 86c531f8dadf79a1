use vstd::prelude::*;

use crate::ring_buffer::{silence_of, AudioRingBuffer, ReadResult, RingModel};
use crate::state::PlaybackState;

verus! {

/// Length of the anti-click fade-in, in frames.
pub const RAMP_LENGTH: usize = 256;

/// Smallest base delay, in milliseconds; it keeps the consumer from starting
/// ahead of any data.
pub const MIN_BASE_DELAY_MS: u32 = 10;

/// Fixed-point scale of volumes and peak levels: 1000 stands for 1.0.
pub const UNITY: u32 = 1000;

/// Largest volume, in thousandths.
pub const MAX_VOLUME: u32 = 1500;

/// Share of the previous peak, in percent, that survives one callback.
pub const PEAK_DECAY_PERCENT: u64 = 85;

/// `wp - d`, or zero where `d` reaches past the start of the stream.
pub open spec fn behind(wp: nat, d: nat) -> nat {
    if wp >= d {
        (wp - d) as nat
    } else {
        0
    }
}

/// Base delay in samples for a requested delay in milliseconds.
pub open spec fn base_delay_for(ms: nat, sample_rate: nat, channels: nat) -> nat {
    let ms = if ms < MIN_BASE_DELAY_MS { MIN_BASE_DELAY_MS as nat } else { ms };
    (ms * sample_rate / 1000 * channels) as nat
}

/// How far, in samples, a delay may stray from the base delay and still count
/// as live (a tenth of a second).
pub open spec fn tolerance_for(sample_rate: nat, channels: nat) -> nat {
    (sample_rate / 10 * channels) as nat
}

/// `Live` when `delay` is within `tolerance` of `base`, else `TimeShifted`.
pub open spec fn classify(delay: nat, base: nat, tolerance: nat) -> PlaybackState {
    if base <= delay + tolerance && delay <= base + tolerance {
        PlaybackState::Live
    } else {
        PlaybackState::TimeShifted
    }
}

/// A signed shift in milliseconds as a shift in samples, rounded toward zero
/// to whole frames.
pub open spec fn ms_to_samples(ms: int, sample_rate: nat, channels: nat) -> int {
    if ms >= 0 {
        ms * sample_rate / 1000 * channels
    } else {
        -((-ms) * sample_rate / 1000 * channels)
    }
}

/// Where a seek by `shift` samples puts the read cursor: `shift` samples
/// earlier (a negative shift moves toward live), no closer to live
/// than the base delay, and no further back than the retained history minus
/// a tenth of the buffer.
pub open spec fn seek_target(rp: nat, wp: nat, capacity: nat, base: nat, shift: int) -> nat {
    let lo = if wp + capacity / 10 >= capacity { wp + capacity / 10 - capacity } else { 0 };
    let hi = behind(wp, base);
    let t = if rp - shift < lo { lo } else { rp - shift };
    if t > hi {
        hi
    } else {
        t as nat
    }
}

/// Base delay in samples, computed wide enough not to overflow.
pub(crate) fn base_delay_wide(ms: u32, sample_rate: u32, channels: u32) -> (r: u128)
    requires
        channels <= 0xffff,
    ensures
        r == base_delay_for(ms as nat, sample_rate as nat, channels as nat),
{
    let ms: u128 = if ms < MIN_BASE_DELAY_MS {
        MIN_BASE_DELAY_MS as u128
    } else {
        ms as u128
    };
    let sr = sample_rate as u128;
    let ch = channels as u128;
    assert(ms * sr <= 0xffff_ffffu128 * 0xffff_ffffu128) by (nonlinear_arith)
        requires ms <= 0xffff_ffffu128, sr <= 0xffff_ffffu128;
    let frames = ms * sr / 1000;
    assert(frames * ch <= 0xffff_ffff_ffff_ffffu128 * 0xffffu128) by (nonlinear_arith)
        requires frames <= 0xffff_ffff_ffff_ffffu128, ch <= 0xffffu128;
    frames * ch
}

/// Abstract state of a controller, apart from its ring buffer.
pub struct ControllerModel {
    pub state: PlaybackState,
    pub channels: nat,
    pub sample_rate: nat,
    pub base_delay: nat,
    /// Samples of the anti-click ramp still to be played.
    pub ramp_remaining: nat,
    /// Peak levels in thousandths.
    pub peak_left: nat,
    pub peak_right: nat,
    /// Volume in thousandths.
    pub volume: nat,
    /// Volume saved by a mute, zero when not muted.
    pub muted_volume: nat,
}

impl ControllerModel {
    pub open spec fn tolerance(self) -> nat {
        tolerance_for(self.sample_rate, self.channels)
    }

    /// Length of the whole anti-click ramp, in samples.
    pub open spec fn ramp_total(self) -> nat {
        (RAMP_LENGTH * self.channels) as nat
    }

    /// The state after a pause toggle while the ring buffer's delay is
    /// `delay`: a playing stream pauses; a paused one resumes, classified by
    /// its delay, with the anti-click ramp armed.
    pub open spec fn toggled(self, delay: nat) -> ControllerModel {
        if self.state == PlaybackState::Paused {
            ControllerModel {
                state: classify(delay, self.base_delay, self.tolerance()),
                ramp_remaining: self.ramp_total(),
                ..self
            }
        } else {
            ControllerModel { state: PlaybackState::Paused, ..self }
        }
    }
}

/// The part of the anti-click ramp that falls on one output buffer: sample
/// `i` of the buffer is scaled by `gain(i) / total`.
#[derive(Debug, Clone, Copy, PartialEq, Eq, Structural)]
pub struct RampWindow {
    /// Ramp samples already played before this buffer.
    pub start: usize,
    /// Length of the whole ramp.
    pub total: usize,
}

impl RampWindow {
    /// Gain numerator of sample `i` of the buffer: it rises by one per sample
    /// and stays at `total` once the ramp is over.
    pub open spec fn gain(self, i: nat) -> nat {
        if self.start + i >= self.total {
            self.total as nat
        } else {
            (self.start + i) as nat
        }
    }

    /// Gain numerator of sample `i` of the buffer.
    pub fn gain_at(&self, i: usize) -> (r: usize)
        ensures
            r == self.gain(i as nat),
    {
        if self.start >= self.total || i >= self.total - self.start {
            self.total
        } else {
            self.start + i
        }
    }
}

/// Gain numerator, out of the whole ramp `total`, of sample `i` of the next
/// buffer when `remaining` ramp samples are left.
pub open spec fn ramp_gain(remaining: nat, total: nat, i: nat) -> nat {
    if remaining == 0 || (total - remaining) + i >= total {
        total
    } else {
        ((total - remaining) + i) as nat
    }
}

/// Ramp samples left after a buffer of `len` samples.
pub open spec fn ramp_after(remaining: nat, len: nat) -> nat {
    if len >= remaining {
        0
    } else {
        (remaining - len) as nat
    }
}

/// Largest magnitude among the samples of channel `c` (positions `k` with
/// `k % channels == c`), zero when there is none.
pub open spec fn channel_peak(mags: Seq<u32>, channels: nat, c: nat) -> nat
    decreases mags.len(),
{
    if mags.len() == 0 {
        0
    } else {
        let rest = channel_peak(mags.drop_last(), channels, c);
        if (mags.len() - 1) as nat % channels == c && mags.last() > rest {
            mags.last() as nat
        } else {
            rest
        }
    }
}

/// A peak meter's new reading: the new instant peak, or the old reading
/// decayed, whichever is larger.
pub open spec fn decayed_peak(instant: nat, previous: nat) -> nat {
    let decayed = (previous * PEAK_DECAY_PERCENT / 100) as nat;
    if instant >= decayed {
        instant
    } else {
        decayed
    }
}

/// `v + delta` kept within `[0, MAX_VOLUME]`.
pub open spec fn clamped_volume(v: nat, delta: int) -> nat {
    if v + delta < 0 {
        0
    } else if v + delta > MAX_VOLUME {
        MAX_VOLUME as nat
    } else {
        (v + delta) as nat
    }
}

/// Pausing a playing stream and resuming it with no audio in between leaves
/// it `TimeShifted` exactly when the delay has strayed from the base delay by
/// more than the tolerance, and `Live` otherwise.
pub proof fn law_pause_resume(m: ControllerModel, delay: nat)
    requires
        m.state != PlaybackState::Paused,
    ensures
        m.toggled(delay).state == PlaybackState::Paused,
        m.toggled(delay).toggled(delay).state == PlaybackState::TimeShifted <==> (delay
            > m.base_delay + m.tolerance() || delay + m.tolerance() < m.base_delay),
        m.toggled(delay).toggled(delay).ramp_remaining == m.ramp_total(),
{
}

/// From a playing state whose delay is the base delay, one second of captured
/// audio followed by a pause and a resume leaves playback `TimeShifted`, and
/// the reported delay is one second more than that of the base delay.
pub proof fn law_second_of_audio_time_shifts<T>(m: ControllerModel, ring: RingModel<T>, data: Seq<T>)
    requires
        m.state != PlaybackState::Paused,
        m.channels >= 1,
        m.sample_rate >= 1,
        ring.valid(),
        ring.read_pos <= ring.write_pos,
        ring.delay() == m.base_delay,
        data.len() == m.sample_rate * m.channels,
    ensures
        ring.written(data).delay() == m.base_delay + m.sample_rate * m.channels,
        m.toggled(ring.written(data).delay()).toggled(ring.written(data).delay()).state
            == PlaybackState::TimeShifted,
        ring.written(data).delay() / m.channels * 1000 / m.sample_rate == m.base_delay
            / m.channels * 1000 / m.sample_rate + 1000,
{
    let ch = m.channels;
    let sr = m.sample_rate;
    let b = m.base_delay;
    assert(sr * ch > (sr / 10) * ch) by (nonlinear_arith)
        requires sr >= 1, ch >= 1;
    assert((b + sr * ch) as int / ch as int == b as int / ch as int + sr) by {
        vstd::arithmetic::div_mod::lemma_hoist_over_denominator(b as int, sr as int, ch);
        assert(sr as int * ch as int == sr * ch);
    }
    let f = b as int / ch as int;
    assert(f >= 0) by (nonlinear_arith)
        requires b >= 0, ch >= 1, f == b as int / ch as int;
    assert((f + sr) * 1000 / sr as int == f * 1000 / sr as int + 1000) by {
        vstd::arithmetic::div_mod::lemma_hoist_over_denominator(f * 1000, 1000, sr);
        assert((f + sr) * 1000 == f * 1000 + 1000 * sr) by (nonlinear_arith);
    }
}

/// The base delay, read back in whole milliseconds, is the requested delay
/// (at least 10 ms) less at most 100 ms of rounding, at sample rates of 10 Hz
/// and above.
pub proof fn law_base_delay_ms(ms: nat, sample_rate: nat, channels: nat)
    requires
        sample_rate >= 10,
        channels >= 1,
    ensures
        ({
            let wanted = if ms < MIN_BASE_DELAY_MS { MIN_BASE_DELAY_MS as nat } else { ms };
            let shown = base_delay_for(ms, sample_rate, channels) / channels * 1000 / sample_rate;
            &&& shown <= wanted
            &&& shown + 100 >= wanted
        }),
{
    let wanted: int = if ms < MIN_BASE_DELAY_MS { MIN_BASE_DELAY_MS as int } else { ms as int };
    let sr = sample_rate as int;
    let ch = channels as int;
    let f = wanted * sr / 1000;
    assert(f >= 0) by (nonlinear_arith)
        requires wanted >= 0, sr >= 0, f == wanted * sr / 1000;
    assert(base_delay_for(ms, sample_rate, channels) == f * ch);
    assert((f * ch) / ch == f) by (nonlinear_arith)
        requires ch >= 1, f >= 0;
    let g = f * 1000 / sr;
    vstd::arithmetic::div_mod::lemma_fundamental_div_mod(wanted * sr, 1000);
    vstd::arithmetic::div_mod::lemma_fundamental_div_mod(f * 1000, sr);
    let r1 = (wanted * sr) % 1000;
    let r2 = (f * 1000) % sr;
    assert(0 <= r1 < 1000) by {
        vstd::arithmetic::div_mod::lemma_mod_bound(wanted * sr, 1000);
    }
    assert(0 <= r2 < sr) by {
        vstd::arithmetic::div_mod::lemma_mod_bound(f * 1000, sr);
    }
    assert(g <= wanted) by (nonlinear_arith)
        requires
            wanted * sr == 1000 * f + r1,
            f * 1000 == sr * g + r2,
            0 <= r1,
            0 <= r2,
            sr >= 10,
    ;
    assert(g + 100 >= wanted) by (nonlinear_arith)
        requires
            wanted * sr == 1000 * f + r1,
            f * 1000 == sr * g + r2,
            r1 < 1000,
            r2 < sr,
            sr >= 10,
    ;
}

/// A larger seek never leaves the read cursor later.
pub proof fn law_seek_monotone(rp: nat, wp: nat, capacity: nat, base: nat, a: int, b: int)
    requires
        a <= b,
    ensures
        seek_target(rp, wp, capacity, base, b) <= seek_target(rp, wp, capacity, base, a),
{
}

/// The ramp carries over from one buffer to the next: after a buffer of `a`
/// samples, sample `i` of the next buffer gets the gain that sample `a + i`
/// would have had, and buffers of `a` then `b` samples use up as much of the
/// ramp as one buffer of `a + b`.
pub proof fn law_ramp_continues(remaining: nat, total: nat, a: nat, b: nat, i: nat)
    requires
        remaining <= total,
    ensures
        ramp_gain(ramp_after(remaining, a), total, i) == ramp_gain(remaining, total, a + i),
        ramp_after(ramp_after(remaining, a), b) == ramp_after(remaining, a + b),
{
}

/// From a freshly armed ramp, the `k`-th sample played gets gain `k / total`
/// while `k < total`, rising strictly from zero, and full gain after that.
pub proof fn law_ramp_from_armed(total: nat, k: nat, j: nat)
    requires
        total > 0,
    ensures
        ramp_gain(total, total, 0) == 0,
        k < total ==> ramp_gain(total, total, k) == k,
        k >= total ==> ramp_gain(total, total, k) == total,
        k < j <= total ==> ramp_gain(total, total, k) < ramp_gain(total, total, j),
{
}

/// Ramp samples left after buffers of the lengths in `lens`, in turn.
pub open spec fn ramp_after_all(remaining: nat, lens: Seq<nat>) -> nat
    decreases lens.len(),
{
    if lens.len() == 0 {
        remaining
    } else {
        ramp_after(ramp_after_all(remaining, lens.drop_last()), lens.last())
    }
}

/// The total length of the buffers in `lens`.
pub open spec fn total_len(lens: Seq<nat>) -> nat
    decreases lens.len(),
{
    if lens.len() == 0 {
        0
    } else {
        total_len(lens.drop_last()) + lens.last()
    }
}

/// Over any run of buffers the ramp shrinks by their total length, so once
/// buffers of a whole ramp's length have played it is over: `apply_ramp`
/// then returns `None` and output plays at full gain.
pub proof fn law_ramp_ends(remaining: nat, lens: Seq<nat>)
    ensures
        ramp_after_all(remaining, lens) == ramp_after(remaining, total_len(lens)),
        total_len(lens) >= remaining ==> ramp_after_all(remaining, lens) == 0,
    decreases lens.len(),
{
    if lens.len() > 0 {
        law_ramp_ends(remaining, lens.drop_last());
    }
}

/// The volume after each delta of `deltas` in turn, starting from `v`.
pub open spec fn volume_after(v: nat, deltas: Seq<int>) -> nat
    decreases deltas.len(),
{
    if deltas.len() == 0 {
        v
    } else {
        clamped_volume(volume_after(v, deltas.drop_last()), deltas.last())
    }
}

/// No sequence of volume changes takes the volume out of `[0, 1.5]`.
pub proof fn law_volume_in_range(v: nat, deltas: Seq<int>)
    requires
        v <= MAX_VOLUME,
    ensures
        volume_after(v, deltas) <= MAX_VOLUME,
    decreases deltas.len(),
{
    if deltas.len() > 0 {
        law_volume_in_range(v, deltas.drop_last());
    }
}

/// A silent buffer has no peak on any channel.
proof fn lemma_silent_peak(mags: Seq<u32>, channels: nat, c: nat)
    requires
        channels >= 1,
        forall|k: int| 0 <= k < mags.len() ==> mags[k] == 0,
    ensures
        channel_peak(mags, channels, c) == 0,
    decreases mags.len(),
{
    if mags.len() > 0 {
        lemma_silent_peak(mags.drop_last(), channels, c);
    }
}

/// After a silent buffer a peak meter keeps 85% of its reading.
pub proof fn law_silence_decays(mags: Seq<u32>, channels: nat, c: nat, previous: nat)
    requires
        channels >= 1,
        forall|k: int| 0 <= k < mags.len() ==> mags[k] == 0,
    ensures
        decayed_peak(channel_peak(mags, channels, c), previous) == previous * PEAK_DECAY_PERCENT
            / 100,
{
    lemma_silent_peak(mags, channels, c);
}

/// Session state of the time-shift engine: the ring buffer, the playback
/// mode, the base delay, the anti-click ramp, the volume and the peak meters.
///
/// Real-time hooks (`pre_read`, `apply_ramp`, `apply_volume`, `update_peaks`)
/// serve the consumer; commands (`toggle_pause`, `seek_ms`, `adjust_volume`,
/// `jump_to_live`) and queries serve the control surface.
pub struct PlaybackController<T> {
    ring: AudioRingBuffer<T>,
    state: PlaybackState,
    channels: u16,
    sample_rate: u32,
    base_delay_samples: usize,
    ramp_remaining: usize,
    peak_left: u32,
    peak_right: u32,
    volume: u32,
    muted_volume: u32,
}

impl<T> View for PlaybackController<T> {
    type V = ControllerModel;

    closed spec fn view(&self) -> ControllerModel {
        ControllerModel {
            state: self.state,
            channels: self.channels as nat,
            sample_rate: self.sample_rate as nat,
            base_delay: self.base_delay_samples as nat,
            ramp_remaining: self.ramp_remaining as nat,
            peak_left: self.peak_left as nat,
            peak_right: self.peak_right as nat,
            volume: self.volume as nat,
            muted_volume: self.muted_volume as nat,
        }
    }
}

impl<T: Copy + Default> PlaybackController<T> {
    /// The model of the ring buffer that the controller drives.
    pub closed spec fn ring_model(&self) -> RingModel<T> {
        self.ring@
    }

    pub closed spec fn wf(&self) -> bool {
        &&& self.ring.wf()
        &&& self@.channels >= 1
        &&& self@.sample_rate >= 1
        &&& self@.ramp_remaining <= self@.ramp_total()
        &&& self@.volume <= MAX_VOLUME
        &&& self@.muted_volume <= MAX_VOLUME
    }

    /// What a well-formed controller keeps true.
    pub proof fn lemma_wf(&self)
        requires
            self.wf(),
        ensures
            1 <= self@.channels <= u16::MAX,
            1 <= self@.sample_rate <= u32::MAX,
            self@.ramp_remaining <= self@.ramp_total(),
            self@.volume <= MAX_VOLUME,
            self@.muted_volume <= MAX_VOLUME,
            self.ring_model().valid(),
            call_ensures(T::default, (), self.ring_model().silence),
    {
        self.ring.lemma_view_valid();
    }

    /// Length of the whole anti-click ramp, in samples.
    fn ramp_total(&self) -> (r: usize)
        requires
            self.wf(),
        ensures
            r == self@.ramp_total(),
    {
        RAMP_LENGTH * self.channels as usize
    }

    /// `Live` when `delay` is within the tolerance of the base delay.
    fn classify_delay(&self, delay: usize) -> (r: PlaybackState)
        requires
            self.wf(),
        ensures
            r == classify(delay as nat, self@.base_delay, self@.tolerance()),
    {
        let per_channel = (self.sample_rate / 10) as u128;
        let ch = self.channels as u128;
        assert(per_channel * ch <= 0xffff_ffffu128 * 0xffffu128) by (nonlinear_arith)
            requires per_channel <= 0xffff_ffffu128, ch <= 0xffffu128;
        let tol: u128 = per_channel * ch;
        let d = delay as u128;
        let b = self.base_delay_samples as u128;
        if b <= d + tol && d <= b + tol {
            PlaybackState::Live
        } else {
            PlaybackState::TimeShifted
        }
    }

    /// A controller in `Live` state over `ring`, for a stream of `channels`
    /// interleaved channels at `sample_rate`, playing at least
    /// `requested_base_delay_ms` behind the live edge (never less than 10 ms).
    pub fn new(ring: AudioRingBuffer<T>, channels: u16, sample_rate: u32, requested_base_delay_ms: u32) -> (r: Self)
        requires
            ring.wf(),
            channels >= 1,
            sample_rate >= 1,
            base_delay_for(requested_base_delay_ms as nat, sample_rate as nat, channels as nat)
                <= usize::MAX,
        ensures
            r.wf(),
            r.ring_model() == ring@,
            r@ == (ControllerModel {
                state: PlaybackState::Live,
                channels: channels as nat,
                sample_rate: sample_rate as nat,
                base_delay: base_delay_for(requested_base_delay_ms as nat, sample_rate as nat, channels as nat),
                ramp_remaining: 0,
                peak_left: 0,
                peak_right: 0,
                volume: UNITY as nat,
                muted_volume: 0,
            }),
    {
        let base = base_delay_wide(requested_base_delay_ms, sample_rate, channels as u32);
        PlaybackController {
            ring,
            state: PlaybackState::Live,
            channels,
            sample_rate,
            base_delay_samples: base as usize,
            ramp_remaining: 0,
            peak_left: 0,
            peak_right: 0,
            volume: UNITY,
            muted_volume: 0,
        }
    }

    /// Updates the peak meters from one output buffer, given as the magnitude
    /// of each interleaved sample in thousandths. The left meter reads
    /// channel 0, the right meter channel 1 (silent with a single channel);
    /// each keeps the larger of its new instant peak and 85% of its old value.
    pub fn update_peaks(&mut self, magnitudes: &[u32])
        requires
            old(self).wf(),
        ensures
            final(self).wf(),
            final(self).ring_model() == old(self).ring_model(),
            final(self)@ == (ControllerModel {
                peak_left: decayed_peak(
                    channel_peak(magnitudes@, old(self)@.channels, 0),
                    old(self)@.peak_left,
                ),
                peak_right: decayed_peak(
                    channel_peak(magnitudes@, old(self)@.channels, 1),
                    old(self)@.peak_right,
                ),
                ..old(self)@
            }),
    {
        let ch = self.channels as usize;
        let n = magnitudes.len();
        let mut left: u32 = 0;
        let mut right: u32 = 0;
        let mut k: usize = 0;
        while k < n
            invariant
                k <= n,
                n == magnitudes@.len(),
                ch == self@.channels,
                ch >= 1,
                left as nat == channel_peak(magnitudes@.subrange(0, k as int), ch as nat, 0),
                right as nat == channel_peak(magnitudes@.subrange(0, k as int), ch as nat, 1),
            decreases n - k,
        {
            let m = magnitudes[k];
            let ghost prefix = magnitudes@.subrange(0, k + 1);
            assert(prefix.drop_last() =~= magnitudes@.subrange(0, k as int));
            let slot = k % ch;
            if slot == 0 && m > left {
                left = m;
            }
            if slot == 1 && m > right {
                right = m;
            }
            k = k + 1;
        }
        assert(magnitudes@.subrange(0, n as int) =~= magnitudes@);
        let decayed_left = (self.peak_left as u64 * PEAK_DECAY_PERCENT / 100) as u32;
        let decayed_right = (self.peak_right as u64 * PEAK_DECAY_PERCENT / 100) as u32;
        self.peak_left = if left >= decayed_left { left } else { decayed_left };
        self.peak_right = if right >= decayed_right { right } else { decayed_right };
    }

    /// Pauses a playing stream, or resumes a paused one. On resume the state
    /// becomes `Live` when the delay built up is within the tolerance of the
    /// base delay, `TimeShifted` otherwise, and the anti-click ramp is armed.
    pub fn toggle_pause(&mut self)
        requires
            old(self).wf(),
        ensures
            final(self).wf(),
            final(self).ring_model() == old(self).ring_model(),
            final(self)@ == old(self)@.toggled(old(self).ring_model().delay()),
    {
        match self.state {
            PlaybackState::Live | PlaybackState::TimeShifted => {
                self.state = PlaybackState::Paused;
            },
            PlaybackState::Paused => {
                let delay = self.ring.delay_samples();
                self.state = self.classify_delay(delay);
                self.ramp_remaining = self.ramp_total();
            },
        }
    }

    /// Moves the read cursor back by `delta_ms` milliseconds: a positive
    /// shift adds delay and plays earlier audio, a negative one comes closer
    /// to live. The cursor stays no closer to live than the base delay and no
    /// further back than the retained history less a tenth of the buffer. The state is then
    /// classified by the new delay and the anti-click ramp is armed.
    pub fn seek_ms(&mut self, delta_ms: i64)
        requires
            old(self).wf(),
        ensures
            final(self).wf(),
            final(self).ring_model() == (RingModel {
                read_pos: seek_target(
                    old(self).ring_model().read_pos,
                    old(self).ring_model().write_pos,
                    old(self).ring_model().capacity,
                    old(self)@.base_delay,
                    ms_to_samples(delta_ms as int, old(self)@.sample_rate, old(self)@.channels),
                ),
                ..old(self).ring_model()
            }),
            final(self).ring_model().read_pos <= final(self).ring_model().write_pos,
            final(self)@ == (ControllerModel {
                state: classify(
                    final(self).ring_model().delay(),
                    old(self)@.base_delay,
                    old(self)@.tolerance(),
                ),
                ramp_remaining: old(self)@.ramp_total(),
                ..old(self)@
            }),
    {
        let wp = self.ring.write_position() as u128;
        let rp = self.ring.read_position() as u128;
        let cap = self.ring.capacity() as u128;
        let base = self.base_delay_samples as u128;
        let sr = self.sample_rate as u128;
        let ch = self.channels as u128;
        let mag_ms: u128 = if delta_ms >= 0 {
            delta_ms as u128
        } else {
            (-(delta_ms as i128)) as u128
        };
        assert(mag_ms * sr <= 0x8000_0000_0000_0000u128 * 0xffff_ffffu128) by (nonlinear_arith)
            requires mag_ms <= 0x8000_0000_0000_0000u128, sr <= 0xffff_ffffu128;
        let frames = mag_ms * sr / 1000;
        assert(frames * ch <= 0x8000_0000_0000_0000u128 * 0xffff_ffffu128 * 0xffffu128) by (nonlinear_arith)
            requires frames <= 0x8000_0000_0000_0000u128 * 0xffff_ffffu128, ch <= 0xffffu128;
        let mag = frames * ch;
        let lo: u128 = if wp + cap / 10 >= cap { wp + cap / 10 - cap } else { 0 };
        let hi: u128 = if wp >= base { wp - base } else { 0 };
        let mut target: u128 = if delta_ms < 0 {
            rp + mag
        } else if rp >= mag {
            rp - mag
        } else {
            0
        };
        if target < lo {
            target = lo;
        }
        if target > hi {
            target = hi;
        }
        self.ring.set_read_position(target as usize);
        let delay = self.ring.delay_samples();
        self.state = self.classify_delay(delay);
        self.ramp_remaining = self.ramp_total();
    }

    /// Hook run at the start of each output cycle for `frame_count` frames.
    /// Only in `Live` state it puts the read cursor behind the write cursor by
    /// the base delay, or by one output buffer when that is longer. Returns
    /// the state the cycle plays in.
    pub fn pre_read(&mut self, frame_count: usize) -> (r: PlaybackState)
        requires
            old(self).wf(),
        ensures
            final(self).wf(),
            r == old(self)@.state,
            final(self)@ == old(self)@,
            old(self)@.state == PlaybackState::Live ==> final(self).ring_model() == (RingModel {
                read_pos: behind(
                    old(self).ring_model().write_pos,
                    if old(self)@.base_delay >= frame_count * old(self)@.channels {
                        old(self)@.base_delay
                    } else {
                        (frame_count * old(self)@.channels) as nat
                    },
                ),
                ..old(self).ring_model()
            }),
            old(self)@.state != PlaybackState::Live ==> final(self).ring_model()
                == old(self).ring_model(),
    {
        match self.state {
            PlaybackState::Live => {
                let wp = self.ring.write_position() as u128;
                let fc = frame_count as u128;
                let ch = self.channels as u128;
                assert(fc * ch <= 0xffff_ffff_ffff_ffffu128 * 0xffffu128) by (nonlinear_arith)
                    requires fc <= 0xffff_ffff_ffff_ffffu128, ch <= 0xffffu128;
                let need = fc * ch;
                let base = self.base_delay_samples as u128;
                let d = if base >= need { base } else { need };
                let target: u128 = if wp >= d { wp - d } else { 0 };
                self.ring.set_read_position(target as usize);
            },
            _ => {},
        }
        self.state
    }

    /// Returns to live playback: the read cursor goes to the base delay
    /// behind the write cursor, and the anti-click ramp is armed.
    pub fn jump_to_live(&mut self)
        requires
            old(self).wf(),
        ensures
            final(self).wf(),
            final(self).ring_model() == (RingModel {
                read_pos: behind(old(self).ring_model().write_pos, old(self)@.base_delay),
                ..old(self).ring_model()
            }),
            final(self)@ == (ControllerModel {
                state: PlaybackState::Live,
                ramp_remaining: old(self)@.ramp_total(),
                ..old(self)@
            }),
    {
        let wp = self.ring.write_position();
        let target = if wp >= self.base_delay_samples { wp - self.base_delay_samples } else { 0 };
        self.ring.set_read_position(target);
        self.state = PlaybackState::Live;
        self.ramp_remaining = self.ramp_total();
    }

    /// Advances the anti-click ramp over an output buffer of `sample_count`
    /// samples. Returns the part of the ramp that falls on the buffer, or
    /// `None` when no ramp is running and the buffer plays at full gain.
    pub fn apply_ramp(&mut self, sample_count: usize) -> (r: Option<RampWindow>)
        requires
            old(self).wf(),
        ensures
            final(self).wf(),
            final(self).ring_model() == old(self).ring_model(),
            final(self)@ == (ControllerModel {
                ramp_remaining: ramp_after(old(self)@.ramp_remaining, sample_count as nat),
                ..old(self)@
            }),
            r.is_none() <==> old(self)@.ramp_remaining == 0,
            r.is_some() ==> r.unwrap().total == old(self)@.ramp_total() && r.unwrap().start
                == old(self)@.ramp_total() - old(self)@.ramp_remaining,
            r.is_some() ==> forall|i: nat|
                #[trigger] r.unwrap().gain(i) == ramp_gain(
                    old(self)@.ramp_remaining,
                    old(self)@.ramp_total(),
                    i,
                ),
    {
        let remaining = self.ramp_remaining;
        if remaining == 0 {
            return None;
        }
        let total = self.ramp_total();
        let consumed = if sample_count < remaining { sample_count } else { remaining };
        self.ramp_remaining = remaining - consumed;
        Some(RampWindow { start: total - remaining, total })
    }

    /// The gain, in thousandths, that an output buffer must be scaled by, or
    /// `None` when the volume is within a thousandth of unity and the buffer
    /// is left as it is.
    pub fn apply_volume(&self) -> (r: Option<u32>)
        requires
            self.wf(),
        ensures
            r.is_none() <==> UNITY - 1 <= self@.volume <= UNITY + 1,
            r.is_some() ==> r.unwrap() == self@.volume,
    {
        if UNITY - 1 <= self.volume && self.volume <= UNITY + 1 {
            None
        } else {
            Some(self.volume)
        }
    }

    /// Changes the volume by `delta` thousandths, kept within 0 to 1.5, and
    /// lifts a mute.
    pub fn adjust_volume(&mut self, delta: i32)
        requires
            old(self).wf(),
        ensures
            final(self).wf(),
            final(self).ring_model() == old(self).ring_model(),
            final(self)@ == (ControllerModel {
                volume: clamped_volume(old(self)@.volume, delta as int),
                muted_volume: 0,
                ..old(self)@
            }),
    {
        let v = self.volume as i64 + delta as i64;
        self.volume = if v < 0 {
            0
        } else if v > MAX_VOLUME as i64 {
            MAX_VOLUME
        } else {
            v as u32
        };
        self.muted_volume = 0;
    }

    /// Mutes, saving the volume (at least one thousandth, so that a mute is
    /// always seen), or restores the saved volume.
    pub fn toggle_mute(&mut self)
        requires
            old(self).wf(),
        ensures
            final(self).wf(),
            final(self).ring_model() == old(self).ring_model(),
            old(self)@.muted_volume > 0 ==> final(self)@ == (ControllerModel {
                volume: old(self)@.muted_volume,
                muted_volume: 0,
                ..old(self)@
            }),
            old(self)@.muted_volume == 0 ==> final(self)@ == (ControllerModel {
                volume: 0,
                muted_volume: if old(self)@.volume >= 1 { old(self)@.volume } else { 1 },
                ..old(self)@
            }),
    {
        let saved = self.muted_volume;
        if saved > 0 {
            self.volume = saved;
            self.muted_volume = 0;
        } else {
            self.muted_volume = if self.volume >= 1 { self.volume } else { 1 };
            self.volume = 0;
        }
    }

    /// The current playback state.
    pub fn state(&self) -> (r: PlaybackState)
        ensures
            r == self@.state,
    {
        self.state
    }

    /// The delay between capture and playback in whole milliseconds.
    pub fn delay_ms(&self) -> (r: u128)
        requires
            self.wf(),
        ensures
            r == self.ring_model().delay() / self@.channels * 1000 / self@.sample_rate,
    {
        let frames = (self.ring.delay_samples() / self.channels as usize) as u128;
        frames * 1000 / self.sample_rate as u128
    }

    /// The share of the buffer in use, as `(delay_samples, capacity)`.
    pub fn buffer_usage(&self) -> (r: (usize, usize))
        ensures
            r.0 == self.ring_model().delay(),
            r.1 == self.ring_model().capacity,
    {
        self.ring.usage_fraction()
    }

    /// The left and right peak levels in thousandths.
    pub fn peak_levels(&self) -> (r: (u32, u32))
        ensures
            r.0 == self@.peak_left,
            r.1 == self@.peak_right,
    {
        (self.peak_left, self.peak_right)
    }

    /// The volume in thousandths.
    pub fn volume(&self) -> (r: u32)
        ensures
            r == self@.volume,
    {
        self.volume
    }

    /// Whether the output is muted.
    pub fn is_muted(&self) -> (r: bool)
        ensures
            r == (self@.muted_volume > 0),
    {
        self.muted_volume > 0
    }

    /// The base delay in samples.
    pub fn base_delay_samples(&self) -> (r: usize)
        ensures
            r == self@.base_delay,
    {
        self.base_delay_samples
    }

    /// The ring buffer, for its positions and counters.
    pub fn ring(&self) -> (r: &AudioRingBuffer<T>)
        ensures
            r@ == self.ring_model(),
    {
        &self.ring
    }

    /// Producer hook: appends captured samples to the ring buffer.
    pub fn write(&mut self, data: &[T])
        requires
            old(self).wf(),
            old(self).ring_model().write_pos + data@.len() <= usize::MAX,
        ensures
            final(self).wf(),
            final(self)@ == old(self)@,
            final(self).ring_model() == old(self).ring_model().written(data@),
    {
        self.ring.write(data);
    }

    /// Consumer hook: reads the next output buffer from the ring buffer.
    pub fn read(&mut self, output: &mut [T]) -> (r: ReadResult)
        requires
            old(self).wf(),
        ensures
            final(self).wf(),
            final(self)@ == old(self)@,
            r == old(self).ring_model().read_outcome(old(output)@.len()),
            final(self).ring_model() == old(self).ring_model().after_read(old(output)@.len()),
            final(output)@ == old(self).ring_model().read_output(old(output)@.len()),
    {
        self.ring.read(output)
    }

    /// One output cycle up to the gains: `pre_read` for the buffer's frames,
    /// then silence while paused (the read cursor stays frozen), or a read
    /// from the ring buffer otherwise, whose outcome is returned.
    pub fn fill_output(&mut self, output: &mut [T]) -> (r: Option<ReadResult>)
        requires
            old(self).wf(),
        ensures
            final(self).wf(),
            final(self)@ == old(self)@,
            ({
                let frames = old(output)@.len() / old(self)@.channels;
                let positioned = if old(self)@.state == PlaybackState::Live {
                    RingModel {
                        read_pos: behind(
                            old(self).ring_model().write_pos,
                            if old(self)@.base_delay >= frames * old(self)@.channels {
                                old(self)@.base_delay
                            } else {
                                (frames * old(self)@.channels) as nat
                            },
                        ),
                        ..old(self).ring_model()
                    }
                } else {
                    old(self).ring_model()
                };
                let n = old(output)@.len();
                if old(self)@.state == PlaybackState::Paused {
                    &&& r is None
                    &&& final(self).ring_model() == positioned
                    &&& final(output)@ == silence_of(positioned.silence, n)
                } else {
                    &&& r == Some(positioned.read_outcome(n))
                    &&& final(self).ring_model() == positioned.after_read(n)
                    &&& final(output)@ == positioned.read_output(n)
                }
            }),
    {
        let frames = output.len() / self.channels as usize;
        let state = self.pre_read(frames);
        match state {
            PlaybackState::Paused => {
                self.ring.fill_silence(output);
                None
            },
            _ => Some(self.ring.read(output)),
        }
    }
}

} // verus!
