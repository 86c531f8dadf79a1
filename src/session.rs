use vstd::prelude::*;

use crate::controller::{base_delay_for, base_delay_wide, ControllerModel, PlaybackController, UNITY};
use crate::devices::{is_virtual_device, lower_of, virtual_name};
use crate::ring_buffer::AudioRingBuffer;
use crate::state::PlaybackState;

verus! {

/// Why a session cannot be set up with the chosen devices and parameters.
#[derive(Debug, Clone, Copy, PartialEq, Eq, Structural)]
pub enum SetupError {
    /// The input device is not a virtual loopback device.
    InputNotVirtual,
    /// The chosen output device is a virtual loopback device.
    OutputIsVirtual,
    /// Input and output are the same device.
    SameDevice,
    /// No output was chosen and the default output is a virtual device.
    DefaultOutputIsVirtual,
    /// The input's sample rate or channel count is unknown or unusable.
    UnknownFormat,
    /// Input and output run at different sample rates.
    SampleRateMismatch,
    /// The buffer is empty, or too large to address.
    BadBufferSize,
}

/// The input device must be a virtual loopback device.
pub fn check_input_device(name: &str) -> (r: Result<(), SetupError>)
    ensures
        r is Err <==> !virtual_name(lower_of(name@)),
        r is Err ==> r == Err::<(), SetupError>(SetupError::InputNotVirtual),
{
    if is_virtual_device(name) {
        Ok(())
    } else {
        Err(SetupError::InputNotVirtual)
    }
}

/// An output device chosen by name must be a physical device other than the
/// input.
pub fn check_output_device(name: &str, id: u32, input_id: u32) -> (r: Result<(), SetupError>)
    ensures
        virtual_name(lower_of(name@)) ==> r == Err::<(), SetupError>(SetupError::OutputIsVirtual),
        !virtual_name(lower_of(name@)) && id == input_id ==> r == Err::<(), SetupError>(
            SetupError::SameDevice,
        ),
        !virtual_name(lower_of(name@)) && id != input_id ==> r is Ok,
{
    if is_virtual_device(name) {
        Err(SetupError::OutputIsVirtual)
    } else if id == input_id {
        Err(SetupError::SameDevice)
    } else {
        Ok(())
    }
}

/// The default output device, used when none is chosen, must not be virtual.
pub fn check_default_output(name: &str) -> (r: Result<(), SetupError>)
    ensures
        r is Err <==> virtual_name(lower_of(name@)),
        r is Err ==> r == Err::<(), SetupError>(SetupError::DefaultOutputIsVirtual),
{
    if is_virtual_device(name) {
        Err(SetupError::DefaultOutputIsVirtual)
    } else {
        Ok(())
    }
}

/// Ring buffer capacity in samples for `seconds` of audio.
pub open spec fn capacity_for(sample_rate: nat, channels: nat, seconds: nat) -> nat {
    sample_rate * channels * seconds
}

/// The error, if any, that `new_session` reports for its parameters.
pub open spec fn session_error(
    input_rate: nat,
    output_rate: nat,
    channels: nat,
    buffer_seconds: nat,
    base_delay_ms: nat,
) -> Option<SetupError> {
    if input_rate == 0 || channels == 0 || channels > u16::MAX {
        Some(SetupError::UnknownFormat)
    } else if output_rate != input_rate {
        Some(SetupError::SampleRateMismatch)
    } else if capacity_for(input_rate, channels, buffer_seconds) == 0 || capacity_for(
        input_rate,
        channels,
        buffer_seconds,
    ) > usize::MAX || base_delay_for(base_delay_ms, input_rate, channels) > usize::MAX {
        Some(SetupError::BadBufferSize)
    } else {
        None
    }
}

/// Sets up a session: checks the stream format that the devices report and
/// builds an empty ring buffer of `buffer_seconds` of audio with a live
/// controller over it, playing `base_delay_ms` behind capture.
pub fn new_session<T: Copy + Default>(
    input_rate: u32,
    output_rate: u32,
    channels: u32,
    buffer_seconds: u32,
    base_delay_ms: u32,
) -> (r: Result<PlaybackController<T>, SetupError>)
    ensures
        match session_error(
            input_rate as nat,
            output_rate as nat,
            channels as nat,
            buffer_seconds as nat,
            base_delay_ms as nat,
        ) {
            Some(e) => r == Err::<PlaybackController<T>, SetupError>(e),
            None => r is Ok && r->Ok_0.wf() && r->Ok_0@ == (ControllerModel {
                state: PlaybackState::Live,
                channels: channels as nat,
                sample_rate: input_rate as nat,
                base_delay: base_delay_for(base_delay_ms as nat, input_rate as nat, channels as nat),
                ramp_remaining: 0,
                peak_left: 0,
                peak_right: 0,
                volume: UNITY as nat,
                muted_volume: 0,
            }) && r->Ok_0.ring_model().capacity == capacity_for(
                input_rate as nat,
                channels as nat,
                buffer_seconds as nat,
            ) && r->Ok_0.ring_model().write_pos == 0 && r->Ok_0.ring_model().read_pos == 0
                && !r->Ok_0.ring_model().active,
        },
{
    if input_rate == 0 || channels == 0 || channels > 0xffff {
        return Err(SetupError::UnknownFormat);
    }
    if output_rate != input_rate {
        return Err(SetupError::SampleRateMismatch);
    }
    let sr = input_rate as u128;
    let ch = channels as u128;
    let secs = buffer_seconds as u128;
    assert(sr * ch <= 0xffff_ffffu128 * 0xffffu128) by (nonlinear_arith)
        requires sr <= 0xffff_ffffu128, ch <= 0xffffu128;
    assert(sr * ch * secs <= 0xffff_ffffu128 * 0xffffu128 * 0xffff_ffffu128) by (nonlinear_arith)
        requires sr * ch <= 0xffff_ffffu128 * 0xffffu128, secs <= 0xffff_ffffu128;
    let capacity = sr * ch * secs;
    let base = base_delay_wide(base_delay_ms, input_rate, channels);
    if capacity == 0 || capacity > usize::MAX as u128 || base > usize::MAX as u128 {
        return Err(SetupError::BadBufferSize);
    }
    let ring = AudioRingBuffer::new(capacity as usize);
    Ok(PlaybackController::new(ring, channels as u16, input_rate, base_delay_ms))
}

} // verus!
