//! The decode loop as a state machine over plain events.
//!
//! The producer side of the pipeline demultiplexes a compressed source,
//! decodes its best video stream, converts each picture to the requested
//! pixel format and pushes the result into the frame slot. All I/O — opening
//! the source, reading units, running the decoder and the converter,
//! sleeping — happens in an unverified driver; every decision the loop makes
//! is here, as a function from the loop state and one event to the next
//! state, a slot effect and an action for the driver to perform.
//!
//! The driver feeds one unit at a time to the decoder and then drains every
//! picture the decoder is ready to emit before reading the next unit.

use crate::frame::{Frame, FrameView, PlaybackParams};
use crate::slot::{FrameBuffer, SlotView};
use crate::timing::{
    frame_interval_us, frame_ts_us, pacing_sleep_us, spec_frame_interval_us, spec_frame_ts_us,
    spec_pacing_sleep_us,
};
use vstd::prelude::*;

verus! {

/// The error taxonomy of one playback session.
#[derive(Clone, Copy, PartialEq, Eq, Structural, Debug)]
pub enum DecodeError {
    /// The source is unreachable or holds no video stream.
    SourceOpen,
    /// The stream's codec or parameters are unsupported.
    DecoderInit,
    /// One compressed unit failed to decode.
    UnitDecode,
    /// Pixel-format conversion failed for one picture.
    Conversion,
}

impl DecodeError {
    /// Fatal errors abort the whole session before or at its start; the
    /// others are recovered per unit or per picture.
    pub open spec fn spec_is_fatal(self) -> bool {
        self is SourceOpen || self is DecoderInit
    }

    pub fn is_fatal(&self) -> (r: bool)
        ensures
            r == self.spec_is_fatal(),
    {
        match self {
            DecodeError::SourceOpen => true,
            DecodeError::DecoderInit => true,
            DecodeError::UnitDecode => false,
            DecodeError::Conversion => false,
        }
    }
}

/// What opening the source and locating its best video stream yields, as
/// plain values: everything the loop's decisions depend on.
#[derive(Clone, Copy, PartialEq, Eq, Structural, Debug)]
pub struct StreamInfo {
    /// Demuxer index of the chosen video stream.
    pub video_stream_index: u32,
    /// Native picture width; the converter keeps the native size.
    pub width: u32,
    /// Native picture height.
    pub height: u32,
    /// Stream timebase numerator.
    pub tb_num: u32,
    /// Stream timebase denominator; zero means undefined.
    pub tb_den: u32,
    /// Declared average frame rate, `fr_num / fr_den` frames per second;
    /// a zero component means the rate is undeclared.
    pub fr_num: u32,
    /// Frame rate denominator.
    pub fr_den: u32,
}

/// Where the loop stands.
#[derive(Clone, Copy, PartialEq, Eq, Structural, Debug)]
pub enum DecodePhase {
    /// Reading compressed units and decoding them.
    Running,
    /// End of input reached; draining what the decoder still holds, without
    /// further pacing.
    Flushing,
    /// The loop is over and the slot is finished.
    Done,
}

/// The loop's own state: the facts fixed at start plus the unit counter that
/// drives the cooperative-yield cadence.
#[derive(Clone, Copy, PartialEq, Eq, Structural, Debug)]
pub struct DecodeState {
    /// Facts of the opened stream.
    pub info: StreamInfo,
    /// Bytes per output pixel, fixed by the session's pixel format.
    pub bytes_per_pixel: u32,
    /// Nominal inter-frame interval in microseconds; zero means no pacing.
    pub interval_us: u64,
    /// Compressed units read so far.
    pub units_read: u64,
    /// Where the loop stands.
    pub phase: DecodePhase,
}

/// The loop yields execution briefly after every this many units read, as a
/// scheduling courtesy to cooperating work.
pub const YIELD_EVERY_UNITS: u64 = 5;

/// One event the driver observed, handed to the next decision.
pub enum DecodeEvent {
    /// The cancellation flag was found set at a check point.
    Cancelled,
    /// A compressed unit belonging to stream `stream_index` was read.
    Unit { stream_index: u32 },
    /// The decoder rejected the unit just fed to it.
    UnitRejected,
    /// The decoder emitted a picture. `converted` holds its converted pixel
    /// bytes, freshly copied out of the converter, or nothing when the
    /// conversion failed; `elapsed_us` is the wall time since the last paced
    /// push.
    Picture { pts: Option<i64>, converted: Option<Vec<u8>>, elapsed_us: u64 },
    /// The demuxer reached the end of its input.
    EndOfInput,
    /// The flushing decoder has no more pictures to emit.
    Drained,
}

/// What the driver must do after a decision.
#[derive(Clone, Copy, PartialEq, Eq, Structural, Debug)]
pub enum DecodeAction {
    /// Feed the unit to the decoder, then drain every picture it is ready
    /// to emit; yield briefly first when the cadence says so.
    Feed { yield_first: bool },
    /// The unit belongs to another stream: read the next one; yield briefly
    /// first when the cadence says so.
    Skip { yield_first: bool },
    /// The unit failed to decode: pause briefly, then read the next unit.
    Backoff,
    /// A frame was pushed: sleep for `sleep_us` microseconds (zero: not at
    /// all), then keep draining.
    Sleep { sleep_us: u64 },
    /// The picture was dropped (failed or ill-sized conversion); keep
    /// draining.
    DropPicture,
    /// Send end-of-stream to the decoder and drain its remaining pictures.
    BeginFlush,
    /// The session is over and the slot is finished: return without reading
    /// or pushing anything further.
    Stop,
}

impl DecodeState {
    /// Bytes a well-sized converted picture must hold: exactly one buffer of
    /// `width * height * bytes_per_pixel`, row-major with no row padding.
    pub open spec fn expected_bytes(self) -> int {
        self.info.width * self.info.height * self.bytes_per_pixel
    }

    /// Which events the driver can hand to each phase: a running loop sees
    /// everything but a flush drain mark; a flushing loop only cancellation,
    /// drained pictures and the drain mark; a finished loop nothing.
    pub open spec fn accepts(self, ev: DecodeEvent) -> bool {
        match self.phase {
            DecodePhase::Running => !(ev is Drained),
            DecodePhase::Flushing => ev is Cancelled || ev is Picture || ev is Drained,
            DecodePhase::Done => false,
        }
    }
}

/// Decisions fixed when the stream has been opened and the decoder and
/// converter initialized: output geometry, pacing interval, yield cadence.
pub fn init_decode(info: &StreamInfo, params: &PlaybackParams) -> (st: DecodeState)
    ensures
        st == (DecodeState {
            info: *info,
            bytes_per_pixel: params.pixel_format.spec_bytes_per_pixel(),
            interval_us: spec_frame_interval_us(params.is_live, info.fr_num, info.fr_den),
            units_read: 0,
            phase: DecodePhase::Running,
        }),
{
    DecodeState {
        info: *info,
        bytes_per_pixel: params.pixel_format.bytes_per_pixel(),
        interval_us: frame_interval_us(params.is_live, info.fr_num, info.fr_den),
        units_read: 0,
        phase: DecodePhase::Running,
    }
}

/// Full behaviour of one decision: how the state, the slot and the action
/// after the step relate to the state, the slot and the event before it.
pub open spec fn step_spec(
    pre: DecodeState,
    pre_slot: SlotView,
    ev: DecodeEvent,
    post: DecodeState,
    post_slot: SlotView,
    act: DecodeAction,
) -> bool {
    match ev {
        DecodeEvent::Cancelled => {
            &&& post == (DecodeState { phase: DecodePhase::Done, ..pre })
            &&& post_slot == pre_slot.finish_t()
            &&& act == DecodeAction::Stop
        },
        DecodeEvent::Unit { stream_index } => {
            &&& post == (DecodeState { units_read: (pre.units_read + 1) as u64, ..pre })
            &&& post_slot == pre_slot
            &&& act == (if stream_index == pre.info.video_stream_index {
                DecodeAction::Feed { yield_first: (pre.units_read + 1) % (YIELD_EVERY_UNITS as int) == 0 }
            } else {
                DecodeAction::Skip { yield_first: (pre.units_read + 1) % (YIELD_EVERY_UNITS as int) == 0 }
            })
        },
        DecodeEvent::UnitRejected => {
            &&& post == pre
            &&& post_slot == pre_slot
            &&& act == DecodeAction::Backoff
        },
        DecodeEvent::Picture { pts, converted, elapsed_us } => {
            match converted {
                Some(data) => {
                    if data@.len() == pre.expected_bytes() {
                        &&& post == pre
                        &&& post_slot == pre_slot.push_t(
                            FrameView {
                                width: pre.info.width,
                                height: pre.info.height,
                                data: data@,
                                ts_us: spec_frame_ts_us(pts, pre.info.tb_num, pre.info.tb_den),
                            },
                        )
                        &&& act == (DecodeAction::Sleep {
                            sleep_us: if pre.phase is Flushing {
                                0
                            } else {
                                spec_pacing_sleep_us(pre.interval_us, elapsed_us)
                            },
                        })
                    } else {
                        &&& post == pre
                        &&& post_slot == pre_slot
                        &&& act == DecodeAction::DropPicture
                    }
                },
                None => {
                    &&& post == pre
                    &&& post_slot == pre_slot
                    &&& act == DecodeAction::DropPicture
                },
            }
        },
        DecodeEvent::EndOfInput => {
            &&& post == (DecodeState { phase: DecodePhase::Flushing, ..pre })
            &&& post_slot == pre_slot
            &&& act == DecodeAction::BeginFlush
        },
        DecodeEvent::Drained => {
            &&& post == (DecodeState { phase: DecodePhase::Done, ..pre })
            &&& post_slot == pre_slot.finish_t()
            &&& act == DecodeAction::Stop
        },
    }
}

/// One decision of the decode loop.
///
/// Cancellation finishes the slot at once and stops the loop without
/// flushing; a unit of another stream is skipped; a rejected unit is backed
/// off from and skipped; a well-sized converted picture becomes a frame,
/// timestamped through the stream timebase and pushed into the slot, and is
/// followed by the pacing sleep (none while flushing); an ill-sized or
/// failed conversion drops that one picture; end of input begins the flush;
/// a drained flush finishes the slot and ends the loop.
pub fn decode_step(st: &mut DecodeState, slot: &mut FrameBuffer, ev: DecodeEvent) -> (act:
    DecodeAction)
    requires
        old(st).accepts(ev),
        old(st).units_read < u64::MAX,
        !old(slot)@.finished,
        old(slot)@.version < u64::MAX,
    ensures
        step_spec(*old(st), old(slot)@, ev, *final(st), final(slot)@, act),
{
    match ev {
        DecodeEvent::Cancelled => {
            slot.finish();
            st.phase = DecodePhase::Done;
            DecodeAction::Stop
        },
        DecodeEvent::Unit { stream_index } => {
            st.units_read = st.units_read + 1;
            let yield_first = st.units_read % YIELD_EVERY_UNITS == 0;
            if stream_index == st.info.video_stream_index {
                DecodeAction::Feed { yield_first }
            } else {
                DecodeAction::Skip { yield_first }
            }
        },
        DecodeEvent::UnitRejected => DecodeAction::Backoff,
        DecodeEvent::Picture { pts, converted, elapsed_us } => {
            match converted {
                Some(data) => {
                    let w = st.info.width;
                    let h = st.info.height;
                    let bpp = st.bytes_per_pixel;
                    assert((w as u128) * (h as u128) <= 0xffff_ffffu128 * 0xffff_ffffu128)
                        by (nonlinear_arith)
                        requires
                            w as u128 <= 0xffff_ffffu128,
                            h as u128 <= 0xffff_ffffu128,
                    ;
                    assert((w as u128) * (h as u128) * (bpp as u128) <= 0xffff_ffffu128
                        * 0xffff_ffffu128 * 0xffff_ffffu128) by (nonlinear_arith)
                        requires
                            (w as u128) * (h as u128) <= 0xffff_ffffu128 * 0xffff_ffffu128,
                            bpp as u128 <= 0xffff_ffffu128,
                    ;
                    let expected: u128 = (w as u128) * (h as u128) * (bpp as u128);
                    if data.len() as u128 == expected {
                        let ts = frame_ts_us(pts, st.info.tb_num, st.info.tb_den);
                        let frame = Frame::new(w, h, data, ts);
                        slot.push(frame);
                        let sleep_us = match st.phase {
                            DecodePhase::Flushing => 0,
                            _ => pacing_sleep_us(st.interval_us, elapsed_us),
                        };
                        DecodeAction::Sleep { sleep_us }
                    } else {
                        DecodeAction::DropPicture
                    }
                },
                None => DecodeAction::DropPicture,
            }
        },
        DecodeEvent::EndOfInput => {
            st.phase = DecodePhase::Flushing;
            DecodeAction::BeginFlush
        },
        DecodeEvent::Drained => {
            slot.finish();
            st.phase = DecodePhase::Done;
            DecodeAction::Stop
        },
    }
}

/// Law: every frame a step pushes is well formed for the session's pixel
/// format — its buffer holds exactly `width * height * bytes_per_pixel`
/// bytes of the stream's native size. A step that pushed is recognized by
/// the advanced push count.
pub proof fn lemma_pushed_frames_are_well_formed(
    pre: DecodeState,
    pre_slot: SlotView,
    ev: DecodeEvent,
    post: DecodeState,
    post_slot: SlotView,
    act: DecodeAction,
    f: FrameView,
)
    requires
        step_spec(pre, pre_slot, ev, post, post_slot, act),
        !pre_slot.finished,
        post_slot.current == Some(f),
        post_slot.version != pre_slot.version,
    ensures
        f.wf(pre.bytes_per_pixel),
        f.width == pre.info.width,
        f.height == pre.info.height,
{
}

/// Law: the slot and the loop end together. Provided the driver hands each
/// phase only the events it accepts, a step leaves the slot finished exactly
/// when it moves the loop to its final phase, and exactly when it tells the
/// driver to stop.
pub proof fn lemma_finished_iff_done(
    pre: DecodeState,
    pre_slot: SlotView,
    ev: DecodeEvent,
    post: DecodeState,
    post_slot: SlotView,
    act: DecodeAction,
)
    requires
        pre.accepts(ev),
        step_spec(pre, pre_slot, ev, post, post_slot, act),
        !pre_slot.finished,
    ensures
        post_slot.finished <==> post.phase is Done,
        post_slot.finished <==> act == DecodeAction::Stop,
{
}

/// Law: cancellation is prompt and clean. One step on a cancellation event
/// finishes the slot, stops the loop, and pushes nothing — and a stopped
/// loop accepts no further event, so nothing is pushed afterwards either.
pub proof fn lemma_cancel_stops_loop(
    pre: DecodeState,
    pre_slot: SlotView,
    post: DecodeState,
    post_slot: SlotView,
    act: DecodeAction,
    ev: DecodeEvent,
)
    requires
        step_spec(pre, pre_slot, DecodeEvent::Cancelled, post, post_slot, act),
    ensures
        post_slot.finished,
        post_slot == pre_slot.finish_t(),
        act == DecodeAction::Stop,
        post.phase is Done,
        !post.accepts(ev),
{
}

} // verus!
