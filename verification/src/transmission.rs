//! The transmission tracker: a single-slot lifecycle state machine that
//! consumes decoded frames, accumulates voice payloads while the key is
//! held, installs a fresh transmission on caller identification, and
//! emits a flush request when the key is released.

use crate::config::{Config, ConfigView};
use crate::frame::{
    decode_frame, spec_decode_ok, spec_frame, Frame, FrameView, TLV_TAG_SET_INFO, USRP_TYPE_TEXT,
    USRP_TYPE_VOICE,
};
use crate::numeral::{dec_str, i64_to_string};
use crate::text::{find_call, find_call_spec, unknown_callsign};
use vstd::prelude::*;
use vstd::slice::{slice_subrange, slice_to_vec};
use vstd::string::StringExecFns;

verus! {

/// The view of a [`Transmission`].
#[verifier::ext_equal]
pub ghost struct TransmissionView {
    pub group: Seq<char>,
    pub start_time: i64,
    pub end_time: i64,
    pub callsign: Seq<char>,
    pub audio: Seq<u8>,
    pub config: ConfigView,
}

/// One logical key-up-to-key-down radio transmission: the accumulated
/// audio, the attributed caller, and the window timestamps.
pub struct Transmission {
    pub group: String,
    pub start_time: i64,
    pub end_time: i64,
    pub callsign: String,
    pub audio: Vec<u8>,
    pub config: Config,
}

impl View for Transmission {
    type V = TransmissionView;

    open spec fn view(&self) -> TransmissionView {
        TransmissionView {
            group: self.group@,
            start_time: self.start_time,
            end_time: self.end_time,
            callsign: self.callsign@,
            audio: self.audio@,
            config: self.config@,
        }
    }
}

/// The view of a [`FlushRequest`].
#[verifier::ext_equal]
pub ghost struct FlushView {
    pub group: Seq<char>,
    pub callsign: Seq<char>,
    pub start_time: i64,
    pub end_time: i64,
    pub audio: Seq<u8>,
}

/// Everything the storage collaborator needs to persist one finished
/// transmission: its attribution, its window, and the raw audio bytes.
pub struct FlushRequest {
    pub group: String,
    pub callsign: String,
    pub start_time: i64,
    pub end_time: i64,
    pub audio: Vec<u8>,
}

impl View for FlushRequest {
    type V = FlushView;

    open spec fn view(&self) -> FlushView {
        FlushView {
            group: self.group@,
            callsign: self.callsign@,
            start_time: self.start_time,
            end_time: self.end_time,
            audio: self.audio@,
        }
    }
}

/// The view of an optional flush request.
pub open spec fn opt_flush_view(r: Option<FlushRequest>) -> Option<FlushView> {
    match r {
        Some(q) => Some(q@),
        None => None,
    }
}

/// A voice frame whose key is released: it ends the open transmission.
pub open spec fn is_end_voice(f: FrameView) -> bool {
    f.frame_type == USRP_TYPE_VOICE && f.keyup == 0
}

/// A voice frame whose key is held: its payload is accumulated.
pub open spec fn is_active_voice(f: FrameView) -> bool {
    f.frame_type == USRP_TYPE_VOICE && f.keyup != 0
}

/// A TEXT frame whose first payload byte is the identification tag: it
/// installs a brand-new transmission.
pub open spec fn is_identification(f: FrameView) -> bool {
    f.frame_type == USRP_TYPE_TEXT && f.payload.len() >= 1 && f.payload[0] == TLV_TAG_SET_INFO
}

/// Every other frame — pings, unhandled frame types, TEXT frames without
/// the identification tag — leaves the tracker untouched.
pub open spec fn is_no_op(f: FrameView) -> bool {
    !is_end_voice(f) && !is_active_voice(f) && !is_identification(f)
}

/// The callsign an identification payload carries: the trimmed text of
/// its bytes [14,50), or the sentinel when the payload is too short to
/// hold that field.
pub open spec fn ident_callsign(payload: Seq<u8>) -> Seq<char> {
    if payload.len() >= 50 {
        find_call_spec(payload.subrange(14, 50))
    } else {
        unknown_callsign()
    }
}

/// A brand-new transmission under `config`, attributed to `callsign`,
/// opened at `now` with empty audio.
pub open spec fn fresh_state(config: ConfigView, callsign: Seq<char>, now: i64) -> TransmissionView {
    TransmissionView {
        group: config.group,
        start_time: now,
        end_time: now,
        callsign,
        audio: Seq::<u8>::empty(),
        config,
    }
}

/// `t` closed at `now`: only the end timestamp changes.
pub open spec fn end_state(t: TransmissionView, now: i64) -> TransmissionView {
    TransmissionView { end_time: now, ..t }
}

/// The flush request that closing `t` at `now` emits.
pub open spec fn flush_of(t: TransmissionView, now: i64) -> FlushView {
    FlushView {
        group: t.group,
        callsign: t.callsign,
        start_time: t.start_time,
        end_time: now,
        audio: t.audio,
    }
}

/// `t` with `payload` appended to its audio.
pub open spec fn append_state(t: TransmissionView, payload: Seq<u8>) -> TransmissionView {
    TransmissionView { audio: t.audio + payload, ..t }
}

/// The transition table of the tracker: what one decoded frame, applied
/// at time `now`, does to the current transmission, and which flush
/// request (if any) it emits.
pub open spec fn spec_step(t: TransmissionView, f: FrameView, now: i64) -> (TransmissionView, Option<
    FlushView,
>) {
    if is_end_voice(f) {
        (end_state(t, now), Some(flush_of(t, now)))
    } else if is_active_voice(f) {
        (append_state(t, f.payload), None)
    } else if is_identification(f) {
        (fresh_state(t.config, ident_callsign(f.payload), now), None)
    } else {
        (t, None)
    }
}

/// Relies on chrono's `Utc::now`: the wall-clock time in whole seconds
/// since the Unix epoch. Nothing is assumed of the value.
#[verifier::external_body]
pub(crate) fn now_timestamp() -> i64 {
    chrono::Utc::now().timestamp()
}

/// Appends every byte of `src` to `dest`, in order.
fn append_bytes(dest: &mut Vec<u8>, src: &[u8])
    ensures
        final(dest)@ == old(dest)@ + src@,
{
    let mut i: usize = 0;
    while i < src.len()
        invariant
            i <= src@.len(),
            dest@ == old(dest)@ + src@.subrange(0, i as int),
        decreases src@.len() - i,
    {
        dest.push(src[i]);
        proof {
            assert(old(dest)@ + src@.subrange(0, i as int) + seq![src@[i as int]] =~= old(dest)@
                + src@.subrange(0, i + 1));
        }
        i = i + 1;
    }
    proof {
        assert(old(dest)@ + src@.subrange(0, src@.len() as int) =~= old(dest)@ + src@);
    }
}

impl Transmission {
    /// A brand-new transmission opened at `now`.
    pub fn new_at(group: String, callsign: String, config: &Config, now: i64) -> (t: Transmission)
        ensures
            t@ == (TransmissionView {
                group: group@,
                start_time: now,
                end_time: now,
                callsign: callsign@,
                audio: Seq::<u8>::empty(),
                config: config@,
            }),
    {
        let t = Transmission {
            group,
            start_time: now,
            end_time: now,
            callsign,
            audio: Vec::new(),
            config: config.duplicate(),
        };
        proof {
            assert(t@ =~= (TransmissionView {
                group: t.group@,
                start_time: now,
                end_time: now,
                callsign: t.callsign@,
                audio: Seq::<u8>::empty(),
                config: config@,
            }));
        }
        t
    }

    /// A brand-new transmission opened at the current wall-clock time,
    /// seeded with empty audio.
    pub fn new(group: String, callsign: String, config: &Config) -> (t: Transmission)
        ensures
            t@.group == group@,
            t@.callsign == callsign@,
            t@.audio == Seq::<u8>::empty(),
            t@.config == config@,
            t@.start_time == t@.end_time,
    {
        let now = now_timestamp();
        Transmission::new_at(group, callsign, config, now)
    }

    /// Closes this transmission at `now` and returns the flush request
    /// carrying its attribution, window, and accumulated audio. The
    /// transmission itself is retained (only its end timestamp moves)
    /// until an identification frame supersedes it.
    pub fn end_at(&mut self, now: i64) -> (r: FlushRequest)
        ensures
            final(self)@ == end_state(old(self)@, now),
            r@ == flush_of(old(self)@, now),
    {
        self.end_time = now;
        let r = FlushRequest {
            group: self.group.clone(),
            callsign: self.callsign.clone(),
            start_time: self.start_time,
            end_time: now,
            audio: slice_to_vec(self.audio.as_slice()),
        };
        proof {
            assert(self@ =~= end_state(old(self)@, now));
            assert(r@ =~= flush_of(old(self)@, now));
        }
        r
    }

    /// Closes this transmission at the current wall-clock time and
    /// returns the flush request for its accumulated audio.
    pub fn end_transmission(&mut self) -> (r: FlushRequest)
        ensures
            exists|now: i64|
                final(self)@ == end_state(old(self)@, now) && r@ == flush_of(old(self)@, now),
    {
        let now = now_timestamp();
        let r = self.end_at(now);
        proof {
            assert(self@ == end_state(old(self)@, now) && r@ == flush_of(old(self)@, now));
        }
        r
    }

    /// Applies one decoded frame at time `now`: exactly the transition
    /// `spec_step` describes, returning the flush request when the frame
    /// ends the transmission.
    pub fn step_at(&mut self, frame: &Frame, now: i64) -> (r: Option<FlushRequest>)
        ensures
            spec_step(old(self)@, frame@, now) == (final(self)@, opt_flush_view(r)),
    {
        if frame.frame_type == USRP_TYPE_VOICE {
            if frame.keyup == 0 {
                let r = self.end_at(now);
                Some(r)
            } else {
                append_bytes(&mut self.audio, frame.payload.as_slice());
                proof {
                    assert(self@ =~= append_state(old(self)@, frame@.payload));
                }
                None
            }
        } else if frame.frame_type == USRP_TYPE_TEXT && frame.payload.len() >= 1
            && frame.payload[0] == TLV_TAG_SET_INFO {
            let callsign: String = if frame.payload.len() >= 50 {
                find_call(slice_subrange(frame.payload.as_slice(), 14, 50))
            } else {
                "UNKNOWN".to_owned()
            };
            let group = self.config.group.clone();
            let config = self.config.duplicate();
            *self = Transmission::new_at(group, callsign, &config, now);
            proof {
                assert(self@ =~= fresh_state(old(self)@.config, ident_callsign(frame@.payload), now));
            }
            None
        } else {
            None
        }
    }

    /// Applies one decoded frame at the current wall-clock time.
    pub fn apply(&mut self, frame: &Frame) -> (r: Option<FlushRequest>)
        ensures
            exists|now: i64| spec_step(old(self)@, frame@, now) == (final(self)@, opt_flush_view(r)),
    {
        let now = now_timestamp();
        let r = self.step_at(frame, now);
        proof {
            assert(spec_step(old(self)@, frame@, now) == (self@, opt_flush_view(r)));
        }
        r
    }
}

/// The filename a flush is written under when the write happens at time
/// `timestamp`: `<group>-<timestamp>-<callsign>.pcm`.
pub open spec fn spec_filename(group: Seq<char>, timestamp: int, callsign: Seq<char>) -> Seq<char> {
    group + "-"@ + dec_str(timestamp) + "-"@ + callsign + ".pcm"@
}

impl FlushRequest {
    /// Builds the storage filename for this flush, stamped with the
    /// write time `timestamp`.
    pub fn filename_at(&self, timestamp: i64) -> (r: String)
        ensures
            r@ == spec_filename(self@.group, timestamp as int, self@.callsign),
    {
        let mut s = String::new();
        s.append(self.group.as_str());
        s.append("-");
        let digits = i64_to_string(timestamp);
        s.append(digits.as_str());
        s.append("-");
        s.append(self.callsign.as_str());
        s.append(".pcm");
        proof {
            assert(s@ =~= spec_filename(self@.group, timestamp as int, self@.callsign));
        }
        s
    }
}

/// Handles one received datagram, exactly as the receive loop does per
/// iteration: a datagram shorter than 4 bytes is skipped without even
/// invoking the decoder; one the decoder rejects is dropped; a decoded
/// frame is applied to the current transmission.
///
/// In every skipped or rejected case the transmission is untouched and
/// no flush is produced.
pub fn handle_datagram(t: &mut Transmission, buf: &[u8]) -> (r: Option<FlushRequest>)
    ensures
        buf@.len() < 4 ==> final(t)@ == old(t)@ && r is None,
        !spec_decode_ok(buf@) ==> final(t)@ == old(t)@ && r is None,
        spec_decode_ok(buf@) ==> exists|now: i64|
            spec_step(old(t)@, spec_frame(buf@), now) == (final(t)@, opt_flush_view(r)),
{
    if buf.len() < 4 {
        return None;
    }
    match decode_frame(buf) {
        Ok(frame) => t.apply(&frame),
        Err(_) => None,
    }
}

/// The concatenation of `ps`, in order.
pub open spec fn concat_payloads(ps: Seq<Seq<u8>>) -> Seq<u8>
    decreases ps.len(),
{
    if ps.len() == 0 {
        Seq::<u8>::empty()
    } else {
        concat_payloads(ps.drop_last()) + ps.last()
    }
}

/// The transmission state after `fs` has been applied to `t`, frame by
/// frame in order, all at time `now`.
pub open spec fn run_frames(t: TransmissionView, fs: Seq<FrameView>, now: i64) -> TransmissionView
    decreases fs.len(),
{
    if fs.len() == 0 {
        t
    } else {
        spec_step(run_frames(t, fs.drop_last(), now), fs.last(), now).0
    }
}

/// Applying only key-held voice frames extends the audio by exactly the
/// concatenation of their payloads, in arrival order.
pub proof fn lemma_run_frames_audio(t: TransmissionView, fs: Seq<FrameView>, now: i64)
    requires
        forall|i: int| 0 <= i < fs.len() ==> is_active_voice(#[trigger] fs[i]),
    ensures
        run_frames(t, fs, now).audio == t.audio + concat_payloads(
            fs.map_values(|f: FrameView| f.payload),
        ),
        run_frames(t, fs, now).callsign == t.callsign,
    decreases fs.len(),
{
    let ps = fs.map_values(|f: FrameView| f.payload);
    if fs.len() == 0 {
        assert(t.audio + concat_payloads(ps) =~= t.audio);
    } else {
        let fs0 = fs.drop_last();
        lemma_run_frames_audio(t, fs0, now);
        let ps0 = fs0.map_values(|f: FrameView| f.payload);
        assert(ps0 =~= ps.drop_last());
        assert(run_frames(t, fs, now).audio =~= t.audio + concat_payloads(ps));
    }
}

/// Law: when a key-release voice frame ends a transmission that began
/// with empty audio and has since seen only key-held voice frames, the
/// flushed audio is exactly the concatenation, in arrival order, of
/// those frames' payloads, attributed to the unchanged callsign.
pub proof fn lemma_flush_audio_is_concatenation(
    t: TransmissionView,
    fs: Seq<FrameView>,
    end: FrameView,
    now: i64,
    end_now: i64,
)
    requires
        t.audio == Seq::<u8>::empty(),
        forall|i: int| 0 <= i < fs.len() ==> is_active_voice(#[trigger] fs[i]),
        is_end_voice(end),
    ensures
        spec_step(run_frames(t, fs, now), end, end_now).1 matches Some(fl) && fl.audio
            == concat_payloads(fs.map_values(|f: FrameView| f.payload)) && fl.callsign
            == t.callsign,
{
    lemma_run_frames_audio(t, fs, now);
    assert(Seq::<u8>::empty() + concat_payloads(fs.map_values(|f: FrameView| f.payload))
        =~= concat_payloads(fs.map_values(|f: FrameView| f.payload)));
}

/// Law: an identification frame always installs a brand-new transmission
/// — empty audio, fresh window, the callsign extracted from the payload —
/// and never emits a flush, whatever was accumulated before it.
pub proof fn lemma_identification_discards(t: TransmissionView, f: FrameView, now: i64)
    requires
        is_identification(f),
    ensures
        spec_step(t, f, now).0 == fresh_state(t.config, ident_callsign(f.payload), now),
        spec_step(t, f, now).0.audio == Seq::<u8>::empty(),
        spec_step(t, f, now).1 is None,
{
}

/// Law: ping frames, unhandled frame types, and TEXT frames without the
/// identification tag neither change the transmission nor emit a flush.
pub proof fn lemma_no_op_preserves_state(t: TransmissionView, f: FrameView, now: i64)
    requires
        is_no_op(f),
    ensures
        spec_step(t, f, now) == (t, None::<FlushView>),
{
}

} // verus!
