//! The push-to-talk session controller: a single recording permit, the
//! minimum recording length, and the sequence capture, drain, transcription.
//!
//! The controller decides; its caller performs each action it returns
//! (starting or stopping capture, draining, transcribing) and reports the
//! outcome back as the next event.

use vstd::prelude::*;

verus! {

/// Phase of the push-to-talk cycle.
#[derive(Clone, Copy, Debug, PartialEq, Eq, Structural)]
pub enum SessionPhase {
    /// No session.
    Idle,
    /// Capturing while the hotkey is held.
    Recording,
    /// Capture stopped; waiting for the drained audio.
    Draining,
    /// Waiting for the transcription engine.
    Transcribing,
}

/// Status shown to observers of the session.
#[derive(Clone, Copy, Debug, PartialEq, Eq, Structural)]
pub enum Status {
    Listening,
    Transcribing,
    Ready,
}

/// Text of a status as observers receive it.
pub open spec fn status_text(s: Status) -> Seq<char> {
    match s {
        Status::Listening => "Listening"@,
        Status::Transcribing => "Transcribing"@,
        Status::Ready => "Ready"@,
    }
}

impl Status {
    /// Text of the status.
    pub fn as_str(&self) -> (r: &'static str)
        ensures
            r@ == status_text(*self),
    {
        match self {
            Status::Listening => "Listening",
            Status::Transcribing => "Transcribing",
            Status::Ready => "Ready",
        }
    }
}

/// A single-slot exclusivity token: at most one holder at a time, and
/// acquiring never waits.
#[derive(Debug)]
pub struct RecordingPermit {
    held: bool,
}

impl RecordingPermit {
    pub closed spec fn held(&self) -> bool {
        self.held
    }

    /// A free permit.
    pub fn new() -> (r: Self)
        ensures
            !r.held(),
    {
        RecordingPermit { held: false }
    }

    /// Takes the permit if it is free; fails at once if it is held.
    pub fn try_acquire(&mut self) -> (acquired: bool)
        ensures
            acquired == !old(self).held(),
            final(self).held(),
    {
        if self.held {
            false
        } else {
            self.held = true;
            true
        }
    }

    /// Gives the permit back.
    pub fn release(&mut self)
        ensures
            !final(self).held(),
    {
        self.held = false;
    }

    /// Whether the permit is held.
    pub fn is_held(&self) -> (r: bool)
        ensures
            r == self.held(),
    {
        self.held
    }
}

/// What the caller does next.
#[derive(Debug, PartialEq, Eq)]
pub enum SessionAction {
    /// Nothing: the event does not apply in this phase.
    Ignore,
    /// A press was refused because a session holds the permit.
    Busy,
    /// Start capturing; report "Listening" once the stream runs, or the
    /// failure as the next event.
    StartCapture,
    /// Stop capturing and drop the recording, which was too short.
    StopAndDiscard,
    /// Stop capturing, report "Transcribing" and drain the buffer.
    StopAndDrain,
    /// Hand the drained samples to the transcription engine.
    Transcribe,
    /// Deliver the transcribed text.
    Deliver(String),
    /// The session is over without text.
    Finish,
}

impl SessionAction {
    /// The status that observers are told when the caller performs the
    /// action.
    pub fn status(&self) -> (r: Option<Status>)
        ensures
            r == action_status(*self),
    {
        match self {
            SessionAction::StartCapture => Some(Status::Listening),
            SessionAction::StopAndDrain => Some(Status::Transcribing),
            SessionAction::StopAndDiscard => Some(Status::Ready),
            SessionAction::Deliver(_) => Some(Status::Ready),
            SessionAction::Finish => Some(Status::Ready),
            _ => None,
        }
    }
}

/// The status that goes with each action.
pub open spec fn action_status(a: SessionAction) -> Option<Status> {
    match a {
        SessionAction::StartCapture => Some(Status::Listening),
        SessionAction::StopAndDrain => Some(Status::Transcribing),
        SessionAction::StopAndDiscard => Some(Status::Ready),
        SessionAction::Deliver(_) => Some(Status::Ready),
        SessionAction::Finish => Some(Status::Ready),
        _ => None,
    }
}

/// Mathematical state of the controller.
pub struct SessionState {
    pub phase: SessionPhase,
    pub permit_held: bool,
    /// When the current recording started, in milliseconds of a monotonic
    /// clock; set only while recording.
    pub started_at_ms: Option<u64>,
    /// Recordings shorter than this are discarded.
    pub min_duration_ms: u64,
}

/// Time from `start` to `now`; zero if the clock reads earlier than `start`.
pub open spec fn elapsed_ms(start: u64, now: u64) -> int {
    if now >= start {
        now - start
    } else {
        0
    }
}

/// The state in which nothing is happening.
pub open spec fn idle_state(min_duration_ms: u64) -> SessionState {
    SessionState {
        phase: SessionPhase::Idle,
        permit_held: false,
        started_at_ms: None,
        min_duration_ms,
    }
}

/// The controller's invariant: the permit is held exactly while a session
/// is under way, and a start time is kept exactly while recording.
pub open spec fn session_wf(s: SessionState) -> bool {
    &&& s.permit_held <==> s.phase != SessionPhase::Idle
    &&& (s.phase == SessionPhase::Recording) <==> s.started_at_ms is Some
}

/// Transition on a hotkey event at time `now`.
pub open spec fn on_hotkey_spec(s: SessionState, pressed: bool, now: u64) -> (SessionState, SessionAction) {
    if pressed {
        if !s.permit_held {
            (
                SessionState {
                    phase: SessionPhase::Recording,
                    permit_held: true,
                    started_at_ms: Some(now),
                    ..s
                },
                SessionAction::StartCapture,
            )
        } else {
            (s, SessionAction::Busy)
        }
    } else if s.phase == SessionPhase::Recording {
        if elapsed_ms(s.started_at_ms.unwrap(), now) < s.min_duration_ms {
            (idle_state(s.min_duration_ms), SessionAction::StopAndDiscard)
        } else {
            (
                SessionState { phase: SessionPhase::Draining, started_at_ms: None, ..s },
                SessionAction::StopAndDrain,
            )
        }
    } else {
        (s, SessionAction::Ignore)
    }
}

/// Transition when the capture stream could not be started.
pub open spec fn on_capture_failed_spec(s: SessionState) -> (SessionState, SessionAction) {
    if s.phase == SessionPhase::Recording {
        (idle_state(s.min_duration_ms), SessionAction::Finish)
    } else {
        (s, SessionAction::Ignore)
    }
}

/// Transition when the drain has answered whether there is audio.
pub open spec fn on_drained_spec(s: SessionState, has_audio: bool) -> (SessionState, SessionAction) {
    if s.phase == SessionPhase::Draining {
        if has_audio {
            (SessionState { phase: SessionPhase::Transcribing, ..s }, SessionAction::Transcribe)
        } else {
            (idle_state(s.min_duration_ms), SessionAction::Finish)
        }
    } else {
        (s, SessionAction::Ignore)
    }
}

/// The push-to-talk controller.
#[derive(Debug)]
pub struct SessionController {
    phase: SessionPhase,
    permit: RecordingPermit,
    started_at_ms: Option<u64>,
    min_duration_ms: u64,
}

impl View for SessionController {
    type V = SessionState;

    closed spec fn view(&self) -> SessionState {
        SessionState {
            phase: self.phase,
            permit_held: self.permit.held(),
            started_at_ms: self.started_at_ms,
            min_duration_ms: self.min_duration_ms,
        }
    }
}

impl SessionController {
    /// An idle controller that discards recordings shorter than
    /// `min_duration_ms`.
    pub fn new(min_duration_ms: u64) -> (r: Self)
        ensures
            r@ == idle_state(min_duration_ms),
            session_wf(r@),
    {
        SessionController {
            phase: SessionPhase::Idle,
            permit: RecordingPermit::new(),
            started_at_ms: None,
            min_duration_ms,
        }
    }

    /// Current phase.
    pub fn phase(&self) -> (r: SessionPhase)
        ensures
            r == self@.phase,
    {
        self.phase
    }

    /// Whether a session holds the recording permit.
    pub fn is_busy(&self) -> (r: bool)
        ensures
            r == self@.permit_held,
    {
        self.permit.is_held()
    }

    fn finish(&mut self)
        ensures
            final(self)@ == idle_state(old(self)@.min_duration_ms),
    {
        self.permit.release();
        self.phase = SessionPhase::Idle;
        self.started_at_ms = None;
    }

    /// A hotkey press (`pressed`) or release at time `now_ms`. A press takes
    /// the permit and starts a recording, or is refused while the permit is
    /// held. A release while recording stops the capture and either discards
    /// a recording shorter than the minimum or asks for the drain; any other
    /// release is ignored.
    pub fn on_hotkey(&mut self, pressed: bool, now_ms: u64) -> (action: SessionAction)
        requires
            session_wf(old(self)@),
        ensures
            session_wf(final(self)@),
            (final(self)@, action) == on_hotkey_spec(old(self)@, pressed, now_ms),
    {
        if pressed {
            if self.permit.try_acquire() {
                self.phase = SessionPhase::Recording;
                self.started_at_ms = Some(now_ms);
                SessionAction::StartCapture
            } else {
                SessionAction::Busy
            }
        } else if self.phase == SessionPhase::Recording {
            let start = match self.started_at_ms {
                Some(t) => t,
                None => now_ms,
            };
            let elapsed = if now_ms >= start {
                now_ms - start
            } else {
                0
            };
            if elapsed < self.min_duration_ms {
                self.finish();
                SessionAction::StopAndDiscard
            } else {
                self.phase = SessionPhase::Draining;
                self.started_at_ms = None;
                SessionAction::StopAndDrain
            }
        } else {
            SessionAction::Ignore
        }
    }

    /// The capture stream of the new session could not be started: the
    /// session ends.
    pub fn on_capture_failed(&mut self) -> (action: SessionAction)
        requires
            session_wf(old(self)@),
        ensures
            session_wf(final(self)@),
            (final(self)@, action) == on_capture_failed_spec(old(self)@),
    {
        if self.phase == SessionPhase::Recording {
            self.finish();
            SessionAction::Finish
        } else {
            SessionAction::Ignore
        }
    }

    /// The drain has answered: with audio the session goes on to
    /// transcription, without it the session ends.
    pub fn on_drained(&mut self, has_audio: bool) -> (action: SessionAction)
        requires
            session_wf(old(self)@),
        ensures
            session_wf(final(self)@),
            (final(self)@, action) == on_drained_spec(old(self)@, has_audio),
    {
        if self.phase == SessionPhase::Draining {
            if has_audio {
                self.phase = SessionPhase::Transcribing;
                SessionAction::Transcribe
            } else {
                self.finish();
                SessionAction::Finish
            }
        } else {
            SessionAction::Ignore
        }
    }

    /// The transcription engine has answered, with its segments or with
    /// `None` on failure. The session ends either way; text is delivered
    /// only when there is at least one segment.
    pub fn on_transcribed(&mut self, segments: Option<Vec<String>>) -> (action: SessionAction)
        requires
            session_wf(old(self)@),
        ensures
            session_wf(final(self)@),
            old(self)@.phase != SessionPhase::Transcribing ==> final(self)@ == old(self)@
                && action == SessionAction::Ignore,
            old(self)@.phase == SessionPhase::Transcribing ==> final(self)@ == idle_state(
                old(self)@.min_duration_ms,
            ),
            old(self)@.phase == SessionPhase::Transcribing ==> match segments {
                Some(v) => if v@.len() > 0 {
                    action matches SessionAction::Deliver(t) && t@ == joined(texts(v@))
                } else {
                    action == SessionAction::Finish
                },
                None => action == SessionAction::Finish,
            },
    {
        if self.phase != SessionPhase::Transcribing {
            return SessionAction::Ignore;
        }
        self.finish();
        match segments {
            Some(v) => {
                if v.len() > 0 {
                    let text = join_segments(v.as_slice());
                    SessionAction::Deliver(text)
                } else {
                    SessionAction::Finish
                }
            },
            None => SessionAction::Finish,
        }
    }
}

/// While a session holds the permit, a press is refused and changes nothing:
/// a second recording can never start over a running one.
pub proof fn lemma_press_while_busy_is_refused(s: SessionState, now: u64)
    requires
        session_wf(s),
        s.phase != SessionPhase::Idle,
    ensures
        on_hotkey_spec(s, true, now) == (s, SessionAction::Busy),
{
}

/// A release that comes less than the minimum duration after the press
/// discards the recording and ends the session: no drain and no
/// transcription follow.
pub proof fn lemma_short_recording_is_discarded(s: SessionState, start: u64, now: u64)
    requires
        session_wf(s),
        s.phase == SessionPhase::Recording,
        s.started_at_ms == Some(start),
        elapsed_ms(start, now) < s.min_duration_ms,
    ensures
        on_hotkey_spec(s, false, now) == (idle_state(s.min_duration_ms), SessionAction::StopAndDiscard),
        session_wf(idle_state(s.min_duration_ms)),
{
}

/// Segments joined with single spaces.
pub open spec fn joined(segments: Seq<Seq<char>>) -> Seq<char>
    decreases segments.len(),
{
    if segments.len() == 0 {
        Seq::empty()
    } else if segments.len() == 1 {
        segments[0]
    } else {
        joined(segments.drop_last()) + seq![' '] + segments.last()
    }
}

/// Views of a sequence of strings.
pub open spec fn texts(v: Seq<String>) -> Seq<Seq<char>> {
    v.map_values(|s: String| s@)
}

/// Joins transcribed segments with single spaces.
pub fn join_segments(segments: &[String]) -> (r: String)
    ensures
        r@ == joined(texts(segments@)),
{
    let mut r = String::new();
    let mut i: usize = 0;
    proof {
        reveal_strlit(" ");
    }
    while i < segments.len()
        invariant
            i <= segments@.len(),
            r@ == joined(texts(segments@.subrange(0, i as int))),
            " "@ == seq![' '],
        decreases segments@.len() - i,
    {
        proof {
            assert(texts(segments@.subrange(0, i + 1)).drop_last() =~= texts(
                segments@.subrange(0, i as int),
            ));
        }
        if i > 0 {
            r.append(" ");
        }
        r.append(segments[i].as_str());
        proof {
            if i == 0 {
                assert(r@ =~= texts(segments@.subrange(0, 1))[0]);
            }
        }
        i = i + 1;
    }
    proof {
        assert(segments@.subrange(0, segments@.len() as int) =~= segments@);
    }
    r
}

} // verus!
