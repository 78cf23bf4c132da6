//! The recording lifecycle: a state machine over [`RecordingStatus`] that
//! guards start, pause, resume and stop against re-entry.
//!
//! The embedding application serializes access to the status with a lock and
//! keeps each critical section to one transition call; the long-running
//! teardown work happens between transitions, after `take_stop` has already
//! flipped the status to idle, so a concurrent caller observes
//! `is_recording == false` immediately.

use vstd::prelude::*;

use crate::models::RecordingStatus;
use crate::text::{append_dec_signed, dec_seq_signed};

verus! {

/// Everything a lifecycle operation can fail with.
#[derive(Debug, Clone, PartialEq, Eq)]
pub enum RecordingError {
    /// `start` was called while a session was already running.
    AlreadyRecording,
    /// `pause`, `resume` or `stop` was called with no session running.
    NotRecording,
    /// A display encoder subprocess failed to launch.
    Spawn { detail: String },
    /// Every expected artifact was missing or empty after a stop.
    NoUsableArtifacts,
    /// The external encoder exited nonzero during the grid combine.
    Composite { detail: String },
    /// The record store refused an update.
    Persistence { detail: String },
}

impl RecordingError {
    /// A human-readable explanation naming the stage that failed.
    pub fn message(&self) -> (r: String)
        ensures
            self is AlreadyRecording ==> r@ == "Recording already in progress"@,
            self is NotRecording ==> r@ == "No recording in progress"@,
            self matches RecordingError::Spawn { detail } ==> r@ == "Failed to start display recording: "@
                + detail@,
            self is NoUsableArtifacts ==> r@ == "No valid video files were recorded"@,
            self matches RecordingError::Composite { detail } ==> r@ == "FFmpeg failed: "@
                + detail@,
            self matches RecordingError::Persistence { detail } ==> r@
                == "Failed to update recording record: "@ + detail@,
    {
        match self {
            RecordingError::AlreadyRecording => String::from_str("Recording already in progress"),
            RecordingError::NotRecording => String::from_str("No recording in progress"),
            RecordingError::Spawn { detail } => {
                let mut s = String::from_str("Failed to start display recording: ");
                s.append(detail.as_str());
                s
            },
            RecordingError::NoUsableArtifacts => String::from_str(
                "No valid video files were recorded",
            ),
            RecordingError::Composite { detail } => {
                let mut s = String::from_str("FFmpeg failed: ");
                s.append(detail.as_str());
                s
            },
            RecordingError::Persistence { detail } => {
                let mut s = String::from_str("Failed to update recording record: ");
                s.append(detail.as_str());
                s
            },
        }
    }
}

/// The start transition: refused while recording, otherwise the status of a
/// fresh session on `task_id`. The `bool` says whether the transition took.
pub open spec fn spec_start(s: RecordingStatus, task_id: i64) -> (RecordingStatus, bool) {
    if s.is_recording {
        (s, false)
    } else {
        (
            RecordingStatus {
                is_recording: true,
                is_paused: false,
                duration: 0,
                task_id: Some(task_id),
            },
            true,
        )
    }
}

/// The pause transition: refused while idle, otherwise it only raises
/// `is_paused`.
pub open spec fn spec_pause(s: RecordingStatus) -> (RecordingStatus, bool) {
    if s.is_recording {
        (RecordingStatus { is_paused: true, ..s }, true)
    } else {
        (s, false)
    }
}

/// The resume transition: refused while idle, otherwise it only clears
/// `is_paused`.
pub open spec fn spec_resume(s: RecordingStatus) -> (RecordingStatus, bool) {
    if s.is_recording {
        (RecordingStatus { is_paused: false, ..s }, true)
    } else {
        (s, false)
    }
}

/// The stop transition: refused while idle, otherwise the status returns to
/// idle at once, before any teardown work runs.
pub open spec fn spec_stop(s: RecordingStatus) -> (RecordingStatus, bool) {
    if s.is_recording {
        (RecordingStatus::spec_idle(), true)
    } else {
        (s, false)
    }
}

impl RecordingStatus {
    /// The check a caller makes before doing any session work: refuses a
    /// start while a session is running, and changes nothing either way.
    pub fn start_guard(&self) -> (r: Result<(), RecordingError>)
        ensures
            r is Ok <==> !self.is_recording,
            r is Err ==> r->Err_0 == RecordingError::AlreadyRecording,
    {
        if self.is_recording {
            Err(RecordingError::AlreadyRecording)
        } else {
            Ok(())
        }
    }

    /// Commits a started session, or refuses it if one is already running.
    /// A refused start leaves the status untouched.
    pub fn try_start(&mut self, task_id: i64) -> (r: Result<(), RecordingError>)
        ensures
            (*final(self), r is Ok) == spec_start(*old(self), task_id),
            r is Err ==> r->Err_0 == RecordingError::AlreadyRecording,
            old(self).wf() ==> final(self).wf(),
    {
        if self.is_recording {
            Err(RecordingError::AlreadyRecording)
        } else {
            self.is_recording = true;
            self.is_paused = false;
            self.duration = 0;
            self.task_id = Some(task_id);
            Ok(())
        }
    }

    /// Pauses the running session. Pause is a status flag only: the encoder
    /// subprocesses keep running and duration bookkeeping stays with the
    /// caller.
    pub fn pause(&mut self) -> (r: Result<(), RecordingError>)
        ensures
            (*final(self), r is Ok) == spec_pause(*old(self)),
            r is Err ==> r->Err_0 == RecordingError::NotRecording,
            old(self).wf() ==> final(self).wf(),
    {
        if self.is_recording {
            self.is_paused = true;
            Ok(())
        } else {
            Err(RecordingError::NotRecording)
        }
    }

    /// Resumes a paused session; the same status-flag-only note as for
    /// [`RecordingStatus::pause`] applies.
    pub fn resume(&mut self) -> (r: Result<(), RecordingError>)
        ensures
            (*final(self), r is Ok) == spec_resume(*old(self)),
            r is Err ==> r->Err_0 == RecordingError::NotRecording,
            old(self).wf() ==> final(self).wf(),
    {
        if self.is_recording {
            self.is_paused = false;
            Ok(())
        } else {
            Err(RecordingError::NotRecording)
        }
    }

    /// The re-entrancy guard of `stop`: under the status lock it captures the
    /// task and the final duration and flips the status to idle in the same
    /// step, so no second stop can proceed past this point. All teardown runs
    /// after, outside the lock.
    pub fn take_stop(&mut self) -> (r: Result<(i64, i64), RecordingError>)
        requires
            old(self).wf(),
        ensures
            (*final(self), r is Ok) == spec_stop(*old(self)),
            r matches Ok((task_id, duration)) ==> old(self).task_id == Some(task_id) && duration
                == old(self).duration,
            r is Err ==> r->Err_0 == RecordingError::NotRecording,
            final(self).wf(),
    {
        if self.is_recording {
            let task_id = match self.task_id {
                Some(t) => t,
                None => {
                    proof {
                        assert(false);
                    }
                    0
                },
            };
            let duration = self.duration;
            self.is_recording = false;
            self.is_paused = false;
            self.duration = 0;
            self.task_id = None;
            Ok((task_id, duration))
        } else {
            Err(RecordingError::NotRecording)
        }
    }

    /// Overwrites the duration bookkeeping pushed in by the caller.
    pub fn update_duration(&mut self, duration: i64)
        ensures
            *final(self) == (RecordingStatus { duration, ..*old(self) }),
            old(self).wf() ==> final(self).wf(),
    {
        self.duration = duration;
    }
}

/// A second start without an intervening stop is refused and leaves the
/// first session's status untouched.
pub proof fn lemma_second_start_refused(s: RecordingStatus, t1: i64, t2: i64)
    requires
        !s.is_recording,
    ensures
        spec_start(s, t1).1,
        !spec_start(spec_start(s, t1).0, t2).1,
        spec_start(spec_start(s, t1).0, t2).0 == spec_start(s, t1).0,
{
}

/// Of two stop transitions in turn, exactly the first tears down: it leaves
/// the status idle at once, and the second observes `NotRecording` and
/// changes nothing. The embedding application serializes the transitions
/// with a lock, so two concurrent stops take these two branches.
pub proof fn lemma_second_stop_refused(s: RecordingStatus)
    requires
        s.is_recording,
    ensures
        spec_stop(s).1,
        !spec_stop(s).0.is_recording,
        !spec_stop(spec_stop(s).0).1,
        spec_stop(spec_stop(s).0).0 == spec_stop(s).0,
{
}

/// Pause and resume are refused while no session runs, and change nothing
/// when refused; after a start, pause raises `is_paused` and touches nothing
/// else, `is_recording` included.
pub proof fn lemma_pause_resume(s: RecordingStatus, t: i64)
    requires
        !s.is_recording,
    ensures
        !spec_pause(s).1 && spec_pause(s).0 == s,
        !spec_resume(s).1 && spec_resume(s).0 == s,
        ({
            let started = spec_start(s, t).0;
            let paused = spec_pause(started).0;
            &&& spec_pause(started).1
            &&& paused.is_paused
            &&& paused.is_recording == started.is_recording
            &&& paused.duration == started.duration
            &&& paused.task_id == started.task_id
        }),
{
}

/// Every transition keeps the status invariant.
pub proof fn lemma_transitions_preserve_wf(s: RecordingStatus, t: i64)
    requires
        s.wf(),
    ensures
        spec_start(s, t).0.wf(),
        spec_pause(s).0.wf(),
        spec_resume(s).0.wf(),
        spec_stop(s).0.wf(),
{
}

/// The stop flip returns the status to idle at once, before validation or
/// compositing run; whatever those later steps report — including
/// `NoUsableArtifacts` — the status is already the reset idle one.
pub proof fn lemma_stop_flip_is_idle(s: RecordingStatus)
    requires
        s.is_recording,
    ensures
        spec_stop(s).0 == RecordingStatus::spec_idle(),
{
}

/// What the stop pipeline does with the usable artifacts once the session
/// has been torn down.
#[derive(Debug, Clone)]
pub enum CombinePlan {
    /// Exactly one usable artifact: it is the final result directly, and no
    /// compositor runs.
    Single { path: String },
    /// Two or more usable artifacts: one grid composite pass over all of
    /// them, writing `output`.
    Grid { inputs: Vec<String>, output: String },
}

/// Decides the combine step from the usable artifact set of one stop
/// cycle. With nothing usable the stop fails: there is nothing to fall
/// back to.
pub fn plan_combine(usable: &Vec<String>, combined_output: &String) -> (r: Result<
    CombinePlan,
    RecordingError,
>)
    ensures
        r is Err <==> usable@.len() == 0,
        r matches Err(e) ==> e == RecordingError::NoUsableArtifacts,
        usable@.len() == 1 ==> (r matches Ok(CombinePlan::Single { path }) && path@
            == usable@[0]@),
        usable@.len() >= 2 ==> (r matches Ok(CombinePlan::Grid { inputs, output }) && inputs@
            == usable@ && output@ == combined_output@),
{
    if usable.len() == 0 {
        Err(RecordingError::NoUsableArtifacts)
    } else if usable.len() == 1 {
        Ok(CombinePlan::Single { path: usable[0].clone() })
    } else {
        let mut inputs: Vec<String> = Vec::new();
        let mut i: usize = 0;
        while i < usable.len()
            invariant
                i <= usable@.len(),
                inputs@ =~= usable@.take(i as int),
            decreases usable@.len() - i,
        {
            inputs.push(usable[i].clone());
            proof {
                assert(inputs@ =~= usable@.take(i + 1));
            }
            i = i + 1;
        }
        proof {
            assert(usable@.take(usable@.len() as int) =~= usable@);
        }
        Ok(CombinePlan::Grid { inputs, output: combined_output.clone() })
    }
}

/// How one grid composite attempt is settled.
#[derive(Debug, Clone)]
pub struct GridSettlement {
    /// The path handed back to the caller; on failure it is still the
    /// combined output path, filled by the fallback copy.
    pub final_path: String,
    /// Whether the per-source temporary files are deleted. Only a
    /// successful composite may delete them: on failure the source footage
    /// is irreplaceable and is preserved for recovery.
    pub delete_temps: bool,
    /// The compositor's diagnostic, surfaced verbatim for telemetry while
    /// the stop still returns a usable, degraded result.
    pub composite_error: Option<String>,
    /// On failure, the copy (source, destination) that degrades the result
    /// to the first usable artifact at the expected output path.
    pub fallback_copy: Option<(String, String)>,
}

/// Settles a finished grid composite attempt: success deletes the
/// temporaries and returns the combined file; failure preserves them,
/// degrades to a copy of the first usable artifact, and surfaces the
/// compositor's diagnostic.
pub fn settle_grid(inputs: &Vec<String>, output: &String, composite: &Result<(), String>) -> (r:
    GridSettlement)
    requires
        inputs@.len() >= 1,
    ensures
        r.final_path@ == output@,
        composite is Ok ==> r.delete_temps && r.composite_error is None && r.fallback_copy
            is None,
        composite matches Err(e) ==> {
            &&& !r.delete_temps
            &&& r.composite_error matches Some(m) && m@ == e@
            &&& r.fallback_copy matches Some(c) && c.0@ == inputs@[0]@ && c.1@ == output@
        },
{
    match composite {
        Ok(_) => GridSettlement {
            final_path: output.clone(),
            delete_temps: true,
            composite_error: None,
            fallback_copy: None,
        },
        Err(e) => GridSettlement {
            final_path: output.clone(),
            delete_temps: false,
            composite_error: Some(e.clone()),
            fallback_copy: Some((inputs[0].clone(), output.clone())),
        },
    }
}

/// The deterministic prefix all of one session's files share: the task
/// identifier plus a collision-avoiding suffix pushed in by the caller
/// (a timestamp or a monotonic counter).
pub open spec fn spec_prefix_name(task_id: int, suffix: Seq<char>) -> Seq<char> {
    "task_"@ + dec_seq_signed(task_id) + "_rec_"@ + suffix
}

/// Builds the session prefix name for `task_id` and `suffix`.
pub fn recording_prefix_name(task_id: i64, suffix: &str) -> (r: String)
    ensures
        r@ == spec_prefix_name(task_id as int, suffix@),
{
    let mut s = String::from_str("task_");
    append_dec_signed(&mut s, task_id);
    s.append("_rec_");
    s.append(suffix);
    proof {
        assert(s@ =~= spec_prefix_name(task_id as int, suffix@));
    }
    s
}

/// The token estimate for verifying a recording of `video_duration`
/// seconds: one sampled frame per ten seconds, capped at twenty frames, a
/// thousand tokens per frame, and five hundred tokens of prompt text.
pub fn estimate_verification_tokens(video_duration: u32) -> (r: i64)
    ensures
        r == ({
            let frames = if video_duration as int / 10 < 20 {
                video_duration as int / 10
            } else {
                20int
            };
            frames * 1000 + 500
        }),
{
    let frames = video_duration / 10;
    let frames_capped: u32 = if frames < 20 {
        frames
    } else {
        20
    };
    (frames_capped as i64) * 1000 + 500
}

} // verus!
