//! Plain records shared across the library: tasks, recordings,
//! verification results, users, and the process-wide recording status.

use vstd::prelude::*;

verus! {

/// A unit of work whose completion a recording is meant to document.
#[derive(Debug, Clone)]
pub struct Task {
    pub id: Option<i64>,
    pub user_id: i64,
    pub title: String,
    pub description: Option<String>,
    pub due_date: String,
    pub min_duration: i64,
    pub status: String,
    pub video_path: Option<String>,
    pub created_at: Option<String>,
    pub updated_at: Option<String>,
}

/// The persistent record of one recording session.
#[derive(Debug, Clone)]
pub struct Recording {
    pub id: Option<i64>,
    pub task_id: i64,
    pub duration: i64,
    pub start_time: String,
    pub end_time: Option<String>,
    pub file_path: String,
    pub status: String,
}

/// A stored verdict over a finished recording.
#[derive(Debug, Clone)]
pub struct Verification {
    pub id: Option<i64>,
    pub task_id: i64,
    pub verified: bool,
    pub ai_verification: Option<String>,
    pub ai_confidence: Option<i64>,
    pub time_on_task: Option<i64>,
    pub explanation: Option<String>,
    pub verified_at: Option<String>,
}

/// One annotated moment within a verified recording.
#[derive(Debug, Clone)]
pub struct TimelineEntry {
    pub timestamp: String,
    pub activity: String,
}

/// An account that owns tasks.
#[derive(Debug, Clone)]
pub struct User {
    pub id: Option<i64>,
    pub email: String,
    pub username: String,
    pub password_hash: String,
    pub claude_api_key: Option<String>,
    pub created_at: Option<String>,
}

/// The single process-wide recording status. It is mutated only through
/// the lifecycle transitions, which preserve [`RecordingStatus::wf`].
#[derive(Debug, Clone)]
pub struct RecordingStatus {
    pub is_recording: bool,
    pub is_paused: bool,
    pub duration: i64,
    pub task_id: Option<i64>,
}

impl RecordingStatus {
    /// The status invariant: only a running recording can be paused, and a
    /// task is associated exactly while a recording runs.
    pub open spec fn wf(self) -> bool {
        &&& self.is_paused ==> self.is_recording
        &&& self.task_id is Some <==> self.is_recording
    }

    /// The idle status every session begins from and returns to.
    pub open spec fn spec_idle() -> RecordingStatus {
        RecordingStatus { is_recording: false, is_paused: false, duration: 0, task_id: None }
    }

    /// Builds the idle status.
    pub fn idle() -> (r: RecordingStatus)
        ensures
            r == RecordingStatus::spec_idle(),
            r.wf(),
    {
        RecordingStatus { is_recording: false, is_paused: false, duration: 0, task_id: None }
    }

    /// A snapshot copy of the status, for callers polling while a stop
    /// sequence runs elsewhere.
    pub fn snapshot(&self) -> (r: RecordingStatus)
        ensures
            r == *self,
    {
        RecordingStatus {
            is_recording: self.is_recording,
            is_paused: self.is_paused,
            duration: self.duration,
            task_id: match self.task_id {
                Some(t) => Some(t),
                None => None,
            },
        }
    }
}

impl Recording {
    /// The record inserted when a session starts: no end time yet, no
    /// duration, and the `recording` marker the store expects.
    pub fn begun(task_id: i64, start_time: String, file_path: String) -> (r: Recording)
        ensures
            r.id is None,
            r.task_id == task_id,
            r.duration == 0,
            r.start_time == start_time,
            r.end_time is None,
            r.file_path == file_path,
            r.status@ == "recording"@,
    {
        Recording {
            id: None,
            task_id,
            duration: 0,
            start_time,
            end_time: None,
            file_path,
            status: String::from_str("recording"),
        }
    }

    /// The update a finished stop persists: the final duration, the end
    /// time, the path actually returned to the caller, and the `completed`
    /// marker. Everything else stays as it was.
    pub fn completed(&mut self, duration: i64, end_time: String, final_path: String)
        ensures
            final(self).id == old(self).id,
            final(self).task_id == old(self).task_id,
            final(self).duration == duration,
            final(self).start_time == old(self).start_time,
            final(self).end_time == Some(end_time),
            final(self).file_path == final_path,
            final(self).status@ == "completed"@,
    {
        self.duration = duration;
        self.end_time = Some(end_time);
        self.file_path = final_path;
        self.status = String::from_str("completed");
    }
}

} // verus!
