//! The capture session: which encoder subprocesses a recording runs, the
//! files they write, and the order of their graceful shutdown.
//!
//! The library plans every invocation and the embedding application performs
//! it: it spawns one process per planned command, writes the one-byte stop
//! signal to each control channel in the planned order, and then waits on
//! each process in the same order.

use vstd::prelude::*;

use crate::combiner::views_of;
use crate::sources::{DisplayInfo, WebcamInfo};
use crate::text::{append_dec, dec_seq};

verus! {

/// Milliseconds granted to an encoder to act on its stop signal before the
/// blocking wait begins.
pub const SIGNAL_GRACE_MILLIS: u64 = 100;

/// Seconds to let encoders flush their files after every process has exited,
/// before the filesystem state is trusted for validation.
pub const SETTLE_SECONDS: u64 = 5;

/// The one-byte graceful-stop signal written to an encoder's control
/// channel: the external encoder quits cleanly on `q`.
pub const STOP_SIGNAL_BYTE: u8 = 113;

/// The external encoder program every planned command is for.
pub fn encoder_program() -> (r: &'static str)
    ensures
        r@ == "ffmpeg"@,
{
    "ffmpeg"
}

/// The intermediate file of the display at `index` under `prefix`.
pub open spec fn spec_display_file(prefix: Seq<char>, index: nat) -> Seq<char> {
    prefix + "_display_"@ + dec_seq(index) + ".mp4"@
}

/// The intermediate webcam file under `prefix`.
pub open spec fn spec_webcam_file(prefix: Seq<char>) -> Seq<char> {
    prefix + "_webcam.mp4"@
}

/// The final combined output under `prefix`.
pub open spec fn spec_combined_file(prefix: Seq<char>) -> Seq<char> {
    prefix + "_combined.mp4"@
}

/// Builds the intermediate file path of the display at `index`.
pub fn display_file(prefix: &str, index: usize) -> (r: String)
    ensures
        r@ == spec_display_file(prefix@, index as nat),
{
    let mut s = String::from_str(prefix);
    s.append("_display_");
    append_dec(&mut s, index as u64);
    s.append(".mp4");
    proof {
        assert(s@ =~= spec_display_file(prefix@, index as nat));
    }
    s
}

/// Builds the intermediate webcam file path.
pub fn webcam_file(prefix: &str) -> (r: String)
    ensures
        r@ == spec_webcam_file(prefix@),
{
    let mut s = String::from_str(prefix);
    s.append("_webcam.mp4");
    proof {
        assert(s@ =~= spec_webcam_file(prefix@));
    }
    s
}

/// Builds the final combined output path.
pub fn combined_file(prefix: &str) -> (r: String)
    ensures
        r@ == spec_combined_file(prefix@),
{
    let mut s = String::from_str(prefix);
    s.append("_combined.mp4");
    proof {
        assert(s@ =~= spec_combined_file(prefix@));
    }
    s
}

/// The capture arguments of one display encoder: desktop grab at a low
/// frame rate with a fast preset, so capture stays light on the foreground
/// workload, writing to `out`.
pub open spec fn spec_display_capture_args(out: Seq<char>) -> Seq<Seq<char>> {
    seq![
        "-y"@,
        "-f"@,
        "gdigrab"@,
        "-framerate"@,
        "5"@,
        "-i"@,
        "desktop"@,
        "-c:v"@,
        "libx264"@,
        "-preset"@,
        "veryfast"@,
        "-crf"@,
        "28"@,
        "-pix_fmt"@,
        "yuv420p"@,
        out,
    ]
}

/// The capture arguments of the webcam encoder: device capture of `input`
/// at a small fixed size, with the same light encode settings.
pub open spec fn spec_webcam_capture_args(input: Seq<char>, out: Seq<char>) -> Seq<Seq<char>> {
    seq![
        "-y"@,
        "-f"@,
        "dshow"@,
        "-video_size"@,
        "640x480"@,
        "-framerate"@,
        "5"@,
        "-i"@,
        input,
        "-c:v"@,
        "libx264"@,
        "-preset"@,
        "veryfast"@,
        "-crf"@,
        "28"@,
        "-pix_fmt"@,
        "yuv420p"@,
        out,
    ]
}

/// The device-capture input selector for a webcam: the placeholder device
/// is addressed by index, a real one by name.
pub open spec fn spec_webcam_input(name: Seq<char>) -> Seq<char> {
    if name == "Default Webcam"@ {
        "0"@
    } else {
        "video="@ + name
    }
}

/// One planned encoder invocation. A `required` command that fails to spawn
/// is fatal for the whole session start; the webcam command is not required,
/// so a missing or broken camera never blocks screen capture.
#[derive(Debug, Clone)]
pub struct EncoderCommand {
    pub args: Vec<String>,
    pub output_file: String,
    pub required: bool,
}

/// One step of the two-phase graceful shutdown: first every live process is
/// signaled in order, then each is waited on in the same order, so no
/// encoder is killed mid-write.
#[derive(Debug, Clone, PartialEq, Eq, Structural)]
pub enum StopStep {
    SignalDisplay { index: usize },
    SignalWebcam,
    WaitDisplay { index: usize },
    WaitWebcam,
}

/// The shutdown order for `n` display processes and, if present, the webcam
/// process: all signals first, displays then webcam, then all waits in the
/// same order.
pub open spec fn spec_stop_sequence(n: nat, has_webcam: bool) -> Seq<StopStep> {
    Seq::new(n, |i: int| StopStep::SignalDisplay { index: i as usize }) + (if has_webcam {
        seq![StopStep::SignalWebcam]
    } else {
        Seq::empty()
    }) + Seq::new(n, |i: int| StopStep::WaitDisplay { index: i as usize }) + (if has_webcam {
        seq![StopStep::WaitWebcam]
    } else {
        Seq::empty()
    })
}

/// Owns the plan of one recording session: the displays to capture, at most
/// one webcam, and the output path prefix all intermediate files share.
#[derive(Debug, Clone)]
pub struct ScreenRecorder {
    pub displays: Vec<DisplayInfo>,
    pub webcam: Option<WebcamInfo>,
    pub output_path: String,
}

impl ScreenRecorder {
    /// A session plan over the given sources, writing under `output_path`.
    pub fn new(displays: Vec<DisplayInfo>, webcam: Option<WebcamInfo>, output_path: String) -> (r:
        ScreenRecorder)
        ensures
            r.displays == displays,
            r.webcam == webcam,
            r.output_path == output_path,
    {
        ScreenRecorder { displays, webcam, output_path }
    }

    /// The number of display encoder processes this session runs.
    pub fn display_count(&self) -> (r: usize)
        ensures
            r == self.displays@.len(),
    {
        self.displays.len()
    }

    /// Whether this session runs a webcam encoder process.
    pub fn has_webcam(&self) -> (r: bool)
        ensures
            r == (self.webcam is Some),
    {
        match &self.webcam {
            Some(_) => true,
            None => false,
        }
    }

    /// Plans every encoder invocation of this session: one required command
    /// per display, in display order, then one optional webcam command.
    pub fn spawn_plan(&self) -> (r: Vec<EncoderCommand>)
        ensures
            r@.len() == self.displays@.len() + (if self.webcam is Some {
                1int
            } else {
                0int
            }),
            forall|i: int|
                0 <= i < self.displays@.len() ==> {
                    &&& views_of(#[trigger] r@[i].args@) == spec_display_capture_args(
                        spec_display_file(self.output_path@, i as nat),
                    )
                    &&& r@[i].output_file@ == spec_display_file(self.output_path@, i as nat)
                    &&& r@[i].required
                },
            self.webcam matches Some(w) ==> {
                &&& views_of(r@.last().args@) == spec_webcam_capture_args(
                    spec_webcam_input(w.name@),
                    spec_webcam_file(self.output_path@),
                )
                &&& r@.last().output_file@ == spec_webcam_file(self.output_path@)
                &&& !r@.last().required
            },
    {
        let mut plan: Vec<EncoderCommand> = Vec::new();
        let n = self.displays.len();
        let mut i: usize = 0;
        while i < n
            invariant
                i <= n,
                n == self.displays@.len(),
                plan@.len() == i,
                forall|k: int|
                    0 <= k < i ==> {
                        &&& views_of(#[trigger] plan@[k].args@) == spec_display_capture_args(
                            spec_display_file(self.output_path@, k as nat),
                        )
                        &&& plan@[k].output_file@ == spec_display_file(self.output_path@, k as nat)
                        &&& plan@[k].required
                    },
            decreases n - i,
        {
            let out = display_file(self.output_path.as_str(), i);
            let args = display_capture_args(&out);
            plan.push(EncoderCommand { args, output_file: out, required: true });
            i = i + 1;
        }
        if let Some(w) = &self.webcam {
            let out = webcam_file(self.output_path.as_str());
            let input = webcam_input(&w.name);
            let args = webcam_capture_args(&input, &out);
            plan.push(EncoderCommand { args, output_file: out, required: false });
        }
        plan
    }

    /// Plans the graceful shutdown of this session's processes.
    pub fn stop_plan(&self) -> (r: Vec<StopStep>)
        ensures
            r@ == spec_stop_sequence(self.displays@.len(), self.webcam is Some),
    {
        stop_sequence(self.displays.len(), self.has_webcam())
    }
}

/// Builds the device-capture input selector for a webcam name.
pub fn webcam_input(name: &String) -> (r: String)
    ensures
        r@ == spec_webcam_input(name@),
{
    let default_name = String::from_str("Default Webcam");
    if name.eq(&default_name) {
        String::from_str("0")
    } else {
        let mut s = String::from_str("video=");
        s.append(name.as_str());
        proof {
            assert(s@ =~= "video="@ + name@);
        }
        s
    }
}

/// Builds the capture argument list of one display encoder.
pub fn display_capture_args(out: &String) -> (r: Vec<String>)
    ensures
        views_of(r@) == spec_display_capture_args(out@),
{
    let mut args: Vec<String> = Vec::new();
    args.push(String::from_str("-y"));
    args.push(String::from_str("-f"));
    args.push(String::from_str("gdigrab"));
    args.push(String::from_str("-framerate"));
    args.push(String::from_str("5"));
    args.push(String::from_str("-i"));
    args.push(String::from_str("desktop"));
    args.push(String::from_str("-c:v"));
    args.push(String::from_str("libx264"));
    args.push(String::from_str("-preset"));
    args.push(String::from_str("veryfast"));
    args.push(String::from_str("-crf"));
    args.push(String::from_str("28"));
    args.push(String::from_str("-pix_fmt"));
    args.push(String::from_str("yuv420p"));
    args.push(out.clone());
    proof {
        assert(views_of(args@) =~= spec_display_capture_args(out@));
    }
    args
}

/// Builds the capture argument list of the webcam encoder.
pub fn webcam_capture_args(input: &String, out: &String) -> (r: Vec<String>)
    ensures
        views_of(r@) == spec_webcam_capture_args(input@, out@),
{
    let mut args: Vec<String> = Vec::new();
    args.push(String::from_str("-y"));
    args.push(String::from_str("-f"));
    args.push(String::from_str("dshow"));
    args.push(String::from_str("-video_size"));
    args.push(String::from_str("640x480"));
    args.push(String::from_str("-framerate"));
    args.push(String::from_str("5"));
    args.push(String::from_str("-i"));
    args.push(input.clone());
    args.push(String::from_str("-c:v"));
    args.push(String::from_str("libx264"));
    args.push(String::from_str("-preset"));
    args.push(String::from_str("veryfast"));
    args.push(String::from_str("-crf"));
    args.push(String::from_str("28"));
    args.push(String::from_str("-pix_fmt"));
    args.push(String::from_str("yuv420p"));
    args.push(out.clone());
    proof {
        assert(views_of(args@) =~= spec_webcam_capture_args(input@, out@));
    }
    args
}

/// Builds the shutdown order for `n` display processes and an optional
/// webcam process.
pub fn stop_sequence(n: usize, has_webcam: bool) -> (r: Vec<StopStep>)
    ensures
        r@ == spec_stop_sequence(n as nat, has_webcam),
{
    let mut steps: Vec<StopStep> = Vec::new();
    let ghost signal_part = Seq::new(
        n as nat,
        |i: int| StopStep::SignalDisplay { index: i as usize },
    ) + (if has_webcam {
        seq![StopStep::SignalWebcam]
    } else {
        Seq::empty()
    });
    let mut i: usize = 0;
    while i < n
        invariant
            i <= n,
            steps@ =~= Seq::new(i as nat, |k: int| StopStep::SignalDisplay { index: k as usize }),
        decreases n - i,
    {
        steps.push(StopStep::SignalDisplay { index: i });
        i = i + 1;
    }
    if has_webcam {
        steps.push(StopStep::SignalWebcam);
    }
    proof {
        assert(steps@ =~= signal_part);
    }
    let mut j: usize = 0;
    while j < n
        invariant
            j <= n,
            steps@ =~= signal_part + Seq::new(
                j as nat,
                |k: int| StopStep::WaitDisplay { index: k as usize },
            ),
        decreases n - j,
    {
        steps.push(StopStep::WaitDisplay { index: j });
        j = j + 1;
    }
    if has_webcam {
        steps.push(StopStep::WaitWebcam);
    }
    proof {
        assert(steps@ =~= spec_stop_sequence(n as nat, has_webcam));
    }
    steps
}

} // verus!
