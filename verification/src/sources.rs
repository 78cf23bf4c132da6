//! Capture-source descriptors: the displays and cameras a session can
//! record, as immutable snapshots copied in from enumeration.

use vstd::prelude::*;

verus! {

/// One physical display output.
#[derive(Debug, Clone)]
pub struct DisplayInfo {
    pub id: u32,
    pub name: String,
    pub width: u32,
    pub height: u32,
    pub is_primary: bool,
}

/// One camera device.
#[derive(Debug, Clone)]
pub struct WebcamInfo {
    pub id: String,
    pub name: String,
}

/// The sources and parameters one recording is asked to capture.
#[derive(Debug, Clone)]
pub struct RecordingConfig {
    pub displays: Vec<DisplayInfo>,
    pub webcam: Option<WebcamInfo>,
    pub output_path: String,
    pub fps: u32,
    pub quality: u32,
}

/// Display enumeration is a platform service the library does not provide:
/// this portable build refuses it, and the embedding application supplies
/// the platform's own list instead.
pub fn enumerate_displays() -> (r: Result<Vec<DisplayInfo>, String>)
    ensures
        r matches Err(e) && e@ == "Display enumeration only supported on Windows"@,
{
    Err(String::from_str("Display enumeration only supported on Windows"))
}

} // verus!
