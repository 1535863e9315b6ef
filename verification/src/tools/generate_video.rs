//! The tool that has videos generated.

use crate::text::concat;
use crate::text::decimal;
use crate::text::push_decimal;
use crate::text::push_str;
use vstd::prelude::*;

verus! {

pub struct GenerateVideoHandler {}

/// The arguments of a call, as the model gives them.
pub struct GenerateVideoArgs {
    pub prompt: String,
    pub duration: u32,
    pub resolution: String,
    pub model: String,
}

/// What the service says of a video that it has begun.
pub struct VideoResponse {
    pub id: String,
    pub status: String,
    pub progress: Option<u32>,
}

pub struct VideoGenerationInfo {
    pub id: String,
    pub status: String,
    pub message: String,
}

pub fn default_duration() -> (d: u32)
    ensures
        d == 4,
{
    4
}

pub fn default_resolution() -> (s: String)
    ensures
        s@ == "720x1280"@,
{
    "720x1280".to_string()
}

pub fn default_model() -> (s: String)
    ensures
        s@ == "sora-2"@,
{
    "sora-2".to_string()
}

/// Why a call is refused.
#[derive(PartialEq, Eq, Structural, Clone, Copy, Debug)]
pub enum VideoArgsError {
    Model,
    Duration,
    Resolution,
}

pub open spec fn valid_model(model: Seq<char>) -> bool {
    model == "sora-2"@ || model == "sora-2-pro"@
}

pub open spec fn valid_duration(duration: u32) -> bool {
    duration == 4 || duration == 8 || duration == 12
}

/// The resolutions of the smaller model, and for the larger one two more.
pub open spec fn valid_resolution(model: Seq<char>, resolution: Seq<char>) -> bool {
    resolution == "720x1280"@ || resolution == "1280x720"@ || (model != "sora-2"@ && (resolution
        == "1024x1792"@ || resolution == "1792x1024"@))
}

/// The first thing that is wrong with the arguments: the model, then the
/// duration, then the resolution.
pub open spec fn spec_validate(args: GenerateVideoArgs) -> Result<(), VideoArgsError> {
    if !valid_model(args.model@) {
        Err(VideoArgsError::Model)
    } else if !valid_duration(args.duration) {
        Err(VideoArgsError::Duration)
    } else if !valid_resolution(args.model@, args.resolution@) {
        Err(VideoArgsError::Resolution)
    } else {
        Ok(())
    }
}

pub fn validate(args: &GenerateVideoArgs) -> (r: Result<(), VideoArgsError>)
    ensures
        r == spec_validate(*args),
{
    let model = args.model.as_str();
    let small = *model == *"sora-2";
    if !small && !(*model == *"sora-2-pro") {
        return Err(VideoArgsError::Model);
    }
    if !(args.duration == 4 || args.duration == 8 || args.duration == 12) {
        return Err(VideoArgsError::Duration);
    }
    let resolution = args.resolution.as_str();
    let common = *resolution == *"720x1280" || *resolution == *"1280x720";
    let large = *resolution == *"1024x1792" || *resolution == *"1792x1024";
    if !(common || (!small && large)) {
        return Err(VideoArgsError::Resolution);
    }
    Ok(())
}

impl VideoArgsError {
    /// What the model is told.
    pub fn message(&self) -> (s: &'static str)
        ensures
            s@ == match *self {
                VideoArgsError::Model => "generate_video model must be one of: sora-2, sora-2-pro"@,
                VideoArgsError::Duration => "generate_video duration must be one of: 4, 8, 12"@,
                VideoArgsError::Resolution => "generate_video resolution must be one of: 720x1280, 1280x720 (sora-2) or 1024x1792, 1792x1024 (sora-2-pro)"@,
            },
    {
        match self {
            VideoArgsError::Model => "generate_video model must be one of: sora-2, sora-2-pro",
            VideoArgsError::Duration => "generate_video duration must be one of: 4, 8, 12",
            VideoArgsError::Resolution => "generate_video resolution must be one of: 720x1280, 1280x720 (sora-2) or 1024x1792, 1792x1024 (sora-2-pro)",
        }
    }
}

/// What is said of the video's progress.
pub open spec fn progress_message(progress: Option<u32>) -> Seq<char> {
    match progress {
        Some(p) => "Progress: "@ + decimal(p as nat) + "%"@,
        None => "Video is being processed."@,
    }
}

/// What is kept of the service's answer.
pub fn video_info(response: VideoResponse) -> (info: VideoGenerationInfo)
    ensures
        info.id == response.id,
        info.status == response.status,
        info.message@ == progress_message(response.progress),
{
    let message = match response.progress {
        Some(p) => {
            let mut text = "Progress: ".to_string();
            push_decimal(&mut text, p as u64);
            push_str(&mut text, "%");
            text
        },
        None => "Video is being processed.".to_string(),
    };
    VideoGenerationInfo { id: response.id, status: response.status, message }
}

/// What the model is told when the video has been begun.
pub fn success_message(args: &GenerateVideoArgs, info: &VideoGenerationInfo) -> (text: String)
    ensures
        text@ == "Video generation initiated successfully.\n\nID: "@ + info.id@ + "\nStatus: "@
            + info.status@ + "\nModel: "@ + args.model@ + "\nDuration: "@ + decimal(
            args.duration as nat,
        ) + "s\nResolution: "@ + args.resolution@ + "\n"@ + info.message@,
{
    let mut text = "Video generation initiated successfully.\n\nID: ".to_string();
    push_str(&mut text, info.id.as_str());
    push_str(&mut text, "\nStatus: ");
    push_str(&mut text, info.status.as_str());
    push_str(&mut text, "\nModel: ");
    push_str(&mut text, args.model.as_str());
    push_str(&mut text, "\nDuration: ");
    push_decimal(&mut text, args.duration as u64);
    push_str(&mut text, "s\nResolution: ");
    push_str(&mut text, args.resolution.as_str());
    push_str(&mut text, "\n");
    push_str(&mut text, info.message.as_str());
    text
}

/// What the model is told when the service failed.
pub fn failure_message(cause: &str) -> (text: String)
    ensures
        text@ == "Failed to generate video: "@ + cause@,
{
    concat("Failed to generate video: ", cause)
}

} // verus!
