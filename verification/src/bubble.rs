//! Data model of the mobile floating bubble: colors, geometry and state
//! options, with their documented defaults.

use vstd::prelude::*;

verus! {

/// Default bubble background color (dark).
pub fn default_background_color() -> (r: String)
    ensures
        r@ == "#1C1C1C"@,
{
    String::from_str("#1C1C1C")
}

/// Default icon color for the idle state (white).
pub fn default_idle_color() -> (r: String)
    ensures
        r@ == "#FFFFFF"@,
{
    String::from_str("#FFFFFF")
}

/// Default icon color for the recording state (red).
pub fn default_recording_color() -> (r: String)
    ensures
        r@ == "#FF4444"@,
{
    String::from_str("#FF4444")
}

/// Default icon color for the processing state (gold).
pub fn default_processing_color() -> (r: String)
    ensures
        r@ == "#FFD633"@,
{
    String::from_str("#FFD633")
}

/// Default bubble size in density-independent pixels.
pub fn default_size() -> (r: i32)
    ensures
        r == 60,
{
    60
}

/// Default initial Y position of the bubble.
pub fn default_start_y() -> (r: i32)
    ensures
        r == 100,
{
    100
}

/// Color configuration for bubble states.
#[derive(Debug, Clone, PartialEq, Eq)]
pub struct BubbleColors {
    /// Background color (hex string).
    pub background: String,
    /// Icon color for the idle state.
    pub idle: String,
    /// Icon color for the recording state.
    pub recording: String,
    /// Icon color for the processing state.
    pub processing: String,
}

impl Default for BubbleColors {
    /// The documented default palette.
    fn default() -> (c: Self)
        ensures
            c.background@ == "#1C1C1C"@,
            c.idle@ == "#FFFFFF"@,
            c.recording@ == "#FF4444"@,
            c.processing@ == "#FFD633"@,
    {
        BubbleColors {
            background: default_background_color(),
            idle: default_idle_color(),
            recording: default_recording_color(),
            processing: default_processing_color(),
        }
    }
}

/// Options for configuring the floating bubble.
#[derive(Debug, Clone, PartialEq, Eq)]
pub struct BubbleOptions {
    /// Size of the bubble in density-independent pixels.
    pub size: i32,
    /// Initial X position of the bubble.
    pub start_x: i32,
    /// Initial Y position of the bubble.
    pub start_y: i32,
    /// Platform drawable resource name for the icon, if overridden.
    pub icon_resource_name: Option<String>,
    /// Color configuration for the bubble states.
    pub colors: Option<BubbleColors>,
}

impl Default for BubbleOptions {
    /// Size 60 at the left edge, 100 down, default icon and palette.
    fn default() -> (o: Self)
        ensures
            o.size == 60,
            o.start_x == 0,
            o.start_y == 100,
            o.icon_resource_name is None,
            o.colors is None,
    {
        BubbleOptions {
            size: default_size(),
            start_x: 0,
            start_y: default_start_y(),
            icon_resource_name: Option::None,
            colors: Option::None,
        }
    }
}

/// Response from a visibility check.
#[derive(Debug, Clone, PartialEq, Eq, Structural)]
pub struct VisibilityResponse {
    /// Whether the bubble is visible.
    pub visible: bool,
}

/// Response from a permission check.
#[derive(Debug, Clone, PartialEq, Eq, Structural)]
pub struct PermissionResponse {
    /// Whether the permission is granted.
    pub granted: bool,
}

/// Options for setting the recording state.
#[derive(Debug, Clone, PartialEq, Eq, Structural)]
pub struct RecordingOptions {
    /// Whether recording is active.
    pub recording: bool,
}

/// Options for setting the bubble state.
#[derive(Debug, Clone, PartialEq, Eq)]
pub struct StateOptions {
    /// The state's name.
    pub state: String,
}

} // verus!
