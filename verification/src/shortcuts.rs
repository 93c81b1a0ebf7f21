//! Global-shortcut backend selection.
//!
//! The environment (platform, compositor, sandboxing, portal support) is
//! probed by the platform layer; given that description, the choice of
//! shortcut backend is a pure decision verified here: the Tauri plugin on
//! macOS, Windows and X11; on Wayland, the portal where the sandbox blocks
//! raw input devices and the portal is available, manual setup where it is
//! not, and an evdev grab outside the sandbox.

use vstd::prelude::*;
use crate::text::{trim_ws, str_eq, spec_trim_ws};

verus! {

/// The platform the application runs on.
#[derive(Debug, Clone, Copy, PartialEq, Eq, Structural)]
pub enum Platform {
    /// macOS.
    MacOS,
    /// Windows.
    Windows,
    /// Linux under X11.
    LinuxX11,
    /// Linux under Wayland.
    LinuxWayland,
}

/// What the platform layer has detected about the environment.
#[derive(Debug, Clone, PartialEq, Eq)]
pub struct PlatformInfo {
    /// The platform.
    pub platform: Platform,
    /// The compositor's display name (empty where not applicable).
    pub compositor_name: String,
    /// Version of the global-shortcuts portal, 0 if unavailable.
    pub portal_version: u32,
    /// Whether the process runs inside a Flatpak sandbox.
    pub is_flatpak: bool,
}

/// Backend for global keyboard shortcuts.
#[derive(Debug, Clone, Copy, PartialEq, Eq, Structural)]
pub enum ShortcutBackend {
    /// Tauri plugin — works on X11, macOS, Windows.
    TauriPlugin,
    /// Keyboard grab through evdev — Linux outside a sandbox.
    RdevGrab,
    /// XDG portal global shortcuts — Wayland with portal support.
    PortalGlobalShortcuts,
    /// The user configures the compositor to invoke the application.
    ManualSetup,
}

/// The chosen backend together with the environment it was chosen for.
#[derive(Debug, Clone, PartialEq, Eq)]
pub struct ShortcutCapability {
    /// The backend to use.
    pub backend: ShortcutBackend,
    /// The environment description the choice was made from.
    pub platform_info: PlatformInfo,
}

/// Backend info for frontend consumption.
#[derive(Debug, Clone, PartialEq, Eq)]
pub struct ShortcutBackendInfo {
    /// The chosen backend's name.
    pub backend: String,
    /// Whether changing the shortcut requires a restart.
    pub requires_restart: bool,
    /// The compositor's display name.
    pub compositor: String,
    /// Version of the global-shortcuts portal, 0 if unavailable.
    pub portal_version: u32,
    /// Whether the process runs inside a Flatpak sandbox.
    pub is_flatpak: bool,
}

/// The backend chosen for an environment.
pub open spec fn spec_backend_for(info: PlatformInfo) -> ShortcutBackend {
    match info.platform {
        Platform::MacOS => ShortcutBackend::TauriPlugin,
        Platform::Windows => ShortcutBackend::TauriPlugin,
        Platform::LinuxX11 => ShortcutBackend::TauriPlugin,
        Platform::LinuxWayland => if info.is_flatpak {
            if info.portal_version >= 1 {
                ShortcutBackend::PortalGlobalShortcuts
            } else {
                ShortcutBackend::ManualSetup
            }
        } else {
            ShortcutBackend::RdevGrab
        },
    }
}

/// The GlobalShortcuts portal version of an environment (0 if
/// unavailable).
pub fn portal_version(info: &PlatformInfo) -> (v: u32)
    ensures
        v == info.portal_version,
{
    info.portal_version
}

/// Choose the best shortcut backend for the described environment.
pub fn detect_backend(info: &PlatformInfo) -> (c: ShortcutCapability)
    ensures
        c.backend == spec_backend_for(*info),
        c.platform_info.platform == info.platform,
        c.platform_info.compositor_name@ == info.compositor_name@,
        c.platform_info.portal_version == info.portal_version,
        c.platform_info.is_flatpak == info.is_flatpak,
{
    let backend = match info.platform {
        Platform::MacOS => ShortcutBackend::TauriPlugin,
        Platform::Windows => ShortcutBackend::TauriPlugin,
        Platform::LinuxX11 => ShortcutBackend::TauriPlugin,
        Platform::LinuxWayland => {
            if info.is_flatpak {
                if info.portal_version >= 1 {
                    ShortcutBackend::PortalGlobalShortcuts
                } else {
                    ShortcutBackend::ManualSetup
                }
            } else {
                ShortcutBackend::RdevGrab
            }
        },
    };
    ShortcutCapability {
        backend,
        platform_info: PlatformInfo {
            platform: info.platform,
            compositor_name: info.compositor_name.clone(),
            portal_version: info.portal_version,
            is_flatpak: info.is_flatpak,
        },
    }
}

/// The display name of a backend.
pub fn backend_display_name(b: &ShortcutBackend) -> (r: &'static str)
    ensures
        b == ShortcutBackend::TauriPlugin ==> r@ == "TauriPlugin"@,
        b == ShortcutBackend::RdevGrab ==> r@ == "RdevGrab"@,
        b == ShortcutBackend::PortalGlobalShortcuts ==> r@ == "PortalGlobalShortcuts"@,
        b == ShortcutBackend::ManualSetup ==> r@ == "ManualSetup"@,
{
    match b {
        ShortcutBackend::TauriPlugin => "TauriPlugin",
        ShortcutBackend::RdevGrab => "RdevGrab",
        ShortcutBackend::PortalGlobalShortcuts => "PortalGlobalShortcuts",
        ShortcutBackend::ManualSetup => "ManualSetup",
    }
}

/// Describe the chosen backend for the frontend: only the Tauri plugin can
/// change shortcuts without a restart.
pub fn backend_info(info: &PlatformInfo) -> (r: ShortcutBackendInfo)
    ensures
        ({
            let backend = spec_backend_for(*info);
            &&& r.requires_restart == (backend != ShortcutBackend::TauriPlugin)
            &&& r.backend@ == (match backend {
                ShortcutBackend::TauriPlugin => "TauriPlugin"@,
                ShortcutBackend::RdevGrab => "RdevGrab"@,
                ShortcutBackend::PortalGlobalShortcuts => "PortalGlobalShortcuts"@,
                ShortcutBackend::ManualSetup => "ManualSetup"@,
            })
            &&& r.compositor@ == info.compositor_name@
            &&& r.portal_version == info.portal_version
            &&& r.is_flatpak == info.is_flatpak
        }),
{
    let capability = detect_backend(info);
    let requires_restart = !matches!(capability.backend, ShortcutBackend::TauriPlugin);
    ShortcutBackendInfo {
        backend: backend_display_name(&capability.backend).to_owned(),
        requires_restart,
        compositor: info.compositor_name.clone(),
        portal_version: info.portal_version,
        is_flatpak: info.is_flatpak,
    }
}


/// Instructions for configuring a system shortcut by hand.
#[derive(Debug, Clone, PartialEq, Eq)]
pub struct ShortcutInstructions {
    /// The compositor's display name.
    pub compositor_name: String,
    /// Human-readable setup steps.
    pub instructions: String,
    /// Path of the compositor's configuration file, where one exists.
    pub config_path: Option<String>,
    /// A snippet to paste into that file, where one applies.
    pub config_snippet: Option<String>,
    /// Whether the desktop offers a settings application for shortcuts.
    pub has_settings_app: bool,
}

/// The command configured for a shortcut against the command the current
/// binary expects.
#[derive(Debug, Clone, PartialEq, Eq)]
pub struct ShortcutPathMismatch {
    /// The command configured in the desktop's settings (it may point at
    /// an old binary).
    pub configured_command: String,
    /// The expected command for the current binary.
    pub current_command: String,
}

/// Compare the configured shortcut command with the current binary's
/// toggle command, ignoring surrounding whitespace: a difference is
/// reported as a mismatch, agreement as `None`.
pub fn check_shortcut_path_mismatch(configured_command: &str, current_command: &str) -> (r:
    Option<ShortcutPathMismatch>)
    ensures
        spec_trim_ws(configured_command@) == spec_trim_ws(current_command@) ==> r is None,
        spec_trim_ws(configured_command@) != spec_trim_ws(current_command@) ==> (r matches
            Option::Some(m) && m.configured_command@ == configured_command@
            && m.current_command@ == current_command@),
{
    let configured_trimmed = trim_ws(configured_command);
    let current_trimmed = trim_ws(current_command);
    if str_eq(configured_trimmed, current_trimmed) {
        Option::None
    } else {
        Option::Some(
            ShortcutPathMismatch {
                configured_command: configured_command.to_owned(),
                current_command: current_command.to_owned(),
            },
        )
    }
}

} // verus!

