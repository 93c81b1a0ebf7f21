use whis_core::bubble::{
    default_background_color, default_idle_color, default_processing_color,
    default_recording_color, default_size, default_start_y, BubbleColors, BubbleOptions,
};
use whis_core::dconf::{
    convert_gvariant_shortcut, read_gnome_custom_shortcut, read_portal_shortcut_from_dconf,
};
use whis_core::hotkey::{validate, HotkeyError};
use whis_core::ollama::{
    ensure_ollama_ready, has_model_in, model_matches, ollama_url_is_local, OllamaAction,
    OllamaStatus, DEFAULT_OLLAMA_URL,
};
use whis_core::record::RecordConfig;
use whis_core::services::{OllamaConfig, ServicesSettings};
use whis_core::shortcuts::{
    backend_info, check_shortcut_path_mismatch, detect_backend, portal_version, Platform,
    PlatformInfo, ShortcutBackend,
};
use whis_core::verbose::Verbosity;

#[test]
fn test_default_url_is_localhost() {
    assert!(DEFAULT_OLLAMA_URL.contains("localhost"));
}

#[test]
fn test_ollama_readiness_decisions() {
    let base = OllamaStatus { running: false, installed: false, url_is_local: false, has_model: false };
    assert_eq!(ensure_ollama_ready(&base), OllamaAction::FailRemoteUnreachable);
    assert_eq!(
        ensure_ollama_ready(&OllamaStatus { url_is_local: true, ..base }),
        OllamaAction::FailNotInstalled
    );
    assert_eq!(
        ensure_ollama_ready(&OllamaStatus { url_is_local: true, installed: true, ..base }),
        OllamaAction::StartServer
    );
    assert_eq!(
        ensure_ollama_ready(&OllamaStatus { running: true, ..base }),
        OllamaAction::PullModel
    );
    assert_eq!(
        ensure_ollama_ready(&OllamaStatus { running: true, has_model: true, ..base }),
        OllamaAction::Ready
    );
}

#[test]
fn test_ollama_url_locality() {
    assert!(ollama_url_is_local("http://localhost:11434"));
    assert!(ollama_url_is_local("http://127.0.0.1:11434"));
    assert!(!ollama_url_is_local("https://llm.example.com"));
}

#[test]
fn test_model_name_matching() {
    assert!(model_matches("phi3:latest", "phi3"));
    assert!(model_matches("phi3", "phi3"));
    assert!(model_matches("qwen2.5:1.5b", "qwen2.5:1.5b"));
    assert!(!model_matches("llama3", "phi3"));

    let names = vec!["llama3:8b".to_string(), "phi3:latest".to_string()];
    assert!(has_model_in(&names, "phi3"));
    assert!(!has_model_in(&names, "mistral"));
}

#[test]
fn test_ollama_config_defaults() {
    let config = OllamaConfig::default();
    assert_eq!(config.url.as_deref(), Some("http://localhost:11434"));
    assert_eq!(config.model.as_deref(), Some("qwen2.5:1.5b"));
    assert_eq!(config.keep_alive(), "5m");

    let bare = OllamaConfig { url: None, model: None, keep_alive: None };
    assert_eq!(bare.keep_alive(), "5m");

    let custom = OllamaConfig { keep_alive: Some("-1".to_string()), ..bare };
    assert_eq!(custom.keep_alive(), "-1");

    let services = ServicesSettings::default();
    assert_eq!(services.ollama.url.as_deref(), Some("http://localhost:11434"));
}

#[test]
fn test_convert_gvariant_shortcut() {
    assert_eq!(convert_gvariant_shortcut("<Control><Alt>m"), "Ctrl+Alt+M");
    assert_eq!(convert_gvariant_shortcut("<Super><Shift>f"), "Super+Shift+F");
    assert_eq!(convert_gvariant_shortcut("m"), "M");
}

#[test]
fn test_read_portal_shortcut() {
    let dump = "[whis]\nshortcuts=[('toggle-recording', {'shortcuts': <['<Control><Alt>m']>})]\n";
    assert_eq!(
        read_portal_shortcut_from_dconf(dump).as_deref(),
        Some("Ctrl+Alt+M")
    );
    assert_eq!(read_portal_shortcut_from_dconf("[other]\nkey=value\n"), None);
}

#[test]
fn test_read_gnome_custom_shortcut() {
    let dump = "[custom0]\nbinding='<Control><Alt>f'\ncommand='whis-desktop --toggle'\nname='Whis'\n";
    assert_eq!(read_gnome_custom_shortcut(dump).as_deref(), Some("Ctrl+Alt+F"));

    // A section whose command is unrelated yields nothing.
    let other = "[custom0]\nbinding='<Control>p'\ncommand='firefox'\n";
    assert_eq!(read_gnome_custom_shortcut(other), None);

    // The binding may come after the command within the section.
    let swapped = "[custom0]\ncommand=\"whis --toggle\"\nbinding='<Super>w'\n";
    assert_eq!(read_gnome_custom_shortcut(swapped).as_deref(), Some("Super+W"));
}

#[test]
fn test_validate_hotkeys() {
    assert_eq!(validate("ctrl+alt+w").unwrap(), "ctrl+alt+w");
    assert_eq!(validate("Ctrl+Alt+W").unwrap(), "ctrl+alt+w");
    assert_eq!(validate("super+shift+r").unwrap(), "super+shift+r");
    assert_eq!(validate("cmd+option+w").unwrap(), "cmd+option+w");

    assert_eq!(validate("w"), Err(HotkeyError::Invalid));
    assert_eq!(validate("ctrl+"), Err(HotkeyError::Invalid));
    assert_eq!(validate("foo+w"), Err(HotkeyError::Invalid));
    assert_eq!(validate("ctrl+alt"), Err(HotkeyError::Invalid));
    assert_eq!(validate(""), Err(HotkeyError::Invalid));
}

#[test]
fn test_backend_detection() {
    let mac = PlatformInfo {
        platform: Platform::MacOS,
        compositor_name: "".to_string(),
        portal_version: 0,
        is_flatpak: false,
    };
    assert_eq!(detect_backend(&mac).backend, ShortcutBackend::TauriPlugin);

    let wayland_flatpak = PlatformInfo {
        platform: Platform::LinuxWayland,
        compositor_name: "GNOME".to_string(),
        portal_version: 2,
        is_flatpak: true,
    };
    assert_eq!(
        detect_backend(&wayland_flatpak).backend,
        ShortcutBackend::PortalGlobalShortcuts
    );
    assert_eq!(portal_version(&wayland_flatpak), 2);

    let wayland_no_portal = PlatformInfo { portal_version: 0, ..wayland_flatpak.clone() };
    assert_eq!(
        detect_backend(&wayland_no_portal).backend,
        ShortcutBackend::ManualSetup
    );

    let wayland_plain = PlatformInfo { is_flatpak: false, ..wayland_flatpak.clone() };
    assert_eq!(detect_backend(&wayland_plain).backend, ShortcutBackend::RdevGrab);

    let info = backend_info(&wayland_flatpak);
    assert_eq!(info.backend, "PortalGlobalShortcuts");
    assert!(info.requires_restart);
    assert_eq!(info.compositor, "GNOME");
    assert_eq!(info.portal_version, 2);
    assert!(info.is_flatpak);

    let x11 = PlatformInfo {
        platform: Platform::LinuxX11,
        compositor_name: "X11".to_string(),
        portal_version: 0,
        is_flatpak: false,
    };
    assert!(!backend_info(&x11).requires_restart);
}

#[test]
fn test_record_config() {
    let config = RecordConfig::new(true, Some("notes".to_string()), true, Some(5000), false);
    assert!(config.post_process);
    assert_eq!(config.preset.as_deref(), Some("notes"));
    assert!(config.is_quiet());
    assert_eq!(config.duration_ms, Some(5000));
    assert!(!config.no_vad);

    let loud = RecordConfig::new(false, None, false, None, true);
    assert!(!loud.is_quiet());
}

#[test]
fn test_verbosity_switch() {
    let mut v = Verbosity::new();
    assert!(!v.is_verbose());
    v.set_verbose(true);
    assert!(v.is_verbose());
    v.set_verbose(false);
    assert!(!v.is_verbose());
}

#[test]
fn test_bubble_defaults() {
    assert_eq!(default_background_color(), "#1C1C1C");
    assert_eq!(default_idle_color(), "#FFFFFF");
    assert_eq!(default_recording_color(), "#FF4444");
    assert_eq!(default_processing_color(), "#FFD633");
    assert_eq!(default_size(), 60);
    assert_eq!(default_start_y(), 100);

    let colors = BubbleColors::default();
    assert_eq!(colors.background, "#1C1C1C");
    assert_eq!(colors.recording, "#FF4444");

    let options = BubbleOptions::default();
    assert_eq!(options.size, 60);
    assert_eq!(options.start_x, 0);
    assert_eq!(options.start_y, 100);
    assert!(options.icon_resource_name.is_none());
    assert!(options.colors.is_none());
}

#[test]
fn test_shortcut_path_mismatch() {
    assert!(check_shortcut_path_mismatch("whis --toggle", "whis --toggle").is_none());
    // Surrounding whitespace does not count as a difference.
    assert!(check_shortcut_path_mismatch(" whis --toggle\n", "whis --toggle").is_none());

    let mismatch =
        check_shortcut_path_mismatch("/old/path/whis --toggle", "/new/path/whis --toggle")
            .unwrap();
    assert_eq!(mismatch.configured_command, "/old/path/whis --toggle");
    assert_eq!(mismatch.current_command, "/new/path/whis --toggle");
}
