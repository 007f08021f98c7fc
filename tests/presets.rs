use hyper_headset::eq::{active_preset_index, is_builtin, SelectedProfile};

#[test]
fn builtin_preset_names() {
    assert!(is_builtin("Flat"));
    assert!(is_builtin("Bass Boost"));
    assert!(is_builtin("Vocal"));
    assert!(!is_builtin("flat"));
    assert!(!is_builtin("My preset"));
    assert!(!is_builtin(""));
}

#[test]
fn active_preset_position() {
    let names = vec!["Flat".to_string(), "Vocal".to_string(), "TUI".to_string()];
    assert_eq!(active_preset_index(&names, &Some("Vocal".to_string())), Some(1));
    assert_eq!(active_preset_index(&names, &Some("Other".to_string())), None);
    assert_eq!(active_preset_index(&names, &None), None);
}

#[test]
fn default_profile_is_empty() {
    let p = SelectedProfile::default();
    assert!(p.active_preset.is_none());
    assert!(!p.synced);
}

#[test]
fn builtin_preset_table() {
    let presets = hyper_headset::eq::builtin_presets();
    let names: Vec<&str> = presets.iter().map(|p| p.name.as_str()).collect();
    assert_eq!(names, vec!["Flat", "Bass Boost", "Treble Boost", "V-Shape", "Vocal"]);
    assert_eq!(presets[0].bands, [0; 10]);
    assert_eq!(presets[3].bands, [500, 400, 200, 0, -200, -200, 0, 200, 400, 500]);
    assert!(presets.iter().all(|p| is_builtin(&p.name)));
}
