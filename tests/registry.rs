use chama_optics::exif_impl::SimplifiedExif;
use chama_optics::theme::{Film, Nothing, Theme, ThemeRegistry, ThemeRegistryState};

fn state(names: &[&str], selected: usize) -> ThemeRegistryState {
    ThemeRegistryState { names: names.iter().map(|s| s.to_string()).collect(), selected }
}

fn names(reg: &ThemeRegistry) -> Vec<&'static str> {
    reg.themes.iter().map(|t| t.unique_name()).collect()
}

#[test]
fn new_registry_selects_film() {
    let reg = ThemeRegistry::new();
    assert_eq!(names(&reg), vec!["film", "nothing"]);
    assert_eq!(reg.selected, 0);
    assert_eq!(reg.selected_theme_read().unique_name(), "film");
}

#[test]
fn persisted_order_wins() {
    let reg = ThemeRegistry::from_state(state(&["nothing", "film"], 1));
    assert_eq!(names(&reg), vec!["nothing", "film"]);
    assert_eq!(reg.selected, 1);
    assert_eq!(reg.selected_theme_read().unique_name(), "film");
}

#[test]
fn unknown_persisted_name_is_dropped() {
    let reg = ThemeRegistry::from_state(state(&["vintage", "nothing", "film"], 2));
    assert_eq!(names(&reg), vec!["nothing", "film"]);
    assert_eq!(reg.selected_theme_read().unique_name(), "film");
    let reg = ThemeRegistry::from_state(state(&["vintage", "nothing", "film"], 1));
    assert_eq!(names(&reg), vec!["nothing", "film"]);
    assert_eq!(reg.selected_theme_read().unique_name(), "nothing");
}

#[test]
fn unmentioned_strategies_follow_in_natural_order() {
    let reg = ThemeRegistry::from_state(state(&["nothing"], 0));
    assert_eq!(names(&reg), vec!["nothing", "film"]);
    assert_eq!(reg.selected, 0);
    let reg = ThemeRegistry::from_state(state(&[], 5));
    assert_eq!(names(&reg), vec!["film", "nothing"]);
    assert_eq!(reg.selected, 1);
}

#[test]
fn duplicate_persisted_names_do_not_duplicate_strategies() {
    let reg = ThemeRegistry::from_state(state(&["film", "film", "nothing", "nothing"], 3));
    assert_eq!(names(&reg), vec!["film", "nothing"]);
    assert_eq!(reg.selected_theme_read().unique_name(), "nothing");
}

#[test]
fn save_and_reload_is_stable() {
    let first = ThemeRegistry::from_state(state(&["nothing", "vintage", "film"], 2));
    let saved = first.to_state();
    assert_eq!(saved.names, vec!["nothing".to_string(), "film".to_string()]);
    let second = ThemeRegistry::from_state(saved.clone());
    assert_eq!(names(&second), names(&first));
    assert_eq!(second.selected, first.selected);
    let again = second.to_state();
    assert_eq!(again.names, saved.names);
    assert_eq!(again.selected, saved.selected);
}

#[test]
fn saved_selection_is_clamped() {
    let mut reg = ThemeRegistry::new();
    reg.selected = 7;
    assert_eq!(reg.to_state().selected, 1);
}

#[test]
fn theme_names_and_labels() {
    assert_eq!(Theme::Film(Film::default()).unique_name(), "film");
    assert_eq!(Theme::Nothing(Nothing {}).unique_name(), "nothing");
    assert_eq!(Theme::Nothing(Nothing {}).label(), "Nothing");
    assert_eq!(Film::default().font_size, 25);
}

#[test]
fn overlay_pairs_skip_absent_values() {
    let mut e = SimplifiedExif::default();
    e.fnumber = "2.8".to_string();
    e.exposure = "0".to_string();
    e.iso_speed = Some(100);
    let pairs = Film::overlay_pairs(&e);
    assert_eq!(
        pairs,
        vec![("F".to_string(), "2.8".to_string()), ("ISO".to_string(), "100".to_string())]
    );
    e.exposure = "1/60".to_string();
    let pairs = Film::overlay_pairs(&e);
    assert_eq!(pairs[1], ("SEC".to_string(), "1/60".to_string()));
    assert!(Film::overlay_pairs(&SimplifiedExif::default()).is_empty());
}

#[test]
fn camera_line_joins_make_and_model() {
    let mut e = SimplifiedExif::default();
    e.camera_mnf = "Canon".to_string();
    e.camera_model = "EOS R5".to_string();
    assert_eq!(Film::camera_line(&e), "Canon  EOS R5");
}
