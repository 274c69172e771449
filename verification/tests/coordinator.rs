use window_coordinator::coordinator::{
    aux_window_config, aux_window_label, data_event_name, dismiss, display_result, hide_primary,
    primary_window_label, resize_primary, result_page_path, run_delivery_schedule, show_primary,
    toggle_primary_visibility, Coordinator, RETRY_ATTEMPTS, RETRY_DELAY_MS,
};
use window_coordinator::model::ModelBackend;
use window_coordinator::payload::PluginData;

fn payload(name: &str, result: &str) -> PluginData {
    PluginData::new(
        String::from("plugin-1"),
        String::from(name),
        String::from("2+2"),
        String::from(result),
    )
    .expect("a named payload is accepted")
}

#[test]
fn empty_plugin_name_is_rejected() {
    let none = PluginData::new(
        String::from("plugin-1"),
        String::new(),
        String::from("2+2"),
        String::from("4"),
    );
    assert!(none.is_none());
}

#[test]
fn named_payload_is_displayable() {
    let p = payload("Calculator", "4");
    assert!(p.is_displayable());
    assert_eq!(p.plugin_name, "Calculator");
    let copy = p.duplicate();
    assert_eq!(copy, p);
}

#[test]
fn display_creates_one_titled_window() {
    let mut m = ModelBackend::new();
    let mut c = Coordinator::new();
    let p = payload("Calculator", "4");
    assert_eq!(m.aux_count(), 0);
    let r = display_result(&mut c, &mut m, &p);
    assert!(r.is_ok());
    assert_eq!(m.aux_count(), 1);
    assert_eq!(m.aux[0].title, "Calculator");
    assert!(m.aux[0].focused);
    assert!(m.aux[0].delivered.is_empty());
}

#[test]
fn display_on_existing_window_reuses_it() {
    let mut m = ModelBackend::new();
    let mut c = Coordinator::new();
    let first = payload("Calculator", "4");
    display_result(&mut c, &mut m, &first).unwrap();
    m.set_aux_ready();
    let second = payload("Translator", "vier");
    let r = display_result(&mut c, &mut m, &second);
    assert!(r.is_ok());
    // No second window; the existing one keeps its title and is focused.
    assert_eq!(m.aux_count(), 1);
    assert_eq!(m.aux[0].title, "Calculator");
    assert!(m.aux[0].focused);
    // A ready window received the new payload at once.
    assert_eq!(m.aux[0].delivered.last(), Some(&second));
}

#[test]
fn repeated_displays_keep_a_single_window() {
    let mut m = ModelBackend::new();
    let mut c = Coordinator::new();
    for i in 0..6 {
        let p = payload("Calculator", &format!("{i}"));
        display_result(&mut c, &mut m, &p).unwrap();
        assert_eq!(m.aux_count(), 1);
    }
}

#[test]
fn delivery_lands_once_content_becomes_ready() {
    let mut m = ModelBackend::new();
    let mut c = Coordinator::new();
    let p = payload("Calculator", "4");
    display_result(&mut c, &mut m, &p).unwrap();
    // The fresh window's content is not ready for attempts 1 and 2 and
    // becomes ready at attempt 3: the first two pushes are dropped, the
    // remaining three land, and the window ends up holding the payload.
    run_delivery_schedule(&mut m, &p, 3);
    assert_eq!(m.aux[0].delivered.len(), 3);
    assert_eq!(m.aux[0].delivered.last(), Some(&p));
}

#[test]
fn delivery_is_dropped_while_content_never_readies() {
    let mut m = ModelBackend::new();
    let mut c = Coordinator::new();
    let p = payload("Calculator", "4");
    display_result(&mut c, &mut m, &p).unwrap();
    run_delivery_schedule(&mut m, &p, 0);
    assert!(m.aux[0].delivered.is_empty());
}

#[test]
fn retry_schedule_is_bounded_with_fixed_delay() {
    assert_eq!(RETRY_ATTEMPTS, 5);
    assert_eq!(RETRY_DELAY_MS, 300);
}

#[test]
fn dismiss_without_window_succeeds_and_focuses_primary() {
    let mut m = ModelBackend::new();
    let mut c = Coordinator::new();
    m.primary_focused = false;
    let r = dismiss(&mut c, &mut m);
    assert!(r.is_ok());
    assert_eq!(m.aux_count(), 0);
    assert!(m.primary_focused);
}

#[test]
fn dismiss_closes_window_and_next_display_is_fresh() {
    let mut m = ModelBackend::new();
    let mut c = Coordinator::new();
    let first = payload("Calculator", "4");
    display_result(&mut c, &mut m, &first).unwrap();
    m.set_aux_ready();
    m.primary_focused = false;

    let r = dismiss(&mut c, &mut m);
    assert!(r.is_ok());
    assert_eq!(m.aux_count(), 0);
    assert!(m.primary_focused);

    // The next display creates a fresh window, not a stale reused one: new
    // title, empty delivery history, content not yet ready.
    let second = payload("Translator", "vier");
    display_result(&mut c, &mut m, &second).unwrap();
    assert_eq!(m.aux_count(), 1);
    assert_eq!(m.aux[0].title, "Translator");
    assert!(m.aux[0].delivered.is_empty());
    assert!(!m.aux[0].ready);
}

#[test]
fn dismiss_leaves_primary_visibility_alone() {
    let mut m = ModelBackend::new();
    let mut c = Coordinator::new();
    hide_primary(&mut m).unwrap();
    dismiss(&mut c, &mut m).unwrap();
    assert!(!m.primary_visible);
}

#[test]
fn toggle_round_trips_primary_visibility() {
    let mut m = ModelBackend::new();
    assert!(m.primary_visible);
    toggle_primary_visibility(&mut m).unwrap();
    assert!(!m.primary_visible);
    toggle_primary_visibility(&mut m).unwrap();
    assert!(m.primary_visible);
}

#[test]
fn show_and_hide_set_primary_visibility() {
    let mut m = ModelBackend::new();
    hide_primary(&mut m).unwrap();
    assert!(!m.primary_visible);
    show_primary(&mut m).unwrap();
    assert!(m.primary_visible);
}

#[test]
fn resize_is_reported_back_by_the_size_query() {
    let mut m = ModelBackend::new();
    resize_primary(&mut m, 800, 600).unwrap();
    assert_eq!(m.primary_size(), (800, 600));
}

#[test]
fn window_identifiers_and_presentation_are_fixed() {
    assert_eq!(aux_window_label(), "plugin-window");
    assert_eq!(primary_window_label(), "main");
    assert_eq!(result_page_path(), "/plugin-result.html");
    assert_eq!(data_event_name(), "plugin-data");
    let cfg = aux_window_config();
    assert_eq!((cfg.width, cfg.height), (600, 400));
    assert!(cfg.centered && cfg.resizable && cfg.decorations && cfg.always_on_top);
}
