use windowhost::viewport::FullWindowPolicy;
use windowhost::viewport::Rect;
use windowhost::viewport::ViewportRegistry;

fn rect(x: i32, y: i32, width: u32, height: u32) -> Rect {
    Rect { x, y, width, height }
}

#[test]
fn keys_survive_removal_of_a_neighbor() {
    let mut reg: ViewportRegistry<FullWindowPolicy> = ViewportRegistry::new();
    let ra = rect(0, 0, 100, 100);
    let rb = rect(10, 10, 200, 150);
    let rc = rect(20, 20, 300, 200);
    let ka = reg.create_viewport(ra, None);
    let kb = reg.create_viewport(rb, None);
    let kc = reg.create_viewport(rc, None);
    assert_ne!(ka, kb);
    assert_ne!(kb, kc);

    reg.remove_viewport(kb);
    assert_eq!(reg.get_viewport(ka), Some(ra));
    assert_eq!(reg.get_viewport(kc), Some(rc));
    assert_eq!(reg.get_viewport(kb), None);

    // A later creation takes a fresh key; the removed key still
    // misses.
    let kd = reg.create_viewport(rect(1, 1, 2, 2), None);
    assert_ne!(kd, kb);
    assert_eq!(reg.get_viewport(kb), None);
    assert_eq!(reg.get_viewport(ka), Some(ra));
    assert_eq!(reg.get_viewport(kc), Some(rc));
}

#[test]
fn relayout_applies_policies_and_keeps_fixed_rects() {
    let mut reg: ViewportRegistry<FullWindowPolicy> = ViewportRegistry::new();
    let fixed = rect(5, 5, 50, 50);
    let kf = reg.create_viewport(fixed, None);
    let kp = reg.create_viewport(rect(0, 0, 800, 600), Some(FullWindowPolicy));

    reg.update_viewports(1920, 1080);
    assert_eq!(reg.get_viewport(kf), Some(fixed));
    assert_eq!(reg.get_viewport(kp), Some(rect(0, 0, 1920, 1080)));
}

#[test]
fn update_viewport_replaces_only_the_named_rect() {
    let mut reg: ViewportRegistry<FullWindowPolicy> = ViewportRegistry::new();
    let ka = reg.create_viewport(rect(0, 0, 10, 10), None);
    let kb = reg.create_viewport(rect(0, 0, 20, 20), None);
    reg.update_viewport(kb, rect(3, 4, 30, 40));
    assert_eq!(reg.get_viewport(ka), Some(rect(0, 0, 10, 10)));
    assert_eq!(reg.get_viewport(kb), Some(rect(3, 4, 30, 40)));
}

#[test]
fn default_viewport_tracks_assignment() {
    let mut reg: ViewportRegistry<FullWindowPolicy> = ViewportRegistry::new();
    assert_eq!(reg.default_viewport(), 0);
    let k = reg.create_viewport(rect(0, 0, 1, 1), None);
    reg.set_default_viewport(k);
    assert_eq!(reg.default_viewport(), k);
}

#[test]
fn lookup_on_empty_registry_misses() {
    let reg: ViewportRegistry<FullWindowPolicy> = ViewportRegistry::new();
    assert_eq!(reg.get_viewport(0), None);
    assert_eq!(reg.viewport_count(), 0);
}

#[test]
fn removal_of_missing_key_changes_nothing() {
    let mut reg: ViewportRegistry<FullWindowPolicy> = ViewportRegistry::new();
    let ka = reg.create_viewport(rect(0, 0, 10, 10), None);
    reg.remove_viewport(ka + 100);
    assert_eq!(reg.get_viewport(ka), Some(rect(0, 0, 10, 10)));
    assert_eq!(reg.viewport_count(), 1);
}
