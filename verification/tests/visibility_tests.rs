use bevy_granite::network::visibility::{conceal_on_removal, reveal_on_detection, LocusVisibility};

#[test]
fn toggle_swaps_inherited_and_hidden() {
    let mut v = LocusVisibility::Inherited;
    v.toggle_inherited_hidden();
    assert_eq!(v, LocusVisibility::Hidden);
    v.toggle_inherited_hidden();
    assert_eq!(v, LocusVisibility::Inherited);
}

#[test]
fn toggle_leaves_visible_alone() {
    let mut v = LocusVisibility::Visible;
    v.toggle_inherited_hidden();
    assert_eq!(v, LocusVisibility::Visible);
}

#[test]
fn detection_shows_hidden_locus() {
    let mut v = LocusVisibility::Hidden;
    assert!(!reveal_on_detection(&mut v));
    assert_eq!(v, LocusVisibility::Inherited);
    let mut w = LocusVisibility::Inherited;
    assert!(!reveal_on_detection(&mut w));
    assert_eq!(w, LocusVisibility::Inherited);
}

#[test]
fn detection_ignored_for_visible_locus() {
    let mut v = LocusVisibility::Visible;
    assert!(reveal_on_detection(&mut v));
    assert_eq!(v, LocusVisibility::Visible);
}

#[test]
fn concealment_hides_shown_locus() {
    let mut v = LocusVisibility::Inherited;
    assert!(!conceal_on_removal(&mut v));
    assert_eq!(v, LocusVisibility::Hidden);
    let mut w = LocusVisibility::Hidden;
    assert!(!conceal_on_removal(&mut w));
    assert_eq!(w, LocusVisibility::Hidden);
    let mut x = LocusVisibility::Visible;
    assert!(conceal_on_removal(&mut x));
    assert_eq!(x, LocusVisibility::Visible);
}

#[test]
fn reveal_then_conceal_hides() {
    for start in [LocusVisibility::Inherited, LocusVisibility::Hidden] {
        let mut v = start;
        reveal_on_detection(&mut v);
        conceal_on_removal(&mut v);
        assert_eq!(v, LocusVisibility::Hidden);
        reveal_on_detection(&mut v);
        assert_eq!(v, LocusVisibility::Inherited);
    }
}
