use sqlight::state::{EditorConfig, Orientation, Point, Range, Theme, Vfs};

#[test]
fn vfs_labels() {
    assert_eq!(Vfs::Memory.value(), "Memory");
    assert_eq!(Vfs::OPFS.value(), "OPFS");
}

#[test]
fn theme_selection() {
    assert!(Theme::System.is_system());
    assert!(Theme::SystemDark.is_system());
    assert!(!Theme::Light.is_system());
    assert!(Theme::from_select("System") == Theme::System);
    assert!(Theme::from_select("Light") == Theme::Light);
    assert!(Theme::from_select("Dark") == Theme::Dark);
    assert_eq!(Theme::SystemLight.select(), "System");
    assert_eq!(Theme::Dark.select(), "Dark");
}

#[test]
fn theme_value_follows_system() {
    assert!(Theme::System.value(Some(true)) == Theme::SystemDark);
    assert!(Theme::System.value(Some(false)) == Theme::SystemLight);
    assert!(Theme::System.value(None) == Theme::SystemLight);
    assert!(Theme::Dark.value(Some(false)) == Theme::Dark);
}

#[test]
fn orientation_selection() {
    assert!(Orientation::AutoVertical.is_auto());
    assert!(!Orientation::Horizontal.is_auto());
    assert!(Orientation::from_select("Automatic") == Orientation::Automatic);
    assert!(Orientation::from_select("Horizontal") == Orientation::Horizontal);
    assert!(Orientation::from_select("Vertical") == Orientation::Vertical);
    assert_eq!(Orientation::AutoHorizontal.select(), "Automatic");
    assert_eq!(Orientation::Vertical.select(), "Vertical");
}

#[test]
fn orientation_value_follows_window() {
    assert!(Orientation::Automatic.value(Some(true)) == Orientation::AutoHorizontal);
    assert!(Orientation::Automatic.value(Some(false)) == Orientation::AutoVertical);
    assert!(Orientation::Automatic.value(None) == Orientation::AutoVertical);
    assert!(Orientation::Horizontal.value(Some(true)) == Orientation::Horizontal);
}

#[test]
fn editor_config_default() {
    let c = EditorConfig::default();
    assert_eq!(c.keyboard, "ace");
    assert_eq!(c.light_theme, "github");
    assert_eq!(c.dark_theme, "github_dark");
}

#[test]
fn range_holds_points() {
    let r = Range { start: Point { row: 1, column: 2 }, end: Point { row: 3, column: 0 } };
    assert_eq!(r.start.row, 1);
    assert_eq!(r.end, Point { row: 3, column: 0 });
}
