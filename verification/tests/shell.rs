use passage_shell::{greet, open_app_window_reply, ShowWindow, WindowId};

#[test]
fn labels() {
    assert_eq!(WindowId::Onboarding.label(), "onboarding");
    assert_eq!(WindowId::App.label(), "app");
    assert_eq!(WindowId::Settings.label(), "settings");
}

#[test]
fn titles() {
    assert_eq!(WindowId::Onboarding.title(), "Passage Onboarding");
    assert_eq!(WindowId::App.title(), "Passage App");
    assert_eq!(WindowId::Settings.title(), "Passage Settings");
}

#[test]
fn min_sizes() {
    assert_eq!(WindowId::Onboarding.min_size(), Some((600, 600)));
    assert_eq!(WindowId::App.min_size(), Some((1400, 900)));
    assert_eq!(WindowId::Settings.min_size(), Some((600, 450)));
}

#[test]
fn show_window_ids() {
    assert!(matches!(ShowWindow::Onboarding.id(), WindowId::Onboarding));
    assert!(matches!(ShowWindow::App.id(), WindowId::App));
    assert!(matches!(ShowWindow::Settings.id(), WindowId::Settings));
}

#[test]
fn onboarding_config() {
    let c = ShowWindow::Onboarding.config();
    assert_eq!(c.label, "onboarding");
    assert_eq!(c.title, "Passage Onboarding");
    assert_eq!(c.route, "/");
    assert!(c.resizable);
    assert!(c.decorations);
    assert!(!c.maximized);
    assert!(c.center);
    assert_eq!(c.focused, Some(true));
    assert_eq!(c.hidden_title, None);
    assert_eq!(c.maximizable, Some(true));
    assert_eq!(c.shadow, Some(true));
    assert_eq!(c.min_size, Some((600, 600)));
}

#[test]
fn app_config() {
    let c = ShowWindow::App.config();
    assert_eq!(c.label, "app");
    assert_eq!(c.title, "Passage App");
    assert_eq!(c.route, "/app");
    assert!(c.resizable);
    assert!(c.decorations);
    assert!(!c.maximized);
    assert!(c.center);
    assert_eq!(c.focused, Some(true));
    assert_eq!(c.hidden_title, Some(true));
    assert_eq!(c.maximizable, None);
    assert_eq!(c.shadow, None);
    assert_eq!(c.min_size, Some((1400, 900)));
}

#[test]
fn settings_config() {
    let c = ShowWindow::Settings.config();
    assert_eq!(c.label, "settings");
    assert_eq!(c.title, "Passage Settings");
    assert_eq!(c.route, "/settings");
    assert!(c.resizable);
    assert!(c.decorations);
    assert!(!c.maximized);
    assert!(c.center);
    assert_eq!(c.focused, None);
    assert_eq!(c.hidden_title, None);
    assert_eq!(c.maximizable, None);
    assert_eq!(c.shadow, None);
    assert_eq!(c.min_size, Some((600, 450)));
}

#[test]
fn greet_formats_name() {
    assert_eq!(greet("World"), "Hello, World! You've been greeted from Rust!");
}

#[test]
fn greet_empty_name() {
    assert_eq!(greet(""), "Hello, ! You've been greeted from Rust!");
}

#[test]
fn reply_on_success() {
    assert_eq!(open_app_window_reply(true), Ok(()));
}

#[test]
fn reply_on_failure() {
    assert_eq!(
        open_app_window_reply(false),
        Err("Failed to create App Window".to_string())
    );
}
