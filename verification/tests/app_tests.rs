use wizard::app::{AppState, Config, ContextPage, Effect, MenuAction, Message};
use wizard::package::Package;

fn sample_package(installed: bool) -> Package {
    Package {
        path: String::from("/tmp/sample.deb"),
        name: String::from("sample.deb"),
        is_installed: installed,
    }
}

#[test]
fn init_state() {
    let s = AppState::init(Config::default());
    assert_eq!(s.context_page, ContextPage::About);
    assert!(!s.show_context);
    assert!(s.package.is_none());
    assert!(s.is_installed);
}

#[test]
fn context_page_title() {
    assert_eq!(ContextPage::About.title(), "About");
}

#[test]
fn menu_action_emits_toggle() {
    let m = MenuAction::About.message();
    assert!(matches!(m, Message::ToggleContextPage(ContextPage::About)));
}

#[test]
fn install_available_needs_uninstalled_package() {
    let mut s = AppState::init(Config::default());
    assert!(!s.install_available());
    let _ = s.update(Message::UpdatePackage(sample_package(false)));
    assert!(s.install_available());
    let _ = s.update(Message::PackageInstalled(true));
    assert!(!s.install_available());
    let _ = s.update(Message::UpdatePackage(sample_package(true)));
    assert!(!s.install_available());
}

#[test]
fn open_repository_url_is_pure_effect() {
    let mut s = AppState::init(Config::default());
    let effect = s.update(Message::OpenRepositoryUrl);
    assert!(matches!(effect, Effect::OpenRepository));
    assert!(s.package.is_none());
    assert!(s.is_installed);
}

#[test]
fn subscription_channel_does_nothing() {
    let mut s = AppState::init(Config::default());
    let effect = s.update(Message::SubscriptionChannel);
    assert!(matches!(effect, Effect::Nothing));
}

#[test]
fn toggle_same_page_flips_drawer() {
    let mut s = AppState::init(Config::default());
    let effect = s.update(Message::ToggleContextPage(ContextPage::About));
    assert!(s.show_context);
    assert_eq!(s.context_page, ContextPage::About);
    match effect {
        Effect::SetContextTitle(t) => assert_eq!(t, "About"),
        other => panic!("unexpected effect {:?}", other),
    }

    let _ = s.update(Message::ToggleContextPage(ContextPage::About));
    assert!(!s.show_context);
}

#[test]
fn update_config_replaces_config() {
    let mut s = AppState::init(Config::default());
    let effect = s.update(Message::UpdateConfig(Config::default()));
    assert!(matches!(effect, Effect::Nothing));
    assert_eq!(s.config, Config::default());
}

#[test]
fn select_file_opens_chooser() {
    let mut s = AppState::init(Config::default());
    let effect = s.update(Message::SelectFile);
    assert!(matches!(effect, Effect::OpenFileChooser));
    assert!(s.package.is_none());
}

#[test]
fn check_installed_forwards_found_package() {
    let mut s = AppState::init(Config::default());
    let effect = s.update(Message::CheckInstalled(Some(sample_package(false))));
    match effect {
        Effect::Dispatch(Message::UpdatePackage(p)) => assert_eq!(p.name, "sample.deb"),
        other => panic!("unexpected effect {:?}", other),
    }
    assert!(s.package.is_none());
}

#[test]
fn check_installed_without_package_does_nothing() {
    let mut s = AppState::init(Config::default());
    let effect = s.update(Message::CheckInstalled(None));
    assert!(matches!(effect, Effect::Nothing));
}

#[test]
fn update_package_replaces_selection() {
    let mut s = AppState::init(Config::default());
    let effect = s.update(Message::UpdatePackage(sample_package(false)));
    assert!(matches!(effect, Effect::Nothing));
    assert!(!s.is_installed);
    let p = s.package.as_ref().unwrap();
    assert_eq!(p.path, "/tmp/sample.deb");
    assert_eq!(p.name, "sample.deb");
}

#[test]
fn ask_permissions_starts_grant_flow() {
    let mut s = AppState::init(Config::default());
    let _ = s.update(Message::UpdatePackage(sample_package(false)));
    let effect = s.update(Message::AskPermissions(sample_package(false)));
    match effect {
        Effect::GrantPermissions(p) => assert_eq!(p.path, "/tmp/sample.deb"),
        other => panic!("unexpected effect {:?}", other),
    }
    // The state waits for Message::PackageInstalled; nothing changed yet.
    assert!(!s.is_installed);
}

#[test]
fn package_installed_updates_flag() {
    let mut s = AppState::init(Config::default());
    let _ = s.update(Message::UpdatePackage(sample_package(false)));
    let effect = s.update(Message::PackageInstalled(true));
    assert!(matches!(effect, Effect::Nothing));
    assert!(s.is_installed);
    assert!(s.package.is_some());
}
