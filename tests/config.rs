use boca::{Cli, WatchBackend};

fn settings(debug: u8, inotify: bool, html: bool) -> Cli {
    Cli {
        filename: String::from("README.md"),
        address: String::from("localhost:3000"),
        stylesheet: None,
        dark: false,
        debug,
        inotify,
        html,
    }
}

#[test]
fn log_level_follows_verbosity() {
    assert_eq!(settings(0, false, false).logging(), "info");
    assert_eq!(settings(1, false, false).logging(), "debug");
    assert_eq!(settings(2, false, false).logging(), "trace");
    assert_eq!(settings(255, false, false).logging(), "trace");
}

#[test]
fn backend_follows_flag() {
    assert_eq!(settings(0, true, false).backend(), WatchBackend::Notify);
    assert_eq!(settings(0, false, false).backend(), WatchBackend::Poll);
}

#[test]
fn settings_for_another_file() {
    let c = settings(1, true, true).for_file(String::from("docs/other.md"));
    assert_eq!(c.filename, "docs/other.md");
    assert_eq!(c.address, "localhost:3000");
    assert_eq!(c.debug, 1);
    assert!(c.inotify && c.html);
    let t = c.watch_target();
    assert_eq!(t.path, "docs/other.md");
    assert!(t.trusted);
}
