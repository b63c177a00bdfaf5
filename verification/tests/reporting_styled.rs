//! What is written where colours are switched on.

use launcher::error::LaunchError;
use launcher::paint::{show, Look, Tone};
use launcher::report::{get_app_version, paint_all, paint_each, Notice, Segment};
use launcher::stage::Stage;
use launcher::version::Version;

const URL: &str = "https://github.com/DigitalHolography/DopplerManager";

fn v(major: u64, minor: u64, patch: u64) -> Version {
    Version { major, minor, patch }
}

fn with_colours() {
    colored::control::set_override(true);
}

fn failed(error: LaunchError, detail: &str) -> Notice {
    Notice::Failed { error, detail: detail.to_string() }
}

#[test]
fn styling_wraps_text_in_escape_sequences() {
    with_colours();
    assert_eq!(show("x", Look::Tinted(Tone::Red)), "\x1b[31mx\x1b[0m");
    assert_eq!(show("x", Look::Tinted(Tone::Green)), "\x1b[32mx\x1b[0m");
    assert_eq!(show("x", Look::Tinted(Tone::Yellow)), "\x1b[33mx\x1b[0m");
    assert_eq!(show("x", Look::Tinted(Tone::BrightBlue)), "\x1b[94mx\x1b[0m");
    assert_eq!(show("x", Look::Tinted(Tone::BrightMagenta)), "\x1b[95mx\x1b[0m");
    assert_eq!(show("x", Look::Dimmed), "\x1b[2mx\x1b[0m");
    assert_eq!(show("x", Look::Plain), "x");
    assert_eq!(show("", Look::Tinted(Tone::Red)), "\x1b[31m\x1b[0m");
}

#[test]
fn styling_is_reopened_after_inner_resets() {
    with_colours();
    assert_eq!(
        show("a\x1b[0mb\x1b[0m", Look::Tinted(Tone::Green)),
        "\x1b[32ma\x1b[0m\x1b[32mb\x1b[0m\x1b[32m\x1b[0m"
    );
    assert_eq!(show("\x1b[0", Look::Dimmed), "\x1b[2m\x1b[0\x1b[0m");
    assert_eq!(show("\x1b[0m", Look::Dimmed), "\x1b[2m\x1b[0m\x1b[2m\x1b[0m");
    assert_eq!(
        show("\x1b\x1b[0mm", Look::Tinted(Tone::Red)),
        "\x1b[31m\x1b\x1b[0m\x1b[31mm\x1b[0m"
    );
    assert_eq!(
        show("\u{e9}\x1b[0m\u{1F600}", Look::Tinted(Tone::Yellow)),
        "\x1b[33m\u{e9}\x1b[0m\x1b[33m\u{1F600}\x1b[0m"
    );
}

#[test]
fn segments_are_joined_in_order_with_colours() {
    with_colours();
    let segments = vec![
        Segment { text: "a".to_string(), look: Look::Plain },
        Segment { text: "b".to_string(), look: Look::Tinted(Tone::Red) },
        Segment { text: "c".to_string(), look: Look::Dimmed },
    ];
    assert_eq!(
        paint_each(&segments),
        vec!["a".to_string(), "\x1b[31mb\x1b[0m".to_string(), "\x1b[2mc\x1b[0m".to_string()]
    );
    assert_eq!(paint_all(&segments), "a\x1b[31mb\x1b[0m\x1b[2mc\x1b[0m");
}

#[test]
fn app_version_line_with_colours() {
    with_colours();
    assert_eq!(get_app_version(Some("\t1.4.2 beta \r\n")), "Version: \x1b[95m1.4.2 beta\x1b[0m\n");
    assert_eq!(get_app_version(None), "\x1b[2mVersion: [NOT FOUND]\x1b[0m\n");
}

#[test]
fn progress_notices_with_colours() {
    with_colours();
    let found = Notice::RuntimeFound { executable: "python".to_string(), version: v(3, 9, 1) };
    assert_eq!(found.render(), "Found Python 3.9.1 using executable 'python'");
    assert_eq!(
        Notice::VersionAccepted.render(),
        "\x1b[32mPython version check passed.\x1b[0m\n"
    );
    assert_eq!(
        Notice::StageStarted(Stage::EnvironmentCreation).render(),
        "\x1b[33mCreating virtual environment...\x1b[0m"
    );
    assert_eq!(
        Notice::StageSucceeded(Stage::DependencyInstallation).render(),
        "\x1b[32mDependencies installed successfully.\n\x1b[0m"
    );
}

#[test]
fn failure_messages_with_colours() {
    with_colours();
    let incompatible =
        LaunchError::RuntimeIncompatible { required: v(3, 13, 0), found: v(3, 10, 4) };
    assert_eq!(
        failed(incompatible, "").render(),
        format!(
            "\nIncompatible Python version. Required: \x1b[32m3.13.0\x1b[0m, \
             Found: \x1b[31m3.10.4\x1b[0m\n\
             Please check the installation instruction on the README.md or on \
             \x1b[94m\x1B]8;;{}\x07{}\x1B]8;;\x07\x1b[0m",
            URL, URL
        )
    );
    assert_eq!(
        failed(LaunchError::RuntimeNotFound, "").render(),
        "\nCould not find a valid Python installation."
    );
    assert_eq!(
        failed(LaunchError::StageExitFailure { stage: Stage::EnvironmentCreation }, "").render(),
        "\nFailed to create virtual environment."
    );
}
