//! What is written where colours are switched off, and what does not depend
//! on colours at all.

use launcher::error::LaunchError;
use launcher::paint::{show, Look, Tone};
use launcher::report::{
    app_version_message, failure_message, get_app_version, make_a_link, paint_all, paint_each,
    Notice, Segment,
};
use launcher::stage::Stage;
use launcher::version::Version;

const URL: &str = "https://github.com/DigitalHolography/DopplerManager";

fn v(major: u64, minor: u64, patch: u64) -> Version {
    Version { major, minor, patch }
}

fn without_colours() {
    colored::control::set_override(false);
}

fn failed(error: LaunchError, detail: &str) -> Notice {
    Notice::Failed { error, detail: detail.to_string() }
}

fn shape(segments: &[Segment]) -> Vec<(&str, Look)> {
    segments.iter().map(|s| (s.text.as_str(), s.look)).collect()
}

#[test]
fn styling_leaves_text_alone_without_colours() {
    without_colours();
    for look in [Look::Plain, Look::Dimmed, Look::Tinted(Tone::Red), Look::Tinted(Tone::BrightBlue)] {
        assert_eq!(show("some text\x1b[0m", look), "some text\x1b[0m");
    }
}

#[test]
fn segments_are_joined_in_order_without_colours() {
    without_colours();
    let segments = vec![
        Segment { text: "a".to_string(), look: Look::Plain },
        Segment { text: "b".to_string(), look: Look::Tinted(Tone::Red) },
        Segment { text: "c".to_string(), look: Look::Dimmed },
    ];
    assert_eq!(paint_each(&segments), vec!["a".to_string(), "b".to_string(), "c".to_string()]);
    assert_eq!(paint_all(&segments), "abc");
    assert!(paint_each(&Vec::new()).is_empty());
    assert_eq!(paint_all(&Vec::new()), "");
}

#[test]
fn links_wrap_the_shown_text() {
    assert_eq!(make_a_link("http://a", Some("A")), "\x1B]8;;http://a\x07A\x1B]8;;\x07");
    assert_eq!(make_a_link("http://a", None), "\x1B]8;;http://a\x07http://a\x1B]8;;\x07");
    assert_eq!(make_a_link("", Some("")), "\x1B]8;;\x07\x1B]8;;\x07");
}

#[test]
fn app_version_line_without_colours() {
    without_colours();
    assert_eq!(get_app_version(Some(" 1.4.2\n")), "Version: 1.4.2\n");
    assert_eq!(get_app_version(Some("")), "Version: \n");
    assert_eq!(get_app_version(Some(" \t ")), "Version: \n");
    assert_eq!(get_app_version(None), "Version: [NOT FOUND]\n");
}

#[test]
fn app_version_segments() {
    let present = app_version_message(Some("  2.0.1 \n"));
    assert_eq!(
        shape(&present),
        vec![
            ("Version: ", Look::Plain),
            ("2.0.1", Look::Tinted(Tone::BrightMagenta)),
            ("\n", Look::Plain),
        ]
    );
    let absent = app_version_message(None);
    assert_eq!(shape(&absent), vec![("Version: [NOT FOUND]", Look::Dimmed), ("\n", Look::Plain)]);
}

#[test]
fn progress_notices_without_colours() {
    without_colours();
    let found = Notice::RuntimeFound { executable: "python3".to_string(), version: v(3, 13, 0) };
    assert_eq!(found.render(), "Found Python 3.13.0 using executable 'python3'");
    assert_eq!(Notice::VersionAccepted.render(), "Python version check passed.\n");
    assert_eq!(
        Notice::StageStarted(Stage::EnvironmentCreation).render(),
        "Creating virtual environment..."
    );
    assert_eq!(
        Notice::StageSucceeded(Stage::EnvironmentCreation).render(),
        "Virtual environment created successfully.\n"
    );
    assert_eq!(
        Notice::StageStarted(Stage::DependencyInstallation).render(),
        "Installing dependencies from requirements.txt..."
    );
    assert_eq!(
        Notice::StageSucceeded(Stage::DependencyInstallation).render(),
        "Dependencies installed successfully.\n"
    );
    assert_eq!(
        Notice::StageStarted(Stage::ApplicationLaunch).render(),
        "Running the Streamlit application... (Press Ctrl+C to stop)"
    );
    assert_eq!(
        Notice::StageSucceeded(Stage::ApplicationLaunch).render(),
        "Streamlit application finished."
    );
}

#[test]
fn notice_segments() {
    let found = Notice::RuntimeFound { executable: "py".to_string(), version: v(3, 13, 0) };
    assert_eq!(
        shape(&found.segments()),
        vec![("Found Python 3.13.0 using executable 'py'", Look::Plain)]
    );
    assert_eq!(
        shape(&Notice::VersionAccepted.segments()),
        vec![("Python version check passed.", Look::Tinted(Tone::Green)), ("\n", Look::Plain)]
    );
    assert_eq!(
        shape(&Notice::StageStarted(Stage::ApplicationLaunch).segments()),
        vec![(
            "Running the Streamlit application... (Press Ctrl+C to stop)",
            Look::Tinted(Tone::Yellow)
        )]
    );
    assert_eq!(
        shape(&Notice::StageSucceeded(Stage::EnvironmentCreation).segments()),
        vec![("Virtual environment created successfully.\n", Look::Tinted(Tone::Green))]
    );
    assert_eq!(
        shape(&failed(LaunchError::RuntimeNotFound, "").segments()),
        vec![("\nCould not find a valid Python installation.", Look::Plain)]
    );
}

#[test]
fn failure_messages_without_colours() {
    without_colours();
    assert_eq!(
        failed(LaunchError::RuntimeNotFound, "").render(),
        "\nCould not find a valid Python installation."
    );
    let incompatible =
        LaunchError::RuntimeIncompatible { required: v(3, 13, 0), found: v(3, 10, 4) };
    assert_eq!(
        failed(incompatible, "").render(),
        format!(
            "\nIncompatible Python version. Required: 3.13.0, Found: 3.10.4\n\
             Please check the installation instruction on the README.md or on \
             \x1B]8;;{}\x07{}\x1B]8;;\x07",
            URL, URL
        )
    );
    let exit = |stage| failed(LaunchError::StageExitFailure { stage }, "").render();
    assert_eq!(exit(Stage::EnvironmentCreation), "\nFailed to create virtual environment.");
    assert_eq!(exit(Stage::DependencyInstallation), "\nFailed to install dependencies.");
    assert_eq!(exit(Stage::ApplicationLaunch), "\nStreamlit application exited with an error.");
    let launch = |stage| failed(LaunchError::StageLaunchFailure { stage }, "no such file").render();
    assert_eq!(
        launch(Stage::EnvironmentCreation),
        "\nError executing python to create virtual environment: no such file"
    );
    assert_eq!(
        launch(Stage::DependencyInstallation),
        "\nFailed to run pip. Is 'requirements.txt' present?\nError: no such file"
    );
    assert_eq!(
        launch(Stage::ApplicationLaunch),
        "\nFailed to run streamlit. Is 'app.py' present?\nError: no such file"
    );
}

#[test]
fn failure_message_segments() {
    let segments = failure_message(
        LaunchError::RuntimeIncompatible { required: v(3, 13, 0), found: v(2, 7, 18) },
        "",
    );
    let link = make_a_link(URL, None);
    assert_eq!(
        shape(&segments),
        vec![
            ("\nIncompatible Python version. Required: ", Look::Plain),
            ("3.13.0", Look::Tinted(Tone::Green)),
            (", Found: ", Look::Plain),
            ("2.7.18", Look::Tinted(Tone::Red)),
            ("\nPlease check the installation instruction on the README.md or on ", Look::Plain),
            (link.as_str(), Look::Tinted(Tone::BrightBlue)),
        ]
    );
    let one =
        failure_message(LaunchError::StageExitFailure { stage: Stage::ApplicationLaunch }, "unused");
    assert_eq!(shape(&one), vec![("\nStreamlit application exited with an error.", Look::Plain)]);
}
