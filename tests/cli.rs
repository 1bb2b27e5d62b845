use http_request::cli::{Cli, CliError, Run};
use http_request::event::{Event, Key, TerminalInput};
use http_request::http::HttpMethod;

fn cli(url: Option<&str>, method: Option<&str>, ui: Option<bool>) -> Cli {
    Cli { url: url.map(String::from), method: method.map(String::from), ui }
}

#[test]
fn ui_flag_starts_the_interactive_loop() {
    assert!(matches!(cli(None, Some("BOGUS"), Some(true)).plan(), Ok(Run::Interactive)));
}

#[test]
fn one_shot_uses_the_named_method_and_url() {
    match cli(Some("http://x"), Some("DELETE"), Some(false)).plan() {
        Ok(Run::OneShot(request)) => {
            assert_eq!(request.method, HttpMethod::Delete);
            assert_eq!(request.url, "http://x");
            assert!(request.headers.is_empty());
            assert_eq!(request.body, None);
        },
        _ => panic!("expected a one-shot request"),
    }
}

#[test]
fn one_shot_defaults_to_get_and_an_empty_url() {
    match cli(None, None, None).plan() {
        Ok(Run::OneShot(request)) => {
            assert_eq!(request.method, HttpMethod::Get);
            assert_eq!(request.url, "");
        },
        _ => panic!("expected a one-shot request"),
    }
}

#[test]
fn unknown_method_is_an_input_error() {
    assert!(matches!(
        cli(Some("http://x"), Some("PATCH"), None).plan(),
        Err(CliError::UnknownMethod)
    ));
    assert!(matches!(
        cli(Some("http://x"), Some("get"), Some(false)).plan(),
        Err(CliError::UnknownMethod)
    ));
}

#[test]
fn key_presses_become_events() {
    assert_eq!(
        Event::from_terminal(TerminalInput::Key { key: Key::Char('a'), pressed: true }),
        Some(Event::Key(Key::Char('a')))
    );
}

#[test]
fn key_releases_and_other_input_are_dropped() {
    assert_eq!(Event::from_terminal(TerminalInput::Key { key: Key::Enter, pressed: false }), None);
    assert_eq!(Event::from_terminal(TerminalInput::Other), None);
}

#[test]
fn failed_reads_become_error_events() {
    assert_eq!(Event::from_terminal(TerminalInput::Failed), Some(Event::Error));
}
