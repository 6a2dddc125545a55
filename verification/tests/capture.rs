use capture::dispatch::archiver_program;
use capture::dispatch::build_command;
use capture::dispatch::exit_code;
use capture::dispatch::filename_template;
use capture::dispatch::needs_locator;
use capture::dispatch::plan_dispatch;
use capture::dispatch::Dispatch;
use capture::locator::candidate_names;
use capture::locator::locate;
use capture::messages::capturing_message;
use capture::messages::done_message;
use capture::messages::join_names;
use capture::messages::no_browser_hint;
use capture::messages::no_browser_message;
use capture::request::CaptureRequest;

const TEMPLATE: &str = "{url-hostname} - {date-iso} - {page-title}.{filename-extension}";

fn request(url: &str, output: Option<&str>, browser: Option<&str>) -> CaptureRequest {
    CaptureRequest::new(
        url.to_string(),
        output.map(|s| s.to_string()),
        browser.map(|s| s.to_string()),
    )
    .unwrap()
}

#[test]
fn candidate_list_is_fixed_and_ordered() {
    let names = candidate_names();
    assert_eq!(
        names,
        vec![
            "chrome".to_string(),
            "chromium".to_string(),
            "google-chrome".to_string(),
            "google-chrome-stable".to_string(),
            "chromium-browser".to_string(),
        ]
    );
}

#[test]
fn locator_returns_exactly_the_third_candidate() {
    let avail = vec![false, false, true, false, false];
    assert_eq!(locate(&avail), Some("google-chrome".to_string()));
}

#[test]
fn locator_prefers_the_first_available() {
    assert_eq!(
        locate(&vec![true, true, true, true, true]),
        Some("chrome".to_string())
    );
    assert_eq!(
        locate(&vec![false, true, false, true, false]),
        Some("chromium".to_string())
    );
}

#[test]
fn locator_reaches_the_last_candidate() {
    let avail = vec![false, false, false, false, true];
    assert_eq!(locate(&avail), Some("chromium-browser".to_string()));
}

#[test]
fn locator_reports_nothing_when_every_probe_fails() {
    assert_eq!(locate(&vec![false, false, false, false, false]), None);
}

#[test]
fn output_mode_has_no_template_flag() {
    let req = request("https://example.com", Some("out.html"), None);
    let args = build_command(&req, &"chrome".to_string());
    assert_eq!(
        args,
        vec![
            "--browser-executable-path".to_string(),
            "chrome".to_string(),
            "https://example.com".to_string(),
            "out.html".to_string(),
        ]
    );
    assert!(!args.contains(&"--filename-template".to_string()));
}

#[test]
fn template_mode_passes_exactly_the_fixed_template() {
    let req = request("https://example.com", None, None);
    let args = build_command(&req, &"chrome".to_string());
    assert_eq!(args.len(), 5);
    assert_eq!(args[2], "--filename-template");
    assert_eq!(args[3], TEMPLATE);
    assert_eq!(filename_template(), TEMPLATE);
}

#[test]
fn explicit_browser_takes_precedence_and_skips_the_locator() {
    let req = request("https://example.com", None, Some("custom-path"));
    assert!(!needs_locator(&req));
    let plan = plan_dispatch(&req, Some("chrome".to_string()));
    match plan {
        Dispatch::Run(args) => assert_eq!(args[1], "custom-path"),
        Dispatch::NoBrowser => panic!("explicit browser must be dispatched"),
    }
}

#[test]
fn no_browser_and_none_located_means_no_run() {
    let req = request("https://example.com", None, None);
    assert!(needs_locator(&req));
    let plan = plan_dispatch(&req, None);
    assert!(matches!(plan, Dispatch::NoBrowser));
    assert_eq!(exit_code(false), 1);
}

#[test]
fn scenario_templated_capture_with_chrome() {
    let req = request("https://example.com", None, None);
    assert!(needs_locator(&req));
    let located = locate(&vec![true, false, false, false, false]);
    assert_eq!(located, Some("chrome".to_string()));
    let plan = plan_dispatch(&req, located);
    match plan {
        Dispatch::Run(args) => assert_eq!(
            args,
            vec![
                "--browser-executable-path".to_string(),
                "chrome".to_string(),
                "--filename-template".to_string(),
                TEMPLATE.to_string(),
                "https://example.com".to_string(),
            ]
        ),
        Dispatch::NoBrowser => panic!("a located browser must be dispatched"),
    }
    assert_eq!(archiver_program(), "single-file");
    assert_eq!(done_message(), "Done");
    assert_eq!(exit_code(true), 0);
}

#[test]
fn scenario_explicit_output_and_browser() {
    let req = request(
        "https://example.com",
        Some("out.html"),
        Some("/usr/bin/chromium"),
    );
    assert!(!needs_locator(&req));
    let plan = plan_dispatch(&req, None);
    match plan {
        Dispatch::Run(args) => assert_eq!(
            args,
            vec![
                "--browser-executable-path".to_string(),
                "/usr/bin/chromium".to_string(),
                "https://example.com".to_string(),
                "out.html".to_string(),
            ]
        ),
        Dispatch::NoBrowser => panic!("explicit browser must be dispatched"),
    }
}

#[test]
fn scenario_no_browser_anywhere() {
    let req = request("https://example.com", None, None);
    assert!(needs_locator(&req));
    let located = locate(&vec![false, false, false, false, false]);
    assert_eq!(located, None);
    let plan = plan_dispatch(&req, located);
    assert!(matches!(plan, Dispatch::NoBrowser));
    assert_eq!(
        no_browser_message(&candidate_names()),
        "No browser found. Tried: chrome, chromium, google-chrome, google-chrome-stable, chromium-browser"
    );
    assert_eq!(no_browser_hint(), "Specify one with --browser");
    assert_eq!(exit_code(false), 1);
}

#[test]
fn empty_url_is_rejected() {
    assert!(CaptureRequest::new(String::new(), None, None).is_none());
}

#[test]
fn request_keeps_its_fields() {
    let req = request("https://example.com", Some("out.html"), Some("chrome"));
    assert_eq!(req.url, "https://example.com");
    assert_eq!(req.output, Some("out.html".to_string()));
    assert_eq!(req.browser, Some("chrome".to_string()));
}

#[test]
fn progress_line_names_the_url() {
    assert_eq!(
        capturing_message("https://example.com"),
        "Capturing https://example.com"
    );
}

#[test]
fn joining_handles_empty_and_single_lists() {
    assert_eq!(join_names(&Vec::new()), "");
    assert_eq!(join_names(&vec!["chrome".to_string()]), "chrome");
    assert_eq!(
        join_names(&vec!["a".to_string(), "b".to_string()]),
        "a, b"
    );
}
