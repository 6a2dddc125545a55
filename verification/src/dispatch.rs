//! The command dispatcher: picks the browser, assembles the archiver's
//! argument list, and fixes the messages and the exit status.

use crate::locator::first_hit;
use crate::request::CaptureRequest;
use vstd::prelude::*;

verus! {

/// The flag that precedes the browser executable path.
pub open spec fn browser_flag() -> Seq<char> {
    "--browser-executable-path"@
}

/// The flag that precedes the filename template.
pub open spec fn template_flag() -> Seq<char> {
    "--filename-template"@
}

/// The fixed filename template handed to the archiver when no output path is
/// given.  Its placeholder tokens are interpreted by the archiver, never
/// here.
pub open spec fn template() -> Seq<char> {
    "{url-hostname} - {date-iso} - {page-title}.{filename-extension}"@
}

/// The fixed filename template as a string.
pub fn filename_template() -> (r: String)
    ensures
        r@ == template(),
{
    String::from_str("{url-hostname} - {date-iso} - {page-title}.{filename-extension}")
}

/// The name of the external archiving executable.
pub fn archiver_program() -> (r: String)
    ensures
        r@ == "single-file"@,
{
    String::from_str("single-file")
}

/// The argument list handed to the archiver for a request and a chosen
/// browser: with an output path the url and the path stand as positional
/// arguments, without one the fixed template is passed under its flag.
pub open spec fn command(req: CaptureRequest, browser: Seq<char>) -> Seq<Seq<char>> {
    match req.output {
        Some(out) => seq![browser_flag(), browser, req.url@, out@],
        None => seq![browser_flag(), browser, template_flag(), template(), req.url@],
    }
}

/// Builds the archiver's argument list, exactly as [`command`] lays it out.
pub fn build_command(req: &CaptureRequest, browser: &String) -> (args: Vec<String>)
    ensures
        args@.map_values(|s: String| s@) == command(*req, browser@),
{
    let mut args: Vec<String> = Vec::new();
    args.push(String::from_str("--browser-executable-path"));
    args.push(browser.clone());
    match &req.output {
        Some(out) => {
            args.push(req.url.clone());
            args.push(out.clone());
        },
        None => {
            args.push(String::from_str("--filename-template"));
            args.push(filename_template());
            args.push(req.url.clone());
        },
    }
    proof {
        assert(args@.map_values(|s: String| s@) =~= command(*req, browser@));
    }
    args
}

/// The browser the dispatcher settles on: an explicit request wins
/// unconditionally; otherwise whatever the locator found.
pub open spec fn chosen_browser(req: CaptureRequest, located: Option<String>) -> Option<
    Seq<char>,
> {
    match req.browser {
        Some(b) => Some(b@),
        None => match located {
            Some(l) => Some(l@),
            None => None,
        },
    }
}

/// True exactly when the locator must be consulted: only a request without
/// an explicit browser needs a probe.
pub fn needs_locator(req: &CaptureRequest) -> (r: bool)
    ensures
        r <==> req.browser is None,
{
    req.browser.is_none()
}

/// How a request is dispatched once the browser question is settled.
pub enum Dispatch {
    /// Run the archiver with this argument list.
    Run(Vec<String>),
    /// No explicit browser and nothing located: report the candidates and
    /// stop without running the archiver.
    NoBrowser,
}

/// Settles the dispatch: with a browser in hand, the exact archiver command;
/// with none, the no-browser failure.
pub fn plan_dispatch(req: &CaptureRequest, located: Option<String>) -> (d: Dispatch)
    ensures
        match chosen_browser(*req, located) {
            Some(b) => d matches Dispatch::Run(args) && args@.map_values(|s: String| s@)
                == command(*req, b),
            None => d is NoBrowser,
        },
{
    match &req.browser {
        Some(b) => Dispatch::Run(build_command(req, b)),
        None => match located {
            Some(l) => Dispatch::Run(build_command(req, &l)),
            None => Dispatch::NoBrowser,
        },
    }
}

/// With an explicit output path the command is four fixed arguments: the
/// browser flag and path, then the url and the output path as positionals.
/// No filename template is passed: unless the caller smuggles the template
/// flag in as the browser, the url or the output path itself, no argument
/// equals that flag.
pub proof fn lemma_output_mode_no_template(req: CaptureRequest, browser: Seq<char>)
    requires
        req.output is Some,
        browser != template_flag(),
        req.url@ != template_flag(),
        req.output->0@ != template_flag(),
    ensures
        command(req, browser) =~= seq![browser_flag(), browser, req.url@, req.output->0@],
        forall|i: int|
            0 <= i < command(req, browser).len() ==> command(req, browser)[i] != template_flag(),
{
    reveal_strlit("--browser-executable-path");
    reveal_strlit("--filename-template");
    assert(browser_flag().len() != template_flag().len());
}

/// Without an output path the command carries exactly the fixed filename
/// template, as the argument right after the template flag, and the url as
/// the only positional.
pub proof fn lemma_template_mode_exact(req: CaptureRequest, browser: Seq<char>)
    requires
        req.output is None,
    ensures
        command(req, browser) =~= seq![
            browser_flag(),
            browser,
            template_flag(),
            template(),
            req.url@,
        ],
        command(req, browser)[3] == template(),
{
}

/// An explicit browser takes unconditional precedence: the locator's answer,
/// whatever it is, never changes what is chosen.
pub proof fn lemma_explicit_precedence(
    req: CaptureRequest,
    located_a: Option<String>,
    located_b: Option<String>,
)
    requires
        req.browser is Some,
    ensures
        chosen_browser(req, located_a) == chosen_browser(req, located_b),
        chosen_browser(req, located_a) == Some(req.browser->0@),
{
}

/// When every probe failed and the request names no browser, nothing is
/// chosen: the dispatcher stops before the archiver is ever run.
pub proof fn lemma_no_candidate_no_browser(req: CaptureRequest, avail: Seq<bool>)
    requires
        req.browser is None,
        forall|j: int| 0 <= j < avail.len() ==> !avail[j],
    ensures
        first_hit(avail) is None,
        chosen_browser(req, None) is None,
{
    crate::locator::lemma_first_hit_none(avail);
}

/// The process exit status: zero on success, one on every failure.
pub fn exit_code(success: bool) -> (r: i32)
    ensures
        r == if success {
            0int
        } else {
            1int
        },
{
    if success {
        0
    } else {
        1
    }
}

} // verus!
