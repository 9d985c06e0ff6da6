//! The documents the server answers with: the frame page around the slides
//! and the page for a slide that cannot be read.

use crate::config::{Dimensions, ServerState};
use crate::control::Status;
use crate::decimal::{append_decimal, decimal};
use vstd::prelude::*;

verus! {

/// The frame page before the presentation's name.
pub const PAGE_OPEN: &'static str = "\n<html>\n    <head>\n        <title>";

/// The frame page between the title and the description.
pub const PAGE_META: &'static str =
    "</title>\n        <meta charset=\"utf-8\" />\n        <meta name=\"viewport\" content=\"width=device-width, initial-scale=1\" />\n        <meta name=\"description\" content=";

/// The frame page between the description and the style sheet.
pub const PAGE_STYLE: &'static str = "/>\n        <style>\n";

/// The frame page between the style sheet and the script.
pub const PAGE_BODY: &'static str =
    "\n        </style>\n    </head>\n    <body>\n        <iframe src=\"/0\">\n        <script>\n";

/// The frame page after the script.
pub const PAGE_CLOSE: &'static str = "\n        </script>\n    </body>\n</html>\n";

/// What stands for the background in a style sheet.
pub const BACKGROUND_MARK: &'static str = "BACKGROUND";

/// What stands for the slides' aspect ratio in a style sheet.
pub const RATIO_MARK: &'static str = "ASPECT_RATIO";

/// `text` with every match of `pattern` replaced by `replacement`, as
/// `str::replace` of the standard library finds the matches.
pub uninterp spec fn replaced(text: Seq<char>, pattern: Seq<char>, replacement: Seq<char>) -> Seq<
    char,
>;

/// Calls `str::replace`. The result is a function of the three texts alone;
/// the contract gives it its name and claims nothing else.
#[verifier::external_body]
fn replace(text: &str, pattern: &str, replacement: &str) -> (out: String)
    ensures
        out@ == replaced(text@, pattern@, replacement@),
{
    text.replace(pattern, replacement)
}

/// A ratio as a style sheet writes it: width, a slash, height.
pub open spec fn aspect_ratio_text(ratio: Dimensions) -> Seq<char> {
    decimal(ratio.width as nat) + "/"@ + decimal(ratio.height as nat)
}

/// What calls the script's last expression where viewers may control the
/// presentation, and leaves it uncalled where they may not.
pub open spec fn control_suffix(control: bool) -> Seq<char> {
    if control {
        "()"@
    } else {
        ""@
    }
}

/// The frame page for a presentation called `name`, around a finished style
/// sheet and the viewer script.
pub open spec fn root_document(
    name: Seq<char>,
    style: Seq<char>,
    script: Seq<char>,
    control: bool,
) -> Seq<char> {
    PAGE_OPEN@ + name + PAGE_META@ + name + PAGE_STYLE@ + style + PAGE_BODY@ + script
        + control_suffix(control) + PAGE_CLOSE@
}

/// The style sheet `template` with the two marks filled in.
pub open spec fn finished_style(
    template: Seq<char>,
    background: Seq<char>,
    ratio: Dimensions,
) -> Seq<char> {
    replaced(
        replaced(template, BACKGROUND_MARK@, background),
        RATIO_MARK@,
        aspect_ratio_text(ratio),
    )
}

/// The page that answers a request for a slide that could not be read.
pub open spec fn not_found_document(reason: Seq<char>) -> Seq<char> {
    "<html><body><h1>"@ + reason + "</h1></body></html>"@
}

/// Writes a ratio as a style sheet takes it.
pub fn aspect_ratio(ratio: Dimensions) -> (text: String)
    ensures
        text@ == aspect_ratio_text(ratio),
{
    let mut text = String::new();
    append_decimal(&mut text, ratio.width as usize);
    text.append("/");
    append_decimal(&mut text, ratio.height as usize);
    assert(text@ =~= aspect_ratio_text(ratio));
    text
}

/// Puts the frame page together from its parts.
pub fn assemble_root(name: &str, style: &str, script: &str, control: bool) -> (page: String)
    ensures
        page@ == root_document(name@, style@, script@, control),
{
    let mut page = String::from_str(PAGE_OPEN);
    page.append(name);
    page.append(PAGE_META);
    page.append(name);
    page.append(PAGE_STYLE);
    page.append(style);
    page.append(PAGE_BODY);
    page.append(script);
    if control {
        page.append("()");
    } else {
        page.append("");
    }
    page.append(PAGE_CLOSE);
    page
}

/// The frame page of the presentation that `state` describes: its name, the
/// style sheet `style` with background and aspect ratio filled in, and the
/// viewer script, which is called only where viewers may control.
pub fn root(state: &ServerState, script: &str, style: &str) -> (page: String)
    ensures
        page@ == root_document(
            state.name@,
            finished_style(style@, state.background@, state.slide_ratio),
            script@,
            state.control,
        ),
{
    let with_background = replace(style, BACKGROUND_MARK, state.background.as_str());
    let ratio = aspect_ratio(state.slide_ratio);
    let finished = replace(with_background.as_str(), RATIO_MARK, ratio.as_str());
    assemble_root(state.name.as_str(), finished.as_str(), script, state.control)
}

/// The answer to a request for a slide, given what reading the slide gave:
/// its content as it is, or the page that tells the reason of the failure.
pub fn page(content: Result<String, String>) -> (answer: (Status, String))
    ensures
        match content {
            Ok(text) => answer == (Status::Success, text),
            Err(reason) => answer.0 == Status::NotFound && answer.1@ == not_found_document(
                reason@,
            ),
        },
{
    match content {
        Ok(text) => (Status::Success, text),
        Err(reason) => {
            let mut body = String::from_str("<html><body><h1>");
            body.append(reason.as_str());
            body.append("</h1></body></html>");
            (Status::NotFound, body)
        },
    }
}

} // verus!
