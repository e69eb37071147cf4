//! The text that the operator sees: the banner, the progress lines in their
//! order, and the shape of the last report.

use vstd::prelude::*;
use crate::device::Build;

verus! {

/// The banner: the product's name, then version, compiler and build time.
pub open spec fn banner_text(build: Build) -> Seq<char> {
    "Welcome to Brisbane Bootloader\nversion "@ + build.version@ + " ("@ + build.compiler@
        + ", "@ + build.timestamp@ + ")\n"@
}

/// The line that shows where the loader found itself.
pub open spec fn detected_text(device: Seq<char>) -> Seq<char> {
    "Detected filesystem at "@ + device
}

/// The line before the kernel is read.
pub open spec fn reading_text() -> Seq<char> {
    "Reading kernel..."@
}

/// The line before the kernel is registered as an image.
pub open spec fn loading_text() -> Seq<char> {
    "Loading kernel..."@
}

/// The line before control goes to the kernel.
pub open spec fn starting_text() -> Seq<char> {
    "Starting kernel..."@
}

/// Everything that a loader writes before it hands over to the kernel, in
/// the order in which it is written. `device` is the boot device's text.
pub open spec fn progress(build: Build, device: Seq<char>) -> Seq<Seq<char>> {
    seq![
        banner_text(build),
        detected_text(device),
        reading_text(),
        loading_text(),
        starting_text(),
    ]
}

/// A text in which a carriage return stands before every line feed.
pub open spec fn with_carriage_returns(text: Seq<char>) -> Seq<char>
    decreases text.len(),
{
    if text.len() == 0 {
        Seq::empty()
    } else if text[0] == '\n' {
        seq!['\r', '\n'] + with_carriage_returns(text.drop_first())
    } else {
        seq![text[0]] + with_carriage_returns(text.drop_first())
    }
}

/// The last report as it goes to the console: a line feed, to leave whatever
/// line was being written, then the text with a carriage return before each
/// of its line feeds.
pub open spec fn report_text(text: Seq<char>) -> Seq<char> {
    seq!['\n'] + with_carriage_returns(text)
}

/// `str::replace` with the pattern `'\n'` and the replacement `"\r\n"`: std
/// documents that it replaces every match of the pattern, and copies the
/// rest.
#[verifier::external_body]
fn replace_line_feeds(text: &str) -> (replaced: String)
    ensures
        replaced@ == with_carriage_returns(text@),
{
    text.replace('\n', "\r\n")
}

/// The banner for a build.
pub fn banner(build: &Build) -> (line: String)
    ensures
        line@ == banner_text(*build),
{
    let mut line = String::from_str("Welcome to Brisbane Bootloader\nversion ");
    line.append(build.version.as_str());
    line.append(" (");
    line.append(build.compiler.as_str());
    line.append(", ");
    line.append(build.timestamp.as_str());
    line.append(")\n");
    line
}

/// The line that shows the boot device's text.
pub fn detected(device: &str) -> (line: String)
    ensures
        line@ == detected_text(device@),
{
    let mut line = String::from_str("Detected filesystem at ");
    line.append(device);
    line
}

/// The line before the kernel is read.
pub fn reading() -> (line: String)
    ensures
        line@ == reading_text(),
{
    String::from_str("Reading kernel...")
}

/// The line before the kernel is registered as an image.
pub fn loading() -> (line: String)
    ensures
        line@ == loading_text(),
{
    String::from_str("Loading kernel...")
}

/// The line before control goes to the kernel.
pub fn starting() -> (line: String)
    ensures
        line@ == starting_text(),
{
    String::from_str("Starting kernel...")
}

/// The last report, ready for the console.
pub fn report(text: &str) -> (shown: String)
    ensures
        shown@ == report_text(text@),
{
    let replaced = replace_line_feeds(text);
    let mut shown = String::from_str("\n");
    shown.append(replaced.as_str());
    proof {
        reveal_strlit("\n");
        assert("\n"@ =~= seq!['\n']);
    }
    shown
}

} // verus!
