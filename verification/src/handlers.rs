//! The external applications that can handle a downloaded file: browsers
//! for PDFs and the two document handlers, with their user-facing names and
//! launch commands.

use vstd::prelude::*;

verus! {

/// Supported browsers for opening PDFs.
#[derive(Clone, Copy, Debug, PartialEq, Eq, Structural)]
pub enum Browser {
    Brave,
    Firefox,
    Chrome,
    Chromium,
    /// Hand the file to the host's default-open mechanism.
    System,
}

/// How a document (odt/doc/xls/ppt family) is opened.
#[derive(Clone, Copy, Debug, PartialEq, Eq, Structural)]
pub enum DocHandler {
    /// Open the remote viewer's upload page in the default browser.
    GoogleDocs,
    /// Open the file with the locally installed application.
    LocalApp,
}

/// The user-facing name of a browser.
pub open spec fn spec_browser_name(b: Browser) -> Seq<char> {
    match b {
        Browser::Brave => "Brave"@,
        Browser::Firefox => "Firefox"@,
        Browser::Chrome => "Google Chrome"@,
        Browser::Chromium => "Chromium"@,
        Browser::System => "System Default"@,
    }
}

/// The executable a browser is launched as.
pub open spec fn spec_browser_command(b: Browser) -> Seq<char> {
    match b {
        Browser::Brave => "brave-browser"@,
        Browser::Firefox => "firefox"@,
        Browser::Chrome => "google-chrome"@,
        Browser::Chromium => "chromium"@,
        Browser::System => "xdg-open"@,
    }
}

/// The user-facing name of a document handler.
pub open spec fn spec_doc_handler_name(h: DocHandler) -> Seq<char> {
    match h {
        DocHandler::GoogleDocs => "Google Docs (Browser)"@,
        DocHandler::LocalApp => "Local Application"@,
    }
}

impl Browser {
    /// The name shown for this browser in a selection prompt.
    pub fn display_name(&self) -> (r: &'static str)
        ensures
            r@ == spec_browser_name(*self),
    {
        match self {
            Browser::Brave => "Brave",
            Browser::Firefox => "Firefox",
            Browser::Chrome => "Google Chrome",
            Browser::Chromium => "Chromium",
            Browser::System => "System Default",
        }
    }

    /// The executable name this browser is spawned as.
    pub fn command(&self) -> (r: &'static str)
        ensures
            r@ == spec_browser_command(*self),
    {
        match self {
            Browser::Brave => "brave-browser",
            Browser::Firefox => "firefox",
            Browser::Chrome => "google-chrome",
            Browser::Chromium => "chromium",
            Browser::System => "xdg-open",
        }
    }
}

impl DocHandler {
    /// The name shown for this handler in a selection prompt.
    pub fn display_name(&self) -> (r: &'static str)
        ensures
            r@ == spec_doc_handler_name(*self),
    {
        match self {
            DocHandler::GoogleDocs => "Google Docs (Browser)",
            DocHandler::LocalApp => "Local Application",
        }
    }
}

} // verus!
