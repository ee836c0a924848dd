//! The handler registry: which external applications are presentable for a
//! category, in a fixed priority order.

use vstd::prelude::*;
use crate::handlers::Browser;
use crate::handlers::DocHandler;
use crate::handlers::spec_browser_name;
use crate::handlers::spec_doc_handler_name;
use crate::category::FileCategory;
use crate::config::HandlerChoice;

verus! {

/// The browsers found on the host, in the fixed probe order. Probing
/// itself — an existence check on each candidate executable — is the
/// caller's, as is anything else that touches the host; a missing
/// executable is not an error, it is simply excluded.
pub open spec fn spec_installed(
    brave: bool,
    firefox: bool,
    chrome: bool,
    chromium: bool,
) -> Seq<Browser> {
    (if brave {
        seq![Browser::Brave]
    } else {
        Seq::empty()
    }) + (if firefox {
        seq![Browser::Firefox]
    } else {
        Seq::empty()
    }) + (if chrome {
        seq![Browser::Chrome]
    } else {
        Seq::empty()
    }) + (if chromium {
        seq![Browser::Chromium]
    } else {
        Seq::empty()
    })
}

/// The detected browsers, given one probe result per candidate, in the
/// fixed priority order Brave, Firefox, Chrome, Chromium.
pub fn installed_browsers(brave: bool, firefox: bool, chrome: bool, chromium: bool) -> (r: Vec<
    Browser,
>)
    ensures
        r@ == spec_installed(brave, firefox, chrome, chromium),
{
    let mut r: Vec<Browser> = Vec::new();
    if brave {
        r.push(Browser::Brave);
    }
    if firefox {
        r.push(Browser::Firefox);
    }
    if chrome {
        r.push(Browser::Chrome);
    }
    if chromium {
        r.push(Browser::Chromium);
    }
    proof {
        assert(r@ =~= spec_installed(brave, firefox, chrome, chromium));
    }
    r
}

/// For PDFs: the names presented to the user — one per detected browser, in
/// order, with the system default appended as the guaranteed-available
/// final option.
pub fn pdf_prompt_options(installed: &Vec<Browser>) -> (r: Vec<&'static str>)
    ensures
        r@.len() == installed@.len() + 1,
        forall|i: int| 0 <= i < installed@.len() ==> r@[i]@ == spec_browser_name(installed@[i]),
        r@[installed@.len() as int]@ == spec_browser_name(Browser::System),
{
    let mut r: Vec<&'static str> = Vec::new();
    let mut i: usize = 0;
    while i < installed.len()
        invariant
            0 <= i <= installed@.len(),
            r@.len() == i,
            forall|j: int| 0 <= j < i ==> r@[j]@ == spec_browser_name(installed@[j]),
        decreases installed@.len() - i,
    {
        let b = installed[i];
        r.push(b.display_name());
        i += 1;
    }
    r.push(Browser::System.display_name());
    r
}

/// For documents: the fixed two options, both always presentable, no
/// probing needed.
pub fn doc_prompt_options() -> (r: Vec<&'static str>)
    ensures
        r@.len() == 2,
        r@[0]@ == spec_doc_handler_name(DocHandler::GoogleDocs),
        r@[1]@ == spec_doc_handler_name(DocHandler::LocalApp),
{
    let mut r: Vec<&'static str> = Vec::new();
    r.push(DocHandler::GoogleDocs.display_name());
    r.push(DocHandler::LocalApp.display_name());
    r
}

/// The ordered handler choices available for a category, given one probe
/// result per candidate browser: for PDFs the detected browsers with the
/// system default appended as the guaranteed-available final option; for
/// documents the fixed two handlers, unconditionally; for categories with
/// no choice to make, nothing.
pub open spec fn spec_available_handlers(
    cat: FileCategory,
    brave: bool,
    firefox: bool,
    chrome: bool,
    chromium: bool,
) -> Seq<HandlerChoice> {
    match cat {
        FileCategory::Pdf => spec_installed(brave, firefox, chrome, chromium).map(
            |i: int, b: Browser| HandlerChoice::ForPdf(b),
        ) + seq![HandlerChoice::ForPdf(Browser::System)],
        FileCategory::Document => seq![
            HandlerChoice::ForDocument(DocHandler::GoogleDocs),
            HandlerChoice::ForDocument(DocHandler::LocalApp),
        ],
        FileCategory::OpenDirectly => Seq::empty(),
        FileCategory::Unknown => Seq::empty(),
    }
}

/// Enumerates which external applications are available on the host for a
/// category, in the order they are offered.
pub fn available_handlers(
    cat: &FileCategory,
    brave: bool,
    firefox: bool,
    chrome: bool,
    chromium: bool,
) -> (r: Vec<HandlerChoice>)
    ensures
        r@ == spec_available_handlers(*cat, brave, firefox, chrome, chromium),
{
    let mut r: Vec<HandlerChoice> = Vec::new();
    match cat {
        FileCategory::Pdf => {
            let installed = installed_browsers(brave, firefox, chrome, chromium);
            let mut i: usize = 0;
            while i < installed.len()
                invariant
                    0 <= i <= installed@.len(),
                    r@.len() == i,
                    forall|j: int| 0 <= j < i ==> r@[j] == HandlerChoice::ForPdf(installed@[j]),
                decreases installed@.len() - i,
            {
                let b = installed[i];
                r.push(HandlerChoice::ForPdf(b));
                i += 1;
            }
            r.push(HandlerChoice::ForPdf(Browser::System));
            proof {
                assert(r@ =~= spec_available_handlers(*cat, brave, firefox, chrome, chromium));
            }
        },
        FileCategory::Document => {
            r.push(HandlerChoice::ForDocument(DocHandler::GoogleDocs));
            r.push(HandlerChoice::ForDocument(DocHandler::LocalApp));
            proof {
                assert(r@ =~= spec_available_handlers(*cat, brave, firefox, chrome, chromium));
            }
        },
        FileCategory::OpenDirectly => {
            proof {
                assert(r@ =~= spec_available_handlers(*cat, brave, firefox, chrome, chromium));
            }
        },
        FileCategory::Unknown => {
            proof {
                assert(r@ =~= spec_available_handlers(*cat, brave, firefox, chrome, chromium));
            }
        },
    }
    r
}

/// The first option equal to the label a selection dialog reported, if
/// any: the option's position is the selected index.
pub fn position_of_bytes(options: &Vec<Vec<u8>>, selected: &[u8]) -> (r: Option<usize>)
    ensures
        match r {
            Option::Some(i) => i < options@.len() && options@[i as int]@ == selected@ && forall|
                j: int,
            | 0 <= j < i ==> options@[j]@ != selected@,
            Option::None => forall|j: int| 0 <= j < options@.len() ==> options@[j]@ != selected@,
        },
{
    let mut i: usize = 0;
    while i < options.len()
        invariant
            0 <= i <= options@.len(),
            forall|j: int| 0 <= j < i ==> options@[j]@ != selected@,
        decreases options@.len() - i,
    {
        if crate::paths::eq_bytes(options[i].as_slice(), selected) {
            return Some(i);
        }
        i += 1;
    }
    None
}

/// The browser a selected prompt index stands for: an index into the
/// detected browsers, with every index past them meaning the appended
/// system-default option.
pub open spec fn spec_selected_browser(installed: Seq<Browser>, idx: int) -> Browser {
    if 0 <= idx < installed.len() {
        installed[idx]
    } else {
        Browser::System
    }
}

/// The browser the user's selection stands for.
pub fn selected_browser(installed: &Vec<Browser>, idx: usize) -> (r: Browser)
    ensures
        r == spec_selected_browser(installed@, idx as int),
{
    if idx < installed.len() {
        installed[idx]
    } else {
        Browser::System
    }
}

} // verus!
