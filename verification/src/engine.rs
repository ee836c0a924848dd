//! The dispatch decision engine: given one completed download, runs
//! sniffing and reconciliation, classifies the result, and decides — via
//! the preference store or a prompt the caller shows — which external
//! application handles the file.
//!
//! Everything that touches the host (reading the file's first bytes,
//! renaming it, probing for browsers, showing the blocking prompt,
//! spawning the chosen handler, persisting the store) is the caller's;
//! the engine only decides.

use vstd::prelude::*;
use crate::handlers::Browser;
use crate::handlers::DocHandler;
use crate::category::FileCategory;
use crate::category::spec_classify_path;
use crate::category::classify_path;
use crate::config::Config;
use crate::config::HandlerChoice;
use crate::config::spec_set;
use crate::config::spec_choice_category;
use crate::paths::spec_reconcile;
use crate::paths::reconcile;
use crate::paths::eq_bytes;
use crate::registry::spec_selected_browser;
use crate::registry::selected_browser;

verus! {

/// The externally visible effect the engine decides on for one download.
#[derive(Clone, Copy, Debug, PartialEq, Eq, Structural)]
pub enum Action {
    /// Spawn the given browser's command with the file path as argument.
    OpenWithBrowser(Browser),
    /// Open the remote viewer's upload page in the default browser.
    OpenDocsUpload,
    /// Hand the file to the host's default-open mechanism.
    OpenWithSystem,
}

/// The dispatch action a document handler stands for.
pub open spec fn spec_doc_action(h: DocHandler) -> Action {
    match h {
        DocHandler::GoogleDocs => Action::OpenDocsUpload,
        DocHandler::LocalApp => Action::OpenWithSystem,
    }
}

/// What the engine does once a file's category is known.
#[derive(Clone, Copy, Debug, PartialEq, Eq, Structural)]
pub enum Resolution {
    /// Dispatch right away, with no prompt and no preference lookup left.
    Dispatch(Action),
    /// No remembered PDF browser: probe for the installed browsers and
    /// prompt with their names.
    PromptPdf,
    /// No remembered document handler: prompt with the two fixed options.
    PromptDoc,
}

/// How a known category is resolved against the preference store: files
/// with no choice to make are opened directly; a remembered choice skips
/// prompting; otherwise the user must be asked.
pub open spec fn spec_resolve(cat: FileCategory, cfg: Config) -> Resolution {
    match cat {
        FileCategory::Pdf => match cfg.pdf_browser {
            Option::Some(b) => Resolution::Dispatch(Action::OpenWithBrowser(b)),
            Option::None => Resolution::PromptPdf,
        },
        FileCategory::Document => match cfg.doc_handler {
            Option::Some(h) => Resolution::Dispatch(spec_doc_action(h)),
            Option::None => Resolution::PromptDoc,
        },
        FileCategory::OpenDirectly => Resolution::Dispatch(Action::OpenWithSystem),
        FileCategory::Unknown => Resolution::Dispatch(Action::OpenWithSystem),
    }
}

/// Consults the preference store for a classified file and decides whether
/// to dispatch at once or to prompt.
pub fn resolve(cat: &FileCategory, cfg: &Config) -> (r: Resolution)
    ensures
        r == spec_resolve(*cat, *cfg),
{
    match cat {
        FileCategory::Pdf => match cfg.pdf_browser {
            Option::Some(b) => Resolution::Dispatch(Action::OpenWithBrowser(b)),
            Option::None => Resolution::PromptPdf,
        },
        FileCategory::Document => match cfg.doc_handler {
            Option::Some(h) => match h {
                DocHandler::GoogleDocs => Resolution::Dispatch(Action::OpenDocsUpload),
                DocHandler::LocalApp => Resolution::Dispatch(Action::OpenWithSystem),
            },
            Option::None => Resolution::PromptDoc,
        },
        FileCategory::OpenDirectly => Resolution::Dispatch(Action::OpenWithSystem),
        FileCategory::Unknown => Resolution::Dispatch(Action::OpenWithSystem),
    }
}

/// Applies the user's selection from the PDF prompt: remembers the chosen
/// browser (an index past the detected ones means the appended
/// system-default option) and yields the dispatch. The caller persists the
/// store and spawns the browser.
pub fn select_pdf(installed: &Vec<Browser>, idx: usize, cfg: &mut Config) -> (a: Action)
    ensures
        a == Action::OpenWithBrowser(spec_selected_browser(installed@, idx as int)),
        *final(cfg) == spec_set(
            *old(cfg),
            HandlerChoice::ForPdf(spec_selected_browser(installed@, idx as int)),
        ),
{
    let b = selected_browser(installed, idx);
    cfg.set(HandlerChoice::ForPdf(b));
    Action::OpenWithBrowser(b)
}

/// The document handler a selected prompt index stands for; an index past
/// the two options stands for nothing.
pub open spec fn spec_doc_choice(idx: int) -> Option<DocHandler> {
    if idx == 0 {
        Some(DocHandler::GoogleDocs)
    } else if idx == 1 {
        Some(DocHandler::LocalApp)
    } else {
        None
    }
}

/// Applies the user's selection from the document prompt: remembers the
/// chosen handler and yields the dispatch. An out-of-range index changes
/// nothing and dispatches nothing.
pub fn select_doc(idx: usize, cfg: &mut Config) -> (a: Option<Action>)
    ensures
        match spec_doc_choice(idx as int) {
            Option::Some(h) => a == Some(spec_doc_action(h)) && *final(cfg) == spec_set(
                *old(cfg),
                HandlerChoice::ForDocument(h),
            ),
            Option::None => a is None && *final(cfg) == *old(cfg),
        },
{
    if idx == 0 {
        cfg.set(HandlerChoice::ForDocument(DocHandler::GoogleDocs));
        Some(Action::OpenDocsUpload)
    } else if idx == 1 {
        cfg.set(HandlerChoice::ForDocument(DocHandler::LocalApp));
        Some(Action::OpenWithSystem)
    } else {
        None
    }
}

/// The dispatch action a remembered handler choice stands for.
pub open spec fn spec_choice_action(c: HandlerChoice) -> Action {
    match c {
        HandlerChoice::ForPdf(b) => Action::OpenWithBrowser(b),
        HandlerChoice::ForDocument(h) => spec_doc_action(h),
    }
}

/// Law: once a handler choice has been remembered, a later download of the
/// choice's own category resolves straight to the corresponding dispatch —
/// no prompt is shown again.
pub proof fn lemma_remembered_choice_resolves(cfg: Config, choice: HandlerChoice)
    ensures
        spec_resolve(spec_choice_category(choice), spec_set(cfg, choice)) == Resolution::Dispatch(
            spec_choice_action(choice),
        ),
{
}

/// What the engine does with one download-completed event, up to handler
/// resolution.
#[derive(Clone, Debug)]
pub enum DownloadPlan {
    /// A failed download: no sniffing, no reconciliation, no dispatch.
    Ignore,
    /// A successful download: the reconciled path, whether it differs from
    /// the delivered one (the caller then renames the file on disk), and
    /// the category that drives handler selection.
    Handle { path: Vec<u8>, rename: bool, category: FileCategory },
}

/// Takes one download-completed event. A failed download is ignored
/// outright; a successful one has its path reconciled against the file's
/// first bytes and classified.
pub fn plan_download(succeeded: bool, path: &Vec<u8>, prefix: &[u8]) -> (r: DownloadPlan)
    ensures
        !succeeded ==> r is Ignore,
        succeeded ==> (r matches DownloadPlan::Handle { path: rp, rename, category }
            && rp@ == spec_reconcile(path@, prefix@)
            && rename == (spec_reconcile(path@, prefix@) != path@)
            && category == spec_classify_path(spec_reconcile(path@, prefix@))),
{
    if !succeeded {
        return DownloadPlan::Ignore;
    }
    let rp = reconcile(path, prefix);
    let rename = !eq_bytes(rp.as_slice(), path.as_slice());
    let category = classify_path(&rp);
    DownloadPlan::Handle { path: rp, rename, category }
}

/// The remote viewer's upload page, opened for the `GoogleDocs` choice.
pub fn docs_upload_url() -> (r: &'static str)
    ensures
        r@ == "https://docs.google.com/document/upload"@,
{
    "https://docs.google.com/document/upload"
}

/// The title of the PDF browser prompt.
pub fn pdf_prompt_title() -> (r: &'static str)
    ensures
        r@ == "Open PDF"@,
{
    "Open PDF"
}

/// The message of the PDF browser prompt.
pub fn pdf_prompt_text() -> (r: &'static str)
    ensures
        r@ == "Select browser to open PDF files:"@,
{
    "Select browser to open PDF files:"
}

/// The title of the document handler prompt.
pub fn doc_prompt_title() -> (r: &'static str)
    ensures
        r@ == "Open Document"@,
{
    "Open Document"
}

/// The message of the document handler prompt.
pub fn doc_prompt_text() -> (r: &'static str)
    ensures
        r@ == "How would you like to open this document?"@,
{
    "How would you like to open this document?"
}

} // verus!
