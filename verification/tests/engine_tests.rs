use download_dispatch::category::FileCategory;
use download_dispatch::config::{Config, HandlerChoice};
use download_dispatch::engine::{
    docs_upload_url, plan_download, resolve, select_doc, select_pdf, Action, DownloadPlan,
    Resolution,
};
use download_dispatch::handlers::{Browser, DocHandler};
use download_dispatch::registry::{
    available_handlers, doc_prompt_options, installed_browsers, pdf_prompt_options,
    position_of_bytes, selected_browser,
};

const PNG_SIG: [u8; 8] = [0x89, 0x50, 0x4e, 0x47, 0x0d, 0x0a, 0x1a, 0x0a];

fn bytes(s: &str) -> Vec<u8> {
    s.as_bytes().to_vec()
}

#[test]
fn failed_download_is_ignored_outright() {
    let plan = plan_download(false, &bytes("photo.jpg"), &PNG_SIG);
    assert!(matches!(plan, DownloadPlan::Ignore));
}

#[test]
fn png_in_jpg_clothing_is_renamed_and_opens_directly() {
    let plan = plan_download(true, &bytes("photo.jpg"), &PNG_SIG);
    match plan {
        DownloadPlan::Handle { path, rename, category } => {
            assert_eq!(path, bytes("photo.png"));
            assert!(rename);
            assert_eq!(category, FileCategory::OpenDirectly);
            // No prompt: the category dispatches straight to the default
            // open mechanism.
            let cfg = Config::new();
            assert_eq!(
                resolve(&category, &cfg),
                Resolution::Dispatch(Action::OpenWithSystem)
            );
        }
        DownloadPlan::Ignore => panic!("successful download was ignored"),
    }
}

#[test]
fn matching_extension_needs_no_rename() {
    let plan = plan_download(true, &bytes("photo.png"), &PNG_SIG);
    match plan {
        DownloadPlan::Handle { path, rename, category } => {
            assert_eq!(path, bytes("photo.png"));
            assert!(!rename);
            assert_eq!(category, FileCategory::OpenDirectly);
        }
        DownloadPlan::Ignore => panic!("successful download was ignored"),
    }
}

#[test]
fn first_pdf_download_prompts_with_detected_browsers_plus_default() {
    let mut cfg = Config::new();
    let plan = plan_download(true, &bytes("paper.pdf"), b"%PDF-1.7");
    let category = match plan {
        DownloadPlan::Handle { category, rename, .. } => {
            assert!(!rename);
            category
        }
        DownloadPlan::Ignore => panic!("successful download was ignored"),
    };
    assert_eq!(category, FileCategory::Pdf);
    assert_eq!(resolve(&category, &cfg), Resolution::PromptPdf);

    // Two browsers detected: the prompt has three options, the
    // system default appended last.
    let installed = installed_browsers(true, true, false, false);
    assert_eq!(installed, vec![Browser::Brave, Browser::Firefox]);
    let options = pdf_prompt_options(&installed);
    assert_eq!(options, vec!["Brave", "Firefox", "System Default"]);

    // Selecting index 1 remembers Firefox and dispatches to it with the
    // file path.
    let action = select_pdf(&installed, 1, &mut cfg);
    assert_eq!(action, Action::OpenWithBrowser(Browser::Firefox));
    assert_eq!(cfg.pdf_browser, Some(Browser::Firefox));
    // The persisted store remembers it too.
    let reloaded = Config::decode(&cfg.encode());
    assert_eq!(reloaded.pdf_browser, Some(Browser::Firefox));
}

#[test]
fn second_pdf_download_dispatches_without_a_prompt() {
    let mut cfg = Config::new();
    cfg.set(HandlerChoice::ForPdf(Browser::Firefox));
    assert_eq!(
        resolve(&FileCategory::Pdf, &cfg),
        Resolution::Dispatch(Action::OpenWithBrowser(Browser::Firefox))
    );
}

#[test]
fn cancelled_document_prompt_spawns_nothing_and_writes_nothing() {
    let mut cfg = Config::new();
    let plan = plan_download(true, &bytes("letter.docx"), b"PK\x03\x04");
    let category = match plan {
        DownloadPlan::Handle { category, .. } => category,
        DownloadPlan::Ignore => panic!("successful download was ignored"),
    };
    assert_eq!(category, FileCategory::Document);
    assert_eq!(resolve(&category, &cfg), Resolution::PromptDoc);
    // The user cancels: the caller applies no selection, so nothing is
    // remembered and the next document download prompts again.
    assert_eq!(cfg.doc_handler, None);
    assert_eq!(resolve(&FileCategory::Document, &cfg), Resolution::PromptDoc);
    // An out-of-range selection likewise changes nothing.
    assert_eq!(select_doc(7, &mut cfg), None);
    assert_eq!(cfg.doc_handler, None);
}

#[test]
fn document_selection_maps_to_its_action() {
    let mut cfg = Config::new();
    let action = select_doc(0, &mut cfg);
    assert_eq!(action, Some(Action::OpenDocsUpload));
    assert_eq!(cfg.doc_handler, Some(DocHandler::GoogleDocs));

    let mut cfg2 = Config::new();
    let action2 = select_doc(1, &mut cfg2);
    assert_eq!(action2, Some(Action::OpenWithSystem));
    assert_eq!(cfg2.doc_handler, Some(DocHandler::LocalApp));
}

#[test]
fn remembered_document_handler_skips_the_prompt() {
    let mut cfg = Config::new();
    cfg.set(HandlerChoice::ForDocument(DocHandler::GoogleDocs));
    assert_eq!(
        resolve(&FileCategory::Document, &cfg),
        Resolution::Dispatch(Action::OpenDocsUpload)
    );
    cfg.set(HandlerChoice::ForDocument(DocHandler::LocalApp));
    assert_eq!(
        resolve(&FileCategory::Document, &cfg),
        Resolution::Dispatch(Action::OpenWithSystem)
    );
}

#[test]
fn unknown_files_open_directly_with_no_lookup() {
    let cfg = Config::new();
    assert_eq!(
        resolve(&FileCategory::Unknown, &cfg),
        Resolution::Dispatch(Action::OpenWithSystem)
    );
}

#[test]
fn selection_past_the_detected_browsers_means_the_system_default() {
    let installed = installed_browsers(false, true, true, false);
    assert_eq!(installed, vec![Browser::Firefox, Browser::Chrome]);
    assert_eq!(selected_browser(&installed, 0), Browser::Firefox);
    assert_eq!(selected_browser(&installed, 1), Browser::Chrome);
    assert_eq!(selected_browser(&installed, 2), Browser::System);
    assert_eq!(selected_browser(&installed, 99), Browser::System);
}

#[test]
fn all_browsers_detected_keeps_the_fixed_priority_order() {
    let installed = installed_browsers(true, true, true, true);
    assert_eq!(
        installed,
        vec![Browser::Brave, Browser::Firefox, Browser::Chrome, Browser::Chromium]
    );
    let none = installed_browsers(false, false, false, false);
    assert_eq!(none, Vec::<Browser>::new());
    // Even with nothing detected the prompt still offers the default.
    assert_eq!(pdf_prompt_options(&none), vec!["System Default"]);
}

#[test]
fn document_prompt_offers_the_two_fixed_options() {
    assert_eq!(
        doc_prompt_options(),
        vec!["Google Docs (Browser)", "Local Application"]
    );
}

#[test]
fn available_handlers_by_category() {
    assert_eq!(
        available_handlers(&FileCategory::Pdf, false, true, false, true),
        vec![
            HandlerChoice::ForPdf(Browser::Firefox),
            HandlerChoice::ForPdf(Browser::Chromium),
            HandlerChoice::ForPdf(Browser::System),
        ]
    );
    assert_eq!(
        available_handlers(&FileCategory::Pdf, false, false, false, false),
        vec![HandlerChoice::ForPdf(Browser::System)]
    );
    assert_eq!(
        available_handlers(&FileCategory::Document, false, false, false, false),
        vec![
            HandlerChoice::ForDocument(DocHandler::GoogleDocs),
            HandlerChoice::ForDocument(DocHandler::LocalApp),
        ]
    );
    assert_eq!(
        available_handlers(&FileCategory::OpenDirectly, true, true, true, true),
        Vec::new()
    );
    assert_eq!(
        available_handlers(&FileCategory::Unknown, true, true, true, true),
        Vec::new()
    );
}

#[test]
fn dialog_labels_map_back_to_their_index() {
    let options: Vec<Vec<u8>> = vec![bytes("Brave"), bytes("Firefox"), bytes("System Default")];
    assert_eq!(position_of_bytes(&options, b"Firefox"), Some(1));
    assert_eq!(position_of_bytes(&options, b"System Default"), Some(2));
    assert_eq!(position_of_bytes(&options, b"Opera"), None);
}

#[test]
fn handler_names_and_commands() {
    assert_eq!(Browser::Brave.display_name(), "Brave");
    assert_eq!(Browser::Chrome.display_name(), "Google Chrome");
    assert_eq!(Browser::System.display_name(), "System Default");
    assert_eq!(Browser::Brave.command(), "brave-browser");
    assert_eq!(Browser::Firefox.command(), "firefox");
    assert_eq!(Browser::Chrome.command(), "google-chrome");
    assert_eq!(Browser::Chromium.command(), "chromium");
    assert_eq!(Browser::System.command(), "xdg-open");
    assert_eq!(DocHandler::GoogleDocs.display_name(), "Google Docs (Browser)");
    assert_eq!(DocHandler::LocalApp.display_name(), "Local Application");
    assert_eq!(docs_upload_url(), "https://docs.google.com/document/upload");
}
