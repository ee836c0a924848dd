use download_dispatch::category::FileCategory;
use download_dispatch::config::{Config, HandlerChoice};
use download_dispatch::handlers::{Browser, DocHandler};

#[test]
fn new_store_remembers_nothing() {
    let cfg = Config::new();
    assert_eq!(cfg.get(&FileCategory::Pdf), None);
    assert_eq!(cfg.get(&FileCategory::Document), None);
}

#[test]
fn set_then_get_returns_the_choice() {
    let mut cfg = Config::new();
    cfg.set(HandlerChoice::ForPdf(Browser::Firefox));
    assert_eq!(
        cfg.get(&FileCategory::Pdf),
        Some(HandlerChoice::ForPdf(Browser::Firefox))
    );
    cfg.set(HandlerChoice::ForDocument(DocHandler::LocalApp));
    assert_eq!(
        cfg.get(&FileCategory::Document),
        Some(HandlerChoice::ForDocument(DocHandler::LocalApp))
    );
    // Setting one category leaves the other untouched.
    assert_eq!(
        cfg.get(&FileCategory::Pdf),
        Some(HandlerChoice::ForPdf(Browser::Firefox))
    );
}

#[test]
fn set_overwrites_the_previous_choice() {
    let mut cfg = Config::new();
    cfg.set(HandlerChoice::ForPdf(Browser::Brave));
    cfg.set(HandlerChoice::ForPdf(Browser::Chromium));
    assert_eq!(
        cfg.get(&FileCategory::Pdf),
        Some(HandlerChoice::ForPdf(Browser::Chromium))
    );
}

#[test]
fn categories_without_a_choice_hold_nothing() {
    let mut cfg = Config::new();
    cfg.set(HandlerChoice::ForPdf(Browser::System));
    assert_eq!(cfg.get(&FileCategory::OpenDirectly), None);
    assert_eq!(cfg.get(&FileCategory::Unknown), None);
}

#[test]
fn set_then_get_survives_a_store_reload() {
    let mut cfg = Config::new();
    cfg.set(HandlerChoice::ForPdf(Browser::Chrome));
    cfg.set(HandlerChoice::ForDocument(DocHandler::GoogleDocs));
    let reloaded = Config::decode(&cfg.encode());
    assert_eq!(
        reloaded.get(&FileCategory::Pdf),
        Some(HandlerChoice::ForPdf(Browser::Chrome))
    );
    assert_eq!(
        reloaded.get(&FileCategory::Document),
        Some(HandlerChoice::ForDocument(DocHandler::GoogleDocs))
    );
}

#[test]
fn every_preference_set_round_trips() {
    let pdf_choices = [
        None,
        Some(Browser::Brave),
        Some(Browser::Firefox),
        Some(Browser::Chrome),
        Some(Browser::Chromium),
        Some(Browser::System),
    ];
    let doc_choices = [None, Some(DocHandler::GoogleDocs), Some(DocHandler::LocalApp)];
    for pdf in pdf_choices {
        for doc in doc_choices {
            let cfg = Config { pdf_browser: pdf, doc_handler: doc };
            let reloaded = Config::decode(&cfg.encode());
            assert_eq!(reloaded.pdf_browser, pdf);
            assert_eq!(reloaded.doc_handler, doc);
        }
    }
}

#[test]
fn encoded_form_is_the_two_line_document() {
    let cfg = Config { pdf_browser: Some(Browser::Firefox), doc_handler: None };
    assert_eq!(cfg.encode(), b"pdf=2\ndoc=0\n".to_vec());
    let empty = Config::new();
    assert_eq!(empty.encode(), b"pdf=0\ndoc=0\n".to_vec());
}

#[test]
fn malformed_documents_decode_to_the_empty_set() {
    for doc in [
        &b""[..],
        b"pdf=2\ndoc=0",
        b"pdf=9\ndoc=0\n",
        b"pdf=2\ndoc=7\n",
        b"PDF=2\ndoc=0\n",
        b"pdf 2\ndoc 0\n",
        b"{\"pdf_browser\":null}",
        b"pdf=2\ndoc=0\n\n",
    ] {
        let cfg = Config::decode(doc);
        assert_eq!(cfg.pdf_browser, None, "document {doc:?}");
        assert_eq!(cfg.doc_handler, None, "document {doc:?}");
    }
}

#[test]
fn default_is_the_empty_set() {
    let cfg = Config::default();
    assert_eq!(cfg.pdf_browser, None);
    assert_eq!(cfg.doc_handler, None);
}
