//! The preference store: an in-memory, persisted mapping from file category
//! to a previously chosen handler, consulted before prompting.
//!
//! The persisted form is a small structured text document of two lines,
//! `pdf=<digit>` and `doc=<digit>`, each digit naming one of the fixed
//! handlers (`0` for no remembered choice). An absent or malformed document
//! decodes to the empty preference set: corrupt state never blocks startup.

use vstd::prelude::*;
use crate::handlers::Browser;
use crate::handlers::DocHandler;
use crate::category::FileCategory;

verus! {

/// A remembered handler choice, tagged with the category it belongs to: a
/// choice is only ever compared or stored within its own category.
#[derive(Clone, Copy, Debug, PartialEq, Eq, Structural)]
pub enum HandlerChoice {
    ForPdf(Browser),
    ForDocument(DocHandler),
}

/// The category a handler choice belongs to.
pub open spec fn spec_choice_category(c: HandlerChoice) -> FileCategory {
    match c {
        HandlerChoice::ForPdf(_) => FileCategory::Pdf,
        HandlerChoice::ForDocument(_) => FileCategory::Document,
    }
}

/// User preferences: at most one remembered handler per category that
/// supports a choice.
#[derive(Clone, Copy, Debug)]
pub struct Config {
    pub pdf_browser: Option<Browser>,
    pub doc_handler: Option<DocHandler>,
}

/// The remembered choice for a category, if any; categories without a
/// choice to remember never hold one.
pub open spec fn spec_get(cfg: Config, cat: FileCategory) -> Option<HandlerChoice> {
    match cat {
        FileCategory::Pdf => match cfg.pdf_browser {
            Option::Some(b) => Some(HandlerChoice::ForPdf(b)),
            Option::None => None,
        },
        FileCategory::Document => match cfg.doc_handler {
            Option::Some(h) => Some(HandlerChoice::ForDocument(h)),
            Option::None => None,
        },
        FileCategory::OpenDirectly => None,
        FileCategory::Unknown => None,
    }
}

/// The store after a choice is remembered: the choice's own category is
/// overwritten, the other category is untouched.
pub open spec fn spec_set(cfg: Config, c: HandlerChoice) -> Config {
    match c {
        HandlerChoice::ForPdf(b) => Config {
            pdf_browser: Some(b),
            doc_handler: cfg.doc_handler,
        },
        HandlerChoice::ForDocument(h) => Config {
            pdf_browser: cfg.pdf_browser,
            doc_handler: Some(h),
        },
    }
}

/// The digit naming a remembered PDF browser; `0` for none.
pub open spec fn spec_pdf_code(b: Option<Browser>) -> u8 {
    match b {
        Option::None => 0,
        Option::Some(Browser::Brave) => 1,
        Option::Some(Browser::Firefox) => 2,
        Option::Some(Browser::Chrome) => 3,
        Option::Some(Browser::Chromium) => 4,
        Option::Some(Browser::System) => 5,
    }
}

/// The digit naming a remembered document handler; `0` for none.
pub open spec fn spec_doc_code(h: Option<DocHandler>) -> u8 {
    match h {
        Option::None => 0,
        Option::Some(DocHandler::GoogleDocs) => 1,
        Option::Some(DocHandler::LocalApp) => 2,
    }
}

/// The remembered PDF browser a digit names.
pub open spec fn spec_pdf_from_digit(d: u8) -> Option<Browser> {
    if d == '1' as u8 {
        Some(Browser::Brave)
    } else if d == '2' as u8 {
        Some(Browser::Firefox)
    } else if d == '3' as u8 {
        Some(Browser::Chrome)
    } else if d == '4' as u8 {
        Some(Browser::Chromium)
    } else if d == '5' as u8 {
        Some(Browser::System)
    } else {
        None
    }
}

/// The remembered document handler a digit names.
pub open spec fn spec_doc_from_digit(d: u8) -> Option<DocHandler> {
    if d == '1' as u8 {
        Some(DocHandler::GoogleDocs)
    } else if d == '2' as u8 {
        Some(DocHandler::LocalApp)
    } else {
        None
    }
}

/// The persisted form of a preference set.
pub open spec fn spec_encode(cfg: Config) -> Seq<u8> {
    seq![
        'p' as u8,
        'd' as u8,
        'f' as u8,
        '=' as u8,
        ('0' as u8 + spec_pdf_code(cfg.pdf_browser)) as u8,
        '\n' as u8,
        'd' as u8,
        'o' as u8,
        'c' as u8,
        '=' as u8,
        ('0' as u8 + spec_doc_code(cfg.doc_handler)) as u8,
        '\n' as u8,
    ]
}

/// The bytes form a well-shaped persisted preference document.
pub open spec fn spec_well_formed_doc(s: Seq<u8>) -> bool {
    &&& s.len() == 12
    &&& s[0] == 'p' as u8
    &&& s[1] == 'd' as u8
    &&& s[2] == 'f' as u8
    &&& s[3] == '=' as u8
    &&& '0' as u8 <= s[4] <= '0' as u8 + 5
    &&& s[5] == '\n' as u8
    &&& s[6] == 'd' as u8
    &&& s[7] == 'o' as u8
    &&& s[8] == 'c' as u8
    &&& s[9] == '=' as u8
    &&& '0' as u8 <= s[10] <= '0' as u8 + 2
    &&& s[11] == '\n' as u8
}

/// The preference set a persisted document holds; a malformed document is
/// equivalent to both fields unset.
pub open spec fn spec_decode(s: Seq<u8>) -> Config {
    if spec_well_formed_doc(s) {
        Config { pdf_browser: spec_pdf_from_digit(s[4]), doc_handler: spec_doc_from_digit(s[10]) }
    } else {
        Config { pdf_browser: None, doc_handler: None }
    }
}

impl Default for Config {
    /// The empty preference set: no remembered choice for either category.
    fn default() -> (r: Self)
        ensures
            r.pdf_browser is None,
            r.doc_handler is None,
    {
        Config { pdf_browser: None, doc_handler: None }
    }
}

impl Config {
    /// The empty preference set, as created on first run.
    pub fn new() -> (r: Self)
        ensures
            r.pdf_browser is None,
            r.doc_handler is None,
    {
        Config { pdf_browser: None, doc_handler: None }
    }

    /// Returns the previously remembered choice for a category, if any.
    pub fn get(&self, cat: &FileCategory) -> (r: Option<HandlerChoice>)
        ensures
            r == spec_get(*self, *cat),
    {
        match cat {
            FileCategory::Pdf => match self.pdf_browser {
                Option::Some(b) => Some(HandlerChoice::ForPdf(b)),
                Option::None => None,
            },
            FileCategory::Document => match self.doc_handler {
                Option::Some(h) => Some(HandlerChoice::ForDocument(h)),
                Option::None => None,
            },
            FileCategory::OpenDirectly => None,
            FileCategory::Unknown => None,
        }
    }

    /// Overwrites the remembered choice for the choice's own category and
    /// leaves the other category untouched. The caller persists the store
    /// afterwards; a persistence failure leaves the in-memory choice valid
    /// for the current session.
    pub fn set(&mut self, choice: HandlerChoice)
        ensures
            *final(self) == spec_set(*old(self), choice),
    {
        match choice {
            HandlerChoice::ForPdf(b) => {
                self.pdf_browser = Some(b);
            },
            HandlerChoice::ForDocument(h) => {
                self.doc_handler = Some(h);
            },
        }
    }

    /// Serializes the preference set into its persisted document form.
    pub fn encode(&self) -> (r: Vec<u8>)
        ensures
            r@ == spec_encode(*self),
    {
        let pdf_digit: u8 = match self.pdf_browser {
            Option::None => '0' as u8,
            Option::Some(Browser::Brave) => '1' as u8,
            Option::Some(Browser::Firefox) => '2' as u8,
            Option::Some(Browser::Chrome) => '3' as u8,
            Option::Some(Browser::Chromium) => '4' as u8,
            Option::Some(Browser::System) => '5' as u8,
        };
        let doc_digit: u8 = match self.doc_handler {
            Option::None => '0' as u8,
            Option::Some(DocHandler::GoogleDocs) => '1' as u8,
            Option::Some(DocHandler::LocalApp) => '2' as u8,
        };
        let v: Vec<u8> = vec![
            'p' as u8,
            'd' as u8,
            'f' as u8,
            '=' as u8,
            pdf_digit,
            '\n' as u8,
            'd' as u8,
            'o' as u8,
            'c' as u8,
            '=' as u8,
            doc_digit,
            '\n' as u8,
        ];
        proof {
            assert(v@ =~= spec_encode(*self));
        }
        v
    }

    /// Parses a persisted preference document. An absent, truncated or
    /// malformed document yields the empty preference set.
    pub fn decode(bytes: &[u8]) -> (r: Config)
        ensures
            r == spec_decode(bytes@),
    {
        let ok = bytes.len() == 12 && bytes[0] == 'p' as u8 && bytes[1] == 'd' as u8 && bytes[2]
            == 'f' as u8 && bytes[3] == '=' as u8 && '0' as u8 <= bytes[4] && bytes[4] <= '0' as u8
            + 5 && bytes[5] == '\n' as u8 && bytes[6] == 'd' as u8 && bytes[7] == 'o' as u8
            && bytes[8] == 'c' as u8 && bytes[9] == '=' as u8 && '0' as u8 <= bytes[10]
            && bytes[10] <= '0' as u8 + 2 && bytes[11] == '\n' as u8;
        if !ok {
            return Config { pdf_browser: None, doc_handler: None };
        }
        let pdf = {
            let d = bytes[4];
            if d == '1' as u8 {
                Some(Browser::Brave)
            } else if d == '2' as u8 {
                Some(Browser::Firefox)
            } else if d == '3' as u8 {
                Some(Browser::Chrome)
            } else if d == '4' as u8 {
                Some(Browser::Chromium)
            } else if d == '5' as u8 {
                Some(Browser::System)
            } else {
                None
            }
        };
        let doc = {
            let d = bytes[10];
            if d == '1' as u8 {
                Some(DocHandler::GoogleDocs)
            } else if d == '2' as u8 {
                Some(DocHandler::LocalApp)
            } else {
                None
            }
        };
        Config { pdf_browser: pdf, doc_handler: doc }
    }
}

/// Writing a preference set out and reading it back loses nothing.
pub proof fn lemma_codec_round_trip(cfg: Config)
    ensures
        spec_decode(spec_encode(cfg)) == cfg,
{
    let s = spec_encode(cfg);
    assert(spec_well_formed_doc(s));
    assert(spec_pdf_from_digit(s[4]) == cfg.pdf_browser);
    assert(spec_doc_from_digit(s[10]) == cfg.doc_handler);
}

/// Law: for either category that supports a choice, setting a preference
/// and immediately getting it for that category returns that same choice —
/// and it still does after the store is written out and reloaded from its
/// persisted form.
pub proof fn lemma_set_get_round_trip(cfg: Config, choice: HandlerChoice)
    ensures
        spec_get(spec_set(cfg, choice), spec_choice_category(choice)) == Some(choice),
        spec_decode(spec_encode(spec_set(cfg, choice))) == spec_set(cfg, choice),
        spec_get(
            spec_decode(spec_encode(spec_set(cfg, choice))),
            spec_choice_category(choice),
        ) == Some(choice),
{
    lemma_codec_round_trip(spec_set(cfg, choice));
}

} // verus!
