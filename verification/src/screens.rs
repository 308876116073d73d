//! The texts that the screens show, as far as the state decides them.

use crate::app::{App, ResultsState};
use crate::models::{risk_level_name, risk_level_text, CompanySummary};
use crate::statusbar::StatusBar;
use crate::theme::Theme;
use crate::text::{decimal, decimal_string, signed_decimal, signed_decimal_string};
use vstd::prelude::*;
use vstd::string::StringSliceAdditionalSpecFns;

verus! {

/// The text of the status line: the status message where there is one,
/// else `waiting` while an operation is under way, else "Ready".
pub open spec fn status_line(app: App, waiting: Seq<char>) -> Seq<char> {
    match app.status_message {
        Some(message) => message.0@,
        None => if app.loading {
            waiting
        } else {
            "Ready"@
        },
    }
}

/// The text of the status line of a screen that says `waiting` while an
/// operation is under way.
pub fn status_text<'a>(app: &'a App, waiting: &'a str) -> (text: &'a str)
    ensures
        text@ == status_line(*app, waiting@),
{
    match &app.status_message {
        Some(message) => message.0.as_str(),
        None => if app.loading {
            waiting
        } else {
            "Ready"
        },
    }
}

/// The title of the result list.
pub open spec fn results_title_text(total: i32) -> Seq<char> {
    if total > 0 {
        "Search Results - "@ + decimal(total as nat) + " companies found"@
    } else {
        "Search Results"@
    }
}

/// The title of the result list: it names the number of results where
/// there are any.
pub fn results_title(state: &ResultsState) -> (title: String)
    ensures
        title@ == results_title_text(state.total),
{
    if state.total > 0 {
        let mut title = "Search Results - ".to_owned();
        title.append(decimal_string(state.total as u64).as_str());
        title.append(" companies found");
        title
    } else {
        "Search Results".to_owned()
    }
}

/// The line under the result list.
pub open spec fn pagination_line(state: ResultsState) -> Seq<char> {
    if state.pages() > 0 {
        "Page "@ + decimal(state.current_page as nat) + " of "@ + decimal(state.pages()) + "  |  "@
            + signed_decimal(state.total as int)
            + " results  |  n: Next  p: Previous  gg: First  G: Last"@
    } else {
        "No results"@
    }
}

/// The line under the result list: the page on display, the number of
/// pages and of results, and the keys that turn pages; "No results" where
/// there is no page.
pub fn pagination_text(state: &ResultsState) -> (text: String)
    requires
        state.countable(),
    ensures
        text@ == pagination_line(*state),
{
    let pages = state.total_pages();
    if pages > 0 {
        let mut text = "Page ".to_owned();
        text.append(decimal_string(state.current_page as u64).as_str());
        text.append(" of ");
        text.append(decimal_string(pages as u64).as_str());
        text.append("  |  ");
        text.append(signed_decimal_string(state.total).as_str());
        text.append(" results  |  n: Next  p: Previous  gg: First  G: Last");
        text
    } else {
        "No results".to_owned()
    }
}

/// Longest business purpose, in bytes, that a result line shows whole.
pub const PREVIEW_LIMIT: usize = 80;

/// Bytes of a longer business purpose that a result line shows.
pub const PREVIEW_KEPT: usize = 77;

/// Whether the preview of `purpose` can be cut: it is short enough to be
/// shown whole, or no character straddles the place of the cut.
pub open spec fn preview_cuts_cleanly(purpose: Seq<char>) -> bool {
    let bytes = vstd::utf8::encode_utf8(purpose);
    bytes.len() > PREVIEW_LIMIT ==> vstd::utf8::is_char_boundary(bytes, PREVIEW_KEPT as int)
}

/// The preview of a business purpose.
pub open spec fn preview_of(purpose: Option<Seq<char>>) -> Seq<char> {
    match purpose {
        Some(purpose) => {
            let bytes = vstd::utf8::encode_utf8(purpose);
            if bytes.len() > PREVIEW_LIMIT {
                vstd::utf8::decode_utf8(bytes.subrange(0, PREVIEW_KEPT as int)) + "..."@
            } else {
                purpose
            }
        },
        None => "No description"@,
    }
}

/// The preview of a business purpose: the purpose itself up to 80 bytes,
/// the first 77 bytes and three dots of a longer one, and "No description"
/// without one.
pub fn purpose_preview(purpose: &Option<String>) -> (text: String)
    requires
        purpose matches Some(p) ==> preview_cuts_cleanly(p@),
    ensures
        text@ == preview_of(
            match purpose {
                Some(p) => Some(p@),
                None => None,
            },
        ),
{
    match purpose {
        Some(p) => {
            if p.as_str().as_bytes().len() > PREVIEW_LIMIT {
                let (head, _) = p.as_str().split_at(PREVIEW_KEPT);
                proof {
                    vstd::utf8::encode_utf8_decode_utf8(head@);
                }
                let mut text = head.to_owned();
                text.append("...");
                text
            } else {
                p.clone()
            }
        },
        None => "No description".to_owned(),
    }
}

/// Whether [`purpose_preview`] can be asked for the preview of `purpose`.
pub fn can_preview(purpose: &Option<String>) -> (yes: bool)
    ensures
        yes == (purpose matches Some(p) ==> preview_cuts_cleanly(p@)),
{
    match purpose {
        Some(p) => p.as_str().as_bytes().len() <= PREVIEW_LIMIT || p.as_str().is_char_boundary(
            PREVIEW_KEPT,
        ),
        None => true,
    }
}

/// The texts of one company in the result list.
pub struct CompanyLines {
    /// The mark of the selected row, or as many blanks.
    pub prefix: &'static str,
    /// The sign and the name of the risk level.
    pub risk: String,
    pub legal_form: String,
    pub seat: String,
    /// The preview of the business purpose.
    pub purpose: String,
}

/// The text of an optional entry: the entry, or "N/A" for a missing one.
pub open spec fn entry_text(entry: Option<String>) -> Seq<char> {
    match entry {
        Some(entry) => entry@,
        None => "N/A"@,
    }
}

fn entry_string(entry: &Option<String>) -> (text: String)
    ensures
        text@ == entry_text(*entry),
{
    match entry {
        Some(entry) => entry.clone(),
        None => "N/A".to_owned(),
    }
}

/// The texts of the company in row `index` of a result list whose row
/// `selected` is selected: the mark of the selection, the risk as sign and
/// level, legal form and seat, each "N/A" where it is unknown, and the
/// preview of the business purpose.
pub fn format_company_item(index: usize, company: &CompanySummary, selected: usize) -> (lines:
    CompanyLines)
    requires
        company.business_purpose matches Some(p) ==> preview_cuts_cleanly(p@),
    ensures
        lines.prefix@ == if index == selected {
            "▶ "@
        } else {
            "  "@
        },
        lines.risk@ == Theme::risk_sign_of(company.risk_score) + " "@ + risk_level_name(
            company.risk_score,
        ),
        lines.legal_form@ == entry_text(company.legal_form),
        lines.seat@ == entry_text(company.seat),
        lines.purpose@ == preview_of(
            match company.business_purpose {
                Some(p) => Some(p@),
                None => None,
            },
        ),
{
    let mut risk = Theme::risk_emoji(company.risk_score).to_owned();
    risk.append(" ");
    risk.append(risk_level_text(company.risk_score));
    CompanyLines {
        prefix: if index == selected {
            "▶ "
        } else {
            "  "
        },
        risk,
        legal_form: entry_string(&company.legal_form),
        seat: entry_string(&company.seat),
        purpose: purpose_preview(&company.business_purpose),
    }
}

/// Whether `city` is among `chosen`.
pub open spec fn is_chosen(city: Seq<char>, chosen: Seq<String>) -> bool {
    exists|i: int| 0 <= i < chosen.len() && #[trigger] chosen[i]@ == city
}

/// The line of a city in the list of filters: a ticked box before a city
/// that is among the chosen ones, an empty box before any other.
pub fn city_filter_line(city: &str, chosen: &Vec<String>) -> (line: String)
    ensures
        line@ == if is_chosen(city@, chosen@) {
            "☑ "@
        } else {
            "☐ "@
        } + city@,
{
    let wanted = city.to_owned();
    let mut found = false;
    let mut i: usize = 0;
    while i < chosen.len()
        invariant
            i <= chosen.len(),
            wanted@ == city@,
            found == is_chosen(city@, chosen@.take(i as int)),
        decreases chosen.len() - i,
    {
        let ghost before = chosen@.take(i as int);
        let ghost after = chosen@.take(i + 1);
        if chosen[i] == wanted {
            found = true;
            assert(after[i as int]@ == city@);
        } else {
            assert forall|j: int| 0 <= j < after.len() && #[trigger] after[j]@ == city@ implies j
                < before.len() && before[j]@ == city@ by {}
        }
        proof {
            if is_chosen(city@, before) {
                let j = choose|j: int| 0 <= j < before.len() && #[trigger] before[j]@ == city@;
                assert(after[j] == before[j]);
            }
        }
        i += 1;
    }
    assert(chosen@.take(i as int) =~= chosen@);
    let mut line = if found {
        "☑ ".to_owned()
    } else {
        "☐ ".to_owned()
    };
    line.append(city);
    line
}

/// A piece of the line of hints: a text, and whether it names a key.
#[derive(Debug, Clone, Copy, PartialEq, Eq)]
pub struct HintPiece<'a> {
    pub text: &'a str,
    pub is_key: bool,
}

/// A piece of the line of hints as a mathematical value.
pub open spec fn piece_view(piece: HintPiece) -> (Seq<char>, bool) {
    (piece.text@, piece.is_key)
}

/// The pieces of the line of hints: for each hint its key, a colon and a
/// space, and what the key does, with two spaces before every hint but the
/// first.
pub open spec fn hint_pieces_of(hints: Seq<(&str, &str)>) -> Seq<(Seq<char>, bool)>
    decreases hints.len(),
{
    if hints.len() == 0 {
        Seq::empty()
    } else {
        let hint = hints.last();
        hint_pieces_of(hints.drop_last()) + if hints.len() > 1 {
            seq![("  "@, false)]
        } else {
            Seq::empty()
        } + seq![(hint.0@, true), (": "@, false), (hint.1@, false)]
    }
}

/// The pieces of the line of hints of a status line, in order.
pub fn hint_pieces<'a>(bar: &StatusBar<'a>) -> (pieces: Vec<HintPiece<'a>>)
    ensures
        pieces@.map_values(|p: HintPiece| piece_view(p)) == hint_pieces_of(bar.hints@),
{
    let mut pieces: Vec<HintPiece<'a>> = Vec::new();
    let mut i: usize = 0;
    assert(pieces@.map_values(|p: HintPiece| piece_view(p)) =~= hint_pieces_of(
        bar.hints@.take(0),
    ));
    while i < bar.hints.len()
        invariant
            i <= bar.hints.len(),
            pieces@.map_values(|p: HintPiece| piece_view(p)) == hint_pieces_of(
                bar.hints@.take(i as int),
            ),
        decreases bar.hints.len() - i,
    {
        assert(bar.hints@.take(i + 1).drop_last() =~= bar.hints@.take(i as int));
        let ghost before = pieces@.map_values(|p: HintPiece| piece_view(p));
        let hint = bar.hints[i];
        let ghost gap = if i > 0 {
            seq![("  "@, false)]
        } else {
            Seq::empty()
        };
        if i > 0 {
            pieces.push(HintPiece { text: "  ", is_key: false });
        }
        pieces.push(HintPiece { text: hint.0, is_key: true });
        pieces.push(HintPiece { text: ": ", is_key: false });
        pieces.push(HintPiece { text: hint.1, is_key: false });
        i += 1;
        assert(pieces@.map_values(|p: HintPiece| piece_view(p)) =~= before + gap + seq![
            (hint.0@, true),
            (": "@, false),
            (hint.1@, false),
        ]);
    }
    assert(bar.hints@.take(i as int) =~= bar.hints@);
    pieces
}

} // verus!
