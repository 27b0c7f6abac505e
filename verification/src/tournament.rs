//! One tournament: the name on its results page, and the matches listed there.

use crate::dom::{all_named, text_in, with_attr, with_attr_containing, Page};
use crate::text::first_of;
use crate::tmatch::{parsed_match, Match, MatchParseError, MatchView};
use select::document::Document;
use vstd::prelude::*;

verus! {

/// Why a tournament or one of its matches could not be read.
#[derive(Clone, Copy, Debug, PartialEq, Eq, Structural)]
pub enum TournamentParseError {
    NameParseError,
    MatchesParseError,
}

impl TournamentParseError {
    /// The text that describes this error.
    pub open spec fn message_text(self) -> Seq<char> {
        match self {
            TournamentParseError::NameParseError => "Error parsing tournament name"@,
            TournamentParseError::MatchesParseError => "Error parsing tournament match nodes"@,
        }
    }

    /// A short description of the error, for printing.
    pub fn message(&self) -> (res: &str)
        ensures
            res@ == self.message_text(),
    {
        match self {
            TournamentParseError::NameParseError => "Error parsing tournament name",
            TournamentParseError::MatchesParseError => "Error parsing tournament match nodes",
        }
    }
}

/// The name of the tournament: the text of the first span whose class is that
/// of the header's name, if the page has one.
pub open spec fn tournament_name(doc: Document) -> Option<Seq<char>> {
    match first_of(with_attr(doc, all_named(doc, "span"@), "class"@, "tc-tournament-header__name"@)) {
        Some(span) => Some(text_in(doc, span)),
        None => None,
    }
}

/// The subtrees of the page that hold one match each, in document order.
pub open spec fn match_nodes(doc: Document) -> Seq<usize> {
    with_attr_containing(doc, all_named(doc, "div"@), "class"@, "tc-match__content"@)
}

/// Whether an entry of a tournament's list stands for `expected`: the match
/// itself, or the one error that stands for every failure.
pub open spec fn is_listed(
    entry: Result<Match, TournamentParseError>,
    expected: Result<MatchView, MatchParseError>,
) -> bool {
    match entry {
        Ok(m) => expected == Ok::<MatchView, MatchParseError>(m@),
        Err(e) => e == TournamentParseError::MatchesParseError && expected is Err,
    }
}

/// One results page with the tournament's name read from it.
pub struct Tournament {
    pub name: String,
    pub doc: Page,
}

impl Tournament {
    /// Reads the tournament's name from its results page and keeps the page.
    pub fn try_from(doc: Page) -> (res: Result<Tournament, TournamentParseError>)
        ensures
            match res {
                Ok(t) => t.doc == doc && tournament_name(doc@) == Some(t.name@),
                Err(e) => e == TournamentParseError::NameParseError && tournament_name(doc@) is None,
            },
    {
        let spans = doc.elements_named("span");
        let headers = doc.with_attr(&spans, "class", "tc-tournament-header__name");
        if headers.len() == 0 {
            return Err(TournamentParseError::NameParseError);
        }
        let name = doc.text(headers[0]);
        Ok(Tournament { name, doc })
    }

    /// The first `n` matches of the page, in document order, or all of them
    /// where it lists fewer. A match that cannot be read leaves the one error
    /// `MatchesParseError` in its place.
    pub fn top_n_matches(&self, n: usize) -> (res: Vec<Result<Match, TournamentParseError>>)
        ensures
            res@.len() == if n <= match_nodes(self.doc@).len() {
                n as nat
            } else {
                match_nodes(self.doc@).len()
            },
            forall|i: int|
                0 <= i < res@.len() ==> is_listed(
                    #[trigger] res@[i],
                    parsed_match(self.doc@, match_nodes(self.doc@)[i]),
                ),
    {
        let divs = self.doc.elements_named("div");
        let nodes = self.doc.with_attr_containing(&divs, "class", "tc-match__content");
        let mut matches: Vec<Result<Match, TournamentParseError>> = Vec::new();
        let mut i: usize = 0;
        while i < nodes.len() && i < n
            invariant
                i <= nodes.len(),
                i <= n,
                nodes@ == match_nodes(self.doc@),
                matches@.len() == i,
                forall|j: int|
                    0 <= j < i ==> is_listed(
                        #[trigger] matches@[j],
                        parsed_match(self.doc@, nodes@[j]),
                    ),
            decreases nodes.len() - i,
        {
            match Match::try_from(&self.doc, nodes[i]) {
                Ok(tmatch) => {
                    matches.push(Ok(tmatch));
                },
                Err(_) => {
                    matches.push(Err(TournamentParseError::MatchesParseError));
                },
            }
            i += 1;
        }
        matches
    }
}

} // verus!
