//! One tennis match: its players, the per-set scores of both sides, and who
//! won or is serving; and the line that shows it.

use crate::dom::{
    ancestor, attr_values, descendants_named, node_children, trimmed_texts, with_attr,
    with_attr_containing, with_text, Page,
};
use crate::text::{first_of, option_text, same_text, texts};
use itertools::Itertools;
use select::document::Document;
use vstd::prelude::*;

verus! {

/// One of the two sides of a match, in the order the page names them.
#[derive(Clone, Copy, Debug, PartialEq, Eq, Structural)]
pub enum Side {
    One,
    Two,
}

/// What is known of a match's state: who won it, or who is serving.
#[derive(Clone, Copy, Debug, PartialEq, Eq, Structural)]
pub enum Outcome {
    P1Won,
    P2Won,
    P1Serving,
    P2Serving,
}

/// Why a match could not be read or shown.
#[derive(Clone, Copy, Debug, PartialEq, Eq, Structural)]
pub enum MatchParseError {
    PlayerParseError,
    ScoreParseError,
    StateParseError,
    ScoreFormatError,
}

impl MatchParseError {
    /// The text that describes this error.
    pub open spec fn message_text(self) -> Seq<char> {
        match self {
            MatchParseError::PlayerParseError => "Error parsing player names"@,
            MatchParseError::ScoreParseError => "Error parsing scores"@,
            MatchParseError::StateParseError => "Error parsing match state"@,
            MatchParseError::ScoreFormatError => "Error formatting score"@,
        }
    }

    /// A short description of the error, for printing.
    pub fn message(&self) -> (res: &str)
        ensures
            res@ == self.message_text(),
    {
        match self {
            MatchParseError::PlayerParseError => "Error parsing player names",
            MatchParseError::ScoreParseError => "Error parsing scores",
            MatchParseError::StateParseError => "Error parsing match state",
            MatchParseError::ScoreFormatError => "Error formatting score",
        }
    }
}

/// A match as plain text and sequences: what a `Match` stands for.
pub struct MatchView {
    pub player_one: Seq<char>,
    pub player_two: Seq<char>,
    pub scores_one: Seq<Seq<char>>,
    pub scores_two: Seq<Seq<char>>,
    pub outcome: Outcome,
}

/// A score token as it is shown: the placeholder `-` becomes `0`.
pub open spec fn shown_token(token: Seq<char>) -> Seq<char> {
    if token == "-"@ {
        "0"@
    } else {
        token
    }
}

/// Whether a token is a `6` followed by a tie-break annotation.
pub open spec fn is_tie_break_token(token: Seq<char>) -> bool {
    token.len() > 1 && token[0] == '6'
}

/// The text of one set, with a leading space. A `7` against a tie-break token
/// shows the tie-break in brackets: what follows the token's first two
/// characters. Any other pair shows both tokens with a dash between them.
pub open spec fn set_text(left: Seq<char>, right: Seq<char>) -> Seq<char> {
    if left == "7"@ && is_tie_break_token(right) {
        " 7-6("@ + right.skip(2) + ")"@
    } else if right == "7"@ && is_tie_break_token(left) {
        " 6("@ + left.skip(2) + ")-7"@
    } else {
        " "@ + shown_token(left) + "-"@ + shown_token(right)
    }
}

/// The texts of all sets in order, one after the other. Meant for two
/// sequences of the same length.
pub open spec fn score_text(left: Seq<Seq<char>>, right: Seq<Seq<char>>) -> Seq<char>
    decreases left.len(),
{
    if left.len() == 0 || right.len() == 0 {
        Seq::empty()
    } else {
        score_text(left.drop_last(), right.drop_last()) + set_text(left.last(), right.last())
    }
}

impl MatchView {
    /// Whether player two's scores are shown on the left of each set.
    pub open spec fn two_leads(self) -> bool {
        self.outcome == Outcome::P2Won || self.outcome == Outcome::P2Serving
    }

    /// The scores shown on the left of each set.
    pub open spec fn left_scores(self) -> Seq<Seq<char>> {
        if self.two_leads() {
            self.scores_two
        } else {
            self.scores_one
        }
    }

    /// The scores shown on the right of each set.
    pub open spec fn right_scores(self) -> Seq<Seq<char>> {
        if self.two_leads() {
            self.scores_one
        } else {
            self.scores_two
        }
    }

    /// The score string, or the error where the two sides differ in their
    /// number of sets.
    pub open spec fn formatted_score(self) -> Result<Seq<char>, MatchParseError> {
        if self.scores_one.len() == self.scores_two.len() {
            Ok(score_text(self.left_scores(), self.right_scores()))
        } else {
            Err(MatchParseError::ScoreFormatError)
        }
    }

    /// The players and the state of the match, as the line begins.
    pub open spec fn phrase(self) -> Seq<char> {
        match self.outcome {
            Outcome::P1Won => self.player_one + " d. "@ + self.player_two,
            Outcome::P2Won => self.player_two + " d. "@ + self.player_one,
            Outcome::P1Serving => "LIVE: *"@ + self.player_one + " v. "@ + self.player_two,
            Outcome::P2Serving => "LIVE: *"@ + self.player_two + " v. "@ + self.player_one,
        }
    }

    /// The whole line: the phrase, a space, and the score string.
    pub open spec fn line(self) -> Result<Seq<char>, MatchParseError> {
        match self.formatted_score() {
            Ok(score) => Ok(self.phrase() + " "@ + score),
            Err(e) => Err(e),
        }
    }
}

/// Whether an executable result holds the text, or the error, of `expected`.
pub open spec fn is_text_result(
    res: Result<String, MatchParseError>,
    expected: Result<Seq<char>, MatchParseError>,
) -> bool {
    match res {
        Ok(s) => expected == Ok::<Seq<char>, MatchParseError>(s@),
        Err(e) => expected == Err::<Seq<char>, MatchParseError>(e),
    }
}

/// How many levels lie between a marker and the record of the side it marks.
pub const SIDE_RECORD_DEPTH: usize = 4;

/// The titles of the anchors below `node` that carry one, in document order.
pub open spec fn anchor_titles(doc: Document, node: usize) -> Seq<Seq<char>> {
    attr_values(doc, descendants_named(doc, node, "a"@), "title"@)
}

/// The record of the side that `marker` stands in.
pub open spec fn side_record(doc: Document, marker: usize) -> Option<usize> {
    ancestor(doc, marker, SIDE_RECORD_DEPTH as nat)
}

/// What the marker `label` below `node` says. `None`: there is no such
/// marker. `Some(None)`: there is one, but no titled anchor is reached from
/// it. `Some(Some(name))`: the first of them names the player `name`.
pub open spec fn marked_name(doc: Document, node: usize, label: Seq<char>) -> Option<
    Option<Seq<char>>,
> {
    match first_of(with_text(doc, descendants_named(doc, node, "small"@), label)) {
        None => None,
        Some(marker) => Some(
            match side_record(doc, marker) {
                Some(record) => first_of(anchor_titles(doc, record)),
                None => None,
            },
        ),
    }
}

/// The side that `name` is the player of; player one where both carry it.
pub open spec fn side_named(name: Seq<char>, player_one: Seq<char>, player_two: Seq<char>) -> Option<
    Side,
> {
    if name == player_one {
        Some(Side::One)
    } else if name == player_two {
        Some(Side::Two)
    } else {
        None
    }
}

/// The side that a marker names, if it names one of the two players.
pub open spec fn marked_side(
    marked: Option<Option<Seq<char>>>,
    player_one: Seq<char>,
    player_two: Seq<char>,
) -> Option<Side> {
    match marked {
        Some(Some(name)) => side_named(name, player_one, player_two),
        _ => None,
    }
}

/// The outcome that follows from the side that won, if any, and the side that
/// serves, if any: a winner goes before a server, and one of them is needed.
pub open spec fn resolved(winner: Option<Side>, server: Option<Side>) -> Result<
    Outcome,
    MatchParseError,
> {
    match winner {
        Some(Side::One) => Ok(Outcome::P1Won),
        Some(Side::Two) => Ok(Outcome::P2Won),
        None => match server {
            Some(Side::One) => Ok(Outcome::P1Serving),
            Some(Side::Two) => Ok(Outcome::P2Serving),
            None => Err(MatchParseError::StateParseError),
        },
    }
}

/// The score tokens of one side: the trimmed texts of the set cells among the
/// children of its statistics element `stats`.
pub open spec fn set_tokens(doc: Document, stats: usize) -> Seq<Seq<char>> {
    trimmed_texts(doc, with_attr_containing(doc, node_children(doc, stats), "class"@, "--set"@))
}

/// The score tokens of a statistics element.
pub open spec fn tokens_of(doc: Document) -> spec_fn(usize) -> Seq<Seq<char>> {
    |stats: usize| set_tokens(doc, stats)
}

/// The score tokens of each statistics element below `node`, in document order.
pub open spec fn score_groups(doc: Document, node: usize) -> Seq<Seq<Seq<char>>> {
    with_attr(doc, descendants_named(doc, node, "div"@), "class"@, "tc-match__stats"@).map_values(
        tokens_of(doc),
    )
}

/// The character sequences of a sequence of token lists.
pub open spec fn group_texts(groups: Seq<Vec<String>>) -> Seq<Seq<Seq<char>>> {
    groups.map_values(|g: Vec<String>| texts(g@))
}

/// The match that the subtree at `node` describes, or why it describes none.
/// The players are checked first, then the state, then the scores.
pub open spec fn parsed_match(doc: Document, node: usize) -> Result<MatchView, MatchParseError> {
    let names = anchor_titles(doc, node);
    let winner = marked_name(doc, node, "Winner"@);
    let server = marked_name(doc, node, "Service"@);
    let groups = score_groups(doc, node);
    if names.len() != 2 {
        Err(MatchParseError::PlayerParseError)
    } else if winner == Some(None::<Seq<char>>) {
        Err(MatchParseError::StateParseError)
    } else {
        match resolved(
            marked_side(winner, names[0], names[1]),
            marked_side(server, names[0], names[1]),
        ) {
            Err(e) => Err(e),
            Ok(outcome) => if groups.len() != 2 {
                Err(MatchParseError::ScoreParseError)
            } else {
                Ok(
                    MatchView {
                        player_one: names[0],
                        player_two: names[1],
                        scores_one: groups[0],
                        scores_two: groups[1],
                        outcome,
                    },
                )
            },
        }
    }
}

/// Whether an executable result holds the match, or the error, of `expected`.
pub open spec fn is_match_result(
    res: Result<Match, MatchParseError>,
    expected: Result<MatchView, MatchParseError>,
) -> bool {
    match res {
        Ok(m) => expected == Ok::<MatchView, MatchParseError>(m@),
        Err(e) => expected == Err::<MatchView, MatchParseError>(e),
    }
}

/// One tennis match.
pub struct Match {
    player_one: String,
    player_two: String,
    scores_one: Vec<String>,
    scores_two: Vec<String>,
    outcome: Outcome,
}

impl View for Match {
    type V = MatchView;

    closed spec fn view(&self) -> MatchView {
        MatchView {
            player_one: self.player_one@,
            player_two: self.player_two@,
            scores_one: texts(self.scores_one@),
            scores_two: texts(self.scores_two@),
            outcome: self.outcome,
        }
    }
}

/// Whether `token` is a `6` followed by at least one more character.
pub fn has_tie_break(token: &str) -> (res: bool)
    ensures
        res == is_tie_break_token(token@),
{
    token.unicode_len() > 1 && token.get_char(0) == '6'
}

/// The token as it is shown: `0` for the placeholder `-`.
pub fn shown<'a>(token: &'a str) -> (res: &'a str)
    ensures
        res@ == shown_token(token@),
{
    if same_text(token, "-") {
        "0"
    } else {
        token
    }
}

/// Renders one set from the tokens of its left and right side.
pub fn format_set(left: &str, right: &str) -> (res: String)
    ensures
        res@ == set_text(left@, right@),
{
    let mut out = String::new();
    if same_text(left, "7") && has_tie_break(right) {
        let end = right.unicode_len();
        out.append(" 7-6(");
        out.append(right.substring_char(2, end));
        out.append(")");
    } else if same_text(right, "7") && has_tie_break(left) {
        let end = left.unicode_len();
        out.append(" 6(");
        out.append(left.substring_char(2, end));
        out.append(")-7");
    } else {
        out.append(" ");
        out.append(shown(left));
        out.append("-");
        out.append(shown(right));
    }
    out
}

/// The record of the side that `marker` stands in: a fixed number of levels
/// above it, or `None` where the page has fewer levels there.
pub fn locate_side_record(page: &Page, marker: usize) -> (res: Option<usize>)
    ensures
        res == side_record(page@, marker),
{
    page.ancestor(marker, SIDE_RECORD_DEPTH)
}

/// The titles of the anchors below `node` that carry one.
pub fn read_anchor_titles(page: &Page, node: usize) -> (res: Vec<String>)
    ensures
        texts(res@) == anchor_titles(page@, node),
{
    let anchors = page.descendants_named(node, "a");
    page.attr_values(&anchors, "title")
}

/// Looks below `node` for the first small-text marker that reads `label` and
/// for the player it names: the first titled anchor in the record of its side.
pub fn read_marked_name(page: &Page, node: usize, label: &str) -> (res: Option<Option<String>>)
    ensures
        match res {
            None => marked_name(page@, node, label@) is None,
            Some(name) => marked_name(page@, node, label@) == Some(option_text(name)),
        },
{
    let smalls = page.descendants_named(node, "small");
    let markers = page.with_text(&smalls, label);
    if markers.len() == 0 {
        return None;
    }
    let record = match locate_side_record(page, markers[0]) {
        Some(record) => record,
        None => {
            return Some(None);
        },
    };
    let titles = read_anchor_titles(page, record);
    if titles.len() == 0 {
        Some(None)
    } else {
        Some(Some(titles[0].clone()))
    }
}

/// The side whose player is called `name`, if either is.
pub fn side_of(name: &str, player_one: &str, player_two: &str) -> (res: Option<Side>)
    ensures
        res == side_named(name@, player_one@, player_two@),
{
    if same_text(name, player_one) {
        Some(Side::One)
    } else if same_text(name, player_two) {
        Some(Side::Two)
    } else {
        None
    }
}

/// Decides the outcome from the side that won, if one is known, and the side
/// that serves, if one is known.
pub fn resolve_outcome(winner: Option<Side>, server: Option<Side>) -> (res: Result<
    Outcome,
    MatchParseError,
>)
    ensures
        res == resolved(winner, server),
{
    match winner {
        Some(Side::One) => Ok(Outcome::P1Won),
        Some(Side::Two) => Ok(Outcome::P2Won),
        None => match server {
            Some(Side::One) => Ok(Outcome::P1Serving),
            Some(Side::Two) => Ok(Outcome::P2Serving),
            None => Err(MatchParseError::StateParseError),
        },
    }
}

/// The score tokens of the side whose statistics element is `stats`.
pub fn read_set_tokens(page: &Page, stats: usize) -> (res: Vec<String>)
    ensures
        texts(res@) == set_tokens(page@, stats),
{
    let children = page.children(stats);
    let cells = page.with_attr_containing(&children, "class", "--set");
    page.trimmed_texts(&cells)
}

/// The score tokens of each statistics element below `node`.
pub fn read_score_groups(page: &Page, node: usize) -> (res: Vec<Vec<String>>)
    ensures
        group_texts(res@) == score_groups(page@, node),
{
    let divs = page.descendants_named(node, "div");
    let stats = page.with_attr(&divs, "class", "tc-match__stats");
    let mut out: Vec<Vec<String>> = Vec::new();
    let mut i: usize = 0;
    while i < stats.len()
        invariant
            i <= stats.len(),
            group_texts(out@) == stats@.take(i as int).map_values(tokens_of(page@)),
        decreases stats.len() - i,
    {
        let tokens = read_set_tokens(page, stats[i]);
        let ghost before = out@;
        out.push(tokens);
        proof {
            assert(group_texts(out@) =~= group_texts(before).push(set_tokens(page@, stats@[i as int])));
            assert(stats@.take(i + 1).map_values(tokens_of(page@)) =~= stats@.take(
                i as int,
            ).map_values(tokens_of(page@)).push(set_tokens(page@, stats@[i as int])));
        }
        i += 1;
    }
    proof {
        assert(stats@.take(i as int) =~= stats@);
    }
    out
}

/// The placeholder `-` is shown as `0` on its side of a set, whatever stands
/// on the other side.
pub proof fn lemma_placeholder_shows_zero(other: Seq<char>)
    ensures
        set_text("-"@, other) == " "@ + "0"@ + "-"@ + shown_token(other),
        set_text(other, "-"@) == " "@ + shown_token(other) + "-"@ + "0"@,
{
    reveal_strlit("-");
    reveal_strlit("7");
    assert("-"@[0] != "7"@[0]);
}

/// A match that is read from a subtree whose winner marker names one of its
/// two players is won by that player, whatever its service marker names.
pub proof fn lemma_winner_decides(doc: Document, node: usize, winner: Seq<char>)
    requires
        parsed_match(doc, node) is Ok,
        marked_name(doc, node, "Winner"@) == Some(Some(winner)),
    ensures
        winner == parsed_match(doc, node)->Ok_0.player_one ==> parsed_match(
            doc,
            node,
        )->Ok_0.outcome == Outcome::P1Won,
        winner != parsed_match(doc, node)->Ok_0.player_one && winner == parsed_match(
            doc,
            node,
        )->Ok_0.player_two ==> parsed_match(doc, node)->Ok_0.outcome == Outcome::P2Won,
{
}

/// A subtree with its two players, but with neither a winner marker nor a
/// service marker, is no match: reading it fails on the state.
pub proof fn lemma_unmarked_match_fails(doc: Document, node: usize)
    requires
        anchor_titles(doc, node).len() == 2,
        marked_name(doc, node, "Winner"@) is None,
        marked_name(doc, node, "Service"@) is None,
    ensures
        parsed_match(doc, node) == Err::<MatchView, MatchParseError>(
            MatchParseError::StateParseError,
        ),
{
}

/// `Itertools::collect_tuple` for a pair, on the items of a vector: both
/// items where there are exactly two, else nothing.
#[verifier::external_body]
fn collect_pair<T>(items: Vec<T>) -> (res: Option<(T, T)>)
    ensures
        match res {
            Some((first, second)) => items@.len() == 2 && first == items@[0] && second == items@[1],
            None => items@.len() != 2,
        },
{
    items.into_iter().collect_tuple()
}

impl Match {
    /// A match from its parts. The two score sequences may differ in length;
    /// such a match cannot be rendered.
    pub fn new(
        player_one: String,
        player_two: String,
        scores_one: Vec<String>,
        scores_two: Vec<String>,
        outcome: Outcome,
    ) -> (m: Match)
        ensures
            m@ == (MatchView {
                player_one: player_one@,
                player_two: player_two@,
                scores_one: texts(scores_one@),
                scores_two: texts(scores_two@),
                outcome,
            }),
    {
        Match { player_one, player_two, scores_one, scores_two, outcome }
    }

    /// The name of the player that the page names first.
    pub fn player_one(&self) -> (res: &str)
        ensures
            res@ == self@.player_one,
    {
        self.player_one.as_str()
    }

    /// The name of the player that the page names second.
    pub fn player_two(&self) -> (res: &str)
        ensures
            res@ == self@.player_two,
    {
        self.player_two.as_str()
    }

    /// The score tokens of player one, one per set.
    pub fn scores_one(&self) -> (res: &Vec<String>)
        ensures
            texts(res@) == self@.scores_one,
    {
        &self.scores_one
    }

    /// The score tokens of player two, one per set.
    pub fn scores_two(&self) -> (res: &Vec<String>)
        ensures
            texts(res@) == self@.scores_two,
    {
        &self.scores_two
    }

    /// Who won the match, or who is serving.
    pub fn outcome(&self) -> (res: Outcome)
        ensures
            res == self@.outcome,
    {
        self.outcome
    }

    /// Reads the match that the subtree at `node` of `page` describes: two
    /// players, the state that the winner and service markers give, and the
    /// scores of both sides.
    pub fn try_from(page: &Page, node: usize) -> (res: Result<Match, MatchParseError>)
        ensures
            is_match_result(res, parsed_match(page@, node)),
    {
        let (player_one, player_two) = match collect_pair(read_anchor_titles(page, node)) {
            Some(pair) => pair,
            None => {
                return Err(MatchParseError::PlayerParseError);
            },
        };
        let winner = match read_marked_name(page, node, "Winner") {
            Some(Some(name)) => side_of(name.as_str(), player_one.as_str(), player_two.as_str()),
            Some(None) => {
                return Err(MatchParseError::StateParseError);
            },
            None => None,
        };
        let server = match read_marked_name(page, node, "Service") {
            Some(Some(name)) => side_of(name.as_str(), player_one.as_str(), player_two.as_str()),
            _ => None,
        };
        let outcome = match resolve_outcome(winner, server) {
            Ok(outcome) => outcome,
            Err(e) => {
                return Err(e);
            },
        };
        let (scores_one, scores_two) = match collect_pair(read_score_groups(page, node)) {
            Some(pair) => pair,
            None => {
                return Err(MatchParseError::ScoreParseError);
            },
        };
        Ok(Match { player_one, player_two, scores_one, scores_two, outcome })
    }

    /// The score string of the match: the sets in order, the side that won or
    /// serves on the left of each. Fails where the two sides differ in their
    /// number of sets.
    pub fn format_score(&self) -> (res: Result<String, MatchParseError>)
        ensures
            is_text_result(res, self@.formatted_score()),
            res is Err <==> self@.scores_one.len() != self@.scores_two.len(),
    {
        let two_leads = match self.outcome {
            Outcome::P2Won => true,
            Outcome::P2Serving => true,
            _ => false,
        };
        let left = if two_leads { &self.scores_two } else { &self.scores_one };
        let right = if two_leads { &self.scores_one } else { &self.scores_two };
        let mut out = String::new();
        let mut i: usize = 0;
        while i < left.len()
            invariant
                i <= left.len(),
                i <= right.len(),
                texts(left@) == self@.left_scores(),
                texts(right@) == self@.right_scores(),
                out@ == score_text(texts(left@).take(i as int), texts(right@).take(i as int)),
            decreases left.len() - i,
        {
            if i >= right.len() {
                return Err(MatchParseError::ScoreFormatError);
            }
            let fragment = format_set(left[i].as_str(), right[i].as_str());
            proof {
                let l = texts(left@).take(i + 1);
                let r = texts(right@).take(i + 1);
                assert(l.drop_last() =~= texts(left@).take(i as int));
                assert(r.drop_last() =~= texts(right@).take(i as int));
            }
            out.append(fragment.as_str());
            i += 1;
        }
        if i < right.len() {
            return Err(MatchParseError::ScoreFormatError);
        }
        proof {
            assert(texts(left@).take(i as int) =~= texts(left@));
            assert(texts(right@).take(i as int) =~= texts(right@));
        }
        Ok(out)
    }

    /// The line that shows the match: who beat whom, or who serves against
    /// whom, then a space and the score string.
    pub fn render(&self) -> (res: Result<String, MatchParseError>)
        ensures
            is_text_result(res, self@.line()),
    {
        let score = match self.format_score() {
            Ok(score) => score,
            Err(e) => {
                return Err(e);
            },
        };
        let mut out = String::new();
        match self.outcome {
            Outcome::P1Won => {
                out.append(self.player_one.as_str());
                out.append(" d. ");
                out.append(self.player_two.as_str());
            },
            Outcome::P2Won => {
                out.append(self.player_two.as_str());
                out.append(" d. ");
                out.append(self.player_one.as_str());
            },
            Outcome::P1Serving => {
                out.append("LIVE: *");
                out.append(self.player_one.as_str());
                out.append(" v. ");
                out.append(self.player_two.as_str());
            },
            Outcome::P2Serving => {
                out.append("LIVE: *");
                out.append(self.player_two.as_str());
                out.append(" v. ");
                out.append(self.player_one.as_str());
            },
        }
        out.append(" ");
        out.append(score.as_str());
        Ok(out)
    }
}

} // verus!
