use tennis_scores::dom::Page;
use tennis_scores::tmatch::Outcome;
use tennis_scores::tournament::{Tournament, TournamentParseError};

fn parsed(html: &str) -> Page {
    Page::parse(html).unwrap()
}

fn header(name: &str) -> String {
    format!("<h1><span class=\"tc-tournament-header__name\">{}</span></h1>", name)
}

fn marker(label: &str) -> String {
    format!("<div><div><div><small>{}</small></div></div></div>", label)
}

fn side(markers: &str, title: &str, tokens: &[&str]) -> String {
    let mut cells = String::new();
    for token in tokens {
        cells.push_str(&format!("<span class=\"tc-match__stats--set\">{}</span>", token));
    }
    format!(
        "<div>{}<a title=\"{}\">p</a><div class=\"tc-match__stats\">{}</div></div>",
        markers, title, cells
    )
}

fn finished(winner: &str, loser: &str) -> String {
    format!(
        "<div class=\"tc-match tc-match__content\">{}{}</div>",
        side(&marker("Winner"), winner, &["6", "6"]),
        side("", loser, &["3", "4"])
    )
}

fn broken() -> String {
    "<div class=\"tc-match__content\"><a title=\"Solo\">p</a></div>".to_string()
}

fn tournament_of(body: &str) -> Tournament {
    let page = parsed(&format!("<html><body>{}</body></html>", body));
    Tournament::try_from(page).ok().unwrap()
}

fn lines(tournament: &Tournament, n: usize) -> Vec<Result<String, TournamentParseError>> {
    tournament
        .top_n_matches(n)
        .into_iter()
        .map(|entry| entry.map(|m| m.render().ok().unwrap()))
        .collect()
}

#[test]
fn name_is_the_text_of_the_header_span() {
    let t = tournament_of(&header("Roland <b>Garros</b> "));
    assert_eq!(t.name, "Roland Garros ");
    let two = tournament_of(&format!("{}{}", header("First"), header("Second")));
    assert_eq!(two.name, "First");
    let empty = tournament_of(&header(""));
    assert_eq!(empty.name, "");
}

#[test]
fn page_without_a_name_is_no_tournament() {
    let page = parsed("<html><body><span class=\"name\">Paris</span></body></html>");
    assert_eq!(Tournament::try_from(page).err(), Some(TournamentParseError::NameParseError));
    let page = parsed("");
    assert_eq!(Tournament::try_from(page).err(), Some(TournamentParseError::NameParseError));
}

#[test]
fn name_class_is_matched_whole() {
    let page = parsed(
        "<html><body><span class=\"tc-tournament-header__name big\">Paris</span></body></html>",
    );
    assert_eq!(Tournament::try_from(page).err(), Some(TournamentParseError::NameParseError));
    let page = parsed(
        "<html><body><div class=\"tc-tournament-header__name\">Paris</div></body></html>",
    );
    assert_eq!(Tournament::try_from(page).err(), Some(TournamentParseError::NameParseError));
}

#[test]
fn zero_matches_asked_gives_none() {
    let t = tournament_of(&format!("{}{}{}", header("Paris"), finished("A", "B"), broken()));
    assert_eq!(t.top_n_matches(0).len(), 0);
}

#[test]
fn asking_for_more_gives_all_there_are() {
    let body = format!("{}{}{}", header("Paris"), finished("A", "B"), finished("C", "D"));
    let t = tournament_of(&body);
    let expected = vec![Ok("A d. B  6-3 6-4".to_string()), Ok("C d. D  6-3 6-4".to_string())];
    assert_eq!(lines(&t, 2), expected);
    assert_eq!(lines(&t, 3), expected);
    assert_eq!(lines(&t, usize::MAX), expected);
}

#[test]
fn first_matches_come_in_page_order() {
    let body = format!(
        "{}{}{}{}",
        header("Paris"),
        finished("A", "B"),
        finished("C", "D"),
        finished("E", "F")
    );
    let t = tournament_of(&body);
    assert_eq!(lines(&t, 1), vec![Ok("A d. B  6-3 6-4".to_string())]);
    assert_eq!(
        lines(&t, 2),
        vec![Ok("A d. B  6-3 6-4".to_string()), Ok("C d. D  6-3 6-4".to_string())]
    );
    let matches = t.top_n_matches(3);
    assert_eq!(matches.len(), 3);
    assert_eq!(matches[2].as_ref().ok().unwrap().player_one(), "E");
    assert_eq!(matches[2].as_ref().ok().unwrap().outcome(), Outcome::P1Won);
}

#[test]
fn unreadable_match_leaves_one_error_in_its_place() {
    let unmarked = format!(
        "<div class=\"tc-match__content\">{}{}</div>",
        side("", "A", &["1"]),
        side("", "B", &["0"])
    );
    let unscored =
        "<div class=\"tc-match__content\"><div><div><div><div><small>Winner</small></div></div></div><a title=\"A\">p</a></div><a title=\"B\">p</a></div>";
    let body = format!(
        "{}{}{}{}{}",
        header("Paris"),
        broken(),
        finished("A", "B"),
        unmarked,
        unscored
    );
    let t = tournament_of(&body);
    assert_eq!(
        lines(&t, 5),
        vec![
            Err(TournamentParseError::MatchesParseError),
            Ok("A d. B  6-3 6-4".to_string()),
            Err(TournamentParseError::MatchesParseError),
            Err(TournamentParseError::MatchesParseError),
        ]
    );
    assert_eq!(lines(&t, 1), vec![Err(TournamentParseError::MatchesParseError)]);
}

#[test]
fn tournament_without_matches_lists_nothing() {
    let t = tournament_of(&header("Paris"));
    assert_eq!(t.top_n_matches(5).len(), 0);
    assert_eq!(t.top_n_matches(0).len(), 0);
}

#[test]
fn listing_twice_gives_the_same() {
    let body = format!("{}{}{}", header("Paris"), finished("A", "B"), broken());
    let t = tournament_of(&body);
    assert_eq!(lines(&t, 2), lines(&t, 2));
    assert_eq!(t.name, "Paris");
}

#[test]
fn tournament_errors_describe_themselves() {
    assert_eq!(TournamentParseError::NameParseError.message(), "Error parsing tournament name");
    assert_eq!(
        TournamentParseError::MatchesParseError.message(),
        "Error parsing tournament match nodes"
    );
}
