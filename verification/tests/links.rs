use tennis_scores::crawler::{find_result_anchors, find_tournament_links};
use tennis_scores::dom::Page;

fn parsed(html: &str) -> Page {
    Page::parse(html).unwrap()
}

fn listing() -> Page {
    parsed(
        &[
            "<html><body><ul>",
            "<li><a href=\"/tournaments/paris/\"><span>Paris</span><span>Results</span></a></li>",
            "<li><a href=\"/tournaments/rome/\">Draws</a></li>",
            "<li><a href=\"/tournaments/london/\">Results</a></li>",
            "<li><a>Results</a></li>",
            "<li><a href=\"/tournaments/empty/\"></a></li>",
            "<li><a href=\"/tournaments/more/\"><span>Results</span> more</a></li>",
            "<li><a href=\"/tournaments/madrid/\">Results<b></b></a></li>",
            "<li><a href=\"\"><b>Res</b><i>ults</i></a></li>",
            "<li><a href=\"/tournaments/spaced/\"> Results </a></li>",
            "</ul></body></html>",
        ]
        .concat(),
    )
}

#[test]
fn result_anchors_read_the_word() {
    let page = listing();
    let anchors = page.elements_named("a");
    assert_eq!(anchors.len(), 9);
    assert_eq!(
        find_result_anchors(&page),
        vec![anchors[2], anchors[3], anchors[6], anchors[7]]
    );
}

#[test]
fn links_are_put_on_the_origin() {
    let page = listing();
    assert_eq!(
        find_tournament_links(&page, "https://www.tennis.com"),
        vec![
            "https://www.tennis.com/tournaments/london/".to_string(),
            "https://www.tennis.com/tournaments/madrid/".to_string(),
            "https://www.tennis.com".to_string(),
        ]
    );
    assert_eq!(
        find_tournament_links(&page, ""),
        vec![
            "/tournaments/london/".to_string(),
            "/tournaments/madrid/".to_string(),
            String::new(),
        ]
    );
}

#[test]
fn anchor_that_ends_in_the_word_is_no_result_anchor() {
    let page = parsed(
        "<html><body><a href=\"/t/paris/\"><span>Paris</span><span>Results</span></a></body></html>",
    );
    assert_eq!(find_result_anchors(&page), Vec::<usize>::new());
    assert_eq!(find_tournament_links(&page, "https://www.tennis.com"), Vec::<String>::new());
}

#[test]
fn page_without_result_anchors_has_no_links() {
    let page = parsed("<html><body><a href=\"/x\">results</a><p>Results</p></body></html>");
    assert_eq!(find_result_anchors(&page), Vec::<usize>::new());
    assert_eq!(find_tournament_links(&page, "https://www.tennis.com"), Vec::<String>::new());
    let empty = parsed("");
    assert_eq!(find_tournament_links(&empty, "https://www.tennis.com"), Vec::<String>::new());
}
