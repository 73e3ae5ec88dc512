use frikadellen_baf::client::{event_handler, BotClient, ClientEvent};
use frikadellen_baf::scoreboard::{find_purse, Scoreboard, TeamMethod};

fn texts(lines: &[&str]) -> Vec<String> {
    lines.iter().map(|l| l.to_string()).collect()
}

fn board() -> Scoreboard {
    let mut board = Scoreboard::new();
    board.set_sidebar("side");
    board.set_score("side", "a", &None, 1);
    board.set_score("side", "b", &Some("Bee".to_string()), 3);
    board.set_score("side", "c", &Some("".to_string()), 2);
    board.set_score("other", "d", &None, 9);
    board
}

#[test]
fn lines_come_by_descending_score() {
    assert_eq!(board().get_scoreboard_lines(), vec!["Bee", "c", "a"]);
}

#[test]
fn no_sidebar_no_lines() {
    let mut board = Scoreboard::new();
    board.set_score("side", "a", &None, 1);
    assert!(board.get_scoreboard_lines().is_empty());
    board.set_sidebar("unknown");
    assert!(board.get_scoreboard_lines().is_empty());
    board.set_sidebar("side");
    assert_eq!(board.get_scoreboard_lines(), vec!["a"]);
}

#[test]
fn scores_are_replaced_and_reset() {
    let mut board = board();
    board.set_score("side", "a", &Some("A!".to_string()), 10);
    assert_eq!(board.get_scoreboard_lines(), vec!["A!", "Bee", "c"]);
    board.reset_score(&Some("other".to_string()), "a");
    assert_eq!(board.get_scoreboard_lines().len(), 3);
    board.reset_score(&Some("side".to_string()), "a");
    assert_eq!(board.get_scoreboard_lines(), vec!["Bee", "c"]);
    board.set_score("other", "b", &None, 1);
    board.reset_score(&None, "b");
    assert_eq!(board.get_scoreboard_lines(), vec!["c"]);
    board.set_sidebar("other");
    assert_eq!(board.get_scoreboard_lines(), vec!["d"]);
}

#[test]
fn teams_give_the_text() {
    let mut board = board();
    let add = TeamMethod::Add("Purse: ".to_string(), "1,000".to_string(), texts(&["a"]));
    board.set_team("t", &add);
    assert_eq!(board.get_scoreboard_lines(), vec!["Bee", "c", "Purse: 1,000"]);
    board.set_team("t", &TeamMethod::Change("P".to_string(), "S".to_string()));
    assert_eq!(board.get_scoreboard_lines(), vec!["Bee", "c", "PS"]);
    board.set_team("t", &TeamMethod::Join(texts(&["b", "c"])));
    assert_eq!(board.get_scoreboard_lines(), vec!["PS", "PS", "PS"]);
    board.set_team("t", &TeamMethod::Leave(texts(&["a", "c"])));
    assert_eq!(board.get_scoreboard_lines(), vec!["PS", "c", "a"]);
    board.set_team("t", &TeamMethod::Remove);
    assert_eq!(board.get_scoreboard_lines(), vec!["Bee", "c", "a"]);
    board.set_team("u", &TeamMethod::Leave(texts(&["a"])));
    board.set_team("u", &TeamMethod::Join(texts(&["a"])));
    assert_eq!(board.get_scoreboard_lines(), vec!["Bee", "c", ""]);
}

#[test]
fn purse_is_read_from_the_lines() {
    assert_eq!(find_purse(&texts(&["x", " §6Purse: §e1,234,567 (+5)"])), Some(1_234_567));
    assert_eq!(find_purse(&texts(&["Piggy: 42"])), Some(42));
    assert_eq!(find_purse(&texts(&["Purse: lots", "Piggy: 7"])), Some(7));
    assert_eq!(find_purse(&texts(&["My Purse: 5"])), None);
    assert_eq!(find_purse(&texts(&["Purse: 1.5"])), None);
    assert_eq!(find_purse(&Vec::new()), None);
}

#[test]
fn scoreboard_events_reach_the_client() {
    let mut client = BotClient::new();
    let side = |in_sidebar: bool, name: &str| ClientEvent::SetDisplayObjective {
        in_sidebar,
        objective: name.to_string(),
    };
    assert!(event_handler(&mut client.handler, &side(true, "SB")).is_empty());
    assert!(event_handler(&mut client.handler, &side(false, "list")).is_empty());
    let score = ClientEvent::SetScore {
        objective: "SB".to_string(),
        owner: "§y".to_string(),
        display: None,
        score: 4,
    };
    event_handler(&mut client.handler, &score);
    let team = ClientEvent::SetPlayerTeam {
        name: "team_4".to_string(),
        method: TeamMethod::Add("Purse: §6".to_string(), "77".to_string(), texts(&["§y"])),
    };
    event_handler(&mut client.handler, &team);
    assert_eq!(client.get_scoreboard_lines(), vec!["Purse: §677"]);
    assert_eq!(client.get_purse(), Some(77));
    let reset = ClientEvent::ResetScore { from: None, owner: "§y".to_string() };
    event_handler(&mut client.handler, &reset);
    assert!(client.get_scoreboard_lines().is_empty());
    assert_eq!(client.get_purse(), None);
}
