use teto_pages::replay::{
    league_record_from_context, on_cache_lookup, on_replay_fetched, CacheAction, FetchAction,
    GameReplayData, GameReplayGameBoard, GameReplayGameBoardUser, GameReplayPacket, LeagueEndContext,
    LeagueEndContextLeaderboard, LeagueEndContextRound, LeagueEndContextStats, LeagueEndContextUser,
    LeagueRecord, ReportError, Round, Stats,
};
use teto_pages::tetra::{
    decode_replay_query, generate_league_recent, league_page_from_request, league_recent_test_record,
    league_replay_page, recent_record_index, LeagueReplayQuery, TetraHtmlMatch, TetraTestParam,
};

fn stats(pps: i64, apm: i64, vs: i64) -> LeagueEndContextStats {
    LeagueEndContextStats { apm, pps, vsscore: vs }
}

fn board(id: &str, name: &str, wins: i64) -> LeagueEndContextLeaderboard {
    LeagueEndContextLeaderboard {
        user: None,
        id: Some(id.to_string()),
        username: Some(name.to_string()),
        active: true,
        inputs: None,
        wins,
        stats: stats(150, 6000, 12000),
    }
}

fn line(id: &str, alive: bool, lifetime: u64) -> LeagueEndContextRound {
    LeagueEndContextRound {
        id: Some(id.to_string()),
        username: None,
        stats: stats(200, 7000, 9000),
        alive,
        lifetime,
    }
}

fn match_of_three_rounds() -> LeagueEndContext {
    LeagueEndContext {
        leaderboard: vec![board("opp", "rival", 1), board("me", "hero", 2)],
        rounds: vec![
            vec![line("me", true, 65_500), line("opp", false, 64_000)],
            vec![line("opp", true, 30_000)],
            vec![line("opp", false, 10_000), line("me", true, 12_000)],
        ],
    }
}

#[test]
fn round_missing_the_subject_is_skipped() {
    let record = league_record_from_context(&match_of_three_rounds(), "me").ok().unwrap();
    assert_eq!(record.rounds.len(), 2);
    assert_eq!(record.rounds[0].time, "1:05");
    assert_eq!(record.rounds[1].time, "0:12");
    assert!(record.rounds[0].left.success);
    assert!(!record.rounds[0].right.success);
}

#[test]
fn averages_come_from_leaderboard() {
    let record = league_record_from_context(&match_of_three_rounds(), "me").ok().unwrap();
    assert_eq!(record.averages.left.username, "hero");
    assert_eq!(record.averages.right.username, "rival");
    assert_eq!(record.averages.left.score, 2);
    assert_eq!(record.averages.right.score, 1);
    assert_eq!(record.averages.left.pps, 150);
}

#[test]
fn subject_missing_from_leaderboard_is_player_not_found() {
    let r = league_record_from_context(&match_of_three_rounds(), "nobody");
    assert!(matches!(r, Err(ReportError::PlayerNotFound)));
}

#[test]
fn lone_subject_is_opponent_not_found() {
    let ctx = LeagueEndContext { leaderboard: vec![board("me", "hero", 0)], rounds: vec![] };
    assert!(matches!(league_record_from_context(&ctx, "me"), Err(ReportError::OpponentNotFound)));
}

#[test]
fn leaderboard_identity_falls_back_to_user() {
    let mut b = board("x", "y", 3);
    b.id = None;
    b.username = None;
    b.user = Some(LeagueEndContextUser { id: "me".to_string(), username: "nested".to_string() });
    let ctx = LeagueEndContext { leaderboard: vec![b, board("opp", "rival", 0)], rounds: vec![] };
    let record = league_record_from_context(&ctx, "me").ok().unwrap();
    assert_eq!(record.averages.left.username, "nested");
}

#[test]
fn board_identity_prefers_top_level_fields() {
    let user = GameReplayGameBoardUser { id: "u1".to_string(), username: "nested".to_string() };
    let b = GameReplayGameBoard {
        user: Some(user),
        id: Some("top".to_string()),
        username: None,
        active: true,
        success: false,
    };
    assert_eq!(b.get_id(), Some("top".to_string()));
    assert_eq!(b.get_username(), Some("nested".to_string()));
    let bare = GameReplayGameBoard { user: None, id: None, username: None, active: false, success: false };
    assert_eq!(bare.get_id(), None);
}

#[test]
fn round_markup_marks_survivor() {
    let round = Round {
        left: Stats { pps: 257, apm: 6012, vs: 11000, success: true },
        right: Stats { pps: 199, apm: 4000, vs: 8050, success: false },
        time: "1:05".to_string(),
    };
    let html = TetraHtmlMatch::from(round).into_html_page();
    assert!(html.contains("multilog_result_self success"));
    assert!(html.contains("multilog_result_opponent \""));
    assert!(html.contains("<span>2.57</span> PPS"));
    assert!(html.contains("<span>80.50</span> VS"));
    assert!(html.contains(">1:05<"));
}

fn sample_template() -> &'static str {
    "{left_username} {right_username} {left_username} {left_score}-{right_score} {played_date} {played_time}|{left_extra}|{matches}"
}

#[test]
fn match_page_fills_placeholders() {
    let record = league_record_from_context(&match_of_three_rounds(), "me").ok().unwrap();
    let html = generate_league_recent(record, 0, sample_template());
    assert!(html.starts_with("hero rival hero 2-1 01/01/1970 00:00:00|<span>1.50</span> PPS - <span>60.00</span> APM -\n<span>120.00</span> VS|"));
    assert_eq!(html.matches("multilog_result_time").count(), 2);
    assert!(html.contains("</div>\n<div class=\"multilog_result"));
}

#[test]
fn request_page_reads_its_instant() {
    let record: LeagueRecord = league_recent_test_record(&TetraTestParam { left_score: Some(3), right_score: None });
    let request = teto_pages::replay::LeagueRecordRequest {
        league_record: record,
        ts: "2024-03-05T10:20:30Z".to_string(),
    };
    let html = league_page_from_request(request, "{played_date} {played_time} {left_score}-{right_score}");
    assert_eq!(html, "05/03/2024 10:20:30 3-5");
}

#[test]
fn sample_record_has_fixed_averages() {
    let r = league_recent_test_record(&TetraTestParam { left_score: None, right_score: Some(7) });
    assert_eq!(r.averages.left.score, 5);
    assert_eq!(r.averages.right.score, 7);
    assert_eq!(r.averages.left.apm, 10000);
    assert_eq!(r.averages.left.username, "\u{200B}");
    assert!(r.rounds.is_empty());
}

#[test]
fn query_is_percent_decoded() {
    let q = LeagueReplayQuery { data: "%7B%22a%22%3A1%7D".to_string() };
    assert_eq!(decode_replay_query(&q).ok().unwrap(), "{\"a\":1}");
    let bad = LeagueReplayQuery { data: "%FF".to_string() };
    assert!(matches!(decode_replay_query(&bad), Err(ReportError::MalformedQuery)));
}

#[test]
fn recent_index_counts_from_one() {
    assert_eq!(recent_record_index(1, 10), Some(0));
    assert_eq!(recent_record_index(10, 10), Some(9));
    assert_eq!(recent_record_index(11, 10), None);
    assert_eq!(recent_record_index(0, 10), None);
}

#[test]
fn replay_without_game_is_malformed() {
    let packet = GameReplayPacket { success: false, game: None };
    let r = league_replay_page(&packet, "me", sample_template());
    assert!(matches!(r, Err(ReportError::MalformedUpstreamData)));
}

#[test]
fn replay_page_is_built_from_game() {
    let packet = GameReplayPacket {
        success: true,
        game: Some(GameReplayData { ts: 86_400_000 + 3_661_000, results: match_of_three_rounds() }),
    };
    let html = league_replay_page(&packet, "me", "{played_date} {played_time} {left_score}").ok().unwrap();
    assert_eq!(html, "02/01/1970 01:01:01 2");
}

#[test]
fn cache_hit_is_served_and_miss_fetched() {
    assert!(matches!(on_cache_lookup(Some(4u8)), CacheAction::Serve(4)));
    assert!(matches!(on_cache_lookup::<u8>(None), CacheAction::Fetch));
}

#[test]
fn failed_fetch_keeps_nothing() {
    assert!(matches!(on_replay_fetched::<u8>(Ok(9)), FetchAction::StoreAndServe(9)));
    match on_replay_fetched::<u8>(Err("timeout".to_string())) {
        FetchAction::Fail(e) => assert_eq!(e.message(), "Couldn't fetch replay data: timeout"),
        _ => panic!("a failed fetch must fail"),
    }
}

#[test]
fn error_messages_are_readable() {
    assert_eq!(ReportError::PlayerNotFound.message(), "Failed to parse data (couldn't find end contexts)");
    assert_eq!(ReportError::MalformedQuery.message(), "Couldn't decode data");
}

#[test]
fn line_naming_no_player_is_malformed() {
    let mut ctx = match_of_three_rounds();
    ctx.leaderboard[0].id = None;
    assert!(matches!(league_record_from_context(&ctx, "me"), Err(ReportError::MalformedUpstreamData)));
    let mut ctx = match_of_three_rounds();
    ctx.rounds[1][0].id = None;
    assert!(matches!(league_record_from_context(&ctx, "me"), Err(ReportError::MalformedUpstreamData)));
}

#[test]
fn replay_page_without_subject_is_player_not_found() {
    let packet = GameReplayPacket {
        success: true,
        game: Some(GameReplayData { ts: 0, results: match_of_three_rounds() }),
    };
    let r = league_replay_page(&packet, "nobody", sample_template());
    match r {
        Err(e) => {
            assert!(matches!(e, ReportError::PlayerNotFound));
            assert_eq!(e.message(), "Failed to parse data (couldn't find end contexts)");
        }
        Ok(_) => panic!("no page without the subject"),
    }
}

#[test]
fn replay_page_without_opponent_is_opponent_not_found() {
    let ctx = LeagueEndContext { leaderboard: vec![board("me", "hero", 0)], rounds: vec![] };
    let packet = GameReplayPacket { success: true, game: Some(GameReplayData { ts: 0, results: ctx }) };
    let r = league_replay_page(&packet, "me", sample_template());
    assert!(matches!(r, Err(ReportError::OpponentNotFound)));
}

#[test]
fn replay_page_skips_round_without_subject() {
    let packet = GameReplayPacket {
        success: true,
        game: Some(GameReplayData { ts: 0, results: match_of_three_rounds() }),
    };
    let html = league_replay_page(&packet, "me", "{matches}").ok().unwrap();
    assert_eq!(html.matches("multilog_result_time").count(), 2);
    let first = html.find(">1:05<").unwrap();
    let second = html.find(">0:12<").unwrap();
    assert!(first < second);
}

#[test]
fn round_markup_renders_again_unchanged() {
    let round = Round {
        left: Stats { pps: 257, apm: 6012, vs: -11000, success: true },
        right: Stats { pps: 199, apm: 4000, vs: 8050, success: false },
        time: "1:05".to_string(),
    };
    let html = TetraHtmlMatch::from(round).into_html_page();
    assert!(!html.contains('{'));
    let tokens = [
        "{left_success}", "{left_pps}", "{left_apm}", "{left_vs}", "{time}",
        "{right_success}", "{right_pps}", "{right_apm}", "{right_vs}",
    ];
    let subs: Vec<teto_pages::template::Substitution> = tokens
        .iter()
        .map(|t| teto_pages::template::Substitution { token: t.to_string(), value: "x".to_string(), count: 1 })
        .collect();
    assert_eq!(teto_pages::template::render(&html, &subs), html);
}
