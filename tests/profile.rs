use teto_pages::teto::{
    banned_page, blitz_block, bot_page, flag_markup, handle_banned, handle_bot, has_banner, league_block, parse_avatar,
    parse_bad_standing, parse_banner, parse_blitz_score, parse_country_flag, parse_distinguishment,
    parse_gametime, parse_level_tag, parse_mod_badge, parse_sprint, parse_supporter_badge,
    parse_tetra_league, parse_total_games, parse_user_badges, role_page, sprint_block, teto_page,
    teto_params, BlitzRecord, BlitzSummary, LeagueSummary, SprintRecord, SprintSummary, UserBadge,
    UserDistinguishment, UserInfo, UserRole, UserSummaries, BLITZ_PARSE_ERROR, SPRINT_PARSE_ERROR,
    TETO_HTML_BAD_STANDING, TETO_HTML_SPRINT_CHAMPION_DISTINGUISHMENT,
    TETO_HTML_TETRA_LEAGUE_CHAMPION_DISTINGUISHMENT,
};

const DAY_MS: i64 = 86_400_000;

fn info() -> UserInfo {
    UserInfo {
        id: "5e8f".to_string(),
        username: "osk".to_string(),
        role: UserRole::User,
        ts: None,
        botmaster: None,
        badges: vec![],
        level: 116,
        gamesplayed: -1,
        gameswon: -1,
        gametime: -1,
        country: None,
        badstanding: None,
        supporter_tier: 0,
        avatar_revision: None,
        banner_revision: None,
        friend_count: None,
        distinguishment: None,
    }
}

fn ranked_league(standing: i64) -> LeagueSummary {
    LeagueSummary {
        gamesplayed: Some(120),
        gameswon: Some(80),
        tr: Some(24101),
        rank: Some("X+".to_string()),
        apm: Some(12345),
        pps: Some(312),
        vs: None,
        standing: Some(standing),
        standing_local: Some(1234),
    }
}

fn empty_league() -> LeagueSummary {
    LeagueSummary {
        gamesplayed: None,
        gameswon: None,
        tr: None,
        rank: None,
        apm: None,
        pps: None,
        vs: None,
        standing: None,
        standing_local: None,
    }
}

fn sprint(rank: i64) -> SprintSummary {
    SprintSummary {
        record: Some(SprintRecord { ts: "2024-01-01T00:00:00Z".to_string(), finaltime: 21_456 }),
        rank,
        rank_local: -1,
    }
}

fn no_blitz() -> BlitzSummary {
    BlitzSummary { record: None, rank: -1, rank_local: -1 }
}

#[test]
fn level_tag_of_level_from_half_million_xp() {
    assert_eq!(parse_level_tag(116), "lt_shape_1 lt_badge_color_0 lt_shape_color_1");
}

#[test]
fn level_tag_at_top_level_is_gold() {
    assert_eq!(parse_level_tag(5000), "lt_golden");
    assert_eq!(parse_level_tag(4999), "lt_shape_4 lt_badge_color_9 lt_shape_color_9");
}

#[test]
fn playtime_of_5000_seconds_is_one_hour() {
    assert_eq!(
        parse_gametime(5000),
        "<div class=\"tetra_tag_gametime\" title=\"Total time played\">1<span>H</span></div>"
    );
}

#[test]
fn playtime_buckets() {
    assert!(parse_gametime(3600).contains(">60<span>M</span>"));
    assert!(parse_gametime(90).contains(">1<span>M</span>"));
    assert!(parse_gametime(60).contains(">60<span>S</span>"));
}

#[test]
fn unknown_playtime_renders_nothing() {
    assert_eq!(parse_gametime(-1), "");
}

#[test]
fn unknown_games_render_no_sentinel() {
    assert_eq!(parse_total_games(-1, -1), "");
    let played_only = parse_total_games(10, -1);
    assert!(!played_only.contains("-1"));
    assert!(played_only.contains(" / 10"));
    let won_only = parse_total_games(-1, 4);
    assert!(!won_only.contains("-1"));
    assert!(won_only.contains("<span>4</span>"));
}

#[test]
fn total_games_shows_won_of_played() {
    assert_eq!(
        parse_total_games(10, 5),
        "<div class=\"tetra_tag_record\" title=\"Online games won / online games played\">\n<span>5</span> / 10\n</div>"
    );
}

#[test]
fn avatar_falls_back_to_placeholder() {
    assert_eq!(parse_avatar(0, "abc"), "/teto/unkown_avatar.webp");
    assert_eq!(parse_avatar(3, "abc"), "https://tetr.io/user-content/avatars/abc.jpg?rv=3");
}

#[test]
fn banner_needs_revision_and_support() {
    assert!(has_banner(2, 1));
    assert!(!has_banner(0, 1));
    assert!(!has_banner(2, 0));
    assert_eq!(parse_banner(false, 2, "abc"), "");
    let b = parse_banner(true, 2, "abc");
    assert!(b.contains("src=\"https://tetr.io/user-content/banners/abc.jpg?rv=2\""));
    assert!(b.ends_with("<div class=\"tetra_modal_banner_sep ns\"></div>"));
}

#[test]
fn bad_standing_only_when_flagged() {
    assert_eq!(parse_bad_standing(Some(true)), TETO_HTML_BAD_STANDING);
    assert_eq!(parse_bad_standing(Some(false)), "");
    assert_eq!(parse_bad_standing(None), "");
}

#[test]
fn staff_roles_get_badges() {
    assert!(parse_mod_badge(&UserRole::Mod).contains("verified-mod.png"));
    assert!(parse_mod_badge(&UserRole::SysOp).contains("verified-sysop.png"));
    assert_eq!(parse_mod_badge(&UserRole::User), "");
    assert_eq!(parse_mod_badge(&UserRole::Unknown("x".to_string())), "");
}

#[test]
fn country_flag_is_lower_case() {
    assert_eq!(
        parse_country_flag(Some("US")),
        "<img class=\"flag\" src=\"https://tetr.io/res/flags/us.png\">"
    );
    assert_eq!(parse_country_flag(None), "");
    assert_eq!(flag_markup("fr"), "<img class=\"flag\" src=\"https://tetr.io/res/flags/fr.png\">");
}

#[test]
fn supporter_badge_shows_tier() {
    assert!(parse_supporter_badge(3).contains("supporter3.png"));
    assert_eq!(parse_supporter_badge(0), "");
}

#[test]
fn badges_are_listed_in_order() {
    assert_eq!(parse_user_badges(&vec![]), "");
    let badges = vec![UserBadge { id: "one".to_string() }, UserBadge { id: "two".to_string() }];
    let html = parse_user_badges(&badges);
    let one = html.find("badges/one.png").unwrap();
    let two = html.find("badges/two.png").unwrap();
    assert!(one < two);
    assert!(html.starts_with("<div class=\"tetra_badge_holder ns\">\n<img"));
}

#[test]
fn world_champion_distinguishment_repeats_detail() {
    let d = UserDistinguishment {
        distinguishment_type: "twc".to_string(),
        detail: Some("2023".to_string()),
        header: None,
        footer: None,
    };
    let html = parse_distinguishment(&Some(d)).unwrap();
    assert!(html.contains("data-detail=\"2023\""));
    assert!(html.contains("<p>2023 TETR.IO WORLD CHAMPIONSHIP</p>"));
}

#[test]
fn staff_distinguishment_draws_logos() {
    let d = UserDistinguishment {
        distinguishment_type: "staff".to_string(),
        detail: Some("admin".to_string()),
        header: Some("%tetrio% STAFF".to_string()),
        footer: Some("by %osk%".to_string()),
    };
    let html = parse_distinguishment(&Some(d)).unwrap();
    assert!(html.contains("data-detail=\"admin\""));
    assert!(html.contains("<h1><img src=\"https://tetr.io/res/tetrio-logo.svg\" style=\"filter: invert(1);\"> STAFF</h1>"));
    assert!(html.contains("<p>by <img src=\"https://tetr.io/res/osk.svg\"></p>"));
}

#[test]
fn distinguishment_needs_detail() {
    let d = UserDistinguishment {
        distinguishment_type: "staff".to_string(),
        detail: None,
        header: None,
        footer: None,
    };
    assert!(parse_distinguishment(&Some(d)).is_none());
    assert!(parse_distinguishment(&None).is_none());
}

#[test]
fn league_block_of_ranked_player() {
    let r = parse_tetra_league(&ranked_league(1));
    assert_eq!(r.distinguishment, Some(TETO_HTML_TETRA_LEAGUE_CHAMPION_DISTINGUISHMENT));
    assert!(r.result.contains("<img src=\"https://tetr.io/res/league-ranks/x+.png\">24101"));
    assert!(r.result.contains("<span>123.45</span> apm <span>3.12</span> pps <span>0.00</span> vs"));
    assert!(r.result.contains("#<span>1</span>"));
    assert!(r.result.contains("#<span>1,234</span>"));
}

#[test]
fn league_block_under_ten_games_counts_rating_games() {
    let mut l = ranked_league(-1);
    l.gamesplayed = Some(4);
    l.gameswon = Some(3);
    let r = league_block(&l, "ignored");
    assert!(r.result.contains("<h5>4<span class=\"ms\">/10 rating games</span></h5>"));
    assert!(r.result.contains("<span>3</span> games won"));
    assert_eq!(r.distinguishment, None);
}

#[test]
fn league_block_without_games_is_empty() {
    let mut l = ranked_league(5);
    l.gamesplayed = Some(0);
    assert_eq!(parse_tetra_league(&l).result, "");
    assert_eq!(parse_tetra_league(&empty_league()).result, "");
}

#[test]
fn unranked_league_shows_no_standing() {
    let mut l = ranked_league(1);
    l.rank = Some("Z".to_string());
    let r = parse_tetra_league(&l);
    assert!(!r.result.contains("standingset"));
    assert!(!r.result.contains("standingset_global"));
    assert!(!r.result.contains("standingset_local"));
    assert!(r.result.contains("<img src=\"https://tetr.io/res/league-ranks/z.png\">24101"));
    assert!(r.result.contains("<span>123.45</span> apm"));
}

#[test]
fn sprint_block_formats_time_and_date() {
    let r = sprint_block(&sprint(1), 0, 3 * DAY_MS);
    assert_eq!(r.distinguishment, Some(TETO_HTML_SPRINT_CHAMPION_DISTINGUISHMENT));
    assert!(r.result.contains("<h5>0:21<span class=\"ms\">456</span></h5>"));
    assert!(r.result.contains("<span>3 DAYS</span> ago"));
    assert!(r.result.contains("#<span>1</span>"));
}

#[test]
fn blitz_block_groups_score() {
    let summary = BlitzSummary {
        record: Some(BlitzRecord { ts: "x".to_string(), score: 1_234_567 }),
        rank: 12345,
        rank_local: 3,
    };
    let r = blitz_block(&summary, 0, 400 * DAY_MS);
    assert_eq!(r.distinguishment, None);
    assert!(r.result.contains("<h5>1,234,567</h5>"));
    assert!(r.result.contains("<span>1 YEAR</span> ago"));
    assert!(r.result.contains("#<span>12,345</span>"));
    assert!(r.result.contains("#<span>3</span>"));
}

#[test]
fn unreadable_record_instant_is_an_error() {
    let mut s = sprint(3);
    s.record.as_mut().unwrap().ts = "not a date".to_string();
    assert_eq!(parse_sprint(&s, 0).err(), Some(SPRINT_PARSE_ERROR));
    let b = BlitzSummary { record: Some(BlitzRecord { ts: "??".to_string(), score: 1 }), rank: 1, rank_local: 1 };
    assert_eq!(parse_blitz_score(&b, 0).err(), Some(BLITZ_PARSE_ERROR));
}

#[test]
fn readable_record_instant_is_used() {
    let r = parse_sprint(&sprint(9), 1_704_067_200_000 + 2 * 3_600_000).ok().unwrap();
    assert!(r.result.contains("<span>2 HOURS</span> ago"));
}

#[test]
fn league_champion_banner_outranks_sprint() {
    let summaries = UserSummaries { league: ranked_league(1), sprint: sprint(1), blitz: no_blitz() };
    let params = teto_params(&info(), &summaries, 1_800_000_000_000).ok().unwrap();
    assert_eq!(params.distinguishment, TETO_HTML_TETRA_LEAGUE_CHAMPION_DISTINGUISHMENT);
}

#[test]
fn sprint_champion_banner_when_league_is_not_first() {
    let summaries = UserSummaries { league: ranked_league(2), sprint: sprint(1), blitz: no_blitz() };
    let params = teto_params(&info(), &summaries, 1_800_000_000_000).ok().unwrap();
    assert_eq!(params.distinguishment, TETO_HTML_SPRINT_CHAMPION_DISTINGUISHMENT);
}

#[test]
fn profile_page_fills_template() {
    let mut user = info();
    user.country = Some("JP".to_string());
    user.friend_count = Some(12);
    user.ts = Some("2020-01-01T00:00:00Z".to_string());
    let summaries = UserSummaries { league: empty_league(), sprint: sprint(50), blitz: no_blitz() };
    let template = "{{username}}|{{level}}|{{friends}}|{{joined_at}}|{{flag}}|{{country_flag}}|{{game_time}}|{{total_games}}";
    let page = teto_page(&user, &summaries, template, 1_600_000_000_000).ok().unwrap();
    let flag = "<img class=\"flag\" src=\"https://tetr.io/res/flags/jp.png\">";
    assert_eq!(page, format!("OSK|116|12|JOINED 8 MONTHS AGO - |{flag}|{flag}||"));
}

#[test]
fn profile_without_join_date() {
    let summaries = UserSummaries { league: empty_league(), sprint: sprint(50), blitz: no_blitz() };
    let page = teto_page(&info(), &summaries, "{{joined_at}}", 0).ok().unwrap();
    assert_eq!(page, "HERE SINCE THE BEGINNING - ");
}

#[test]
fn banned_and_bot_pages() {
    let mut user = info();
    user.role = UserRole::Banned;
    user.avatar_revision = Some(7);
    let banned = handle_banned(&user, "{{avatar}} {{username}}");
    assert_eq!(banned, "https://tetr.io/user-content/avatars/5e8f.jpg?rv=7 OSK");
    assert_eq!(role_page(&user, "b:{{username}}", "x").unwrap(), "b:OSK");
    user.role = UserRole::Bot;
    user.botmaster = Some("maker".to_string());
    assert_eq!(handle_bot(&user, "{{username}} by {{owner}}"), "OSK by MAKER");
    user.role = UserRole::User;
    assert!(role_page(&user, "a", "b").is_none());
}

#[test]
fn banned_and_bot_markup_show_given_names() {
    let user = info();
    assert_eq!(banned_page(&user, "Shown", "{{avatar}}|{{username}}"), "/teto/unkown_avatar.webp|Shown");
    assert_eq!(bot_page(&user, "B", "O", "{{username}}/{{owner}}/{{owner}}"), "B/O/{{owner}}");
}
