//! The profile card of a player: level, badges, standings and records, put
//! into the card's template.
use vstd::prelude::*;
use vstd::string::StringExecFns;
use crate::format::{
    dec, decimal, format_hundredths, grouped, hundredths, long_clock, parse_blitz_score_number,
    parse_duration_since, signed_dec, signed_decimal, tdiv, time_ago, format_long_clock,
};
use crate::template::{lacks, replace_all, replace_all_seq, replacen, replacen_seq, sub1};
use crate::text::{lower_of, lowercase, upper_of, uppercase};
use crate::time::{parse_utc_millis, utc_millis_of};

verus! {

broadcast use vstd::string::group_string_axioms;

pub const TETO_HTML_FLAG: &'static str = "<img class=\"flag\" src=\"https://tetr.io/res/flags/{{country_code}}.png\">";

pub const TETO_HTML_BANNER: &'static str = "<img class=\"tetra_modal_banner ns\" src=\"{{banner_url}}\">";

pub const TETO_HTML_MOD_BADGE: &'static str = "<img class=\"mod_badge\" src=\"{{mod_icon}}\" title=\"This person has unlimited permissions on TETR.IO.\" alt=\"Sysop\">";

pub const TETO_HTML_BANNER_SEP: &'static str = "<div class=\"tetra_modal_banner_sep ns\"></div>";

pub const TETO_HTML_GAME_TIME: &'static str = "<div class=\"tetra_tag_gametime\" title=\"Total time played\">{{time}}<span>{{unit}}</span></div>";

pub const TETO_HTML_SUPPORTER: &'static str = "<img class=\"supporter_badge\" src=\"https://tetr.io/res/supporter{{supporter_tier}}.png\" title=\"This person is supporting TETR.IO ♥\" alt=\"Supporter\">";

pub const TETO_HTML_RECORDS: &'static str = "<div class=\"tetra_modal_records flex-row\">
{{tetra_league}}
{{sprint}}
{{blitz}}";

pub const TETO_TWC_DISTINGUISHMENT: &'static str = r#"<div class="tetra_distinguishment ns tetra_distinguishment_twc" data-detail="{{detail}}"><h1>TETR.IO WORLD CHAMPION</h1><p>{{detail}} TETR.IO WORLD CHAMPIONSHIP</p></div>"#;

pub const TETO_HTML_RECORDS_TETRA_LEAGUE: &'static str = r#"<div class="tetra_modal_record flex-item tetra_modal_record_league tetra_modal_record_league_active">
							<div class="tetra_modal_record_header">
								<h6>TETRA LEAGUE</h6>
								<div class="standingset">
									
										{{country_ranking}}
									
									
										<div class="standingset_global " data-digits="4">#<span>{{global_ranking}}</span></div>
									
								</div>
							</div>
							<h5 title="14173.95200992754"><img src="{{rank}}">{{tr}}<span class="ms">TR</span></h5>
							<h3><span>{{apm}}</span> apm <span>{{pps}}</span> pps <span>{{vs}}</span> vs</h3></div>"#;

/// The league block of an unranked player: as the ranked one, without any
/// standing.
pub const TETO_HTML_RECORDS_TETRA_LEAGUE_UNRANKED: &'static str = r#"<div class="tetra_modal_record flex-item tetra_modal_record_league tetra_modal_record_league_active">
							<div class="tetra_modal_record_header"><h6>TETRA LEAGUE</h6></div>
							<h5 title="14173.95200992754"><img src="{{rank}}">{{tr}}<span class="ms">TR</span></h5>
							<h3><span>{{apm}}</span> apm <span>{{pps}}</span> pps <span>{{vs}}</span> vs</h3></div>"#;

pub const TETO_HTML_RECORDS_TETRA_LEAGUE_RATING: &'static str = r#"<div class="tetra_modal_record flex-item tetra_modal_record_league">
							<div class="tetra_modal_record_header"><h6>TETRA LEAGUE</h6></div>
							<h5>{{games_played}}<span class="ms">/10 rating games</span></h5>
							<h3><span>{{games_won}}</span> games won</h3>
						</div>
"#;

pub const TETO_HTML_RECORDS_COUNTRY_RANKING: &'static str = r#"<div class="standingset_local">{{country_flag}} #<span>{{country_ranking}}</span></div>"#;

pub const TETO_HTML_RECORDS_SPRINT: &'static str = r#"<div class="tetra_modal_record flex-item">
						<div class="tetra_modal_record_header">
							<h6>40 LINES</h6>
							<div class="standingset">
								
									{{country_ranking}}
								
								
									<div class="standingset_global " data-digits="6">#<span>{{global_ranking}}</span></div>
								
							</div>
						</div>
						<h5>{{sprint_time}}<span class="ms">{{sprint_time_ms}}</span></h5>
						<h3><span>{{date}}</span> ago</h3></div>"#;

pub const TETO_HTML_RECORDS_BLITZ: &'static str = r#"<div class="tetra_modal_record flex-item">
						<div class="tetra_modal_record_header">
							<h6>BLITZ</h6>
							<div class="standingset">
								
									{{country_ranking}}
								
								
									<div class="standingset_global " data-digits="5">#<span>{{global_ranking}}</span></div>
								
							</div>
						</div>
						<h5>{{blitz_score}}</h5>
						<h3><span>{{date}}</span> ago</h3></div>"#;

pub const TETO_HTML_BADGES: &'static str = "<div class=\"tetra_badge_holder ns\">{{badges}}</div>";

pub const TETO_HTML_BADGE: &'static str = "<img
class=\"tetra_badge\" src=\"{{badge}}\" title=\"Huge Supporter\" style=\"--i: 0;\">";

pub const TETO_HTML_TETRA_LEAGUE_CHAMPION_DISTINGUISHMENT: &'static str = "<div class=\"tetra_distinguishment ns tetra_distinguishment_champion\" data-detail=\"league\"><h1>TETRA LEAGUE CHAMPION</h1></div>";

pub const TETO_HTML_SPRINT_CHAMPION_DISTINGUISHMENT: &'static str = "<div class=\"tetra_distinguishment ns tetra_distinguishment_champion\" data-detail=\"40l\"><h1>40 LINES CHAMPION</h1></div>";

pub const TETO_HTML_BLITZ_CHAMPION_CHAMPION_DISTINGUISHMENT: &'static str = "<div class=\"tetra_distinguishment ns tetra_distinguishment_champion\" data-detail=\"blitz\"><h1>BLITZ CHAMPION</h1></div>";

pub const TETO_HTML_STAFF_DISTINGUISHMENT: &'static str = "<div class=\"tetra_distinguishment ns tetra_distinguishment_staff\" data-detail=\"{{staff_type}}\">
<h1>{{title}}</h1>
{{teto_staff_subtitle}}
</div>";

pub const TETO_HTML_TOTAL_GAMES: &'static str = "<div class=\"tetra_tag_record\" title=\"Online games won / online games played\">
{{online_games_won}}{{online_games_played}}
</div>";

pub const TETO_HTML_GAMES_WON: &'static str = "<span>{{online_games_won}}</span>";

pub const TETO_HTML_BAD_STANDING: &'static str = "<div class=\"tetra_badstanding ns\"><h1>BAD STANDING</h1><p>one or more recent bans on record</p></div>";

pub const TETO_HTML_STAFF_DISTINGUISHMENT_SUBTITLE: &'static str = "<p>{{subtitle_text}}</p>";

pub const TETO_HTML_STAFF_DISTINGUISHMENT_TETRIO_LOGO: &'static str = "<img src=\"https://tetr.io/res/tetrio-logo.svg\" style=\"filter: invert(1);\">";

pub const TETO_HTML_STAFF_DISTINGUISHMENT_OSK: &'static str = "<img src=\"https://tetr.io/res/osk.svg\">";

/// The avatar shown where a player has none.
pub const UNKNOWN_AVATAR: &'static str = "/teto/unkown_avatar.webp";

/// Where a player's avatar is kept, before their id.
pub const AVATAR_PREFIX: &'static str = "https://tetr.io/user-content/avatars/";

/// Where a player's banner is kept, before their id.
pub const BANNER_PREFIX: &'static str = "https://tetr.io/user-content/banners/";

/// Between a player's id and the revision of their avatar or banner.
pub const REVISION_INFIX: &'static str = ".jpg?rv=";

/// A player's standing with the game service.
pub enum UserRole {
    Anon,
    User,
    Bot,
    Banned,
    Mod,
    Admin,
    SysOp,
    HalfMod,
    Hidden,
    Unknown(String),
}

/// A badge a player holds.
pub struct UserBadge {
    pub id: String,
}

/// A banner that staff or world champions carry.
pub struct UserDistinguishment {
    pub distinguishment_type: String,
    pub detail: Option<String>,
    pub header: Option<String>,
    pub footer: Option<String>,
}

/// `rev` in decimal, after `prefix`, the player's id and `.jpg?rv=`.
pub open spec fn revision_url(prefix: Seq<char>, user_id: Seq<char>, rev: i64) -> Seq<char> {
    prefix + user_id + REVISION_INFIX@ + signed_dec(rev as int)
}

fn revision_url_text(prefix: &str, user_id: &str, rev: i64) -> (r: String)
    ensures
        r@ == revision_url(prefix@, user_id@, rev),
{
    let mut r = String::from_str(prefix);
    r.append(user_id);
    r.append(REVISION_INFIX);
    let n = signed_decimal(rev);
    r.append(n.as_str());
    r
}

/// Whether a player shows a banner: they have uploaded one and support the
/// game.
pub fn has_banner(banner_rev: i64, supporter_tier: i64) -> (r: bool)
    ensures
        r == (banner_rev != 0 && supporter_tier != 0),
{
    banner_rev != 0 && supporter_tier != 0
}

/// The banner's markup, or nothing.
pub open spec fn banner_html(has_banner: bool, banner_rev: i64, user_id: Seq<char>) -> Seq<char> {
    if has_banner {
        sub1(TETO_HTML_BANNER@, "{{banner_url}}", revision_url(BANNER_PREFIX@, user_id, banner_rev))
            + TETO_HTML_BANNER_SEP@
    } else {
        Seq::<char>::empty()
    }
}

/// The markup of a player's banner, where they show one.
pub fn parse_banner(has_banner: bool, banner_rev: i64, user_id: &str) -> (r: String)
    ensures
        r@ == banner_html(has_banner, banner_rev, user_id@),
{
    if has_banner {
        let url = revision_url_text(BANNER_PREFIX, user_id, banner_rev);
        let mut r = replacen(TETO_HTML_BANNER, "{{banner_url}}", url.as_str(), 1);
        r.append(TETO_HTML_BANNER_SEP);
        r
    } else {
        String::new()
    }
}

/// The avatar's address: the player's own where its revision is not 0.
pub open spec fn avatar_url(avatar_rev: i64, user_id: Seq<char>) -> Seq<char> {
    if avatar_rev != 0 {
        revision_url(AVATAR_PREFIX@, user_id, avatar_rev)
    } else {
        UNKNOWN_AVATAR@
    }
}

/// The address of a player's avatar, or of the placeholder where they have
/// none.
pub fn parse_avatar(avatar_rev: i64, user_id: &str) -> (r: String)
    ensures
        r@ == avatar_url(avatar_rev, user_id@),
{
    if avatar_rev != 0 {
        revision_url_text(AVATAR_PREFIX, user_id, avatar_rev)
    } else {
        String::from_str(UNKNOWN_AVATAR)
    }
}

/// The bad-standing notice, shown only where the flag is set.
pub open spec fn bad_standing_html(bad_standing: Option<bool>) -> Seq<char> {
    if bad_standing == Some(true) {
        TETO_HTML_BAD_STANDING@
    } else {
        Seq::<char>::empty()
    }
}

/// The bad-standing notice, where a player has recent bans.
pub fn parse_bad_standing(bad_standing: Option<bool>) -> (r: &'static str)
    ensures
        r@ == bad_standing_html(bad_standing),
{
    proof {
        reveal_strlit("");
    }
    match bad_standing {
        Some(b) => if b {
            TETO_HTML_BAD_STANDING
        } else {
            ""
        },
        None => "",
    }
}

/// The icon of a staff role, or `None` for the others.
pub open spec fn mod_icon(role: UserRole) -> Option<Seq<char>> {
    match role {
        UserRole::Mod => Some("https://tetr.io/res/verified-mod.png"@),
        UserRole::Admin => Some("https://tetr.io/res/verified-admin.png"@),
        UserRole::SysOp => Some("https://tetr.io/res/verified-sysop.png"@),
        UserRole::HalfMod => Some("https://tetr.io/res/verified-halfmod.png"@),
        _ => None,
    }
}

/// The staff badge's markup, or nothing.
pub open spec fn mod_badge_html(role: UserRole) -> Seq<char> {
    match mod_icon(role) {
        Some(icon) => replace_all_seq(TETO_HTML_MOD_BADGE@, "{{mod_icon}}"@, icon),
        None => Seq::<char>::empty(),
    }
}

/// The badge of a staff member, with their role's icon.
pub fn parse_mod_badge(role: &UserRole) -> (r: String)
    ensures
        r@ == mod_badge_html(*role),
{
    match role {
        UserRole::Mod => replace_all(TETO_HTML_MOD_BADGE, "{{mod_icon}}", "https://tetr.io/res/verified-mod.png"),
        UserRole::Admin => replace_all(TETO_HTML_MOD_BADGE, "{{mod_icon}}", "https://tetr.io/res/verified-admin.png"),
        UserRole::SysOp => replace_all(TETO_HTML_MOD_BADGE, "{{mod_icon}}", "https://tetr.io/res/verified-sysop.png"),
        UserRole::HalfMod => replace_all(
            TETO_HTML_MOD_BADGE,
            "{{mod_icon}}",
            "https://tetr.io/res/verified-halfmod.png",
        ),
        _ => String::new(),
    }
}

/// The flag's markup for a country code already in lower case.
pub open spec fn flag_html(lowered_code: Seq<char>) -> Seq<char> {
    sub1(TETO_HTML_FLAG@, "{{country_code}}", lowered_code)
}

/// The flag of a country, from its code in lower case.
pub fn flag_markup(lowered_code: &str) -> (r: String)
    ensures
        r@ == flag_html(lowered_code@),
{
    replacen(TETO_HTML_FLAG, "{{country_code}}", lowered_code, 1)
}

/// The flag of a player's country, or nothing.
pub open spec fn country_flag_html(country: Option<Seq<char>>) -> Seq<char> {
    match country {
        Some(c) => flag_html(lower_of(c)),
        None => Seq::<char>::empty(),
    }
}

/// The flag of a player's country, where they give one.
pub fn parse_country_flag(country: Option<&str>) -> (r: String)
    ensures
        r@ == country_flag_html(
            match country {
                Some(c) => Some(c@),
                None => None,
            },
        ),
{
    match country {
        Some(c) => {
            let lowered = lowercase(c);
            flag_markup(lowered.as_str())
        },
        None => String::new(),
    }
}

/// The level at which the badge turns gold.
pub const MAX_LEVEL: u64 = 5000;

/// The classes of a level's badge: its shape and colours, or gold at the top
/// level.
pub open spec fn level_tag(level: nat) -> Seq<char> {
    if level != MAX_LEVEL {
        "lt_shape_"@ + dec((level / 100) % 5) + " lt_badge_color_"@ + dec((level / 500) % 10)
            + " lt_shape_color_"@ + dec((level / 10) % 10)
    } else {
        "lt_golden"@
    }
}

/// The classes of the badge of `level`.
pub fn parse_level_tag(level: u64) -> (r: String)
    ensures
        r@ == level_tag(level as nat),
{
    if level != MAX_LEVEL {
        let mut r = String::from_str("lt_shape_");
        r.append(decimal((level / 100) % 5).as_str());
        r.append(" lt_badge_color_");
        r.append(decimal((level / 500) % 10).as_str());
        r.append(" lt_shape_color_");
        r.append(decimal((level / 10) % 10).as_str());
        r
    } else {
        String::from_str("lt_golden")
    }
}

/// The games-won-of-played tag; a count of -1 is unknown and shows nothing,
/// and with both unknown there is no tag.
pub open spec fn total_games_html(gamesplayed: i64, gameswon: i64) -> Seq<char> {
    if gamesplayed != -1 || gameswon != -1 {
        let won = if gameswon != -1 {
            sub1(TETO_HTML_GAMES_WON@, "{{online_games_won}}", signed_dec(gameswon as int))
        } else {
            Seq::<char>::empty()
        };
        let played = if gamesplayed != -1 {
            " / "@ + signed_dec(gamesplayed as int)
        } else {
            Seq::<char>::empty()
        };
        sub1(
            sub1(TETO_HTML_TOTAL_GAMES@, "{{online_games_won}}", won),
            "{{online_games_played}}",
            played,
        )
    } else {
        Seq::<char>::empty()
    }
}

/// The tag of games won out of games played.
pub fn parse_total_games(gamesplayed: i64, gameswon: i64) -> (r: String)
    ensures
        r@ == total_games_html(gamesplayed, gameswon),
{
    if gamesplayed != -1 || gameswon != -1 {
        let games_won = if gameswon != -1 {
            replacen(TETO_HTML_GAMES_WON, "{{online_games_won}}", signed_decimal(gameswon).as_str(), 1)
        } else {
            String::new()
        };
        let games_played = if gamesplayed != -1 {
            let mut p = String::from_str(" / ");
            p.append(signed_decimal(gamesplayed).as_str());
            p
        } else {
            String::new()
        };
        let r = replacen(TETO_HTML_TOTAL_GAMES, "{{online_games_won}}", games_won.as_str(), 1);
        replacen(r.as_str(), "{{online_games_played}}", games_played.as_str(), 1)
    } else {
        String::new()
    }
}

/// Play time in the coarsest unit that still counts at least one: hours over
/// an hour, minutes over a minute, else seconds.
pub open spec fn playtime_bucket(secs: nat) -> (nat, Seq<char>) {
    if secs > 3600 {
        (secs / 3600, "H"@)
    } else if secs > 60 {
        (secs / 60, "M"@)
    } else {
        (secs, "S"@)
    }
}

/// The play-time tag; -1 is unknown and shows nothing.
pub open spec fn gametime_html(gametime: i64) -> Seq<char> {
    if gametime != -1 {
        let (time, unit) = playtime_bucket(gametime as nat);
        sub1(sub1(TETO_HTML_GAME_TIME@, "{{time}}", dec(time)), "{{unit}}", unit)
    } else {
        Seq::<char>::empty()
    }
}

/// The tag of a player's total play time, in whole seconds.
pub fn parse_gametime(gametime: i64) -> (r: String)
    requires
        gametime >= -1,
    ensures
        r@ == gametime_html(gametime),
{
    if gametime != -1 {
        let seconds = gametime as u64;
        let (time, unit) = if seconds > 3600 {
            (seconds / 3600, "H")
        } else if seconds > 60 {
            (seconds / 60, "M")
        } else {
            (seconds, "S")
        };
        let r = replacen(TETO_HTML_GAME_TIME, "{{time}}", decimal(time).as_str(), 1);
        replacen(r.as_str(), "{{unit}}", unit, 1)
    } else {
        String::new()
    }
}

/// The supporter badge of a tier, none for tier 0.
pub open spec fn supporter_badge_html(tier: i64) -> Seq<char> {
    if tier != 0 {
        sub1(TETO_HTML_SUPPORTER@, "{{supporter_tier}}", signed_dec(tier as int))
    } else {
        Seq::<char>::empty()
    }
}

/// The badge of a player who supports the game.
pub fn parse_supporter_badge(supporter_tier: i64) -> (r: String)
    ensures
        r@ == supporter_badge_html(supporter_tier),
{
    if supporter_tier != 0 {
        replacen(TETO_HTML_SUPPORTER, "{{supporter_tier}}", signed_decimal(supporter_tier).as_str(), 1)
    } else {
        String::new()
    }
}

/// The markup of one badge.
pub open spec fn badge_html(id: Seq<char>) -> Seq<char> {
    sub1(TETO_HTML_BADGE@, "{{badge}}", "https://tetr.io/res/badges/"@ + id + ".png"@)
}

/// Each badge's markup after a line break, in order.
pub open spec fn badge_lines(badges: Seq<UserBadge>) -> Seq<char>
    decreases badges.len(),
{
    if badges.len() == 0 {
        Seq::<char>::empty()
    } else {
        badge_lines(badges.drop_last()) + "\n"@ + badge_html(badges.last().id@)
    }
}

/// The badge holder, or nothing for no badge.
pub open spec fn badges_html(badges: Seq<UserBadge>) -> Seq<char> {
    if badges.len() > 0 {
        sub1(TETO_HTML_BADGES@, "{{badges}}", badge_lines(badges))
    } else {
        Seq::<char>::empty()
    }
}

/// The holder of a player's badges, in order.
pub fn parse_user_badges(badges: &Vec<UserBadge>) -> (r: String)
    ensures
        r@ == badges_html(badges@),
{
    if badges.len() == 0 {
        return String::new();
    }
    let mut lines = String::new();
    let mut i: usize = 0;
    assert(badges@.take(0) =~= Seq::<UserBadge>::empty());
    while i < badges.len()
        invariant
            i <= badges@.len(),
            lines@ == badge_lines(badges@.take(i as int)),
        decreases badges@.len() - i,
    {
        let mut url = String::from_str("https://tetr.io/res/badges/");
        url.append(badges[i].id.as_str());
        url.append(".png");
        let one = replacen(TETO_HTML_BADGE, "{{badge}}", url.as_str(), 1);
        lines.append("\n");
        lines.append(one.as_str());
        assert(badges@.take(i + 1).drop_last() =~= badges@.take(i as int));
        i = i + 1;
    }
    assert(badges@.take(i as int) =~= badges@);
    replacen(TETO_HTML_BADGES, "{{badges}}", lines.as_str(), 1)
}

/// The country standing's markup; -1 is unranked and shows nothing.
pub open spec fn country_ranking_html(standing_local: i64) -> Seq<char> {
    if standing_local != -1 {
        sub1(TETO_HTML_RECORDS_COUNTRY_RANKING@, "{{country_ranking}}", grouped((standing_local as u64) as nat))
    } else {
        Seq::<char>::empty()
    }
}

fn country_ranking(standing_local: i64) -> (r: String)
    ensures
        r@ == country_ranking_html(standing_local),
{
    if standing_local != -1 {
        replacen(
            TETO_HTML_RECORDS_COUNTRY_RANKING,
            "{{country_ranking}}",
            parse_blitz_score_number(standing_local as u64).as_str(),
            1,
        )
    } else {
        String::new()
    }
}

/// `s` with the `%tetrio%` and `%osk%` marks turned into their logos.
pub open spec fn with_logos(s: Seq<char>) -> Seq<char> {
    replace_all_seq(
        replace_all_seq(s, "%tetrio%"@, TETO_HTML_STAFF_DISTINGUISHMENT_TETRIO_LOGO@),
        "%osk%"@,
        TETO_HTML_STAFF_DISTINGUISHMENT_OSK@,
    )
}

fn logos(s: &str) -> (r: String)
    ensures
        r@ == with_logos(s@),
{
    let r = replace_all(s, "%tetrio%", TETO_HTML_STAFF_DISTINGUISHMENT_TETRIO_LOGO);
    replace_all(r.as_str(), "%osk%", TETO_HTML_STAFF_DISTINGUISHMENT_OSK)
}

/// The kind of distinguishment that world champions carry.
pub const WORLD_CHAMPION_KIND: &'static str = "twc";

/// A player's own distinguishment banner: the world champion's, or the
/// staff's with its header and footer; none without a detail.
pub open spec fn distinguishment_html(d: Option<UserDistinguishment>) -> Option<Seq<char>> {
    match d {
        None => None,
        Some(d) => match d.detail {
            None => None,
            Some(detail) => if d.distinguishment_type@ == WORLD_CHAMPION_KIND@ {
                Some(replacen_seq(TETO_TWC_DISTINGUISHMENT@, "{{detail}}"@, detail@, 2))
            } else {
                let header = match d.header {
                    Some(h) => with_logos(h@),
                    None => Seq::<char>::empty(),
                };
                let footer = match d.footer {
                    Some(f) => sub1(TETO_HTML_STAFF_DISTINGUISHMENT_SUBTITLE@, "{{subtitle_text}}", with_logos(f@)),
                    None => Seq::<char>::empty(),
                };
                Some(
                    sub1(
                        sub1(sub1(TETO_HTML_STAFF_DISTINGUISHMENT@, "{{staff_type}}", detail@), "{{title}}", header),
                        "{{teto_staff_subtitle}}",
                        footer,
                    ),
                )
            },
        },
    }
}

/// The banner of a player's own distinguishment, where it has a detail.
pub fn parse_distinguishment(distinguishment: &Option<UserDistinguishment>) -> (r: Option<String>)
    ensures
        crate::replay::opt_view(r) == distinguishment_html(*distinguishment),
{
    let d = match distinguishment {
        Some(d) => d,
        None => {
            return None;
        },
    };
    let detail = match &d.detail {
        Some(detail) => detail,
        None => {
            return None;
        },
    };
    if d.distinguishment_type == String::from_str(WORLD_CHAMPION_KIND) {
        return Some(replacen(TETO_TWC_DISTINGUISHMENT, "{{detail}}", detail.as_str(), 2));
    }
    let header = match &d.header {
        Some(h) => logos(h.as_str()),
        None => String::new(),
    };
    let footer = match &d.footer {
        Some(f) => replacen(TETO_HTML_STAFF_DISTINGUISHMENT_SUBTITLE, "{{subtitle_text}}", logos(f.as_str()).as_str(), 1),
        None => String::new(),
    };
    let r = replacen(TETO_HTML_STAFF_DISTINGUISHMENT, "{{staff_type}}", detail.as_str(), 1);
    let r = replacen(r.as_str(), "{{title}}", header.as_str(), 1);
    Some(replacen(r.as_str(), "{{teto_staff_subtitle}}", footer.as_str(), 1))
}

/// Whole seconds from `then_ms` to `now_ms`, rounded toward zero.
pub open spec fn elapsed_secs(now_ms: i64, then_ms: i64) -> int {
    tdiv(now_ms - then_ms, 1000)
}

/// Whole seconds from `then_ms` to `now_ms`, rounded toward zero.
pub fn elapsed_seconds(now_ms: i64, then_ms: i64) -> (r: i64)
    ensures
        r == elapsed_secs(now_ms, then_ms),
        r > i64::MIN,
{
    let d: i128 = now_ms as i128 - then_ms as i128;
    if d >= 0 {
        (d / 1000) as i64
    } else {
        let q: i128 = (-d) / 1000;
        -(q as i64)
    }
}

/// How long ago, from `now_ms`, the instant `then_ms` was.
pub open spec fn ago_text(now_ms: i64, then_ms: i64) -> Seq<char> {
    time_ago(elapsed_secs(now_ms, then_ms))
}

fn ago(now_ms: i64, then_ms: i64) -> (r: String)
    ensures
        r@ == ago_text(now_ms, then_ms),
{
    parse_duration_since(elapsed_seconds(now_ms, then_ms))
}

/// A block of the records row and the banner it earns, if any.
pub struct ParsedResultWithDistinguishment {
    pub distinguishment: Option<&'static str>,
    pub result: String,
}

/// A block of the records row and its banner, as values.
pub struct ParsedModel {
    pub distinguishment: Option<Seq<char>>,
    pub result: Seq<char>,
}

impl View for ParsedResultWithDistinguishment {
    type V = ParsedModel;

    open spec fn view(&self) -> ParsedModel {
        ParsedModel {
            distinguishment: match self.distinguishment {
                Some(d) => Some(d@),
                None => None,
            },
            result: self.result@,
        }
    }
}

/// No block and no banner.
pub open spec fn nothing_parsed() -> ParsedModel {
    ParsedModel { distinguishment: None, result: Seq::<char>::empty() }
}

/// A player's 40-lines record: the instant it was set, as the game service
/// writes it, and its final time in milliseconds.
pub struct SprintRecord {
    pub ts: String,
    pub finaltime: u64,
}

/// A player's 40-lines summary; a country rank of -1 is unranked.
pub struct SprintSummary {
    pub record: Option<SprintRecord>,
    pub rank: i64,
    pub rank_local: i64,
}

/// A player's blitz record: the instant it was set, as the game service
/// writes it, and its score.
pub struct BlitzRecord {
    pub ts: String,
    pub score: u64,
}

/// A player's blitz summary; a country rank of -1 is unranked.
pub struct BlitzSummary {
    pub record: Option<BlitzRecord>,
    pub rank: i64,
    pub rank_local: i64,
}

/// A player's league summary. `tr` is rounded to a whole number; `apm`,
/// `pps` and `vs` are in hundredths; a standing of -1 is unranked; `rank` is
/// the letter rank, `Z` when unranked.
pub struct LeagueSummary {
    pub gamesplayed: Option<i64>,
    pub gameswon: Option<i64>,
    pub tr: Option<i64>,
    pub rank: Option<String>,
    pub apm: Option<i64>,
    pub pps: Option<i64>,
    pub vs: Option<i64>,
    pub standing: Option<i64>,
    pub standing_local: Option<i64>,
}

/// A player's summaries of the three game modes.
pub struct UserSummaries {
    pub league: LeagueSummary,
    pub sprint: SprintSummary,
    pub blitz: BlitzSummary,
}

/// The banner that a global rank earns: the given one for first place.
pub open spec fn champion(rank: i64, banner: &str) -> Option<Seq<char>> {
    if rank == 1 {
        Some(banner@)
    } else {
        None
    }
}

/// The blitz block of a record set at `record_ms`, seen at `now_ms`.
pub open spec fn blitz_parsed(summary: BlitzSummary, record_ms: i64, now_ms: i64) -> ParsedModel {
    match summary.record {
        None => nothing_parsed(),
        Some(record) => {
            let t = sub1(TETO_HTML_RECORDS_BLITZ@, "{{blitz_score}}", grouped(record.score as nat));
            let t = sub1(t, "{{date}}", ago_text(now_ms, record_ms));
            let t = sub1(t, "{{global_ranking}}", grouped((summary.rank as u64) as nat));
            ParsedModel {
                distinguishment: champion(summary.rank, TETO_HTML_BLITZ_CHAMPION_CHAMPION_DISTINGUISHMENT),
                result: sub1(t, "{{country_ranking}}", country_ranking_html(summary.rank_local)),
            }
        },
    }
}

/// The blitz block, the record's instant already read.
pub fn blitz_block(summary: &BlitzSummary, record_ms: i64, now_ms: i64) -> (r: ParsedResultWithDistinguishment)
    ensures
        r@ == blitz_parsed(*summary, record_ms, now_ms),
{
    match &summary.record {
        None => ParsedResultWithDistinguishment { distinguishment: None, result: String::new() },
        Some(record) => {
            let when = ago(now_ms, record_ms);
            let score = parse_blitz_score_number(record.score);
            let distinguishment = if summary.rank == 1 {
                Some(TETO_HTML_BLITZ_CHAMPION_CHAMPION_DISTINGUISHMENT)
            } else {
                None
            };
            let cr = country_ranking(summary.rank_local);
            let t = replacen(TETO_HTML_RECORDS_BLITZ, "{{blitz_score}}", score.as_str(), 1);
            let t = replacen(t.as_str(), "{{date}}", when.as_str(), 1);
            let t = replacen(
                t.as_str(),
                "{{global_ranking}}",
                parse_blitz_score_number(summary.rank as u64).as_str(),
                1,
            );
            let result = replacen(t.as_str(), "{{country_ranking}}", cr.as_str(), 1);
            ParsedResultWithDistinguishment { distinguishment, result }
        },
    }
}

/// What is said where a blitz record's instant does not read.
pub const BLITZ_PARSE_ERROR: &'static str = "<h1> Couldn't parse Blitz record </h1>";

/// What is said where a 40-lines record's instant does not read.
pub const SPRINT_PARSE_ERROR: &'static str = "<h1> parsing error </h1>";

/// The blitz block seen at `now_ms`, or an error where the record's instant
/// does not read.
pub open spec fn blitz_result(summary: BlitzSummary, now_ms: i64) -> Result<ParsedModel, Seq<char>> {
    match summary.record {
        None => Ok(nothing_parsed()),
        Some(record) => match utc_millis_of(record.ts@) {
            None => Err(BLITZ_PARSE_ERROR@),
            Some(t) => Ok(blitz_parsed(summary, t, now_ms)),
        },
    }
}

/// The blitz block of the records row, and the banner of the blitz champion.
pub fn parse_blitz_score(summary: &BlitzSummary, now_ms: i64) -> (r: Result<ParsedResultWithDistinguishment, &'static str>)
    ensures
        match r {
            Ok(p) => blitz_result(*summary, now_ms) == Ok::<ParsedModel, Seq<char>>(p@),
            Err(e) => blitz_result(*summary, now_ms) == Err::<ParsedModel, Seq<char>>(e@),
        },
{
    match &summary.record {
        None => Ok(ParsedResultWithDistinguishment { distinguishment: None, result: String::new() }),
        Some(record) => match parse_utc_millis(record.ts.as_str()) {
            None => Err(BLITZ_PARSE_ERROR),
            Some(t) => Ok(blitz_block(summary, t, now_ms)),
        },
    }
}

/// The 40-lines block of a record set at `record_ms`, seen at `now_ms`.
pub open spec fn sprint_parsed(summary: SprintSummary, record_ms: i64, now_ms: i64) -> ParsedModel {
    match summary.record {
        None => nothing_parsed(),
        Some(record) => {
            let t = sub1(TETO_HTML_RECORDS_SPRINT@, "{{sprint_time}}", long_clock(record.finaltime as nat));
            let t = sub1(t, "{{sprint_time_ms}}", dec((record.finaltime % 1000) as nat));
            let t = sub1(t, "{{date}}", ago_text(now_ms, record_ms));
            let t = sub1(t, "{{country_ranking}}", country_ranking_html(summary.rank_local));
            ParsedModel {
                distinguishment: champion(summary.rank, TETO_HTML_SPRINT_CHAMPION_DISTINGUISHMENT),
                result: sub1(t, "{{global_ranking}}", grouped((summary.rank as u64) as nat)),
            }
        },
    }
}

/// The 40-lines block, the record's instant already read.
pub fn sprint_block(summary: &SprintSummary, record_ms: i64, now_ms: i64) -> (r: ParsedResultWithDistinguishment)
    ensures
        r@ == sprint_parsed(*summary, record_ms, now_ms),
{
    match &summary.record {
        None => ParsedResultWithDistinguishment { distinguishment: None, result: String::new() },
        Some(record) => {
            let when = ago(now_ms, record_ms);
            let time = format_long_clock(record.finaltime);
            let ms = decimal(record.finaltime % 1000);
            let distinguishment = if summary.rank == 1 {
                Some(TETO_HTML_SPRINT_CHAMPION_DISTINGUISHMENT)
            } else {
                None
            };
            let cr = country_ranking(summary.rank_local);
            let t = replacen(TETO_HTML_RECORDS_SPRINT, "{{sprint_time}}", time.as_str(), 1);
            let t = replacen(t.as_str(), "{{sprint_time_ms}}", ms.as_str(), 1);
            let t = replacen(t.as_str(), "{{date}}", when.as_str(), 1);
            let t = replacen(t.as_str(), "{{country_ranking}}", cr.as_str(), 1);
            let result = replacen(
                t.as_str(),
                "{{global_ranking}}",
                parse_blitz_score_number(summary.rank as u64).as_str(),
                1,
            );
            ParsedResultWithDistinguishment { distinguishment, result }
        },
    }
}

/// The 40-lines block seen at `now_ms`, or an error where the record's
/// instant does not read.
pub open spec fn sprint_result(summary: SprintSummary, now_ms: i64) -> Result<ParsedModel, Seq<char>> {
    match summary.record {
        None => Ok(nothing_parsed()),
        Some(record) => match utc_millis_of(record.ts@) {
            None => Err(SPRINT_PARSE_ERROR@),
            Some(t) => Ok(sprint_parsed(summary, t, now_ms)),
        },
    }
}

/// The 40-lines block of the records row, and the banner of the 40-lines
/// champion.
pub fn parse_sprint(summary: &SprintSummary, now_ms: i64) -> (r: Result<ParsedResultWithDistinguishment, &'static str>)
    ensures
        match r {
            Ok(p) => sprint_result(*summary, now_ms) == Ok::<ParsedModel, Seq<char>>(p@),
            Err(e) => sprint_result(*summary, now_ms) == Err::<ParsedModel, Seq<char>>(e@),
        },
{
    match &summary.record {
        None => Ok(ParsedResultWithDistinguishment { distinguishment: None, result: String::new() }),
        Some(record) => match parse_utc_millis(record.ts.as_str()) {
            None => Err(SPRINT_PARSE_ERROR),
            Some(t) => Ok(sprint_block(summary, t, now_ms)),
        },
    }
}

/// Where the image of a letter rank is kept, before the rank.
pub const RANK_IMAGE_PREFIX: &'static str = "https://tetr.io/res/league-ranks/";

/// The address of a letter rank's image, before it is put in lower case.
pub open spec fn rank_image_url(rank: Seq<char>) -> Seq<char> {
    RANK_IMAGE_PREFIX@ + rank + ".png"@
}

/// Whether a letter rank is the one of unranked players.
pub open spec fn is_unranked(rank: Seq<char>) -> bool {
    rank == "Z"@ || rank == "z"@
}

/// A value in hundredths, or 0 where missing, with two decimals.
pub open spec fn hundredths_or_zero(v: Option<i64>) -> Seq<char> {
    hundredths(
        match v {
            Some(x) => x as int,
            None => 0,
        },
    )
}

/// `markup` with a league player's rank image, rating and averages.
pub open spec fn league_figures(markup: Seq<char>, l: LeagueSummary, rank_image: Seq<char>, tr: i64) -> Seq<char> {
    let t = sub1(markup, "{{rank}}", rank_image);
    let t = sub1(t, "{{tr}}", signed_dec(tr as int));
    let t = sub1(t, "{{vs}}", hundredths_or_zero(l.vs));
    let t = sub1(t, "{{apm}}", hundredths_or_zero(l.apm));
    sub1(t, "{{pps}}", hundredths_or_zero(l.pps))
}

fn league_figures_text(markup: &str, league: &LeagueSummary, rank_image: &str, tr: i64) -> (r: String)
    ensures
        r@ == league_figures(markup@, *league, rank_image@, tr),
{
    let t = replacen(markup, "{{rank}}", rank_image, 1);
    let t = replacen(t.as_str(), "{{tr}}", signed_decimal(tr).as_str(), 1);
    let t = replacen(t.as_str(), "{{vs}}", hundredths_text(league.vs).as_str(), 1);
    let t = replacen(t.as_str(), "{{apm}}", hundredths_text(league.apm).as_str(), 1);
    replacen(t.as_str(), "{{pps}}", hundredths_text(league.pps).as_str(), 1)
}

/// The league block, with the rank's image at `rank_image`: nothing unless
/// the rating, games, rank and standings are all known; a count of rating
/// games under ten games; else the rating and averages, with the standings
/// unless the rank is the unranked one, which shows no standing at all.
pub open spec fn league_parsed(l: LeagueSummary, rank_image: Seq<char>) -> ParsedModel {
    match (l.tr, l.gamesplayed, l.gameswon, l.rank, l.standing, l.standing_local) {
        (Some(tr), Some(gp), Some(gw), Some(rank), Some(standing), Some(standing_local)) => ParsedModel {
            distinguishment: champion(standing, TETO_HTML_TETRA_LEAGUE_CHAMPION_DISTINGUISHMENT),
            result: if gp == 0 {
                Seq::<char>::empty()
            } else if gp < 10 {
                sub1(
                    sub1(TETO_HTML_RECORDS_TETRA_LEAGUE_RATING@, "{{games_played}}", signed_dec(gp as int)),
                    "{{games_won}}",
                    signed_dec(gw as int),
                )
            } else if is_unranked(rank@) {
                league_figures(TETO_HTML_RECORDS_TETRA_LEAGUE_UNRANKED@, l, rank_image, tr)
            } else {
                let t = league_figures(TETO_HTML_RECORDS_TETRA_LEAGUE@, l, rank_image, tr);
                let t = sub1(t, "{{country_ranking}}", country_ranking_html(standing_local));
                sub1(t, "{{global_ranking}}", grouped((standing as u64) as nat))
            },
        },
        _ => nothing_parsed(),
    }
}

/// The league block of a summary, its rank's image address in lower case.
pub open spec fn league_result(l: LeagueSummary) -> ParsedModel {
    league_parsed(
        l,
        match l.rank {
            Some(r) => lower_of(rank_image_url(r@)),
            None => Seq::<char>::empty(),
        },
    )
}

fn hundredths_text(v: Option<i64>) -> (r: String)
    ensures
        r@ == hundredths_or_zero(v),
{
    match v {
        Some(x) => format_hundredths(x),
        None => format_hundredths(0),
    }
}

/// The league block, the rank's image address already in lower case.
pub fn league_block(league: &LeagueSummary, rank_image: &str) -> (r: ParsedResultWithDistinguishment)
    ensures
        r@ == league_parsed(*league, rank_image@),
{
    let (tr, gp, gw, rank, standing, standing_local) = match (
        league.tr,
        league.gamesplayed,
        league.gameswon,
        &league.rank,
        league.standing,
        league.standing_local,
    ) {
        (Some(tr), Some(gp), Some(gw), Some(rank), Some(standing), Some(standing_local)) => (
            tr,
            gp,
            gw,
            rank,
            standing,
            standing_local,
        ),
        _ => {
            return ParsedResultWithDistinguishment { distinguishment: None, result: String::new() };
        },
    };
    let distinguishment = if standing == 1 {
        Some(TETO_HTML_TETRA_LEAGUE_CHAMPION_DISTINGUISHMENT)
    } else {
        None
    };
    let result = if gp == 0 {
        String::new()
    } else if gp < 10 {
        let t = replacen(TETO_HTML_RECORDS_TETRA_LEAGUE_RATING, "{{games_played}}", signed_decimal(gp).as_str(), 1);
        replacen(t.as_str(), "{{games_won}}", signed_decimal(gw).as_str(), 1)
    } else {
        let unranked = *rank == String::from_str("Z") || *rank == String::from_str("z");
        if unranked {
            league_figures_text(TETO_HTML_RECORDS_TETRA_LEAGUE_UNRANKED, league, rank_image, tr)
        } else {
            let t = league_figures_text(TETO_HTML_RECORDS_TETRA_LEAGUE, league, rank_image, tr);
            let t = replacen(t.as_str(), "{{country_ranking}}", country_ranking(standing_local).as_str(), 1);
            replacen(t.as_str(), "{{global_ranking}}", parse_blitz_score_number(standing as u64).as_str(), 1)
        }
    };
    ParsedResultWithDistinguishment { distinguishment, result }
}

/// The league block of the records row, and the banner of the league
/// champion.
pub fn parse_tetra_league(league: &LeagueSummary) -> (r: ParsedResultWithDistinguishment)
    ensures
        r@ == league_result(*league),
{
    let image = match &league.rank {
        Some(rank) => {
            let mut url = String::from_str(RANK_IMAGE_PREFIX);
            url.append(rank.as_str());
            url.append(".png");
            lowercase(url.as_str())
        },
        None => String::new(),
    };
    league_block(league, image.as_str())
}

/// A player's profile. `level` is the level that their experience gives;
/// `gametime` is their play time in whole seconds; a count or time of -1 is
/// unknown.
pub struct UserInfo {
    pub id: String,
    pub username: String,
    pub role: UserRole,
    pub ts: Option<String>,
    pub botmaster: Option<String>,
    pub badges: Vec<UserBadge>,
    pub level: u64,
    pub gamesplayed: i64,
    pub gameswon: i64,
    pub gametime: i64,
    pub country: Option<String>,
    pub badstanding: Option<bool>,
    pub supporter_tier: i64,
    pub avatar_revision: Option<i64>,
    pub banner_revision: Option<i64>,
    pub friend_count: Option<i64>,
    pub distinguishment: Option<UserDistinguishment>,
}

impl UserInfo {
    /// A play time is a number of seconds, or -1 where unknown.
    pub open spec fn wf(self) -> bool {
        self.gametime >= -1
    }
}

/// The number held, or 0.
pub open spec fn or_zero(v: Option<i64>) -> i64 {
    match v {
        Some(x) => x,
        None => 0,
    }
}

/// What fills the profile card's placeholders.
pub struct TetoHTMLParams {
    pub bad_standing: &'static str,
    pub has_banner: bool,
    pub banner: String,
    pub avatar: String,
    pub username: String,
    pub flag: String,
    pub joined_at: String,
    pub friends: i64,
    pub mod_badge: String,
    pub distinguishment: String,
    pub leveltag: String,
    pub level: u64,
    pub game_time: String,
    pub total_games: String,
    pub supporter_badge: String,
    pub badges: String,
    pub records: String,
}

/// What fills the profile card's placeholders, as values.
pub struct ParamsModel {
    pub bad_standing: Seq<char>,
    pub has_banner: bool,
    pub banner: Seq<char>,
    pub avatar: Seq<char>,
    pub username: Seq<char>,
    pub flag: Seq<char>,
    pub joined_at: Seq<char>,
    pub friends: i64,
    pub mod_badge: Seq<char>,
    pub distinguishment: Seq<char>,
    pub leveltag: Seq<char>,
    pub level: u64,
    pub game_time: Seq<char>,
    pub total_games: Seq<char>,
    pub supporter_badge: Seq<char>,
    pub badges: Seq<char>,
    pub records: Seq<char>,
}

impl View for TetoHTMLParams {
    type V = ParamsModel;

    open spec fn view(&self) -> ParamsModel {
        ParamsModel {
            bad_standing: self.bad_standing@,
            has_banner: self.has_banner,
            banner: self.banner@,
            avatar: self.avatar@,
            username: self.username@,
            flag: self.flag@,
            joined_at: self.joined_at@,
            friends: self.friends,
            mod_badge: self.mod_badge@,
            distinguishment: self.distinguishment@,
            leveltag: self.leveltag@,
            level: self.level,
            game_time: self.game_time@,
            total_games: self.total_games@,
            supporter_badge: self.supporter_badge@,
            badges: self.badges@,
            records: self.records@,
        }
    }
}

/// The card's class of a player who shows a banner.
pub const HAS_BANNER_CLASS: &'static str = "has_banner";

/// The card's class for whether a banner is shown.
pub open spec fn banner_class_text(has_banner: bool) -> Seq<char> {
    if has_banner {
        HAS_BANNER_CLASS@
    } else {
        Seq::<char>::empty()
    }
}

fn banner_class(has_banner: bool) -> (r: &'static str)
    ensures
        r@ == banner_class_text(has_banner),
{
    if has_banner {
        HAS_BANNER_CLASS
    } else {
        proof {
            reveal_strlit("");
        }
        ""
    }
}

/// The profile card: `template` with each placeholder filled once, in a fixed
/// order, then every country flag placeholder.
pub open spec fn profile_html(p: ParamsModel, template: Seq<char>) -> Seq<char> {
    let s = sub1(template, "{{bad_standing}}", p.bad_standing);
    let s = sub1(s, "{{has_banner}}", banner_class_text(p.has_banner));
    let s = sub1(s, "{{banner}}", p.banner);
    let s = sub1(s, "{{avatar}}", p.avatar);
    let s = sub1(s, "{{username}}", p.username);
    let s = sub1(s, "{{flag}}", p.flag);
    let s = sub1(s, "{{joined_at}}", p.joined_at);
    let s = sub1(s, "{{friends}}", signed_dec(p.friends as int));
    let s = sub1(s, "{{mod_badge}}", p.mod_badge);
    let s = sub1(s, "{{distinguishment}}", p.distinguishment);
    let s = sub1(s, "{{leveltag}}", p.leveltag);
    let s = sub1(s, "{{level}}", dec(p.level as nat));
    let s = sub1(s, "{{game_time}}", p.game_time);
    let s = sub1(s, "{{total_games}}", p.total_games);
    let s = sub1(s, "{{supporter_badge}}", p.supporter_badge);
    let s = sub1(s, "{{badges}}", p.badges);
    let s = sub1(s, "{{records}}", p.records);
    replace_all_seq(s, "{{country_flag}}"@, p.flag)
}

impl TetoHTMLParams {
    /// The profile card: `template` with its placeholders filled.
    pub fn into_html_page(self, template: &str) -> (r: String)
        ensures
            r@ == profile_html(self@, template@),
    {
        let TetoHTMLParams {
            bad_standing,
            has_banner,
            banner,
            avatar,
            username,
            flag,
            joined_at,
            friends,
            mod_badge,
            distinguishment,
            leveltag,
            level,
            game_time,
            total_games,
            supporter_badge,
            badges,
            records,
        } = self;
        let s = replacen(template, "{{bad_standing}}", bad_standing, 1);
        let s = replacen(s.as_str(), "{{has_banner}}", banner_class(has_banner), 1);
        let s = replacen(s.as_str(), "{{banner}}", banner.as_str(), 1);
        let s = replacen(s.as_str(), "{{avatar}}", avatar.as_str(), 1);
        let s = replacen(s.as_str(), "{{username}}", username.as_str(), 1);
        let s = replacen(s.as_str(), "{{flag}}", flag.as_str(), 1);
        let s = replacen(s.as_str(), "{{joined_at}}", joined_at.as_str(), 1);
        let s = replacen(s.as_str(), "{{friends}}", signed_decimal(friends).as_str(), 1);
        let s = replacen(s.as_str(), "{{mod_badge}}", mod_badge.as_str(), 1);
        let s = replacen(s.as_str(), "{{distinguishment}}", distinguishment.as_str(), 1);
        let s = replacen(s.as_str(), "{{leveltag}}", leveltag.as_str(), 1);
        let s = replacen(s.as_str(), "{{level}}", decimal(level).as_str(), 1);
        let s = replacen(s.as_str(), "{{game_time}}", game_time.as_str(), 1);
        let s = replacen(s.as_str(), "{{total_games}}", total_games.as_str(), 1);
        let s = replacen(s.as_str(), "{{supporter_badge}}", supporter_badge.as_str(), 1);
        let s = replacen(s.as_str(), "{{badges}}", badges.as_str(), 1);
        let s = replacen(s.as_str(), "{{records}}", records.as_str(), 1);
        replace_all(s.as_str(), "{{country_flag}}", flag.as_str())
    }
}

/// The page of a banned player, showing `shown_name`.
pub open spec fn banned_markup(info: UserInfo, shown_name: Seq<char>, template: Seq<char>) -> Seq<char> {
    sub1(
        sub1(template, "{{avatar}}", avatar_url(or_zero(info.avatar_revision), info.id@)),
        "{{username}}",
        shown_name,
    )
}

/// The page of a banned player: their avatar and name in capitals.
pub open spec fn banned_html(info: UserInfo, template: Seq<char>) -> Seq<char> {
    banned_markup(info, upper_of(info.username@), template)
}

/// The page of a bot, showing `shown_name` and `shown_owner`.
pub open spec fn bot_markup(info: UserInfo, shown_name: Seq<char>, shown_owner: Seq<char>, template: Seq<char>) -> Seq<char> {
    sub1(banned_markup(info, shown_name, template), "{{owner}}", shown_owner)
}

/// The page of a bot: its avatar, its name and its owner's, in capitals.
pub open spec fn bot_html(info: UserInfo, template: Seq<char>) -> Seq<char> {
    bot_markup(
        info,
        upper_of(info.username@),
        match info.botmaster {
            Some(m) => upper_of(m@),
            None => Seq::<char>::empty(),
        },
        template,
    )
}

/// The page of a banned player, their name already as shown.
pub fn banned_page(info: &UserInfo, shown_name: &str, template: &str) -> (r: String)
    ensures
        r@ == banned_markup(*info, shown_name@, template@),
{
    let rev = match info.avatar_revision {
        Some(r) => r,
        None => 0,
    };
    let avatar = parse_avatar(rev, info.id.as_str());
    let s = replacen(template, "{{avatar}}", avatar.as_str(), 1);
    replacen(s.as_str(), "{{username}}", shown_name, 1)
}

/// The page of a bot, its name and its owner's already as shown.
pub fn bot_page(info: &UserInfo, shown_name: &str, shown_owner: &str, template: &str) -> (r: String)
    ensures
        r@ == bot_markup(*info, shown_name@, shown_owner@, template@),
{
    let s = banned_page(info, shown_name, template);
    replacen(s.as_str(), "{{owner}}", shown_owner, 1)
}

/// The page shown for a banned player.
pub fn handle_banned(info: &UserInfo, template: &str) -> (r: String)
    ensures
        r@ == banned_html(*info, template@),
{
    let name = uppercase(info.username.as_str());
    banned_page(info, name.as_str(), template)
}

/// The page shown for a bot.
pub fn handle_bot(info: &UserInfo, template: &str) -> (r: String)
    ensures
        r@ == bot_html(*info, template@),
{
    let owner = match &info.botmaster {
        Some(m) => uppercase(m.as_str()),
        None => String::new(),
    };
    let name = uppercase(info.username.as_str());
    bot_page(info, name.as_str(), owner.as_str(), template)
}

/// The page of a banned player or a bot, or `None` for other players.
pub fn role_page(info: &UserInfo, banned_template: &str, bot_template: &str) -> (r: Option<String>)
    ensures
        info.role is Banned ==> r is Some && r->0@ == banned_html(*info, banned_template@),
        info.role is Bot ==> r is Some && r->0@ == bot_html(*info, bot_template@),
        !(info.role is Banned) && !(info.role is Bot) ==> r is None,
{
    match info.role {
        UserRole::Banned => Some(handle_banned(info, banned_template)),
        UserRole::Bot => Some(handle_bot(info, bot_template)),
        _ => None,
    }
}

/// Where the card says since when a player has played.
pub open spec fn joined_html(ts: Option<String>, now_ms: i64) -> Seq<char> {
    match ts {
        Some(t) => "JOINED "@ + ago_text(
            now_ms,
            match utc_millis_of(t@) {
                Some(ms) => ms,
                None => 0,
            },
        ) + " AGO - "@,
        None => "HERE SINCE THE BEGINNING - "@,
    }
}

fn joined_at(ts: &Option<String>, now_ms: i64) -> (r: String)
    ensures
        r@ == joined_html(*ts, now_ms),
{
    match ts {
        Some(t) => {
            let then = match parse_utc_millis(t.as_str()) {
                Some(ms) => ms,
                None => 0,
            };
            let mut r = String::from_str("JOINED ");
            r.append(ago(now_ms, then).as_str());
            r.append(" AGO - ");
            r
        },
        None => String::from_str("HERE SINCE THE BEGINNING - "),
    }
}

/// The one banner shown: the player's own distinguishment first, else the
/// first champion banner of league, 40 lines and blitz, in that order.
pub open spec fn chosen_distinguishment(
    own: Option<Seq<char>>,
    league: Option<Seq<char>>,
    sprint: Option<Seq<char>>,
    blitz: Option<Seq<char>>,
) -> Seq<char> {
    match own {
        Some(d) => d,
        None => match league {
            Some(d) => d,
            None => match sprint {
                Some(d) => d,
                None => match blitz {
                    Some(d) => d,
                    None => Seq::<char>::empty(),
                },
            },
        },
    }
}

/// The one banner shown, out of the player's own and the champions'.
pub fn choose_distinguishment(
    own: Option<String>,
    league: Option<&'static str>,
    sprint: Option<&'static str>,
    blitz: Option<&'static str>,
) -> (r: String)
    ensures
        r@ == chosen_distinguishment(
            crate::replay::opt_view(own),
            match league {
                Some(d) => Some(d@),
                None => None,
            },
            match sprint {
                Some(d) => Some(d@),
                None => None,
            },
            match blitz {
                Some(d) => Some(d@),
                None => None,
            },
        ),
{
    match own {
        Some(d) => d,
        None => match league {
            Some(d) => String::from_str(d),
            None => match sprint {
                Some(d) => String::from_str(d),
                None => match blitz {
                    Some(d) => String::from_str(d),
                    None => String::new(),
                },
            },
        },
    }
}

/// The records row: the league, 40-lines and blitz blocks.
pub open spec fn records_html(league: Seq<char>, sprint: Seq<char>, blitz: Seq<char>) -> Seq<char> {
    sub1(sub1(sub1(TETO_HTML_RECORDS@, "{{tetra_league}}", league), "{{sprint}}", sprint), "{{blitz}}", blitz)
}

/// What fills the card of `info`, seen at `now_ms`, or the error markup of a
/// record whose instant does not read (40 lines first).
pub open spec fn profile_params(info: UserInfo, summaries: UserSummaries, now_ms: i64) -> Result<ParamsModel, Seq<char>> {
    let league = league_result(summaries.league);
    match sprint_result(summaries.sprint, now_ms) {
        Err(e) => Err(e),
        Ok(sprint) => match blitz_result(summaries.blitz, now_ms) {
            Err(e) => Err(e),
            Ok(blitz) => {
                let banner_rev = or_zero(info.banner_revision);
                let has = banner_rev != 0 && info.supporter_tier != 0;
                Ok(
                    ParamsModel {
                        bad_standing: bad_standing_html(info.badstanding),
                        has_banner: has,
                        banner: banner_html(has, banner_rev, info.id@),
                        avatar: avatar_url(or_zero(info.avatar_revision), info.id@),
                        username: upper_of(info.username@),
                        flag: country_flag_html(crate::replay::opt_view(info.country)),
                        joined_at: joined_html(info.ts, now_ms),
                        friends: or_zero(info.friend_count),
                        mod_badge: mod_badge_html(info.role),
                        distinguishment: chosen_distinguishment(
                            distinguishment_html(info.distinguishment),
                            league.distinguishment,
                            sprint.distinguishment,
                            blitz.distinguishment,
                        ),
                        leveltag: level_tag(info.level as nat),
                        level: info.level,
                        game_time: gametime_html(info.gametime),
                        total_games: total_games_html(info.gamesplayed, info.gameswon),
                        supporter_badge: supporter_badge_html(info.supporter_tier),
                        badges: badges_html(info.badges@),
                        records: records_html(league.result, sprint.result, blitz.result),
                    },
                )
            },
        },
    }
}

/// What fills the profile card of `info` with `summaries`, seen at `now_ms`.
pub fn teto_params(info: &UserInfo, summaries: &UserSummaries, now_ms: i64) -> (r: Result<TetoHTMLParams, &'static str>)
    requires
        info.wf(),
    ensures
        match r {
            Ok(p) => profile_params(*info, *summaries, now_ms) == Ok::<ParamsModel, Seq<char>>(p@),
            Err(e) => profile_params(*info, *summaries, now_ms) == Err::<ParamsModel, Seq<char>>(e@),
        },
{
    let banner_rev = match info.banner_revision {
        Some(r) => r,
        None => 0,
    };
    let has = has_banner(banner_rev, info.supporter_tier);
    let banner = parse_banner(has, banner_rev, info.id.as_str());
    let bad_standing = parse_bad_standing(info.badstanding);
    let avatar_rev = match info.avatar_revision {
        Some(r) => r,
        None => 0,
    };
    let avatar = parse_avatar(avatar_rev, info.id.as_str());
    let mod_badge = parse_mod_badge(&info.role);
    let own = parse_distinguishment(&info.distinguishment);
    let flag = parse_country_flag(
        match &info.country {
            Some(c) => Some(c.as_str()),
            None => None,
        },
    );
    let leveltag = parse_level_tag(info.level);
    let total_games = parse_total_games(info.gamesplayed, info.gameswon);
    let game_time = parse_gametime(info.gametime);
    let supporter_badge = parse_supporter_badge(info.supporter_tier);
    let badges = parse_user_badges(&info.badges);
    let username = uppercase(info.username.as_str());
    let friends = match info.friend_count {
        Some(f) => f,
        None => 0,
    };
    let joined = joined_at(&info.ts, now_ms);
    let league = parse_tetra_league(&summaries.league);
    let sprint = match parse_sprint(&summaries.sprint, now_ms) {
        Ok(p) => p,
        Err(e) => {
            return Err(e);
        },
    };
    let blitz = match parse_blitz_score(&summaries.blitz, now_ms) {
        Ok(p) => p,
        Err(e) => {
            return Err(e);
        },
    };
    let records = replacen(TETO_HTML_RECORDS, "{{tetra_league}}", league.result.as_str(), 1);
    let records = replacen(records.as_str(), "{{sprint}}", sprint.result.as_str(), 1);
    let records = replacen(records.as_str(), "{{blitz}}", blitz.result.as_str(), 1);
    let distinguishment = choose_distinguishment(
        own,
        league.distinguishment,
        sprint.distinguishment,
        blitz.distinguishment,
    );
    Ok(
        TetoHTMLParams {
            bad_standing,
            has_banner: has,
            banner,
            avatar,
            username,
            flag,
            joined_at: joined,
            friends,
            mod_badge,
            distinguishment,
            leveltag,
            level: info.level,
            game_time,
            total_games,
            supporter_badge,
            badges,
            records,
        },
    )
}

/// Whether `r` is the profile card of `info` with `summaries` seen at
/// `now_ms`, or the error markup that stops it.
pub open spec fn is_profile_outcome(
    info: UserInfo,
    summaries: UserSummaries,
    template: Seq<char>,
    now_ms: i64,
    r: Result<String, &'static str>,
) -> bool {
    match r {
        Ok(page) => profile_params(info, summaries, now_ms) is Ok && page@ == profile_html(
            profile_params(info, summaries, now_ms)->Ok_0,
            template,
        ),
        Err(e) => profile_params(info, summaries, now_ms) == Err::<ParamsModel, Seq<char>>(e@),
    }
}

/// The profile card of `info` with `summaries`, seen at `now_ms`, or the
/// error markup of a record whose instant does not read.
pub fn teto_page(info: &UserInfo, summaries: &UserSummaries, template: &str, now_ms: i64) -> (r: Result<String, &'static str>)
    requires
        info.wf(),
    ensures
        is_profile_outcome(*info, *summaries, template@, now_ms, r),
{
    match teto_params(info, summaries, now_ms) {
        Ok(p) => Ok(p.into_html_page(template)),
        Err(e) => Err(e),
    }
}

/// The profile card of `info` with `summaries`, seen now.
pub fn teto_page_now(info: &UserInfo, summaries: &UserSummaries, template: &str) -> (r: Result<String, &'static str>)
    requires
        info.wf(),
    ensures
        exists|now_ms: i64| #[trigger] is_profile_outcome(*info, *summaries, template@, now_ms, r),
{
    let now_ms = crate::time::now_millis();
    teto_page(info, summaries, template, now_ms)
}

proof fn lemma_lacks_minus_one(s: Seq<char>)
    requires
        lacks(s, '-'),
    ensures
        !crate::template::occurs_in(s, "-1"@),
{
    reveal_strlit("-1");
    if crate::template::occurs_in(s, "-1"@) {
        let i = choose|i: int| 0 <= i && i + "-1"@.len() <= s.len() && #[trigger] s.subrange(i, i + "-1"@.len()) == "-1"@;
        assert(s.subrange(i, i + 2)[0] == s[i]);
    }
}

/// An unknown count or play time (-1) never shows as `-1`: for counts that
/// are known (not negative) or unknown, the games tag holds no `-1`, and an
/// unknown play time leaves no tag at all.
pub proof fn lemma_unknown_counts_never_render(gamesplayed: i64, gameswon: i64)
    requires
        gamesplayed >= -1,
        gameswon >= -1,
    ensures
        !crate::template::occurs_in(total_games_html(gamesplayed, gameswon), "-1"@),
        gametime_html(-1i64) == Seq::<char>::empty(),
{
    reveal_strlit("<div class=\"tetra_tag_record\" title=\"Online games won / online games played\">
{{online_games_won}}{{online_games_played}}
</div>");
    reveal_strlit("<span>{{online_games_won}}</span>");
    reveal_strlit(" / ");
    assert(lacks(TETO_HTML_TOTAL_GAMES@, '-'));
    assert(lacks(TETO_HTML_GAMES_WON@, '-'));
    assert(lacks(" / "@, '-'));
    let won = if gameswon != -1 {
        crate::format::lemma_dec_lacks(gameswon as nat, '-');
        crate::template::lemma_replacen_lacks(TETO_HTML_GAMES_WON@, "{{online_games_won}}"@, signed_dec(gameswon as int), 1, '-');
        sub1(TETO_HTML_GAMES_WON@, "{{online_games_won}}", signed_dec(gameswon as int))
    } else {
        Seq::<char>::empty()
    };
    let played = if gamesplayed != -1 {
        crate::format::lemma_dec_lacks(gamesplayed as nat, '-');
        let a = " / "@;
        let b = signed_dec(gamesplayed as int);
        assert forall|i: int| 0 <= i < (a + b).len() implies (a + b)[i] != '-' by {
            if i >= a.len() {
                assert((a + b)[i] == b[i - a.len()]);
            }
        }
        a + b
    } else {
        Seq::<char>::empty()
    };
    if gamesplayed != -1 || gameswon != -1 {
        crate::template::lemma_replacen_lacks(TETO_HTML_TOTAL_GAMES@, "{{online_games_won}}"@, won, 1, '-');
        crate::template::lemma_replacen_lacks(
            sub1(TETO_HTML_TOTAL_GAMES@, "{{online_games_won}}", won),
            "{{online_games_played}}"@,
            played,
            1,
            '-',
        );
        lemma_lacks_minus_one(total_games_html(gamesplayed, gameswon));
    } else {
        lemma_lacks_minus_one(Seq::<char>::empty());
    }
}

/// With no distinguishment of their own, a player who is first in the league
/// and first at 40 lines carries the league champion's banner: the league
/// comes first.
pub proof fn lemma_league_champion_outranks_sprint(info: UserInfo, summaries: UserSummaries, now_ms: i64)
    requires
        distinguishment_html(info.distinguishment) is None,
        summaries.league.tr is Some,
        summaries.league.gamesplayed is Some,
        summaries.league.gameswon is Some,
        summaries.league.rank is Some,
        summaries.league.standing == Some(1i64),
        summaries.league.standing_local is Some,
        summaries.sprint.record is Some,
        summaries.sprint.rank == 1,
        profile_params(info, summaries, now_ms) is Ok,
    ensures
        profile_params(info, summaries, now_ms)->Ok_0.distinguishment
            == TETO_HTML_TETRA_LEAGUE_CHAMPION_DISTINGUISHMENT@,
{
}

} // verus!
