//! The HTML page of a match report.
use vstd::prelude::*;
use vstd::string::StringExecFns;
use vstd::std_specs::convert::FromSpec;
use crate::format::{dec, decimal, format_hundredths, hundredths, lemma_hundredths_lacks};
use crate::replay::{
    league_record_from_context, record_failure, record_model, Average, Averages, GameReplayPacket,
    LeagueRecord, LeagueRecordRequest, RecordModel, ReportError, Round, RoundModel, Stats,
};
use crate::template::{
    lacks, lemma_concat_lacks, lemma_render_lacking_is_identity, lemma_replace_first_after, render_seq,
    replace_all, replace_all_seq, replacen, sub1, Substitution,
};
use crate::text::{join_lines, joined, url_decode, url_decoded, views};
use crate::time::{
    format_utc, now_millis, parse_rfc3339_millis, rfc3339_millis_of, utc_text_of, DATE_PATTERN,
    TIME_PATTERN,
};

verus! {

broadcast use vstd::string::group_string_axioms;

/// The markup of one round.
pub const TETRA_HTML_MATCH: &'static str = "<div class=\"multilog_result scroller_block zero\" data-hover=\"tap\" data-hit=\"click\">
                        <div class=\"multilog_result_self {left_success}\"><span>{left_pps}</span> PPS - <span>{left_apm}</span> APM -
                            <span>{left_vs}</span> VS</div>
                        <div class=\"multilog_result_time\">{time}</div>
                        <div class=\"multilog_result_opponent {right_success}\"><span>{right_pps}</span> PPS - <span>{right_apm}</span> APM -
                            <span>{right_vs}</span> VS</div>
                        </div>";

/// The markup of a player's averages.
pub const TETRA_EXTRA_HTML: &'static str = "<span>{pps}</span> PPS - <span>{apm}</span> APM -
<span>{vs}</span> VS";

/// The class of the side that survived a round.
pub const SUCCESS_CLASS: &'static str = "success";

/// One round as the page shows it. Values in hundredths.
pub struct TetraHtmlMatch {
    pub left_success: bool,
    pub left_pps: i64,
    pub left_apm: i64,
    pub left_vs: i64,
    pub time: String,
    pub right_success: bool,
    pub right_pps: i64,
    pub right_apm: i64,
    pub right_vs: i64,
}

/// What the page shows of a match. Values in hundredths.
pub struct TetraHtmlPage {
    pub matches: Vec<TetraHtmlMatch>,
    pub left_username: String,
    pub right_username: String,
    pub left_score: u32,
    pub right_score: u32,
    pub left_pps: i64,
    pub right_pps: i64,
    pub left_apm: i64,
    pub right_apm: i64,
    pub left_vs: i64,
    pub right_vs: i64,
    pub played_date: String,
    pub played_time: String,
}

impl From<Round> for TetraHtmlMatch {
    fn from(round: Round) -> (m: TetraHtmlMatch) {
        let Round { left, right, time } = round;
        let Stats { pps: left_pps, apm: left_apm, vs: left_vs, success: left_success } = left;
        let Stats { pps: right_pps, apm: right_apm, vs: right_vs, success: right_success } = right;
        TetraHtmlMatch {
            left_success,
            left_pps,
            left_apm,
            left_vs,
            time,
            right_success,
            right_pps,
            right_apm,
            right_vs,
        }
    }
}

impl vstd::std_specs::convert::FromSpecImpl<Round> for TetraHtmlMatch {
    open spec fn obeys_from_spec() -> bool {
        true
    }

    open spec fn from_spec(round: Round) -> TetraHtmlMatch {
        TetraHtmlMatch {
            left_success: round.left.success,
            left_pps: round.left.pps,
            left_apm: round.left.apm,
            left_vs: round.left.vs,
            time: round.time,
            right_success: round.right.success,
            right_pps: round.right.pps,
            right_apm: round.right.apm,
            right_vs: round.right.vs,
        }
    }
}

/// The class of a side of a round: `success` where it survived.
pub open spec fn success_class(b: bool) -> Seq<char> {
    if b {
        SUCCESS_CLASS@
    } else {
        Seq::<char>::empty()
    }
}

/// The markup of a round with these sides and duration.
pub open spec fn round_html(left: Stats, right: Stats, time: Seq<char>) -> Seq<char> {
    let s = sub1(TETRA_HTML_MATCH@, "{left_success}", success_class(left.success));
    let s = sub1(s, "{left_pps}", hundredths(left.pps as int));
    let s = sub1(s, "{left_apm}", hundredths(left.apm as int));
    let s = sub1(s, "{left_vs}", hundredths(left.vs as int));
    let s = sub1(s, "{time}", time);
    let s = sub1(s, "{right_success}", success_class(right.success));
    let s = sub1(s, "{right_pps}", hundredths(right.pps as int));
    let s = sub1(s, "{right_apm}", hundredths(right.apm as int));
    sub1(s, "{right_vs}", hundredths(right.vs as int))
}

/// With a duration that holds no `{`, a round's markup holds none either: every
/// placeholder of the round markup was filled, and rendering the markup again
/// with substitutions whose tokens begin with `{` hands it back unchanged.
#[verifier::rlimit(100)]
#[verifier::spinoff_prover]
pub proof fn lemma_round_html_rerender(left: Stats, right: Stats, time: Seq<char>, subs: Seq<Substitution>)
    requires
        lacks(time, '{'),
        forall|i: int| 0 <= i < subs.len() ==> (#[trigger] subs[i].token@).len() > 0 && subs[i].token@[0] == '{',
    ensures
        lacks(round_html(left, right, time), '{'),
        render_seq(round_html(left, right, time), subs) == round_html(left, right, time),
{
    reveal_strlit("<div class=\"multilog_result scroller_block zero\" data-hover=\"tap\" data-hit=\"click\">
                        <div class=\"multilog_result_self {left_success}\"><span>{left_pps}</span> PPS - <span>{left_apm}</span> APM -
                            <span>{left_vs}</span> VS</div>
                        <div class=\"multilog_result_time\">{time}</div>
                        <div class=\"multilog_result_opponent {right_success}\"><span>{right_pps}</span> PPS - <span>{right_apm}</span> APM -
                            <span>{right_vs}</span> VS</div>
                        </div>");
    reveal_strlit("<div class=\"multilog_result scroller_block zero\" data-hover=\"tap\" data-hit=\"click\">
                        <div class=\"multilog_result_self ");
    let p0 = "<div class=\"multilog_result scroller_block zero\" data-hover=\"tap\" data-hit=\"click\">
                        <div class=\"multilog_result_self "@;
    assert(lacks(p0, '{'));
    reveal_strlit("\"><span>");
    let p1 = "\"><span>"@;
    assert(lacks(p1, '{'));
    reveal_strlit("</span> PPS - <span>");
    let p2 = "</span> PPS - <span>"@;
    assert(lacks(p2, '{'));
    reveal_strlit("</span> APM -
                            <span>");
    let p3 = "</span> APM -
                            <span>"@;
    assert(lacks(p3, '{'));
    reveal_strlit("</span> VS</div>
                        <div class=\"multilog_result_time\">");
    let p4 = "</span> VS</div>
                        <div class=\"multilog_result_time\">"@;
    assert(lacks(p4, '{'));
    reveal_strlit("</div>
                        <div class=\"multilog_result_opponent ");
    let p5 = "</div>
                        <div class=\"multilog_result_opponent "@;
    assert(lacks(p5, '{'));
    reveal_strlit("\"><span>");
    let p6 = "\"><span>"@;
    assert(lacks(p6, '{'));
    reveal_strlit("</span> PPS - <span>");
    let p7 = "</span> PPS - <span>"@;
    assert(lacks(p7, '{'));
    reveal_strlit("</span> APM -
                            <span>");
    let p8 = "</span> APM -
                            <span>"@;
    assert(lacks(p8, '{'));
    reveal_strlit("</span> VS</div>
                        </div>");
    let p9 = "</span> VS</div>
                        </div>"@;
    assert(lacks(p9, '{'));
    reveal_strlit("{left_success}");
    let t1 = "{left_success}"@;
    reveal_strlit("{left_pps}");
    let t2 = "{left_pps}"@;
    reveal_strlit("{left_apm}");
    let t3 = "{left_apm}"@;
    reveal_strlit("{left_vs}");
    let t4 = "{left_vs}"@;
    reveal_strlit("{time}");
    let t5 = "{time}"@;
    reveal_strlit("{right_success}");
    let t6 = "{right_success}"@;
    reveal_strlit("{right_pps}");
    let t7 = "{right_pps}"@;
    reveal_strlit("{right_apm}");
    let t8 = "{right_apm}"@;
    reveal_strlit("{right_vs}");
    let t9 = "{right_vs}"@;
    let v1 = success_class(left.success);
    let v2 = hundredths(left.pps as int);
    let v3 = hundredths(left.apm as int);
    let v4 = hundredths(left.vs as int);
    let v5 = time;
    let v6 = success_class(right.success);
    let v7 = hundredths(right.pps as int);
    let v8 = hundredths(right.apm as int);
    let v9 = hundredths(right.vs as int);
    reveal_strlit("success");
    assert(lacks(SUCCESS_CLASS@, '{'));
    assert(lacks(v1, '{') && lacks(v6, '{'));
    lemma_hundredths_lacks(left.pps as int, '{');
    lemma_hundredths_lacks(left.apm as int, '{');
    lemma_hundredths_lacks(left.vs as int, '{');
    lemma_hundredths_lacks(right.pps as int, '{');
    lemma_hundredths_lacks(right.apm as int, '{');
    lemma_hundredths_lacks(right.vs as int, '{');
    assert(TETRA_HTML_MATCH@ =~= p0 + t1 + p1 + t2 + p2 + t3 + p3 + t4 + p4 + t5 + p5 + t6 + p6 + t7 + p7 + t8 + p8 + t9 + p9);
    let s0 = TETRA_HTML_MATCH@;
    let h1 = p0;
    let r1 = p1 + t2 + p2 + t3 + p3 + t4 + p4 + t5 + p5 + t6 + p6 + t7 + p7 + t8 + p8 + t9 + p9;
    assert(s0 =~= h1 + t1 + r1);
    lemma_replace_first_after(h1, t1, v1, r1);
    let s1 = sub1(s0, "{left_success}", v1);
    assert(s1 == h1 + v1 + r1);
    let h2 = p0 + v1 + p1;
    let r2 = p2 + t3 + p3 + t4 + p4 + t5 + p5 + t6 + p6 + t7 + p7 + t8 + p8 + t9 + p9;
    lemma_concat_lacks(h1, v1, '{');
    lemma_concat_lacks(h1 + v1, p1, '{');
    assert(h2 =~= h1 + v1 + p1);
    assert(s1 =~= h2 + t2 + r2);
    lemma_replace_first_after(h2, t2, v2, r2);
    let s2 = sub1(s1, "{left_pps}", v2);
    assert(s2 == h2 + v2 + r2);
    let h3 = p0 + v1 + p1 + v2 + p2;
    let r3 = p3 + t4 + p4 + t5 + p5 + t6 + p6 + t7 + p7 + t8 + p8 + t9 + p9;
    lemma_concat_lacks(h2, v2, '{');
    lemma_concat_lacks(h2 + v2, p2, '{');
    assert(h3 =~= h2 + v2 + p2);
    assert(s2 =~= h3 + t3 + r3);
    lemma_replace_first_after(h3, t3, v3, r3);
    let s3 = sub1(s2, "{left_apm}", v3);
    assert(s3 == h3 + v3 + r3);
    let h4 = p0 + v1 + p1 + v2 + p2 + v3 + p3;
    let r4 = p4 + t5 + p5 + t6 + p6 + t7 + p7 + t8 + p8 + t9 + p9;
    lemma_concat_lacks(h3, v3, '{');
    lemma_concat_lacks(h3 + v3, p3, '{');
    assert(h4 =~= h3 + v3 + p3);
    assert(s3 =~= h4 + t4 + r4);
    lemma_replace_first_after(h4, t4, v4, r4);
    let s4 = sub1(s3, "{left_vs}", v4);
    assert(s4 == h4 + v4 + r4);
    let h5 = p0 + v1 + p1 + v2 + p2 + v3 + p3 + v4 + p4;
    let r5 = p5 + t6 + p6 + t7 + p7 + t8 + p8 + t9 + p9;
    lemma_concat_lacks(h4, v4, '{');
    lemma_concat_lacks(h4 + v4, p4, '{');
    assert(h5 =~= h4 + v4 + p4);
    assert(s4 =~= h5 + t5 + r5);
    lemma_replace_first_after(h5, t5, v5, r5);
    let s5 = sub1(s4, "{time}", v5);
    assert(s5 == h5 + v5 + r5);
    let h6 = p0 + v1 + p1 + v2 + p2 + v3 + p3 + v4 + p4 + v5 + p5;
    let r6 = p6 + t7 + p7 + t8 + p8 + t9 + p9;
    lemma_concat_lacks(h5, v5, '{');
    lemma_concat_lacks(h5 + v5, p5, '{');
    assert(h6 =~= h5 + v5 + p5);
    assert(s5 =~= h6 + t6 + r6);
    lemma_replace_first_after(h6, t6, v6, r6);
    let s6 = sub1(s5, "{right_success}", v6);
    assert(s6 == h6 + v6 + r6);
    let h7 = p0 + v1 + p1 + v2 + p2 + v3 + p3 + v4 + p4 + v5 + p5 + v6 + p6;
    let r7 = p7 + t8 + p8 + t9 + p9;
    lemma_concat_lacks(h6, v6, '{');
    lemma_concat_lacks(h6 + v6, p6, '{');
    assert(h7 =~= h6 + v6 + p6);
    assert(s6 =~= h7 + t7 + r7);
    lemma_replace_first_after(h7, t7, v7, r7);
    let s7 = sub1(s6, "{right_pps}", v7);
    assert(s7 == h7 + v7 + r7);
    let h8 = p0 + v1 + p1 + v2 + p2 + v3 + p3 + v4 + p4 + v5 + p5 + v6 + p6 + v7 + p7;
    let r8 = p8 + t9 + p9;
    lemma_concat_lacks(h7, v7, '{');
    lemma_concat_lacks(h7 + v7, p7, '{');
    assert(h8 =~= h7 + v7 + p7);
    assert(s7 =~= h8 + t8 + r8);
    lemma_replace_first_after(h8, t8, v8, r8);
    let s8 = sub1(s7, "{right_apm}", v8);
    assert(s8 == h8 + v8 + r8);
    let h9 = p0 + v1 + p1 + v2 + p2 + v3 + p3 + v4 + p4 + v5 + p5 + v6 + p6 + v7 + p7 + v8 + p8;
    let r9 = p9;
    lemma_concat_lacks(h8, v8, '{');
    lemma_concat_lacks(h8 + v8, p8, '{');
    assert(h9 =~= h8 + v8 + p8);
    assert(s8 =~= h9 + t9 + r9);
    lemma_replace_first_after(h9, t9, v9, r9);
    let s9 = sub1(s8, "{right_vs}", v9);
    assert(s9 == h9 + v9 + r9);
    lemma_concat_lacks(h9, v9, '{');
    lemma_concat_lacks(h9 + v9, p9, '{');
    assert(s9 =~= h9 + v9 + p9);
    assert(round_html(left, right, time) == s9);
    lemma_render_lacking_is_identity(s9, subs, '{');
}

/// The sides of a page's round, as the report holds them.
pub open spec fn match_sides(m: TetraHtmlMatch) -> (Stats, Stats) {
    (
        Stats { pps: m.left_pps, apm: m.left_apm, vs: m.left_vs, success: m.left_success },
        Stats { pps: m.right_pps, apm: m.right_apm, vs: m.right_vs, success: m.right_success },
    )
}

/// The markup of a player's averages.
pub open spec fn extra_html(pps: i64, apm: i64, vs: i64) -> Seq<char> {
    let s = sub1(TETRA_EXTRA_HTML@, "{pps}", hundredths(pps as int));
    let s = sub1(s, "{apm}", hundredths(apm as int));
    sub1(s, "{vs}", hundredths(vs as int))
}

/// The match page: `template` with the players, scores, averages, date and
/// rounds put in, the rounds' markup one per line.
pub open spec fn report_html(
    rec: RecordModel,
    played_date: Seq<char>,
    played_time: Seq<char>,
    template: Seq<char>,
) -> Seq<char> {
    let s = replace_all_seq(template, "{left_username}"@, rec.left.username);
    let s = replace_all_seq(s, "{right_username}"@, rec.right.username);
    let s = sub1(s, "{left_score}", dec(rec.left.score as nat));
    let s = sub1(s, "{right_score}", dec(rec.right.score as nat));
    let s = sub1(s, "{left_extra}", extra_html(rec.left.pps, rec.left.apm, rec.left.vs));
    let s = sub1(s, "{right_extra}", extra_html(rec.right.pps, rec.right.apm, rec.right.vs));
    let s = sub1(s, "{played_date}", played_date);
    let s = sub1(s, "{played_time}", played_time);
    sub1(
        s,
        "{matches}",
        joined(rec.rounds.map_values(|r: RoundModel| round_html(r.left, r.right, r.time)), "\n"@),
    )
}

/// A page as a record: the same players, averages and rounds.
pub open spec fn page_record(p: TetraHtmlPage) -> RecordModel {
    RecordModel {
        left: crate::replay::AverageModel {
            username: p.left_username@,
            pps: p.left_pps,
            apm: p.left_apm,
            vs: p.left_vs,
            score: p.left_score,
        },
        right: crate::replay::AverageModel {
            username: p.right_username@,
            pps: p.right_pps,
            apm: p.right_apm,
            vs: p.right_vs,
            score: p.right_score,
        },
        rounds: p.matches@.map_values(
            |m: TetraHtmlMatch| RoundModel { left: match_sides(m).0, right: match_sides(m).1, time: m.time@ },
        ),
    }
}

/// The text that chrono writes for `ms` with `pattern`, or nothing.
pub open spec fn utc_text_or_empty(ms: i64, pattern: &str) -> Seq<char> {
    match utc_text_of(ms, pattern@) {
        Some(t) => t,
        None => Seq::<char>::empty(),
    }
}

/// The match page of a report played at `timestamp_ms`.
pub open spec fn league_recent_html(rec: RecordModel, timestamp_ms: i64, template: Seq<char>) -> Seq<char> {
    report_html(
        rec,
        utc_text_or_empty(timestamp_ms, DATE_PATTERN),
        utc_text_or_empty(timestamp_ms, TIME_PATTERN),
        template,
    )
}

fn success_text(b: bool) -> (r: &'static str)
    ensures
        r@ == success_class(b),
{
    if b {
        SUCCESS_CLASS
    } else {
        proof {
            reveal_strlit("");
        }
        ""
    }
}

impl TetraHtmlMatch {
    /// The markup of this round.
    pub fn into_html_page(self) -> (r: String)
        ensures
            r@ == round_html(match_sides(self).0, match_sides(self).1, self.time@),
    {
        let TetraHtmlMatch {
            left_success,
            left_pps,
            left_apm,
            left_vs,
            time,
            right_success,
            right_pps,
            right_apm,
            right_vs,
        } = self;
        let s = replacen(TETRA_HTML_MATCH, "{left_success}", success_text(left_success), 1);
        let s = replacen(s.as_str(), "{left_pps}", format_hundredths(left_pps).as_str(), 1);
        let s = replacen(s.as_str(), "{left_apm}", format_hundredths(left_apm).as_str(), 1);
        let s = replacen(s.as_str(), "{left_vs}", format_hundredths(left_vs).as_str(), 1);
        let s = replacen(s.as_str(), "{time}", time.as_str(), 1);
        let s = replacen(s.as_str(), "{right_success}", success_text(right_success), 1);
        let s = replacen(s.as_str(), "{right_pps}", format_hundredths(right_pps).as_str(), 1);
        let s = replacen(s.as_str(), "{right_apm}", format_hundredths(right_apm).as_str(), 1);
        replacen(s.as_str(), "{right_vs}", format_hundredths(right_vs).as_str(), 1)
    }
}

fn extra_text(pps: i64, apm: i64, vs: i64) -> (r: String)
    ensures
        r@ == extra_html(pps, apm, vs),
{
    let s = replacen(TETRA_EXTRA_HTML, "{pps}", format_hundredths(pps).as_str(), 1);
    let s = replacen(s.as_str(), "{apm}", format_hundredths(apm).as_str(), 1);
    replacen(s.as_str(), "{vs}", format_hundredths(vs).as_str(), 1)
}

impl TetraHtmlPage {
    /// The page: `template` with its placeholders filled in.
    pub fn into_html(self, template: &str) -> (r: String)
        ensures
            r@ == report_html(page_record(self), self.played_date@, self.played_time@, template@),
    {
        let ghost rec = page_record(self);
        let TetraHtmlPage {
            matches,
            left_username,
            right_username,
            left_score,
            right_score,
            left_pps,
            right_pps,
            left_apm,
            right_apm,
            left_vs,
            right_vs,
            played_date,
            played_time,
        } = self;
        let left_extra = extra_text(left_pps, left_apm, left_vs);
        let right_extra = extra_text(right_pps, right_apm, right_vs);
        let html = replace_all(template, "{left_username}", left_username.as_str());
        let html = replace_all(html.as_str(), "{right_username}", right_username.as_str());
        let html = replacen(html.as_str(), "{left_score}", decimal(left_score as u64).as_str(), 1);
        let html = replacen(html.as_str(), "{right_score}", decimal(right_score as u64).as_str(), 1);
        let html = replacen(html.as_str(), "{left_extra}", left_extra.as_str(), 1);
        let html = replacen(html.as_str(), "{right_extra}", right_extra.as_str(), 1);
        let html = replacen(html.as_str(), "{played_date}", played_date.as_str(), 1);
        let html = replacen(html.as_str(), "{played_time}", played_time.as_str(), 1);
        let mut parts: Vec<String> = Vec::new();
        let n: usize = matches.len();
        let ghost ms = matches@;
        let ghost want = rec.rounds.map_values(|r: RoundModel| round_html(r.left, r.right, r.time));
        let mut rest = matches;
        let mut i: usize = 0;
        while i < n
            invariant
                n == ms.len(),
                i <= ms.len(),
                rest@ == ms.subrange(i as int, ms.len() as int),
                views(parts@) == want.take(i as int),
                want == rec.rounds.map_values(|r: RoundModel| round_html(r.left, r.right, r.time)),
                want.len() == ms.len(),
                rec == page_record(self),
                ms == self.matches@,
            decreases ms.len() - i,
        {
            let m = rest.remove(0);
            let ghost mi = ms[i as int];
            assert(m == mi);
            let h = m.into_html_page();
            assert(rec.rounds[i as int] == RoundModel {
                left: match_sides(mi).0,
                right: match_sides(mi).1,
                time: mi.time@,
            });
            assert(want[i as int] == h@);
            let ghost before = parts@;
            parts.push(h);
            assert(views(parts@) =~= views(before).push(h@));
            assert(want.take(i + 1) =~= want.take(i as int).push(want[i as int]));
            assert(rest@ =~= ms.subrange(i + 1, ms.len() as int));
            i = i + 1;
        }
        assert(want.take(i as int) =~= want);
        let rounds = join_lines(&parts, "\n");
        replacen(html.as_str(), "{matches}", rounds.as_str(), 1)
    }

    /// What the page shows of `league_record`, played at `timestamp_ms`.
    pub fn from_league_record(league_record: LeagueRecord, timestamp_ms: i64) -> (p: TetraHtmlPage)
        ensures
            page_record(p) == league_record@,
            p.played_date@ == utc_text_or_empty(timestamp_ms, DATE_PATTERN),
            p.played_time@ == utc_text_or_empty(timestamp_ms, TIME_PATTERN),
    {
        let ghost rec = league_record@;
        let LeagueRecord { averages, rounds } = league_record;
        let ghost rs = rounds@;
        let n: usize = rounds.len();
        let played_date = match format_utc(timestamp_ms, DATE_PATTERN) {
            Some(t) => t,
            None => String::new(),
        };
        let played_time = match format_utc(timestamp_ms, TIME_PATTERN) {
            Some(t) => t,
            None => String::new(),
        };
        let mut matches: Vec<TetraHtmlMatch> = Vec::new();
        let mut rest = rounds;
        let mut i: usize = 0;
        while i < n
            invariant
                n == rs.len(),
                i <= rs.len(),
                rest@ == rs.subrange(i as int, rs.len() as int),
                matches@.len() == i,
                forall|k: int| 0 <= k < i ==> #[trigger] matches@[k] == TetraHtmlMatch::from_spec(rs[k]),
            decreases rs.len() - i,
        {
            let r = rest.remove(0);
            assert(r == rs[i as int]);
            matches.push(TetraHtmlMatch::from(r));
            assert(rest@ =~= rs.subrange(i + 1, rs.len() as int));
            i = i + 1;
        }
        let p = TetraHtmlPage {
            matches,
            left_username: averages.left.username,
            right_username: averages.right.username,
            left_score: averages.left.score,
            right_score: averages.right.score,
            left_pps: averages.left.pps,
            right_pps: averages.right.pps,
            left_apm: averages.left.apm,
            right_apm: averages.right.apm,
            left_vs: averages.left.vs,
            right_vs: averages.right.vs,
            played_date,
            played_time,
        };
        assert(page_record(p).rounds =~= rec.rounds);
        p
    }
}

/// The match page of `league_record`, played at `timestamp_ms`.
pub fn generate_league_recent(league_record: LeagueRecord, timestamp_ms: i64, template: &str) -> (r: String)
    ensures
        r@ == league_recent_html(league_record@, timestamp_ms, template@),
{
    let page = TetraHtmlPage::from_league_record(league_record, timestamp_ms);
    page.into_html(template)
}

/// The query of a page of one of a player's recent matches.
pub struct TetraParam {
    pub user_id: String,
    pub game_num: usize,
}

/// The query of the sample match page: the scores to show.
pub struct TetraTestParam {
    pub left_score: Option<u32>,
    pub right_score: Option<u32>,
}

/// The query of a replay's page, seen from one of its players.
pub struct ReplayParam {
    pub replay_id: String,
    pub user_id: String,
}

/// The query of a page drawn from a report carried in the request itself:
/// the report, percent-encoded.
pub struct LeagueReplayQuery {
    pub data: String,
}

/// The place, among `n_entries` recent matches, of the `game_num`-th one,
/// counting from 1.
pub fn recent_record_index(game_num: usize, n_entries: usize) -> (r: Option<usize>)
    ensures
        1 <= game_num <= n_entries <==> r is Some,
        r is Some ==> r->0 == game_num - 1,
{
    if game_num >= 1 && game_num <= n_entries {
        Some(game_num - 1)
    } else {
        None
    }
}

/// The name shown on the sample match page: one zero-width space.
pub const SAMPLE_USERNAME: &'static str = "\u{200B}";

/// The score shown on the sample match page where the query gives none.
pub const SAMPLE_SCORE: u32 = 5;

/// The sample report: fixed averages, no rounds, and the scores asked for.
pub fn league_recent_test_record(params: &TetraTestParam) -> (r: LeagueRecord)
    ensures
        r@.left.username == SAMPLE_USERNAME@,
        r@.right.username == SAMPLE_USERNAME@,
        r@.left.pps == 1000 && r@.left.apm == 10000 && r@.left.vs == 100,
        r@.right.pps == 1000 && r@.right.apm == 5000 && r@.right.vs == 10000,
        r@.left.score == match params.left_score {
            Some(s) => s,
            None => SAMPLE_SCORE,
        },
        r@.right.score == match params.right_score {
            Some(s) => s,
            None => SAMPLE_SCORE,
        },
        r@.rounds.len() == 0,
{
    let left_score = match params.left_score {
        Some(s) => s,
        None => SAMPLE_SCORE,
    };
    let right_score = match params.right_score {
        Some(s) => s,
        None => SAMPLE_SCORE,
    };
    let rounds: Vec<Round> = Vec::new();
    let r = LeagueRecord {
        averages: Averages {
            left: Average {
                username: String::from_str(SAMPLE_USERNAME),
                pps: 1000,
                apm: 10000,
                vs: 100,
                score: left_score,
            },
            right: Average {
                username: String::from_str(SAMPLE_USERNAME),
                pps: 1000,
                apm: 5000,
                vs: 10000,
                score: right_score,
            },
        },
        rounds,
    };
    assert(r@.rounds =~= Seq::<RoundModel>::empty());
    r
}

/// The report text of a query, percent-decoded.
pub fn decode_replay_query(query: &LeagueReplayQuery) -> (r: Result<String, ReportError>)
    ensures
        r is Ok <==> url_decoded(query.data@) is Some,
        r is Ok ==> r->Ok_0@ == url_decoded(query.data@)->0,
        r is Err ==> r->Err_0 is MalformedQuery,
{
    match url_decode(query.data.as_str()) {
        Some(d) => Ok(d),
        None => Err(ReportError::MalformedQuery),
    }
}

/// The match page of a report carried in a request, played at the request's
/// RFC 3339 instant, or now where that does not read.
pub fn league_page_from_request(request: LeagueRecordRequest, template: &str) -> (r: String)
    ensures
        rfc3339_millis_of(request.ts@) is Some ==> r@ == league_recent_html(
            request.league_record@,
            rfc3339_millis_of(request.ts@)->0,
            template@,
        ),
        exists|t: i64| r@ == league_recent_html(request.league_record@, t, template@),
{
    let LeagueRecordRequest { league_record, ts } = request;
    let at = match parse_rfc3339_millis(ts.as_str()) {
        Some(t) => t,
        None => now_millis(),
    };
    generate_league_recent(league_record, at, template)
}

/// The page of a fetched replay seen from `user_id`. Fails where the answer
/// holds no game, where a line of the game names no player, or where the
/// leaderboard has no line for `user_id` or none for anyone else.
pub fn league_replay_page(packet: &GameReplayPacket, user_id: &str, template: &str) -> (r: Result<String, ReportError>)
    ensures
        packet.game is None ==> r is Err && r->Err_0 is MalformedUpstreamData,
        packet.game is Some ==> (r is Err <==> record_failure(packet.game->0.results, user_id@) is Some),
        packet.game is Some && r is Err ==> r->Err_0 == record_failure(packet.game->0.results, user_id@)->0,
        r is Ok ==> r->Ok_0@ == league_recent_html(
            record_model(packet.game->0.results, user_id@),
            packet.game->0.ts,
            template@,
        ),
{
    match &packet.game {
        None => Err(ReportError::MalformedUpstreamData),
        Some(game) => match league_record_from_context(&game.results, user_id) {
            Ok(record) => Ok(generate_league_recent(record, game.ts, template)),
            Err(e) => Err(e),
        },
    }
}

} // verus!
