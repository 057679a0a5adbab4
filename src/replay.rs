//! Head-to-head match reports: from a finished match's leaderboard and rounds
//! to a record of both players, and from that record to HTML.
use vstd::prelude::*;
use vstd::string::StringExecFns;
use crate::format::{clock, format_clock};

verus! {

broadcast use vstd::string::group_string_axioms;

/// Why a report could not be made.
pub enum ReportError {
    /// A required field is missing or has the wrong shape.
    MalformedUpstreamData,
    /// A report carried in a query could not be decoded or read.
    MalformedQuery,
    /// No leaderboard entry belongs to the subject player.
    PlayerNotFound,
    /// Every leaderboard entry belongs to the subject player.
    OpponentNotFound,
    /// The game service could not be reached or its answer not read.
    UpstreamFetchFailed(String),
}

/// A player as the leaderboard's nested user object names them.
pub struct LeagueEndContextUser {
    pub id: String,
    pub username: String,
}

/// Per-game averages. Each value is kept in hundredths (`2.57` is `257`).
#[derive(Clone, Copy)]
pub struct LeagueEndContextStats {
    pub apm: i64,
    pub pps: i64,
    pub vsscore: i64,
}

/// One player's line in a match's final leaderboard. The player is named by
/// the top-level `id` and `username` where present, else by `user`.
pub struct LeagueEndContextLeaderboard {
    pub user: Option<LeagueEndContextUser>,
    pub id: Option<String>,
    pub username: Option<String>,
    pub active: bool,
    pub inputs: Option<i64>,
    pub wins: i64,
    pub stats: LeagueEndContextStats,
}

/// One player's line in one round; `lifetime` is in milliseconds.
pub struct LeagueEndContextRound {
    pub id: Option<String>,
    pub username: Option<String>,
    pub stats: LeagueEndContextStats,
    pub alive: bool,
    pub lifetime: u64,
}

/// A finished match: its final leaderboard and, for each round, one line per
/// player who took part.
pub struct LeagueEndContext {
    pub leaderboard: Vec<LeagueEndContextLeaderboard>,
    pub rounds: Vec<Vec<LeagueEndContextRound>>,
}

/// One side of a round. Values in hundredths.
#[derive(Clone, Copy)]
pub struct Stats {
    pub pps: i64,
    pub apm: i64,
    pub vs: i64,
    pub success: bool,
}

/// A round as the report shows it: both sides and how long it lasted.
pub struct Round {
    pub left: Stats,
    pub right: Stats,
    pub time: String,
}

/// A player's averages over the match and the rounds they won. Values in
/// hundredths.
pub struct Average {
    pub username: String,
    pub pps: i64,
    pub apm: i64,
    pub vs: i64,
    pub score: u32,
}

/// The subject player (`left`) and their opponent (`right`).
pub struct Averages {
    pub left: Average,
    pub right: Average,
}

/// A match report: both players' averages and the rounds in order.
pub struct LeagueRecord {
    pub averages: Averages,
    pub rounds: Vec<Round>,
}

/// A match report as a request carries it, with the instant it was played.
pub struct LeagueRecordRequest {
    pub league_record: LeagueRecord,
    pub ts: String,
}

/// A round of a report, as a value.
pub struct RoundModel {
    pub left: Stats,
    pub right: Stats,
    pub time: Seq<char>,
}

/// A player's averages, as a value.
pub struct AverageModel {
    pub username: Seq<char>,
    pub pps: i64,
    pub apm: i64,
    pub vs: i64,
    pub score: u32,
}

/// A match report, as a value.
pub struct RecordModel {
    pub left: AverageModel,
    pub right: AverageModel,
    pub rounds: Seq<RoundModel>,
}

impl View for Round {
    type V = RoundModel;

    open spec fn view(&self) -> RoundModel {
        RoundModel { left: self.left, right: self.right, time: self.time@ }
    }
}

impl View for Average {
    type V = AverageModel;

    open spec fn view(&self) -> AverageModel {
        AverageModel {
            username: self.username@,
            pps: self.pps,
            apm: self.apm,
            vs: self.vs,
            score: self.score,
        }
    }
}

impl View for LeagueRecord {
    type V = RecordModel;

    open spec fn view(&self) -> RecordModel {
        RecordModel {
            left: self.averages.left@,
            right: self.averages.right@,
            rounds: self.rounds@.map_values(|r: Round| r@),
        }
    }
}

/// An optional text, as a value.
pub open spec fn opt_view(o: Option<String>) -> Option<Seq<char>> {
    match o {
        Some(s) => Some(s@),
        None => None,
    }
}

/// The first of `a` and `b` that is present.
pub open spec fn or_else(a: Option<Seq<char>>, b: Option<Seq<char>>) -> Option<Seq<char>> {
    if a is Some {
        a
    } else {
        b
    }
}

/// The text held, or the empty text.
pub open spec fn or_empty(o: Option<Seq<char>>) -> Seq<char> {
    match o {
        Some(s) => s,
        None => Seq::<char>::empty(),
    }
}

/// The player a leaderboard line belongs to: its own `id`, else its user's.
pub open spec fn entry_id(e: LeagueEndContextLeaderboard) -> Option<Seq<char>> {
    or_else(
        opt_view(e.id),
        match e.user {
            Some(u) => Some(u.id@),
            None => None,
        },
    )
}

/// The name a leaderboard line shows: its own `username`, else its user's.
pub open spec fn entry_username(e: LeagueEndContextLeaderboard) -> Option<Seq<char>> {
    or_else(
        opt_view(e.username),
        match e.user {
            Some(u) => Some(u.username@),
            None => None,
        },
    )
}

/// The index of the first line of `lb` whose player is `uid` (`same`) or is
/// not `uid` (`!same`); a line that names no player counts as the empty id.
pub open spec fn find_entry(lb: Seq<LeagueEndContextLeaderboard>, uid: Seq<char>, same: bool) -> Option<int>
    decreases lb.len(),
{
    if lb.len() == 0 {
        None
    } else if (or_empty(entry_id(lb[0])) == uid) == same {
        Some(0)
    } else {
        match find_entry(lb.skip(1), uid, same) {
            Some(i) => Some(i + 1),
            None => None,
        }
    }
}

/// The index of the first line of a round whose `id` is `uid` (`same`) or is
/// not `uid` (`!same`); a missing id counts as the empty one.
pub open spec fn find_round_entry(r: Seq<LeagueEndContextRound>, uid: Seq<char>, same: bool) -> Option<int>
    decreases r.len(),
{
    if r.len() == 0 {
        None
    } else if (or_empty(opt_view(r[0].id)) == uid) == same {
        Some(0)
    } else {
        match find_round_entry(r.skip(1), uid, same) {
            Some(i) => Some(i + 1),
            None => None,
        }
    }
}

/// The longest lifetime among a round's lines, 0 for none.
pub open spec fn longest_lifetime(r: Seq<LeagueEndContextRound>) -> nat
    decreases r.len(),
{
    if r.len() == 0 {
        0
    } else {
        let rest = longest_lifetime(r.drop_last());
        if r.last().lifetime > rest {
            r.last().lifetime as nat
        } else {
            rest
        }
    }
}

/// One side of a round, from its line.
pub open spec fn side_of(e: LeagueEndContextRound) -> Stats {
    Stats { pps: e.stats.pps, apm: e.stats.apm, vs: e.stats.vsscore, success: e.alive }
}

/// A round of the report, or `None` where the subject or any opponent is
/// missing from it.
pub open spec fn round_model(r: Seq<LeagueEndContextRound>, uid: Seq<char>) -> Option<RoundModel> {
    match (find_round_entry(r, uid, true), find_round_entry(r, uid, false)) {
        (Some(l), Some(o)) => Some(
            RoundModel { left: side_of(r[l]), right: side_of(r[o]), time: clock(longest_lifetime(r)) },
        ),
        _ => None,
    }
}

/// The rounds of the report, in order, leaving out those that `round_model`
/// skips.
pub open spec fn rounds_model(rounds: Seq<Seq<LeagueEndContextRound>>, uid: Seq<char>) -> Seq<RoundModel>
    decreases rounds.len(),
{
    if rounds.len() == 0 {
        Seq::<RoundModel>::empty()
    } else {
        let before = rounds_model(rounds.drop_last(), uid);
        match round_model(rounds.last(), uid) {
            Some(m) => before.push(m),
            None => before,
        }
    }
}

/// A player's averages, from their leaderboard line.
pub open spec fn average_of(e: LeagueEndContextLeaderboard) -> AverageModel {
    AverageModel {
        username: or_empty(entry_username(e)),
        pps: e.stats.pps,
        apm: e.stats.apm,
        vs: e.stats.vsscore,
        score: e.wins as u32,
    }
}

/// The rounds of a match, each as a sequence of lines.
pub open spec fn round_lines(ctx: LeagueEndContext) -> Seq<Seq<LeagueEndContextRound>> {
    ctx.rounds@.map_values(|r: Vec<LeagueEndContextRound>| r@)
}

/// Whether every line of the leaderboard and of each round names its player.
pub open spec fn all_named(ctx: LeagueEndContext) -> bool {
    &&& forall|i: int| 0 <= i < ctx.leaderboard@.len() ==> (#[trigger] entry_id(ctx.leaderboard@[i])) is Some
    &&& forall|r: int, k: int|
        0 <= r < ctx.rounds@.len() && 0 <= k < ctx.rounds@[r]@.len() ==> (#[trigger] ctx.rounds@[r]@[k]).id is Some
}

/// Why no report of a match can be seen from player `uid`, or `None` where
/// one can: a line that names no player makes the match malformed; then the
/// subject must have a line, and someone else too.
pub open spec fn record_failure(ctx: LeagueEndContext, uid: Seq<char>) -> Option<ReportError> {
    if !all_named(ctx) {
        Some(ReportError::MalformedUpstreamData)
    } else if find_entry(ctx.leaderboard@, uid, true) is None {
        Some(ReportError::PlayerNotFound)
    } else if find_entry(ctx.leaderboard@, uid, false) is None {
        Some(ReportError::OpponentNotFound)
    } else {
        None
    }
}

/// Whether every line of the leaderboard and of each round names its player.
fn lines_named(ctx: &LeagueEndContext) -> (r: bool)
    ensures
        r == all_named(*ctx),
{
    let mut i: usize = 0;
    while i < ctx.leaderboard.len()
        invariant
            i <= ctx.leaderboard@.len(),
            forall|j: int| 0 <= j < i ==> (#[trigger] entry_id(ctx.leaderboard@[j])) is Some,
        decreases ctx.leaderboard@.len() - i,
    {
        let e = &ctx.leaderboard[i];
        let named = match &e.id {
            Some(_) => true,
            None => e.user.is_some(),
        };
        if !named {
            assert(entry_id(ctx.leaderboard@[i as int]) is None);
            return false;
        }
        i = i + 1;
    }
    let mut r: usize = 0;
    while r < ctx.rounds.len()
        invariant
            r <= ctx.rounds@.len(),
            forall|j: int| 0 <= j < ctx.leaderboard@.len() ==> (#[trigger] entry_id(ctx.leaderboard@[j])) is Some,
            forall|q: int, k: int|
                0 <= q < r && 0 <= k < ctx.rounds@[q]@.len() ==> (#[trigger] ctx.rounds@[q]@[k]).id is Some,
        decreases ctx.rounds@.len() - r,
    {
        let lines = &ctx.rounds[r];
        let mut k: usize = 0;
        while k < lines.len()
            invariant
                r < ctx.rounds@.len(),
                *lines == ctx.rounds@[r as int],
                k <= lines@.len(),
                forall|j: int| 0 <= j < k ==> (#[trigger] lines@[j]).id is Some,
            decreases lines@.len() - k,
        {
            if lines[k].id.is_none() {
                assert(ctx.rounds@[r as int]@[k as int].id is None);
                return false;
            }
            k = k + 1;
        }
        assert forall|q: int, j: int|
            0 <= q < r + 1 && 0 <= j < ctx.rounds@[q]@.len() implies (#[trigger] ctx.rounds@[q]@[j]).id is Some by {
            if q == r {
                assert(lines@[j] == ctx.rounds@[q]@[j]);
            }
        }
        r = r + 1;
    }
    true
}

proof fn lemma_rounds_model_concat(a: Seq<Seq<LeagueEndContextRound>>, b: Seq<Seq<LeagueEndContextRound>>, uid: Seq<char>)
    ensures
        rounds_model(a + b, uid) == rounds_model(a, uid) + rounds_model(b, uid),
    decreases b.len(),
{
    if b.len() == 0 {
        assert(a + b =~= a);
        assert(rounds_model(a, uid) + Seq::<RoundModel>::empty() =~= rounds_model(a, uid));
    } else {
        lemma_rounds_model_concat(a, b.drop_last(), uid);
        assert((a + b).drop_last() =~= a + b.drop_last());
        assert((a + b).last() == b.last());
        let before_a = rounds_model(a, uid);
        let before_b = rounds_model(b.drop_last(), uid);
        match round_model(b.last(), uid) {
            Some(m) => {
                assert(before_a + before_b.push(m) =~= (before_a + before_b).push(m));
            },
            None => {},
        }
    }
}

/// A round in which the subject has no line is skipped, not an error: the
/// report keeps the rounds before and after it, in order, as if it were not
/// there.
pub proof fn lemma_round_without_subject_skipped(
    before: Seq<Seq<LeagueEndContextRound>>,
    round: Seq<LeagueEndContextRound>,
    after: Seq<Seq<LeagueEndContextRound>>,
    uid: Seq<char>,
)
    requires
        find_round_entry(round, uid, true) is None,
    ensures
        rounds_model(before + seq![round] + after, uid) == rounds_model(before, uid) + rounds_model(after, uid),
{
    lemma_rounds_model_concat(before + seq![round], after, uid);
    lemma_rounds_model_concat(before, seq![round], uid);
    assert(seq![round].drop_last() =~= Seq::<Seq<LeagueEndContextRound>>::empty());
    assert(seq![round].last() == round);
    assert(round_model(round, uid) is None);
    assert(rounds_model(Seq::<Seq<LeagueEndContextRound>>::empty(), uid) =~= Seq::<RoundModel>::empty());
    assert(rounds_model(seq![round], uid) =~= Seq::<RoundModel>::empty());
    assert(rounds_model(before, uid) + Seq::<RoundModel>::empty() =~= rounds_model(before, uid));
}

/// A round in which the subject and someone else both have a line is kept.
pub proof fn lemma_round_with_both_kept(round: Seq<LeagueEndContextRound>, uid: Seq<char>)
    requires
        find_round_entry(round, uid, true) is Some,
        find_round_entry(round, uid, false) is Some,
    ensures
        rounds_model(seq![round], uid) == seq![round_model(round, uid)->0],
{
    assert(seq![round].drop_last() =~= Seq::<Seq<LeagueEndContextRound>>::empty());
    assert(seq![round].last() == round);
    assert(rounds_model(Seq::<Seq<LeagueEndContextRound>>::empty(), uid) =~= Seq::<RoundModel>::empty());
    assert(Seq::<RoundModel>::empty().push(round_model(round, uid)->0) =~= seq![round_model(round, uid)->0]);
}

/// The report of a match seen from player `uid`.
pub open spec fn record_model(ctx: LeagueEndContext, uid: Seq<char>) -> RecordModel
    recommends
        record_failure(ctx, uid) is None,
{
    let lb = ctx.leaderboard@;
    RecordModel {
        left: average_of(lb[find_entry(lb, uid, true)->0]),
        right: average_of(lb[find_entry(lb, uid, false)->0]),
        rounds: rounds_model(round_lines(ctx), uid),
    }
}

fn id_or_empty(o: &Option<String>) -> (r: String)
    ensures
        r@ == or_empty(opt_view(*o)),
{
    match o {
        Some(s) => s.clone(),
        None => String::new(),
    }
}

fn leaderboard_id(e: &LeagueEndContextLeaderboard) -> (r: String)
    ensures
        r@ == or_empty(entry_id(*e)),
{
    match &e.id {
        Some(s) => s.clone(),
        None => match &e.user {
            Some(u) => u.id.clone(),
            None => String::new(),
        },
    }
}

fn leaderboard_username(e: &LeagueEndContextLeaderboard) -> (r: String)
    ensures
        r@ == or_empty(entry_username(*e)),
{
    match &e.username {
        Some(s) => s.clone(),
        None => match &e.user {
            Some(u) => u.username.clone(),
            None => String::new(),
        },
    }
}

proof fn lemma_find_entry_step(lb: Seq<LeagueEndContextLeaderboard>, uid: Seq<char>, same: bool, i: int)
    requires
        0 <= i < lb.len(),
        forall|k: int| 0 <= k < i ==> (#[trigger] or_empty(entry_id(lb[k])) == uid) != same,
    ensures
        find_entry(lb, uid, same) == (if (or_empty(entry_id(lb[i])) == uid) == same {
            Some(i)
        } else {
            match find_entry(lb.skip(i + 1), uid, same) {
                Some(j) => Some(j + i + 1),
                None => None,
            }
        }),
    decreases i,
{
    if i > 0 {
        let rest = lb.skip(1);
        assert forall|k: int| 0 <= k < i - 1 implies (#[trigger] or_empty(entry_id(rest[k])) == uid)
            != same by {
            assert(rest[k] == lb[k + 1]);
        }
        assert(rest[i - 1] == lb[i]);
        assert(rest.skip(i) =~= lb.skip(i + 1));
        lemma_find_entry_step(rest, uid, same, i - 1);
    } else {
        assert(lb.skip(1) =~= lb.skip(i + 1));
    }
}

/// The index of the first leaderboard line whose player is, or is not, `uid`.
fn find_entry_index(lb: &Vec<LeagueEndContextLeaderboard>, uid: &String, same: bool) -> (r: Option<usize>)
    ensures
        match r {
            Some(i) => i < lb@.len() && find_entry(lb@, uid@, same) == Some(i as int),
            None => find_entry(lb@, uid@, same) is None,
        },
{
    let mut i: usize = 0;
    while i < lb.len()
        invariant
            i <= lb@.len(),
            forall|k: int| 0 <= k < i ==> (#[trigger] or_empty(entry_id(lb@[k])) == uid@) != same,
        decreases lb@.len() - i,
    {
        let id = leaderboard_id(&lb[i]);
        proof {
            lemma_find_entry_step(lb@, uid@, same, i as int);
        }
        if (id == *uid) == same {
            return Some(i);
        }
        i = i + 1;
    }
    proof {
        lemma_find_entry_none(lb@, uid@, same);
    }
    None
}

proof fn lemma_find_entry_none(lb: Seq<LeagueEndContextLeaderboard>, uid: Seq<char>, same: bool)
    requires
        forall|k: int| 0 <= k < lb.len() ==> (#[trigger] or_empty(entry_id(lb[k])) == uid) != same,
    ensures
        find_entry(lb, uid, same) is None,
    decreases lb.len(),
{
    if lb.len() > 0 {
        let rest = lb.skip(1);
        assert forall|k: int| 0 <= k < rest.len() implies (#[trigger] or_empty(entry_id(rest[k])) == uid)
            != same by {
            assert(rest[k] == lb[k + 1]);
        }
        lemma_find_entry_none(rest, uid, same);
    }
}

proof fn lemma_find_round_step(r: Seq<LeagueEndContextRound>, uid: Seq<char>, same: bool, i: int)
    requires
        0 <= i < r.len(),
        forall|k: int| 0 <= k < i ==> (#[trigger] or_empty(opt_view(r[k].id)) == uid) != same,
    ensures
        find_round_entry(r, uid, same) == (if (or_empty(opt_view(r[i].id)) == uid) == same {
            Some(i)
        } else {
            match find_round_entry(r.skip(i + 1), uid, same) {
                Some(j) => Some(j + i + 1),
                None => None,
            }
        }),
    decreases i,
{
    if i > 0 {
        let rest = r.skip(1);
        assert forall|k: int| 0 <= k < i - 1 implies (#[trigger] or_empty(opt_view(rest[k].id)) == uid)
            != same by {
            assert(rest[k] == r[k + 1]);
        }
        assert(rest[i - 1] == r[i]);
        assert(rest.skip(i) =~= r.skip(i + 1));
        lemma_find_round_step(rest, uid, same, i - 1);
    } else {
        assert(r.skip(1) =~= r.skip(i + 1));
    }
}

proof fn lemma_find_round_none(r: Seq<LeagueEndContextRound>, uid: Seq<char>, same: bool)
    requires
        forall|k: int| 0 <= k < r.len() ==> (#[trigger] or_empty(opt_view(r[k].id)) == uid) != same,
    ensures
        find_round_entry(r, uid, same) is None,
    decreases r.len(),
{
    if r.len() > 0 {
        let rest = r.skip(1);
        assert forall|k: int| 0 <= k < rest.len() implies (#[trigger] or_empty(opt_view(rest[k].id)) == uid)
            != same by {
            assert(rest[k] == r[k + 1]);
        }
        lemma_find_round_none(rest, uid, same);
    }
}

/// The index of the first line of a round whose player is, or is not, `uid`.
fn find_round_index(r: &Vec<LeagueEndContextRound>, uid: &String, same: bool) -> (res: Option<usize>)
    ensures
        match res {
            Some(i) => i < r@.len() && find_round_entry(r@, uid@, same) == Some(i as int),
            None => find_round_entry(r@, uid@, same) is None,
        },
{
    let mut i: usize = 0;
    while i < r.len()
        invariant
            i <= r@.len(),
            forall|k: int| 0 <= k < i ==> (#[trigger] or_empty(opt_view(r@[k].id)) == uid@) != same,
        decreases r@.len() - i,
    {
        let id = id_or_empty(&r[i].id);
        proof {
            lemma_find_round_step(r@, uid@, same, i as int);
        }
        if (id == *uid) == same {
            return Some(i);
        }
        i = i + 1;
    }
    proof {
        lemma_find_round_none(r@, uid@, same);
    }
    None
}

/// The longest lifetime among a round's lines, 0 for none.
fn round_length(r: &Vec<LeagueEndContextRound>) -> (res: u64)
    ensures
        res == longest_lifetime(r@),
{
    let mut best: u64 = 0;
    let mut i: usize = 0;
    assert(r@.take(0) =~= Seq::<LeagueEndContextRound>::empty());
    while i < r.len()
        invariant
            i <= r@.len(),
            best == longest_lifetime(r@.take(i as int)),
        decreases r@.len() - i,
    {
        assert(r@.take(i + 1).drop_last() =~= r@.take(i as int));
        if r[i].lifetime > best {
            best = r[i].lifetime;
        }
        i = i + 1;
    }
    assert(r@.take(i as int) =~= r@);
    best
}

fn side(e: &LeagueEndContextRound) -> (s: Stats)
    ensures
        s == side_of(*e),
{
    Stats { pps: e.stats.pps, apm: e.stats.apm, vs: e.stats.vsscore, success: e.alive }
}

/// One round of the report: the subject's line against the first other
/// player's, lasting as long as its longest lifetime; `None` where either is
/// missing, which happens when the subject sat the round out.
pub fn round_from_lines(r: &Vec<LeagueEndContextRound>, uid: &String) -> (res: Option<Round>)
    ensures
        match res {
            Some(x) => round_model(r@, uid@) == Some(x@),
            None => round_model(r@, uid@) is None,
        },
{
    let left = find_round_index(r, uid, true);
    let right = find_round_index(r, uid, false);
    match (left, right) {
        (Some(l), Some(o)) => {
            let ms = round_length(r);
            let time = format_clock(ms);
            Some(Round { left: side(&r[l]), right: side(&r[o]), time })
        },
        _ => None,
    }
}

fn average_from(e: &LeagueEndContextLeaderboard) -> (a: Average)
    ensures
        a@ == average_of(*e),
{
    Average {
        username: leaderboard_username(e),
        pps: e.stats.pps,
        apm: e.stats.apm,
        vs: e.stats.vsscore,
        score: e.wins as u32,
    }
}

/// The report of a match seen from player `user_id`: their leaderboard line
/// on the left, the first other player's on the right, and the rounds both
/// took part in. Fails when no line, or only lines, belong to `user_id`.
pub fn league_record_from_context(ctx: &LeagueEndContext, user_id: &str) -> (res: Result<LeagueRecord, ReportError>)
    ensures
        res is Err <==> record_failure(*ctx, user_id@) is Some,
        res is Err ==> res->Err_0 == record_failure(*ctx, user_id@)->0,
        res is Ok ==> res->Ok_0@ == record_model(*ctx, user_id@),
{
    if !lines_named(ctx) {
        return Err(ReportError::MalformedUpstreamData);
    }
    let uid = String::from_str(user_id);
    let left = find_entry_index(&ctx.leaderboard, &uid, true);
    let l = match left {
        Some(l) => l,
        None => {
            return Err(ReportError::PlayerNotFound);
        },
    };
    let right = find_entry_index(&ctx.leaderboard, &uid, false);
    let o = match right {
        Some(o) => o,
        None => {
            return Err(ReportError::OpponentNotFound);
        },
    };
    let mut rounds: Vec<Round> = Vec::new();
    let mut i: usize = 0;
    let ghost lines = round_lines(*ctx);
    assert(lines.take(0) =~= Seq::<Seq<LeagueEndContextRound>>::empty());
    assert(rounds@.map_values(|r: Round| r@) =~= Seq::<RoundModel>::empty());
    while i < ctx.rounds.len()
        invariant
            i <= ctx.rounds@.len(),
            lines == round_lines(*ctx),
            lines.len() == ctx.rounds@.len(),
            uid@ == user_id@,
            rounds@.map_values(|r: Round| r@) == rounds_model(lines.take(i as int), uid@),
        decreases ctx.rounds@.len() - i,
    {
        assert(lines.take(i + 1).drop_last() =~= lines.take(i as int));
        assert(lines.take(i + 1).last() == ctx.rounds@[i as int]@);
        let ghost before = rounds@;
        match round_from_lines(&ctx.rounds[i], &uid) {
            Some(x) => {
                rounds.push(x);
                assert(rounds@.map_values(|r: Round| r@) =~= before.map_values(|r: Round| r@).push(x@));
            },
            None => {},
        }
        i = i + 1;
    }
    assert(lines.take(i as int) =~= lines);
    let left_avg = average_from(&ctx.leaderboard[l]);
    let right_avg = average_from(&ctx.leaderboard[o]);
    let record = LeagueRecord { averages: Averages { left: left_avg, right: right_avg }, rounds };
    assert(record@.rounds =~= rounds_model(lines, user_id@));
    Ok(record)
}

/// The player a replay board belongs to, as its nested user object names
/// them.
pub struct GameReplayGameBoardUser {
    pub id: String,
    pub username: String,
}

/// A player's board at the end of a replayed game, named by its top-level
/// `id` and `username` where present, else by `user`.
pub struct GameReplayGameBoard {
    pub user: Option<GameReplayGameBoardUser>,
    pub id: Option<String>,
    pub username: Option<String>,
    pub active: bool,
    pub success: bool,
}

fn clone_or(a: &Option<String>, b: &Option<GameReplayGameBoardUser>, name: bool) -> (r: Option<String>)
    ensures
        opt_view(r) == or_else(
            opt_view(*a),
            match *b {
                Some(u) => Some(if name { u.username@ } else { u.id@ }),
                None => None,
            },
        ),
{
    match a {
        Some(s) => Some(s.clone()),
        None => match b {
            Some(u) => Some(if name { u.username.clone() } else { u.id.clone() }),
            None => None,
        },
    }
}

impl GameReplayGameBoard {
    /// The board's player: its own `id`, else its user's.
    pub fn get_id(&self) -> (r: Option<String>)
        ensures
            opt_view(r) == or_else(
                opt_view(self.id),
                match self.user {
                    Some(u) => Some(u.id@),
                    None => None,
                },
            ),
    {
        clone_or(&self.id, &self.user, false)
    }

    /// The board's player name: its own `username`, else its user's.
    pub fn get_username(&self) -> (r: Option<String>)
        ensures
            opt_view(r) == or_else(
                opt_view(self.username),
                match self.user {
                    Some(u) => Some(u.username@),
                    None => None,
                },
            ),
    {
        clone_or(&self.username, &self.user, true)
    }
}

/// A replayed game: when it was played, in milliseconds since the epoch, and
/// how it ended.
pub struct GameReplayData {
    pub ts: i64,
    pub results: LeagueEndContext,
}

/// The game service's answer for a replay.
pub struct GameReplayPacket {
    pub success: bool,
    pub game: Option<GameReplayData>,
}

/// What to do after looking a replay up in the cache.
pub enum CacheAction<P> {
    /// Hand back the cached payload; nothing is fetched.
    Serve(P),
    /// Fetch the replay from the game service.
    Fetch,
}

/// What to do with the answer of a fetch.
pub enum FetchAction<P> {
    /// Keep the payload in the cache and hand it back.
    StoreAndServe(P),
    /// Keep nothing, and report the failure with its cause.
    Fail(ReportError),
}

/// A cached replay is served as it is; a missing one is fetched.
pub fn on_cache_lookup<P>(cached: Option<P>) -> (a: CacheAction<P>)
    ensures
        match cached {
            Some(p) => a == CacheAction::Serve(p),
            None => a is Fetch,
        },
{
    match cached {
        Some(p) => CacheAction::Serve(p),
        None => CacheAction::Fetch,
    }
}

/// A fetched replay is stored and served; a failed fetch stores nothing and
/// keeps its cause.
pub fn on_replay_fetched<P>(fetched: Result<P, String>) -> (a: FetchAction<P>)
    ensures
        match fetched {
            Ok(p) => a == FetchAction::StoreAndServe(p),
            Err(e) => a == FetchAction::<P>::Fail(ReportError::UpstreamFetchFailed(e)),
        },
{
    match fetched {
        Ok(p) => FetchAction::StoreAndServe(p),
        Err(e) => FetchAction::Fail(ReportError::UpstreamFetchFailed(e)),
    }
}

/// What a report's failure says to the reader.
pub open spec fn error_message(e: ReportError) -> Seq<char> {
    match e {
        ReportError::MalformedUpstreamData => "Couldn't fetch replay data (game)"@,
        ReportError::MalformedQuery => "Couldn't decode data"@,
        ReportError::PlayerNotFound => "Failed to parse data (couldn't find end contexts)"@,
        ReportError::OpponentNotFound => "Failed to parse data (couldn't find end contexts)"@,
        ReportError::UpstreamFetchFailed(cause) => "Couldn't fetch replay data: "@ + cause@,
    }
}

impl ReportError {
    /// What this failure says to the reader.
    pub fn message(&self) -> (r: String)
        ensures
            r@ == error_message(*self),
    {
        match self {
            ReportError::MalformedUpstreamData => String::from_str("Couldn't fetch replay data (game)"),
            ReportError::MalformedQuery => String::from_str("Couldn't decode data"),
            ReportError::PlayerNotFound => String::from_str("Failed to parse data (couldn't find end contexts)"),
            ReportError::OpponentNotFound => String::from_str("Failed to parse data (couldn't find end contexts)"),
            ReportError::UpstreamFetchFailed(cause) => {
                let mut r = String::from_str("Couldn't fetch replay data: ");
                r.append(cause.as_str());
                r
            },
        }
    }
}

} // verus!
