//! Pausing media players while the daemon records, through `playerctl`.
//! Running `playerctl` is the work of the program around the library; the
//! time budget of each command, the reading of its output and which players
//! a recording owns are decided here.
use vstd::prelude::*;

use crate::config::PlaybackConfig;
use crate::text::{
    chars_of, split_chars, split_on, str_eq, string_from_chars, trim, trim_str, vec_views,
};

verus! {

/// Runs `playerctl` as configured.
#[derive(Debug, Clone)]
pub struct PlaybackController {
    config: PlaybackConfig,
}

/// `a` or `b`, whichever is smaller.
pub open spec fn min_int(a: int, b: int) -> int {
    if a <= b {
        a
    } else {
        b
    }
}

/// A command's line as it is logged: the command, then its arguments
/// separated by spaces.
pub open spec fn command_line(cmd: Seq<char>, args: Seq<Seq<char>>) -> Seq<char>
    decreases args.len(),
{
    if args.len() == 0 {
        cmd
    } else {
        command_line(cmd, args.drop_last()) + " "@ + args.last()
    }
}

impl PlaybackController {
    /// A controller for `config`.
    pub fn new(config: PlaybackConfig) -> (c: Self)
        ensures
            c.config()@ == config@,
    {
        PlaybackController { config }
    }

    /// The configuration.
    pub closed spec fn config(&self) -> PlaybackConfig {
        self.config
    }

    /// Whether pausing players is enabled.
    pub fn is_enabled(&self) -> (b: bool)
        ensures
            b == self.config()@.enabled,
    {
        self.config.enabled
    }

    /// The `playerctl` command.
    pub fn playerctl_cmd(&self) -> (s: &str)
        ensures
            s@ == self.config()@.playerctl_cmd,
    {
        self.config.playerctl_cmd.as_str()
    }

    /// Milliseconds that one pass over all players may take.
    pub fn aggregate_timeout_ms(&self) -> (t: u64)
        ensures
            t == self.config()@.aggregate_timeout_ms,
    {
        self.config.aggregate_timeout_ms
    }

    /// The deadline of a pass over the players that starts at `now_ns`:
    /// the aggregate time budget later, saturating.
    pub fn pass_deadline(&self, now_ns: u64) -> (d: u64)
        ensures
            d == min_int(now_ns + self.config()@.aggregate_timeout_ms * 1_000_000, u64::MAX as int),
    {
        let budget: u128 = (self.config.aggregate_timeout_ms as u128) * 1_000_000;
        let total: u128 = now_ns as u128 + budget;
        if total > u64::MAX as u128 {
            u64::MAX
        } else {
            total as u64
        }
    }

    /// Nanoseconds that a command started at `now_ns` may run before the
    /// pass deadline `deadline_ns` or its own timeout, whichever is first;
    /// `None` once the deadline has passed.
    pub fn effective_timeout(&self, deadline_ns: u64, now_ns: u64) -> (t: Option<u128>)
        ensures
            now_ns > deadline_ns ==> t is None,
            now_ns <= deadline_ns ==> t == Some(
                min_int(deadline_ns - now_ns, self.config()@.command_timeout_ms * 1_000_000)
                    as u128,
            ),
    {
        if now_ns > deadline_ns {
            return None;
        }
        let remaining = (deadline_ns - now_ns) as u128;
        let cap = (self.config.command_timeout_ms as u128) * 1_000_000;
        Some(
            if remaining <= cap {
                remaining
            } else {
                cap
            },
        )
    }

    /// The logged line of `playerctl` with `args`.
    pub fn command_label(&self, args: &[String]) -> (s: String)
        ensures
            s@ == command_line(
                self.config()@.playerctl_cmd,
                Seq::new(args@.len(), |i: int| args@[i]@),
            ),
    {
        let ghost views = Seq::new(args@.len(), |i: int| args@[i]@);
        let mut s = self.config.playerctl_cmd.clone();
        let mut i: usize = 0;
        while i < args.len()
            invariant
                i <= args@.len(),
                views == Seq::new(args@.len(), |i: int| args@[i]@),
                s@ == command_line(self.config@.playerctl_cmd, views.subrange(0, i as int)),
            decreases args@.len() - i,
        {
            assert(views.subrange(0, i + 1).drop_last() =~= views.subrange(0, i as int));
            s.append(" ");
            s.append(args[i].as_str());
            i = i + 1;
        }
        assert(views.subrange(0, args@.len() as int) =~= views);
        s
    }
}

/// Whether `a` comes before `b` in the order of Rust's `String`: the
/// first character where they differ decides, by its code point, and a
/// proper prefix comes first.
pub open spec fn lex_lt(a: Seq<char>, b: Seq<char>) -> bool
    decreases a.len(),
{
    if a.len() == 0 {
        b.len() > 0
    } else if b.len() == 0 {
        false
    } else if a[0] < b[0] {
        true
    } else if a[0] == b[0] {
        lex_lt(a.drop_first(), b.drop_first())
    } else {
        false
    }
}

/// No name comes before itself.
pub proof fn lemma_lex_irreflexive(a: Seq<char>)
    ensures
        !lex_lt(a, a),
    decreases a.len(),
{
    if a.len() > 0 {
        lemma_lex_irreflexive(a.drop_first());
    }
}

/// The order is transitive.
pub proof fn lemma_lex_transitive(a: Seq<char>, b: Seq<char>, c: Seq<char>)
    requires
        lex_lt(a, b),
        lex_lt(b, c),
    ensures
        lex_lt(a, c),
    decreases a.len(),
{
    if a.len() > 0 && b.len() > 0 && c.len() > 0 && a[0] == b[0] && b[0] == c[0] {
        lemma_lex_transitive(a.drop_first(), b.drop_first(), c.drop_first());
    }
}

/// Of two different names, one comes before the other.
pub proof fn lemma_lex_total(a: Seq<char>, b: Seq<char>)
    requires
        a != b,
    ensures
        lex_lt(a, b) || lex_lt(b, a),
    decreases a.len(),
{
    if a.len() > 0 && b.len() > 0 && a[0] == b[0] {
        if a.drop_first() == b.drop_first() {
            assert(a =~= seq![a[0]] + a.drop_first());
            assert(b =~= seq![b[0]] + b.drop_first());
        }
        lemma_lex_total(a.drop_first(), b.drop_first());
    } else if a.len() == 0 && b.len() == 0 {
        assert(a =~= b);
    }
}

/// Whether `a` comes before `b` in the order of Rust's `String`.
pub fn str_lt(a: &str, b: &str) -> (r: bool)
    ensures
        r == lex_lt(a@, b@),
{
    let x = chars_of(a);
    let y = chars_of(b);
    let mut i: usize = 0;
    assert(x@.subrange(0, x@.len() as int) =~= x@);
    assert(y@.subrange(0, y@.len() as int) =~= y@);
    while i < x.len() && i < y.len() && x[i] == y[i]
        invariant
            i <= x@.len(),
            i <= y@.len(),
            x@ == a@,
            y@ == b@,
            lex_lt(a@, b@) == lex_lt(x@.subrange(i as int, x@.len() as int), y@.subrange(i as int, y@.len() as int)),
        decreases x@.len() - i,
    {
        let ghost sx = x@.subrange(i as int, x@.len() as int);
        let ghost sy = y@.subrange(i as int, y@.len() as int);
        assert(sx.drop_first() =~= x@.subrange(i + 1, x@.len() as int));
        assert(sy.drop_first() =~= y@.subrange(i + 1, y@.len() as int));
        i = i + 1;
    }
    let ghost sx = x@.subrange(i as int, x@.len() as int);
    let ghost sy = y@.subrange(i as int, y@.len() as int);
    if i == x.len() {
        i < y.len()
    } else if i == y.len() {
        false
    } else {
        assert(sx[0] == x@[i as int] && sy[0] == y@[i as int]);
        x[i] < y[i]
    }
}

/// Whether the names in `s` come in strictly increasing order.
pub open spec fn strictly_sorted(s: Seq<Seq<char>>) -> bool {
    forall|i: int, j: int| 0 <= i < j < s.len() ==> lex_lt(#[trigger] s[i], #[trigger] s[j])
}

/// Whether `x` is a player that the lines of `playerctl -l` name: one of
/// them, trimmed, and not blank.
pub open spec fn listed_player(lines: Seq<Seq<char>>, x: Seq<char>) -> bool {
    x.len() > 0 && exists|k: int| 0 <= k < lines.len() && #[trigger] trim(lines[k]) == x
}

/// The views of a list of names.
pub open spec fn name_views(v: Seq<String>) -> Seq<Seq<char>> {
    Seq::new(v.len(), |i: int| v[i]@)
}

/// Add `name` to the strictly sorted `names`, where it is not there yet.
fn insert_sorted(names: &mut Vec<String>, name: String)
    requires
        strictly_sorted(name_views(old(names)@)),
    ensures
        strictly_sorted(name_views(final(names)@)),
        forall|x: Seq<char>| #[trigger] name_views(final(names)@).contains(x) <==> (name_views(
            old(names)@,
        ).contains(x) || x == name@),
{
    let ghost old_views = name_views(names@);
    let mut j: usize = 0;
    while j < names.len() && str_lt(names[j].as_str(), name.as_str())
        invariant
            j <= names@.len(),
            name_views(names@) == old_views,
            strictly_sorted(old_views),
            forall|k: int| 0 <= k < j ==> lex_lt(#[trigger] old_views[k], name@),
        decreases names@.len() - j,
    {
        j = j + 1;
    }
    if j < names.len() && str_eq(names[j].as_str(), name.as_str()) {
        assert(old_views[j as int] == name@);
        assert forall|x: Seq<char>| #[trigger] old_views.contains(x) <==> (old_views.contains(x)
            || x == name@) by {
            if x == name@ {
                assert(old_views[j as int] == x);
            }
        }
        return;
    }
    proof {
        if j < names@.len() {
            assert(old_views[j as int] != name@);
            lemma_lex_total(old_views[j as int], name@);
        }
    }
    let ghost n = name@;
    names.insert(j, name);
    let ghost v = name_views(names@);
    assert(v =~= old_views.subrange(0, j as int).push(n) + old_views.subrange(
        j as int,
        old_views.len() as int,
    ));
    assert forall|a: int, b: int| 0 <= a < b < v.len() implies lex_lt(#[trigger] v[a], #[trigger] v[b]) by {
        if b < j {
            assert(v[a] == old_views[a] && v[b] == old_views[b]);
        } else if b == j {
            assert(v[a] == old_views[a]);
        } else if a < j {
            assert(v[a] == old_views[a] && v[b] == old_views[b - 1]);
            if b - 1 > j {
                lemma_lex_transitive(n, old_views[j as int], old_views[b - 1]);
            }
            lemma_lex_transitive(old_views[a], n, old_views[b - 1]);
        } else if a == j {
            assert(v[b] == old_views[b - 1]);
            if b - 1 > j {
                lemma_lex_transitive(n, old_views[j as int], old_views[b - 1]);
            }
        } else {
            assert(v[a] == old_views[a - 1] && v[b] == old_views[b - 1]);
        }
    }
    assert forall|x: Seq<char>| #[trigger] v.contains(x) <==> (old_views.contains(x) || x == n) by {
        if x == n {
            assert(v[j as int] == x);
        }
        if old_views.contains(x) {
            let k = choose|k: int| 0 <= k < old_views.len() && old_views[k] == x;
            if k < j {
                assert(v[k] == x);
            } else {
                assert(v[k + 1] == x);
            }
        }
        if v.contains(x) {
            let k = choose|k: int| 0 <= k < v.len() && v[k] == x;
            if k < j {
                assert(old_views[k] == x);
            } else if k > j {
                assert(old_views[k - 1] == x);
            }
        }
    }
}

/// The players that `playerctl -l` printed, each once, in the order of
/// their names.
pub fn parse_player_list(stdout: &str) -> (names: Vec<String>)
    ensures
        strictly_sorted(name_views(names@)),
        forall|x: Seq<char>| #[trigger] name_views(names@).contains(x) <==> listed_player(
            split_on(stdout@, '\n'),
            x,
        ),
{
    let chars = chars_of(stdout);
    let lines = split_chars(chars.as_slice(), '\n');
    let ghost all = split_on(stdout@, '\n');
    let mut names: Vec<String> = Vec::new();
    let mut i: usize = 0;
    while i < lines.len()
        invariant
            i <= lines@.len(),
            vec_views(lines@) == all,
            strictly_sorted(name_views(names@)),
            forall|x: Seq<char>| #[trigger] name_views(names@).contains(x) <==> listed_player(
                all.subrange(0, i as int),
                x,
            ),
        decreases lines@.len() - i,
    {
        let ghost before = name_views(names@);
        let ghost prefix = all.subrange(0, i as int);
        let ghost next = all.subrange(0, i + 1);
        assert(next[i as int] == lines@[i as int]@);
        let line = string_from_chars(lines[i].as_slice());
        let name = trim_str(line.as_str());
        let ghost t = name@;
        if name.as_str().unicode_len() > 0 {
            insert_sorted(&mut names, name);
        }
        assert forall|x: Seq<char>| #[trigger] name_views(names@).contains(x) <==> listed_player(
            next,
            x,
        ) by {
            if listed_player(next, x) {
                let k = choose|k: int| 0 <= k < next.len() && #[trigger] trim(next[k]) == x;
                if k < i {
                    assert(prefix[k] == next[k]);
                    assert(listed_player(prefix, x));
                }
            }
            if listed_player(prefix, x) {
                let k = choose|k: int| 0 <= k < prefix.len() && #[trigger] trim(prefix[k]) == x;
                assert(next[k] == prefix[k]);
            }
            if x == t && t.len() > 0 {
                assert(trim(next[i as int]) == x);
            }
        }
        i = i + 1;
    }
    assert(all.subrange(0, all.len() as int) =~= all);
    names
}

/// Whether the `playerctl status` output says the player is playing.
pub fn status_is_playing(stdout: &str) -> (b: bool)
    ensures
        b == (trim(stdout@) == "Playing"@),
{
    let t = trim_str(stdout);
    str_eq(t.as_str(), "Playing")
}

/// Why a `playerctl` command failed.
#[derive(Debug, Clone)]
pub enum PlaybackCommandError {
    Unavailable(String),
    Io(String),
    Failed(String),
    TimedOut { command: String, timeout_ms: u64 },
}

impl PlaybackCommandError {
    /// The text that describes the error.
    pub fn message(&self) -> (s: String)
        ensures
            s@ == match *self {
                PlaybackCommandError::Unavailable(m) => m@,
                PlaybackCommandError::Io(m) => m@,
                PlaybackCommandError::Failed(m) => m@,
                PlaybackCommandError::TimedOut { command, timeout_ms } => "`"@ + command@
                    + "` timed out after "@ + crate::text::decimal(timeout_ms as nat) + " ms"@,
            },
    {
        match self {
            PlaybackCommandError::Unavailable(m) => m.clone(),
            PlaybackCommandError::Io(m) => m.clone(),
            PlaybackCommandError::Failed(m) => m.clone(),
            PlaybackCommandError::TimedOut { command, timeout_ms } => {
                let mut s = String::from_str("`");
                s.append(command.as_str());
                s.append("` timed out after ");
                let n = crate::text::u64_to_decimal(*timeout_ms);
                s.append(n.as_str());
                s.append(" ms");
                s
            },
        }
    }
}

/// Which recording owns the players that were paused for it.
#[derive(Debug, Clone)]
pub struct CoordinatorState {
    active_session_id: Option<u64>,
    paused_players: Vec<String>,
}

/// The coordinator state as a value.
pub struct CoordinatorView {
    pub active_session_id: Option<u64>,
    pub paused_players: Seq<Seq<char>>,
}

impl View for CoordinatorState {
    type V = CoordinatorView;

    closed spec fn view(&self) -> CoordinatorView {
        CoordinatorView {
            active_session_id: self.active_session_id,
            paused_players: Seq::new(
                self.paused_players@.len(),
                |i: int| self.paused_players@[i]@,
            ),
        }
    }
}

/// The players of `r`, as values.
pub open spec fn players_view(r: Option<Vec<String>>) -> Option<Seq<Seq<char>>> {
    match r {
        Some(v) => Some(Seq::new(v@.len(), |i: int| v@[i]@)),
        None => None,
    }
}

/// Recording `id` owns `paused`, the players paused for it.
pub open spec fn started_with(post: CoordinatorView, id: u64, paused: Seq<Seq<char>>) -> bool {
    post.active_session_id == Some(id) && post.paused_players == paused
}

/// What a stop of recording `id` does: the recording that owns the players
/// takes them, and none owns them afterwards; any other stop changes
/// nothing.
pub open spec fn stop_post(
    pre: CoordinatorView,
    post: CoordinatorView,
    id: u64,
    r: Option<Seq<Seq<char>>>,
) -> bool {
    if pre.active_session_id == Some(id) {
        r == Some(pre.paused_players) && post.active_session_id is None
            && post.paused_players.len() == 0
    } else {
        r is None && post == pre
    }
}

/// The players paused for a recording are resumed by its stop, once: the
/// stop hands back exactly those players, and a second stop hands back
/// nothing.
pub proof fn law_stop_resumes_what_start_paused(
    s1: CoordinatorView,
    s2: CoordinatorView,
    s3: CoordinatorView,
    id: u64,
    paused: Seq<Seq<char>>,
    r1: Option<Seq<Seq<char>>>,
    r2: Option<Seq<Seq<char>>>,
)
    requires
        started_with(s1, id, paused),
        stop_post(s1, s2, id, r1),
        stop_post(s2, s3, id, r2),
    ensures
        r1 == Some(paused),
        r2 is None,
        s3.active_session_id is None,
{
}

/// A stop of another recording leaves the paused players with the one that
/// owns them.
pub proof fn law_other_stop_keeps_players(
    s1: CoordinatorView,
    s2: CoordinatorView,
    owner: u64,
    other: u64,
    paused: Seq<Seq<char>>,
    r: Option<Seq<Seq<char>>>,
)
    requires
        started_with(s1, owner, paused),
        other != owner,
        stop_post(s1, s2, other, r),
    ensures
        r is None,
        started_with(s2, owner, paused),
{
}

impl CoordinatorState {
    /// No recording owns any player.
    pub fn new() -> (s: Self)
        ensures
            s@.active_session_id is None,
            s@.paused_players.len() == 0,
    {
        CoordinatorState { active_session_id: None, paused_players: Vec::new() }
    }

    /// A recording `session_id` starts: whether players must be paused for
    /// it. A session that already owns the players needs nothing; any other
    /// ownership is stale and is dropped.
    pub fn begin_start(&mut self, session_id: u64) -> (pause: bool)
        ensures
            old(self)@.active_session_id == Some(session_id) ==> !pause
                && final(self)@ == old(self)@,
            old(self)@.active_session_id != Some(session_id) ==> pause
                && final(self)@.active_session_id is None
                && final(self)@.paused_players.len() == 0,
    {
        if self.active_session_id == Some(session_id) {
            return false;
        }
        self.active_session_id = None;
        self.paused_players = Vec::new();
        assert(self@.paused_players =~= Seq::<Seq<char>>::empty());
        true
    }

    /// The players in `paused` were paused for recording `session_id`.
    pub fn complete_start(&mut self, session_id: u64, paused: Vec<String>)
        ensures
            started_with(final(self)@, session_id, Seq::new(paused@.len(), |i: int| paused@[i]@)),
    {
        self.active_session_id = Some(session_id);
        self.paused_players = paused;
    }

    /// A recording `session_id` stops: the players to resume, if it owns
    /// them; afterwards no recording owns players.
    pub fn take_for_stop(&mut self, session_id: u64) -> (r: Option<Vec<String>>)
        ensures
            stop_post(old(self)@, final(self)@, session_id, players_view(r)),
    {
        if self.active_session_id != Some(session_id) {
            return None;
        }
        let mut players: Vec<String> = Vec::new();
        std::mem::swap(&mut players, &mut self.paused_players);
        self.active_session_id = None;
        Some(players)
    }

    /// The daemon shuts down: every paused player, to resume.
    pub fn take_all(&mut self) -> (players: Vec<String>)
        ensures
            Seq::new(players@.len(), |i: int| players@[i]@) == old(self)@.paused_players,
            final(self)@.active_session_id is None,
            final(self)@.paused_players.len() == 0,
    {
        let mut players: Vec<String> = Vec::new();
        std::mem::swap(&mut players, &mut self.paused_players);
        self.active_session_id = None;
        players
    }
}

} // verus!
