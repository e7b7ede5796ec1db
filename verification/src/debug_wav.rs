//! Debug recordings of utterances: which artifacts a cleanup pass removes.
//! Files older than the time-to-live go first; if the rest still exceed the
//! size cap, the oldest of them go until the rest fit.
use vstd::prelude::*;

use crate::config::DebugWavConfig;

verus! {

/// Writes utterances as WAV files when enabled, and keeps their directory
/// within its time-to-live and size cap.
#[derive(Debug, Clone)]
pub struct DebugWavRecorder {
    cfg: DebugWavConfig,
}

/// A file found in the output directory.
#[derive(Debug, Clone, Copy, PartialEq, Eq)]
pub struct ArtifactFile {
    pub size_bytes: u64,
    /// Last modification, in nanoseconds since the Unix epoch, where known.
    pub modified_ns: Option<u128>,
}

/// What a cleanup pass does with one file.
#[derive(Debug, Clone, Copy, PartialEq, Eq, Structural)]
pub enum CleanupAction {
    Keep,
    /// Older than the time-to-live.
    RemoveExpired,
    /// Among the oldest files while the directory exceeded its size cap.
    RemoveOversize,
}

/// The time-to-live in nanoseconds: `ttl_hours` hours, counted in seconds
/// that saturate at `u64::MAX`.
pub open spec fn ttl_nanos(ttl_hours: u64) -> int {
    let secs = ttl_hours * 3600;
    (if secs > u64::MAX { u64::MAX as int } else { secs }) * 1_000_000_000
}

/// The size cap in bytes, saturating at `u64::MAX`.
pub open spec fn max_bytes(size_cap_mb: u64) -> int {
    let b = size_cap_mb * 1_048_576;
    if b > u64::MAX { u64::MAX as int } else { b }
}

/// When file `i` was last modified; `now` where that is unknown.
pub open spec fn modified_at(files: Seq<ArtifactFile>, now: u128, i: int) -> int {
    match files[i].modified_ns {
        Some(m) => m as int,
        None => now as int,
    }
}

/// Whether file `i` outlived the time-to-live at `now`.
pub open spec fn is_expired(files: Seq<ArtifactFile>, now: u128, ttl: int, i: int) -> bool {
    now > modified_at(files, now, i) && now - modified_at(files, now, i) > ttl
}

/// Whether file `a` is older than file `b`: by modification time, and by
/// position among equal times.
pub open spec fn older(files: Seq<ArtifactFile>, now: u128, a: int, b: int) -> bool {
    modified_at(files, now, a) < modified_at(files, now, b) || (modified_at(files, now, a)
        == modified_at(files, now, b) && a < b)
}

/// The sum of `w(i)` over the `i < n` that `sel` selects.
pub open spec fn sum_selected(w: spec_fn(int) -> int, sel: spec_fn(int) -> bool, n: int) -> int
    decreases n,
{
    if n <= 0 {
        0
    } else {
        sum_selected(w, sel, n - 1) + if sel(n - 1) { w(n - 1) } else { 0 }
    }
}

/// The size of file `i`.
pub open spec fn size_of(files: Seq<ArtifactFile>) -> spec_fn(int) -> int {
    |i: int| files[i].size_bytes as int
}

/// Weight one for every file, to count them.
pub open spec fn unit_weight() -> spec_fn(int) -> int {
    |i: int| 1int
}

/// The files that a plan keeps.
pub open spec fn kept_by(plan: Seq<CleanupAction>) -> spec_fn(int) -> bool {
    |i: int| plan[i] == CleanupAction::Keep
}

/// The unexpired files no older than file `e`.
pub open spec fn not_older_than(files: Seq<ArtifactFile>, now: u128, ttl: int, e: int) -> spec_fn(
    int,
) -> bool {
    |i: int| !is_expired(files, now, ttl, i) && !older(files, now, i, e)
}

/// What a cleanup pass at `now` must do with `files`, given the time-to-live
/// `ttl` and the size cap `max`.
pub open spec fn is_cleanup_plan(
    files: Seq<ArtifactFile>,
    now: u128,
    ttl: int,
    max: int,
    plan: Seq<CleanupAction>,
) -> bool {
    &&& plan.len() == files.len()
    &&& forall|i: int|
        0 <= i < files.len() ==> (#[trigger] plan[i] == CleanupAction::RemoveExpired
            <==> is_expired(files, now, ttl, i))
    &&& forall|i: int, j: int|
        0 <= i < files.len() && 0 <= j < files.len() && plan[i] == CleanupAction::RemoveOversize
            && plan[j] == CleanupAction::Keep ==> older(files, now, i, j)
    &&& forall|e: int|
        0 <= e < files.len() && plan[e] == CleanupAction::RemoveOversize ==> sum_selected(
            size_of(files),
            not_older_than(files, now, ttl, e),
            files.len() as int,
        ) > max
    &&& (sum_selected(size_of(files), kept_by(plan), files.len() as int) <= max || forall|i: int|
        0 <= i < files.len() ==> plan[i] != CleanupAction::Keep)
}

proof fn lemma_sum_bounds(w: spec_fn(int) -> int, sel: spec_fn(int) -> bool, n: int, bound: int)
    requires
        0 <= n,
        0 <= bound,
        forall|i: int| 0 <= i < n ==> 0 <= #[trigger] w(i) <= bound,
    ensures
        0 <= sum_selected(w, sel, n) <= n * bound,
    decreases n,
{
    if n > 0 {
        lemma_sum_bounds(w, sel, n - 1, bound);
        assert((n - 1) * bound + bound == n * bound) by (nonlinear_arith);
    }
}

proof fn lemma_sum_ext(w: spec_fn(int) -> int, a: spec_fn(int) -> bool, b: spec_fn(int) -> bool, n: int)
    requires
        forall|i: int| 0 <= i < n ==> #[trigger] a(i) == b(i),
    ensures
        sum_selected(w, a, n) == sum_selected(w, b, n),
    decreases n,
{
    if n > 0 {
        lemma_sum_ext(w, a, b, n - 1);
    }
}

proof fn lemma_sum_drop_one(
    w: spec_fn(int) -> int,
    a: spec_fn(int) -> bool,
    b: spec_fn(int) -> bool,
    j: int,
    n: int,
)
    requires
        0 <= j < n,
        a(j),
        !b(j),
        forall|i: int| 0 <= i < n && i != j ==> #[trigger] a(i) == b(i),
    ensures
        sum_selected(w, a, n) == sum_selected(w, b, n) + w(j),
    decreases n,
{
    if n - 1 == j {
        lemma_sum_ext(w, a, b, n - 1);
    } else {
        lemma_sum_drop_one(w, a, b, j, n - 1);
    }
}

impl DebugWavRecorder {
    /// A recorder for `cfg`.
    pub fn new(cfg: DebugWavConfig) -> (r: Self)
        ensures
            r.config() == cfg,
    {
        DebugWavRecorder { cfg }
    }

    /// The configuration.
    pub closed spec fn config(&self) -> DebugWavConfig {
        self.cfg
    }

    /// Whether utterances are written.
    pub fn is_enabled(&self) -> (b: bool)
        ensures
            b == self.config().enabled,
    {
        self.cfg.enabled
    }

    /// The directory setting.
    pub fn directory(&self) -> (s: &str)
        ensures
            s@ == self.config().directory@,
    {
        self.cfg.directory.as_str()
    }

    /// What a cleanup pass at `now_ns` does with each of `files`: those
    /// older than the time-to-live are removed; then, while the rest exceed
    /// the size cap, the oldest of the rest are removed.
    pub fn cleanup_plan(&self, now_ns: u128, files: &[ArtifactFile]) -> (plan: Vec<CleanupAction>)
        ensures
            is_cleanup_plan(
                files@,
                now_ns,
                ttl_nanos(self.config().ttl_hours),
                max_bytes(self.config().size_cap_mb),
                plan@,
            ),
    {
        plan_cleanup(self.cfg.ttl_hours, self.cfg.size_cap_mb, now_ns, files)
    }
}

fn modified_or(f: &ArtifactFile, now_ns: u128) -> (m: u128)
    ensures
        m == match f.modified_ns {
            Some(x) => x,
            None => now_ns,
        },
{
    match f.modified_ns {
        Some(m) => m,
        None => now_ns,
    }
}

/// The removal plan for `files` at `now_ns`, for a time-to-live of
/// `ttl_hours` and a size cap of `size_cap_mb` mebibytes.
pub fn plan_cleanup(ttl_hours: u64, size_cap_mb: u64, now_ns: u128, files: &[ArtifactFile]) -> (plan: Vec<CleanupAction>)
    ensures
        is_cleanup_plan(files@, now_ns, ttl_nanos(ttl_hours), max_bytes(size_cap_mb), plan@),
{
    let ghost fs = files@;
    let ghost n = files@.len() as int;
    let ghost ttl = ttl_nanos(ttl_hours);
    let ghost w = size_of(fs);
    let ttl_secs: u64 = if ttl_hours > u64::MAX / 3600 {
        u64::MAX
    } else {
        ttl_hours * 3600
    };
    let ttl_ns: u128 = (ttl_secs as u128) * 1_000_000_000;
    let max: u64 = if size_cap_mb > u64::MAX / 1_048_576 {
        u64::MAX
    } else {
        size_cap_mb * 1_048_576
    };
    assert(ttl_ns == ttl);
    assert(max == max_bytes(size_cap_mb));

    let mut plan: Vec<CleanupAction> = Vec::new();
    let mut total: u128 = 0;
    let mut i: usize = 0;
    while i < files.len()
        invariant
            fs == files@,
            n == fs.len(),
            w == size_of(fs),
            ttl_ns == ttl,
            i <= n,
            plan@.len() == i,
            forall|k: int|
                0 <= k < i ==> (#[trigger] plan@[k] == CleanupAction::RemoveExpired
                    <==> is_expired(fs, now_ns, ttl, k)),
            forall|k: int|
                0 <= k < i ==> (#[trigger] plan@[k] == CleanupAction::Keep <==> !is_expired(
                    fs,
                    now_ns,
                    ttl,
                    k,
                )),
            total == sum_selected(w, kept_by(plan@), i as int),
        decreases n - i,
    {
        let m = modified_or(&files[i], now_ns);
        let expired = now_ns > m && now_ns - m > ttl_ns;
        let ghost before = plan@;
        if expired {
            plan.push(CleanupAction::RemoveExpired);
        } else {
            proof {
                lemma_sum_bounds(w, kept_by(before), i as int, u64::MAX as int);
                assert(i * (u64::MAX as int) <= u64::MAX * u64::MAX) by (nonlinear_arith)
                    requires
                        i <= u64::MAX,
                ;
            }
            plan.push(CleanupAction::Keep);
            total = total + files[i].size_bytes as u128;
        }
        proof {
            lemma_sum_ext(w, kept_by(before), kept_by(plan@), i as int);
        }
        i = i + 1;
    }

    loop
        invariant
            fs == files@,
            n == fs.len(),
            w == size_of(fs),
            plan@.len() == n,
            forall|k: int|
                0 <= k < n ==> (#[trigger] plan@[k] == CleanupAction::RemoveExpired
                    <==> is_expired(fs, now_ns, ttl, k)),
            total == sum_selected(w, kept_by(plan@), n),
            forall|a: int, b: int|
                0 <= a < n && 0 <= b < n && plan@[a] == CleanupAction::RemoveOversize
                    && plan@[b] == CleanupAction::Keep ==> older(fs, now_ns, a, b),
            forall|e: int|
                0 <= e < n && plan@[e] == CleanupAction::RemoveOversize ==> sum_selected(
                    w,
                    not_older_than(fs, now_ns, ttl, e),
                    n,
                ) > max,
        ensures
            total <= max || forall|k: int| 0 <= k < n ==> plan@[k] != CleanupAction::Keep,
            plan@.len() == n,
            forall|k: int|
                0 <= k < n ==> (#[trigger] plan@[k] == CleanupAction::RemoveExpired
                    <==> is_expired(fs, now_ns, ttl, k)),
            total == sum_selected(w, kept_by(plan@), n),
            forall|a: int, b: int|
                0 <= a < n && 0 <= b < n && plan@[a] == CleanupAction::RemoveOversize
                    && plan@[b] == CleanupAction::Keep ==> older(fs, now_ns, a, b),
            forall|e: int|
                0 <= e < n && plan@[e] == CleanupAction::RemoveOversize ==> sum_selected(
                    w,
                    not_older_than(fs, now_ns, ttl, e),
                    n,
                ) > max,
        decreases sum_selected(unit_weight(), kept_by(plan@), n),
    {
        if total <= max as u128 {
            break;
        }
        let oldest = oldest_kept(now_ns, files, &plan);
        match oldest {
            None => {
                break;
            },
            Some(b) => {
                let ghost before = plan@;
                proof {
                    let sel = not_older_than(fs, now_ns, ttl, b as int);
                    assert forall|k: int| 0 <= k < n implies #[trigger] sel(k) == kept_by(
                        before,
                    )(k) by {
                        if before[k] == CleanupAction::Keep && k != b {
                            assert(!older(fs, now_ns, k, b as int));
                        }
                        if before[k] == CleanupAction::RemoveOversize {
                            assert(older(fs, now_ns, k, b as int));
                        }
                    }
                    lemma_sum_ext(w, sel, kept_by(before), n);
                }
                plan.set(b, CleanupAction::RemoveOversize);
                proof {
                    assert forall|k: int| 0 <= k < n && k != b implies #[trigger] kept_by(before)(
                        k,
                    ) == kept_by(plan@)(k) by {}
                    lemma_sum_drop_one(w, kept_by(before), kept_by(plan@), b as int, n);
                    lemma_sum_drop_one(unit_weight(), kept_by(before), kept_by(plan@), b as int, n);
                    lemma_sum_bounds(unit_weight(), kept_by(plan@), n, 1);
                    lemma_sum_bounds(w, kept_by(plan@), n, u64::MAX as int);
                }
                total = total - files[b].size_bytes as u128;
            },
        }
    }
    plan
}

/// The oldest file that `plan` keeps, if any.
fn oldest_kept(now_ns: u128, files: &[ArtifactFile], plan: &Vec<CleanupAction>) -> (r: Option<usize>)
    requires
        plan@.len() == files@.len(),
    ensures
        r is None ==> forall|k: int| 0 <= k < files@.len() ==> plan@[k] != CleanupAction::Keep,
        r matches Some(b) ==> b < files@.len() && plan@[b as int] == CleanupAction::Keep
            && forall|k: int|
            0 <= k < files@.len() && k != b && plan@[k] == CleanupAction::Keep ==> older(
                files@,
                now_ns,
                b as int,
                k,
            ),
{
    let mut best: Option<usize> = None;
    let mut best_m: u128 = 0;
    let mut j: usize = 0;
    while j < files.len()
        invariant
            plan@.len() == files@.len(),
            j <= files@.len(),
            best is None ==> forall|k: int| 0 <= k < j ==> plan@[k] != CleanupAction::Keep,
            best matches Some(b) ==> b < j && plan@[b as int] == CleanupAction::Keep && best_m
                == modified_at(files@, now_ns, b as int) && forall|k: int|
                0 <= k < j && k != b && plan@[k] == CleanupAction::Keep ==> older(
                    files@,
                    now_ns,
                    b as int,
                    k,
                ),
        decreases files@.len() - j,
    {
        if plan[j] == CleanupAction::Keep {
            let m = modified_or(&files[j], now_ns);
            let better = match best {
                None => true,
                Some(_) => m < best_m,
            };
            if better {
                best = Some(j);
                best_m = m;
            }
        }
        j = j + 1;
    }
    best
}

/// The name of a debug recording made at `timestamp`.
pub fn artifact_file_name(timestamp: &str) -> (s: String)
    ensures
        s@ == "utterance-"@ + timestamp@ + ".wav"@,
{
    let mut s = String::from_str("utterance-");
    s.append(timestamp);
    s.append(".wav");
    s
}

proof fn lemma_sum_none(w: spec_fn(int) -> int, sel: spec_fn(int) -> bool, n: int)
    requires
        forall|i: int| 0 <= i < n ==> !#[trigger] sel(i),
    ensures
        sum_selected(w, sel, n) == 0,
    decreases n,
{
    if n > 0 {
        lemma_sum_none(w, sel, n - 1);
    }
}

/// A cleanup pass never removes the newest unexpired file when that file
/// alone fits within the size cap: the file just written survives its own
/// cleanup.
pub proof fn law_newest_fitting_file_survives(
    files: Seq<ArtifactFile>,
    now: u128,
    ttl: int,
    max: int,
    plan: Seq<CleanupAction>,
    j: int,
)
    requires
        is_cleanup_plan(files, now, ttl, max, plan),
        0 <= j < files.len(),
        !is_expired(files, now, ttl, j),
        forall|k: int|
            0 <= k < files.len() && k != j && !is_expired(files, now, ttl, k) ==> older(
                files,
                now,
                k,
                j,
            ),
        files[j].size_bytes <= max,
    ensures
        plan[j] == CleanupAction::Keep,
{
    let n = files.len() as int;
    let sel = not_older_than(files, now, ttl, j);
    let none = |i: int| false;
    assert forall|i: int| 0 <= i < n && i != j implies #[trigger] sel(i) == none(i) by {}
    lemma_sum_drop_one(size_of(files), sel, none, j, n);
    lemma_sum_none(size_of(files), none, n);
    assert(plan[j] != CleanupAction::RemoveExpired);
}

proof fn lemma_sum_monotone(w: spec_fn(int) -> int, a: spec_fn(int) -> bool, b: spec_fn(int) -> bool, n: int)
    requires
        forall|i: int| 0 <= i < n ==> 0 <= #[trigger] w(i),
        forall|i: int| 0 <= i < n && #[trigger] a(i) ==> b(i),
    ensures
        sum_selected(w, a, n) <= sum_selected(w, b, n),
    decreases n,
{
    if n > 0 {
        lemma_sum_monotone(w, a, b, n - 1);
    }
}

/// Files are only removed for size when the unexpired files together
/// exceed the cap: where they fit, a cleanup pass removes expired files and
/// nothing else.
pub proof fn law_nothing_is_removed_for_size_while_everything_fits(
    files: Seq<ArtifactFile>,
    now: u128,
    ttl: int,
    max: int,
    plan: Seq<CleanupAction>,
)
    requires
        is_cleanup_plan(files, now, ttl, max, plan),
        sum_selected(size_of(files), |i: int| !is_expired(files, now, ttl, i), files.len() as int)
            <= max,
    ensures
        forall|i: int| 0 <= i < files.len() ==> #[trigger] plan[i] != CleanupAction::RemoveOversize,
        forall|i: int|
            0 <= i < files.len() && !is_expired(files, now, ttl, i) ==> #[trigger] plan[i]
                == CleanupAction::Keep,
{
    let n = files.len() as int;
    let unexpired = |i: int| !is_expired(files, now, ttl, i);
    assert forall|i: int| 0 <= i < files.len() implies #[trigger] plan[i] != CleanupAction::RemoveOversize by {
        if plan[i] == CleanupAction::RemoveOversize {
            let sel = not_older_than(files, now, ttl, i);
            assert forall|k: int| 0 <= k < n && #[trigger] sel(k) implies unexpired(k) by {}
            assert forall|k: int| 0 <= k < n implies 0 <= #[trigger] size_of(files)(k) by {}
            lemma_sum_monotone(size_of(files), sel, unexpired, n);
        }
    }
    assert forall|i: int| 0 <= i < files.len() && !is_expired(files, now, ttl, i) implies #[trigger] plan[i]
        == CleanupAction::Keep by {
        assert(plan[i] != CleanupAction::RemoveExpired);
        assert(plan[i] != CleanupAction::RemoveOversize);
    }
}

/// The time-to-live counts whole hours of 3600 seconds of a billion
/// nanoseconds, and the size cap whole mebibytes, each saturating only at
/// the largest 64-bit count.
pub proof fn law_limits_are_hours_and_mebibytes(ttl_hours: u64, size_cap_mb: u64)
    ensures
        ttl_hours * 3600 <= u64::MAX ==> ttl_nanos(ttl_hours) == ttl_hours * 3600 * 1_000_000_000,
        size_cap_mb * 1_048_576 <= u64::MAX ==> max_bytes(size_cap_mb) == size_cap_mb * 1_048_576,
        ttl_hours * 3600 > u64::MAX ==> ttl_nanos(ttl_hours) == u64::MAX * 1_000_000_000,
        size_cap_mb * 1_048_576 > u64::MAX ==> max_bytes(size_cap_mb) == u64::MAX,
{
}

} // verus!
