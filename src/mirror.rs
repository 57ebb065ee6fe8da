use vstd::prelude::*;
use vstd::string::*;

verus! {

/// One network path to race: a prefix put before the probed URL (empty for
/// the direct path) and a name to show.
pub struct ProxyCandidate {
    pub prefix: String,
    pub display_name: String,
}

/// Why no candidate could be chosen.
#[derive(Debug, Clone, Copy, PartialEq, Eq, Structural)]
pub enum MirrorError {
    /// Every candidate was unreachable.
    NoMirrorAvailable,
}

/// Among the first `n` measurements, the one at `i` succeeded, none is
/// faster, and every earlier one is slower.
pub open spec fn fastest_among(t: Seq<Option<u64>>, n: int, i: int) -> bool {
    &&& 0 <= i < n <= t.len()
    &&& t[i] is Some
    &&& forall|j: int| 0 <= j < n && #[trigger] t[j] is Some ==> t[i]->0 <= t[j]->0
    &&& forall|j: int| 0 <= j < i && #[trigger] t[j] is Some ==> t[i]->0 < t[j]->0
}

/// The measurement at `i` is the fastest, the first of equally fast ones.
pub open spec fn is_fastest(t: Seq<Option<u64>>, i: int) -> bool {
    fastest_among(t, t.len() as int, i)
}

/// No measurement succeeded.
pub open spec fn none_reachable(t: Seq<Option<u64>>) -> bool {
    forall|j: int| 0 <= j < t.len() ==> #[trigger] t[j] is None
}

/// Picks the fastest of the measured elapsed times (`None` for a candidate
/// that failed): the least one, the first in order among equals.
pub fn fastest_candidate(elapsed: &Vec<Option<u64>>) -> (r: Result<usize, MirrorError>)
    ensures
        match r {
            Ok(i) => is_fastest(elapsed@, i as int),
            Err(_) => none_reachable(elapsed@),
        },
{
    let mut best: Option<usize> = None;
    let mut best_time: u64 = 0;
    let mut i: usize = 0;
    while i < elapsed.len()
        invariant
            i <= elapsed.len(),
            match best {
                None => forall|j: int| 0 <= j < i ==> #[trigger] elapsed@[j] is None,
                Some(b) => fastest_among(elapsed@, i as int, b as int) && elapsed@[b as int]
                    == Some(best_time),
            },
        decreases elapsed.len() - i,
    {
        if let Some(t) = elapsed[i] {
            match best {
                None => {
                    best = Some(i);
                    best_time = t;
                },
                Some(_) => {
                    if t < best_time {
                        best = Some(i);
                        best_time = t;
                    }
                },
            }
        }
        i = i + 1;
    }
    match best {
        Some(b) => Ok(b),
        None => Err(MirrorError::NoMirrorAvailable),
    }
}

/// When two reachable candidates tie at the least elapsed time, the later
/// one is never chosen: the choice is the first candidate in input order
/// with that time.
pub proof fn ties_go_to_earlier(t: Seq<Option<u64>>, r: int, i: int, j: int)
    requires
        is_fastest(t, r),
        0 <= i < j < t.len(),
        t[i] is Some,
        t[j] == t[i],
        forall|k: int| 0 <= k < t.len() && #[trigger] t[k] is Some ==> t[i]->0 <= t[k]->0,
    ensures
        r <= i,
        r != j,
        (forall|k: int| 0 <= k < i ==> #[trigger] t[k] != t[i]) ==> r == i,
{
    assert(t[r]->0 <= t[i]->0);
    if r > i {
        assert(t[r]->0 < t[i]->0);
    }
}

/// Returns a copy of the fastest candidate, given each candidate's measured
/// elapsed time (`None` where it failed, timed out or answered with a
/// non-success status).
pub fn select_fastest(candidates: &Vec<ProxyCandidate>, elapsed: &Vec<Option<u64>>) -> (r: Result<
    ProxyCandidate,
    MirrorError,
>)
    requires
        candidates.len() == elapsed.len(),
    ensures
        match r {
            Ok(c) => exists|i: int|
                is_fastest(elapsed@, i) && c.prefix@ == candidates@[i].prefix@
                    && c.display_name@ == candidates@[i].display_name@,
            Err(e) => e == MirrorError::NoMirrorAvailable && none_reachable(elapsed@),
        },
{
    match fastest_candidate(elapsed) {
        Ok(i) => {
            let c = &candidates[i];
            Ok(ProxyCandidate { prefix: c.prefix.clone(), display_name: c.display_name.clone() })
        },
        Err(e) => Err(e),
    }
}

/// The URL by which a candidate is probed: its prefix, then the probe URL.
pub fn probe_url(prefix: &str, probe: &str) -> (r: String)
    ensures
        r@ == prefix@ + probe@,
{
    let mut s = String::from_str(prefix);
    s.append(probe);
    s
}

/// The name shown for the direct path.
pub open spec fn direct_name() -> Seq<char> {
    "Direct connection"@
}

/// The name shown for a candidate with `prefix`.
pub open spec fn label_of(prefix: Seq<char>) -> Seq<char> {
    if prefix.len() == 0 {
        direct_name()
    } else {
        prefix
    }
}

/// The name shown for a candidate: the prefix, or a fixed name for the direct
/// path.
pub fn candidate_label(prefix: &str) -> (r: String)
    ensures
        r@ == label_of(prefix@),
{
    if prefix.unicode_len() == 0 {
        proof { reveal_strlit("Direct connection"); }
        String::from_str("Direct connection")
    } else {
        String::from_str(prefix)
    }
}

fn candidate(prefix: &str) -> (c: ProxyCandidate)
    ensures
        c.prefix@ == prefix@,
        c.display_name@ == label_of(prefix@),
{
    ProxyCandidate { prefix: String::from_str(prefix), display_name: candidate_label(prefix) }
}

/// The prefixes raced before a download from GitHub: the direct path first,
/// then the mirrors.
pub open spec fn github_prefixes() -> Seq<Seq<char>> {
    seq![
        ""@,
        "https://github.akams.cn/"@,
        "https://github.moeyy.xyz/"@,
        "https://tvv.tw/"@,
    ]
}

/// The candidates raced before a download from GitHub, in order.
pub fn github_candidates() -> (r: Vec<ProxyCandidate>)
    ensures
        r@.len() == github_prefixes().len(),
        forall|i: int|
            0 <= i < r@.len() ==> (#[trigger] r@[i]).prefix@ == github_prefixes()[i]
                && r@[i].display_name@ == label_of(github_prefixes()[i]),
{
    let mut v: Vec<ProxyCandidate> = Vec::new();
    v.push(candidate(""));
    v.push(candidate("https://github.akams.cn/"));
    v.push(candidate("https://github.moeyy.xyz/"));
    v.push(candidate("https://tvv.tw/"));
    v
}

/// The resource fetched through each candidate to time it.
pub fn speedtest_url() -> (r: &'static str)
    ensures
        r@ == "https://raw.githubusercontent.com/microsoft/vscode/main/LICENSE.txt"@,
{
    "https://raw.githubusercontent.com/microsoft/vscode/main/LICENSE.txt"
}

} // verus!
