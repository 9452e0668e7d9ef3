//! Candidate locations of the log file, per host platform.
use vstd::prelude::*;
use vstd::string::StringExecFns;

verus! {

/// The host platform, which decides the directory layout that is searched.
#[derive(Clone, Copy, Debug, PartialEq, Eq, Structural)]
pub enum Platform {
    Windows,
    MacOs,
    Linux,
}

/// The game client's own log, relative to the platform's root directory.
pub open spec fn primary_suffix(p: Platform) -> Seq<char> {
    match p {
        Platform::Windows => "\\.minecraft\\logs\\latest.log"@,
        Platform::MacOs => "/Library/Application Support/minecraft/logs/latest.log"@,
        Platform::Linux => "/.minecraft/logs/latest.log"@,
    }
}

/// The alternate launcher's log, relative to the platform's root directory.
pub open spec fn alternate_suffix(p: Platform) -> Seq<char> {
    match p {
        Platform::Windows => "\\.lunarclient\\offline\\multiver\\logs\\latest.log"@,
        Platform::MacOs => "/.lunarclient/offline/multiver/logs/latest.log"@,
        Platform::Linux => "/.lunarclient/offline/multiver/logs/latest.log"@,
    }
}

/// The candidate paths under a root directory, in the order they are tried.
pub open spec fn candidates_of(p: Platform, root: Seq<char>) -> Seq<Seq<char>> {
    seq![root + primary_suffix(p), root + alternate_suffix(p)]
}

/// The views of a list of strings.
pub open spec fn views(v: Seq<String>) -> Seq<Seq<char>> {
    v.map_values(|s: String| s@)
}

/// Whether candidate `i` is flagged as existing; a candidate without a flag
/// counts as missing.
pub open spec fn flagged(exists: Seq<bool>, i: int) -> bool {
    0 <= i < exists.len() && exists[i]
}

/// Candidate `i` is the first of `n` that is flagged as existing.
pub open spec fn is_first_flagged(n: int, exists: Seq<bool>, i: int) -> bool {
    &&& 0 <= i < n
    &&& flagged(exists, i)
    &&& forall|j: int| 0 <= j < i ==> !flagged(exists, j)
}

fn primary_suffix_str(p: Platform) -> (r: &'static str)
    ensures
        r@ == primary_suffix(p),
{
    match p {
        Platform::Windows => "\\.minecraft\\logs\\latest.log",
        Platform::MacOs => "/Library/Application Support/minecraft/logs/latest.log",
        Platform::Linux => "/.minecraft/logs/latest.log",
    }
}

fn alternate_suffix_str(p: Platform) -> (r: &'static str)
    ensures
        r@ == alternate_suffix(p),
{
    match p {
        Platform::Windows => "\\.lunarclient\\offline\\multiver\\logs\\latest.log",
        Platform::MacOs => "/.lunarclient/offline/multiver/logs/latest.log",
        Platform::Linux => "/.lunarclient/offline/multiver/logs/latest.log",
    }
}

/// The candidate paths under `root`: the game client's log first, then the
/// alternate launcher's.
pub fn candidate_paths(platform: Platform, root: &str) -> (r: Vec<String>)
    ensures
        views(r@) == candidates_of(platform, root@),
{
    let mut primary = String::from_str(root);
    primary.append(primary_suffix_str(platform));
    let mut alternate = String::from_str(root);
    alternate.append(alternate_suffix_str(platform));
    let mut r: Vec<String> = Vec::new();
    r.push(primary);
    r.push(alternate);
    assert(views(r@) =~= candidates_of(platform, root@));
    r
}

/// Relies on dirs::home_dir: the user's home directory, looked up in the
/// environment, which may hold none.
#[verifier::external_body]
fn home_dir() -> (r: Option<String>) {
    dirs::home_dir().map(|h| h.to_string_lossy().to_string())
}

/// The root directory that the candidates hang from: on Windows the
/// application-data directory that the caller read from the environment,
/// elsewhere the user's home directory.
pub fn platform_root(platform: Platform, appdata: Option<String>) -> (r: Option<String>)
    ensures
        platform == Platform::Windows ==> r == appdata,
{
    match platform {
        Platform::Windows => appdata,
        _ => home_dir(),
    }
}

/// The candidates under a root directory that may be unknown: none where
/// it is.
pub open spec fn candidates_for(p: Platform, root: Option<Seq<char>>) -> Seq<Seq<char>> {
    match root {
        Some(r) => candidates_of(p, r),
        None => Seq::empty(),
    }
}

/// The view of an optional string.
pub open spec fn root_view(root: Option<String>) -> Option<Seq<char>> {
    match root {
        Some(r) => Some(r@),
        None => None,
    }
}

/// The candidate paths under a looked-up root directory; none where the
/// lookup found no root.
pub fn paths_under(platform: Platform, root: Option<String>) -> (r: Vec<String>)
    ensures
        views(r@) == candidates_for(platform, root_view(root)),
{
    match root {
        Some(root) => candidate_paths(platform, root.as_str()),
        None => {
            let r: Vec<String> = Vec::new();
            assert(views(r@) =~= Seq::<Seq<char>>::empty());
            r
        },
    }
}

/// All default candidate paths for the platform, in the order they are
/// tried: those under the root directory that was looked up, which on
/// Windows is `appdata`; none where no root was found.
pub fn get_default_paths(platform: Platform, appdata: Option<String>) -> (r: Vec<String>)
    ensures
        exists|root: Option<Seq<char>>|
            {
                &&& views(r@) == #[trigger] candidates_for(platform, root)
                &&& platform == Platform::Windows ==> root == root_view(appdata)
            },
{
    let root = platform_root(platform, appdata);
    let ghost rv = root_view(root);
    let r = paths_under(platform, root);
    assert(views(r@) == candidates_for(platform, rv));
    r
}

/// The first candidate whose existence flag is set, where `exists[i]` tells
/// whether `candidates[i]` exists; `None` if there is none.
pub fn first_existing(candidates: &Vec<String>, exists: &Vec<bool>) -> (r: Option<String>)
    ensures
        r is None <==> forall|i: int| 0 <= i < candidates@.len() ==> !flagged(exists@, i),
        r is Some ==> exists|i: int|
            #[trigger] is_first_flagged(candidates@.len() as int, exists@, i)
                && r->0@ == candidates@[i]@,
{
    let n = candidates.len();
    let mut i: usize = 0;
    while i < n
        invariant
            i <= n,
            n == candidates@.len(),
            forall|j: int| 0 <= j < i ==> !flagged(exists@, j),
        decreases n - i,
    {
        if i < exists.len() && exists[i] {
            assert(is_first_flagged(n as int, exists@, i as int));
            return Some(String::from_str(candidates[i].as_str()));
        }
        i = i + 1;
    }
    None
}

/// The candidate list is fixed for a platform and root: two paths, the game
/// client's log before the alternate launcher's, and the two differ.
pub proof fn lemma_candidate_order(platform: Platform, root: Seq<char>)
    ensures
        candidates_of(platform, root).len() == 2,
        candidates_of(platform, root)[0] == root + primary_suffix(platform),
        candidates_of(platform, root)[1] == root + alternate_suffix(platform),
        primary_suffix(platform) != alternate_suffix(platform),
{
    reveal_strlit("\\.minecraft\\logs\\latest.log");
    reveal_strlit("/Library/Application Support/minecraft/logs/latest.log");
    reveal_strlit("/.minecraft/logs/latest.log");
    reveal_strlit("\\.lunarclient\\offline\\multiver\\logs\\latest.log");
    reveal_strlit("/.lunarclient/offline/multiver/logs/latest.log");
    assert(primary_suffix(platform)[2] != alternate_suffix(platform)[2]);
}

} // verus!
