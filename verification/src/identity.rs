//! Build and process identity: what a binary reports about itself, where a daemon publishes it,
//! and which release a binary's path names.
use vstd::prelude::*;

use crate::text::{chars_of, concat, same_chars, string_of};

verus! {

broadcast use vstd::string::group_string_axioms;

/// `semver::Version`: a parsed semantic version, carried through untouched.
#[verifier::external_type_specification]
#[verifier::external_body]
pub struct ExVersion(semver::Version);

/// What `semver::Version::parse` makes of a text: the version, or `None` where it reports an
/// error.
pub uninterp spec fn semver_parse(text: Seq<char>) -> Option<semver::Version>;

/// Parses a semantic version with `semver::Version::parse`, keeping the version and dropping the
/// error. The contract names the result and states nothing of the grammar semver accepts.
#[verifier::external_body]
fn parse_version(text: &str) -> (r: Option<semver::Version>)
    ensures
        r == semver_parse(text@),
{
    semver::Version::parse(text).ok()
}

/// `base` joined with `part`, as `Path::join` joins them on Unix: an absolute `part` replaces
/// `base`, and a separator goes between them unless `base` is empty or already ends in one.
pub open spec fn joined(base: Seq<char>, part: Seq<char>) -> Seq<char> {
    if part.len() > 0 && part[0] == '/' {
        part
    } else if base.len() == 0 || base.last() == '/' {
        base + part
    } else {
        base + seq!['/'] + part
    }
}

/// `base` joined with `part`, as `Path::join` joins them on Unix.
pub fn join_path(base: &str, part: &str) -> (r: String)
    ensures
        r@ == joined(base@, part@),
{
    let b = chars_of(base);
    let p = chars_of(part);
    if p.len() > 0 && p[0] == '/' {
        return string_of(&p);
    }
    if b.len() == 0 || b[b.len() - 1] == '/' {
        concat(base, part)
    } else {
        let with_sep = concat(base, "/");
        proof {
            reveal_strlit("/");
        }
        concat(with_sep.as_str(), part)
    }
}

/// Where each daemon publishes what it is running: `<root>/<service>/identity.json`.
///
/// `root` is the runtime root — `/run` on the board, `DUCK_RUNTIME_DIR` where that is set — which
/// the caller reads from the environment.
pub fn identity_path(root: &str, service: &str) -> (r: String)
    ensures
        r@ == joined(joined(root@, service@), "identity.json"@),
{
    let dir = join_path(root, service);
    join_path(dir.as_str(), "identity.json")
}

/// Where `mediad` publishes its camera statistics.
pub fn camera_stats_path() -> (r: String)
    ensures
        r@ == "/run/mediad/camera.json"@,
{
    String::from_str("/run/mediad/camera.json")
}

/// The marker the kernel appends to the path of an executable deleted while it runs.
pub open spec fn deleted_marker() -> Seq<char> {
    seq![' ', '(', 'd', 'e', 'l', 'e', 't', 'e', 'd', ')']
}

/// `path` with a trailing `" (deleted)"` removed, where it has one.
pub open spec fn without_deleted_marker(path: Seq<char>) -> Seq<char> {
    let n = deleted_marker().len();
    if path.len() >= n && path.subrange(path.len() - n, path.len() as int) == deleted_marker() {
        path.subrange(0, path.len() - n)
    } else {
        path
    }
}

/// The components of `s` between slashes, as `str::split('/')` yields them: always at least one,
/// empty ones included.
pub open spec fn split_on_slash(s: Seq<char>) -> Seq<Seq<char>>
    decreases s.len(),
{
    if s.len() == 0 {
        seq![Seq::empty()]
    } else {
        let parts = split_on_slash(s.drop_last());
        if s.last() == '/' {
            parts.push(Seq::empty())
        } else {
            parts.update(parts.len() - 1, parts.last().push(s.last()))
        }
    }
}

/// The path component that marks a release directory.
pub open spec fn releases_component() -> Seq<char> {
    seq!['r', 'e', 'l', 'e', 'a', 's', 'e', 's']
}

/// Scanning the components from `i`: the version following the first `releases` component whose
/// follower parses as one. A follower that does not parse is only passed over: it may itself be
/// the `releases` of a `releases/<version>/` further on.
pub open spec fn release_from(parts: Seq<Seq<char>>, i: int) -> Option<semver::Version>
    decreases parts.len() - i,
{
    if i < 0 || i >= parts.len() {
        None
    } else if parts[i] == releases_component() {
        if i + 1 < parts.len() {
            match semver_parse(parts[i + 1]) {
                Some(v) => Some(v),
                None => release_from(parts, i + 1),
            }
        } else {
            None
        }
    } else {
        release_from(parts, i + 1)
    }
}

/// The release a binary at this path was installed as: any path with a `releases/<version>/` in
/// it names that version.
pub open spec fn release_named_by(path: Seq<char>) -> Option<semver::Version> {
    release_from(split_on_slash(without_deleted_marker(path)), 0)
}

proof fn lemma_split_nonempty(s: Seq<char>)
    ensures
        split_on_slash(s).len() >= 1,
    decreases s.len(),
{
    if s.len() > 0 {
        lemma_split_nonempty(s.drop_last());
    }
}

/// Splits `chars` on `/`, as `str::split('/')` does.
fn split_slashes(chars: &Vec<char>) -> (r: Vec<Vec<char>>)
    ensures
        r@.len() == split_on_slash(chars@).len(),
        forall|j: int| 0 <= j < r@.len() ==> #[trigger] r@[j]@ == split_on_slash(chars@)[j],
{
    let mut parts: Vec<Vec<char>> = Vec::new();
    let mut current: Vec<char> = Vec::new();
    let ghost mut done: Seq<Seq<char>> = Seq::empty();
    let mut i: usize = 0;
    while i < chars.len()
        invariant
            0 <= i <= chars.len(),
            split_on_slash(chars@.take(i as int)) == done.push(current@),
            done.len() == parts@.len(),
            forall|j: int| 0 <= j < parts@.len() ==> #[trigger] parts@[j]@ == done[j],
        decreases chars.len() - i,
    {
        let c = chars[i];
        proof {
            let next = chars@.take(i + 1);
            assert(next.drop_last() =~= chars@.take(i as int));
            assert(next.last() == c);
            lemma_split_nonempty(chars@.take(i as int));
        }
        if c == '/' {
            let finished = current;
            proof {
                done = done.push(finished@);
            }
            parts.push(finished);
            current = Vec::new();
            proof {
                assert(split_on_slash(chars@.take(i + 1)) =~= done.push(current@));
            }
        } else {
            let ghost before = current@;
            current.push(c);
            proof {
                assert(split_on_slash(chars@.take(i + 1)) =~= done.push(current@));
            }
        }
        i += 1;
    }
    proof {
        assert(chars@.take(chars.len() as int) =~= chars@);
        done = done.push(current@);
    }
    parts.push(current);
    parts
}

/// The release a binary at this path was installed as.
///
/// Matches the layout rather than a configured root: any path with a `releases/<version>/` in it
/// yields that version, and a trailing `" (deleted)"` — the kernel's mark on a binary replaced
/// while it runs — is ignored. A path with no such component is not an error: it is `None`.
pub fn release_from_path(path: &str) -> (r: Option<semver::Version>)
    ensures
        r == release_named_by(path@),
{
    let all = chars_of(path);
    let marker = chars_of(" (deleted)");
    proof {
        reveal_strlit(" (deleted)");
        assert(marker@ =~= deleted_marker());
    }
    let mut keep = all.len();
    if all.len() >= marker.len() {
        let mut tail: Vec<char> = Vec::new();
        let start = all.len() - marker.len();
        let mut k = start;
        while k < all.len()
            invariant
                start <= k <= all.len(),
                start == all.len() - marker.len(),
                tail@ =~= all@.subrange(start as int, k as int),
            decreases all.len() - k,
        {
            tail.push(all[k]);
            k += 1;
        }
        if same_chars(&tail, &marker) {
            keep = start;
        }
    }
    let mut kept: Vec<char> = Vec::new();
    let mut k: usize = 0;
    while k < keep
        invariant
            0 <= k <= keep <= all.len(),
            kept@ =~= all@.take(k as int),
        decreases keep - k,
    {
        kept.push(all[k]);
        k += 1;
    }
    proof {
        assert(kept@ =~= without_deleted_marker(path@));
    }
    let parts = split_slashes(&kept);
    let ghost views = split_on_slash(kept@);
    let releases = chars_of("releases");
    proof {
        reveal_strlit("releases");
        assert(releases@ =~= releases_component());
    }
    let mut i: usize = 0;
    while i < parts.len()
        invariant
            parts@.len() == views.len(),
            forall|j: int| 0 <= j < parts@.len() ==> #[trigger] parts@[j]@ == views[j],
            releases@ == releases_component(),
            views == split_on_slash(without_deleted_marker(path@)),
            release_from(views, i as int) == release_from(views, 0),
        decreases parts.len() - i,
    {
        if same_chars(&parts[i], &releases) {
            if i + 1 < parts.len() {
                let candidate = string_of(&parts[i + 1]);
                match parse_version(candidate.as_str()) {
                    Some(v) => {
                        return Some(v);
                    },
                    None => {
                        i += 1;
                    },
                }
            } else {
                return None;
            }
        } else {
            i += 1;
        }
    }
    None
}

proof fn lemma_split_joined(a: Seq<char>, b: Seq<char>)
    ensures
        split_on_slash(a + seq!['/'] + b) == split_on_slash(a) + split_on_slash(b),
    decreases b.len(),
{
    let s = a + seq!['/'] + b;
    if b.len() == 0 {
        assert(s.drop_last() =~= a);
        assert(split_on_slash(s) =~= split_on_slash(a) + split_on_slash(b));
    } else {
        let shorter = b.drop_last();
        assert(s.drop_last() =~= a + seq!['/'] + shorter);
        lemma_split_joined(a, shorter);
        lemma_split_nonempty(shorter);
        let head = split_on_slash(a);
        let tail = split_on_slash(shorter);
        if b.last() == '/' {
            assert(split_on_slash(s) =~= head + split_on_slash(b));
        } else {
            let parts = head + tail;
            assert(parts.update(parts.len() - 1, parts.last().push(b.last())) =~= head
                + tail.update(tail.len() - 1, tail.last().push(b.last())));
            assert(split_on_slash(s) =~= head + split_on_slash(b));
        }
    }
}

proof fn lemma_split_word(w: Seq<char>)
    requires
        !w.contains('/'),
    ensures
        split_on_slash(w) == seq![w],
    decreases w.len(),
{
    if w.len() > 0 {
        let shorter = w.drop_last();
        assert(!shorter.contains('/')) by {
            if shorter.contains('/') {
                let i = choose|i: int| 0 <= i < shorter.len() && shorter[i] == '/';
                assert(w[i] == '/');
            }
        }
        lemma_split_word(shorter);
        assert(w[w.len() - 1] != '/');
        assert(shorter.push(w.last()) =~= w);
        assert(split_on_slash(w) =~= seq![w]);
    } else {
        assert(w =~= Seq::<char>::empty());
    }
}

proof fn lemma_scan_past(parts: Seq<Seq<char>>, start: int, i: int)
    requires
        0 <= i <= start <= parts.len(),
        forall|j: int|
            0 <= j < start && parts[j] == releases_component() ==> j + 1 < parts.len()
                && semver_parse(#[trigger] parts[j + 1]) is None,
    ensures
        release_from(parts, i) == release_from(parts, start),
    decreases start - i,
{
    if i < start {
        lemma_scan_past(parts, start, i + 1);
        if parts[i] == releases_component() {
            assert(semver_parse(parts[i + 1]) is None);
        }
    }
}

/// A binary under a release directory names that release: in a path of the form
/// `<prefix>/releases/<version>/<rest>`, where the prefix holds no earlier `releases` followed by
/// a version, the version is what `semver` reads in the component after `releases`. A `releases`
/// in the prefix whose follower is not a version does not get in the way. The path carries no
/// deleted marker here; [`deleted_binary_keeps_its_release`] covers one that does.
pub proof fn a_release_directory_names_its_version(prefix: Seq<char>, version: Seq<char>, rest: Seq<char>)
    requires
        forall|j: int|
            0 <= j < split_on_slash(prefix).len() && #[trigger] split_on_slash(prefix)[j]
                == releases_component() ==> semver_parse(
                if j + 1 < split_on_slash(prefix).len() {
                    split_on_slash(prefix)[j + 1]
                } else {
                    releases_component()
                },
            ) is None,
        !version.contains('/'),
        semver_parse(version) is Some,
        without_deleted_marker(
            prefix + seq!['/'] + releases_component() + seq!['/'] + version + seq!['/'] + rest,
        ) == prefix + seq!['/'] + releases_component() + seq!['/'] + version + seq!['/'] + rest,
    ensures
        release_named_by(
            prefix + seq!['/'] + releases_component() + seq!['/'] + version + seq!['/'] + rest,
        ) == semver_parse(version),
{
    let path = prefix + seq!['/'] + releases_component() + seq!['/'] + version + seq!['/'] + rest;
    let inner = version + seq!['/'] + rest;
    let middle = releases_component() + seq!['/'] + inner;
    assert(path =~= prefix + seq!['/'] + middle);
    lemma_split_joined(prefix, middle);
    lemma_split_joined(releases_component(), inner);
    lemma_split_joined(version, rest);
    assert(!releases_component().contains('/')) by {
        if releases_component().contains('/') {
            let i = choose|i: int| 0 <= i < releases_component().len() && releases_component()[i] == '/';
            assert(releases_component()[i] == '/');
        }
    }
    lemma_split_word(releases_component());
    lemma_split_word(version);
    let head = split_on_slash(prefix);
    let parts = split_on_slash(path);
    assert(parts =~= head + seq![releases_component()] + (seq![version] + split_on_slash(rest)));
    assert(parts[head.len() as int] == releases_component());
    assert(parts[(head.len() + 1) as int] == version);
    assert forall|j: int|
        0 <= j < head.len() && parts[j] == releases_component() implies j + 1 < parts.len()
            && semver_parse(#[trigger] parts[j + 1]) is None by {
        assert(parts[j] == head[j]);
        if j + 1 < head.len() {
            assert(parts[j + 1] == head[j + 1]);
        } else {
            assert(parts[j + 1] == releases_component());
        }
    }
    lemma_scan_past(parts, head.len() as int, 0);
}

/// A path with no `releases` component names no release: a binary run from outside the layout is
/// not an error, only unreleased.
pub proof fn a_path_outside_the_layout_names_none(path: Seq<char>)
    requires
        forall|j: int|
            0 <= j < split_on_slash(without_deleted_marker(path)).len() ==> split_on_slash(
                without_deleted_marker(path),
            )[j] != releases_component(),
    ensures
        release_named_by(path) is None,
{
    let parts = split_on_slash(without_deleted_marker(path));
    lemma_scan_past(parts, parts.len() as int, 0);
}

/// A binary the kernel marks as deleted still names the release it was installed as. (A path
/// that already ends in the marker is stripped once only, so it is left out.)
pub proof fn deleted_binary_keeps_its_release(path: Seq<char>)
    requires
        without_deleted_marker(path) == path,
    ensures
        release_named_by(path + deleted_marker()) == release_named_by(path),
{
    let marked = path + deleted_marker();
    let n = deleted_marker().len();
    assert(marked.subrange(marked.len() - n, marked.len() as int) =~= deleted_marker());
    assert(marked.subrange(0, marked.len() - n) =~= path);
    assert(without_deleted_marker(marked) == path);
}

/// What a binary reports about itself: version, source revision, build time.
#[derive(Debug, Clone, Copy, PartialEq, Eq)]
pub struct BuildInfo {
    /// Crate version.
    pub version: &'static str,
    /// Git SHA, or `None` for a build that did not come from CI.
    pub revision: Option<&'static str>,
    /// RFC 3339 build timestamp, or `None` locally.
    pub built_at: Option<&'static str>,
}

/// The one-line rendering of a build: explicit about what is unknown.
pub open spec fn build_line(b: BuildInfo) -> Seq<char> {
    b.version@ + match b.revision {
        Some(rev) => " (rev "@ + rev@,
        None => " (rev unknown, not a CI build"@,
    } + match b.built_at {
        Some(at) => ", built "@ + at@ + ")"@,
        None => ")"@,
    }
}

impl BuildInfo {
    /// One line, greppable, and explicit about what is unknown — a support log that simply lacks
    /// a revision is ambiguous between "local build" and "we forgot to log it".
    pub fn to_string(&self) -> (r: String)
        ensures
            r@ == build_line(*self),
    {
        let mut line = String::from_str(self.version);
        match self.revision {
            Some(rev) => {
                line.append(" (rev ");
                line.append(rev);
            },
            None => {
                line.append(" (rev unknown, not a CI build");
            },
        }
        match self.built_at {
            Some(at) => {
                line.append(", built ");
                line.append(at);
                line.append(")");
            },
            None => {
                line.append(")");
            },
        }
        line
    }
}

/// What a daemon says it is, published by the process itself at startup.
#[derive(Debug, Clone, PartialEq, Eq)]
pub struct Identity {
    pub service: String,
    /// Crate version, compiled in.
    pub version: String,
    /// Git SHA, compiled in. `None` for a build that did not come from CI.
    pub revision: Option<String>,
    pub built_at: Option<String>,
    /// The resolved path this process was launched from.
    pub exe: Option<String>,
    pub pid: u32,
}

/// An optional compiled-in text, owned.
fn owned(text: Option<&'static str>) -> (r: Option<String>)
    ensures
        match text {
            Some(t) => r matches Some(o) && o@ == t@,
            None => r is None,
        },
{
    match text {
        Some(t) => Some(String::from_str(t)),
        None => None,
    }
}

impl Identity {
    /// What this process says it is: its service name, its build, the path it was launched from
    /// and its pid. The pieces that come from the machine — the executable's path, the pid — are
    /// the caller's to read.
    pub fn describe(service: &str, build: BuildInfo, exe: Option<String>, pid: u32) -> (r: Identity)
        ensures
            r.service@ == service@,
            r.version@ == build.version@,
            match build.revision {
                Some(rev) => r.revision matches Some(o) && o@ == rev@,
                None => r.revision is None,
            },
            match build.built_at {
                Some(at) => r.built_at matches Some(o) && o@ == at@,
                None => r.built_at is None,
            },
            r.exe == exe,
            r.pid == pid,
    {
        Identity {
            service: String::from_str(service),
            version: String::from_str(build.version),
            revision: owned(build.revision),
            built_at: owned(build.built_at),
            exe,
            pid,
        }
    }

    /// The release this process was installed as, when its path names one.
    pub fn release(&self) -> (r: Option<semver::Version>)
        ensures
            r == match self.exe {
                Some(exe) => release_named_by(exe@),
                None => None,
            },
    {
        match &self.exe {
            Some(exe) => release_from_path(exe.as_str()),
            None => None,
        }
    }
}

/// A build line says the revision whenever there is one, whatever is known of the build time,
/// and says "unknown" only when there is none; the build time, when known, closes the line.
pub proof fn a_build_line_names_what_is_known(b: BuildInfo)
    ensures
        b.revision matches Some(rev) ==> build_line(b).take((b.version@.len() + 6 + rev@.len()) as int)
            == b.version@ + " (rev "@ + rev@,
        b.revision is None ==> build_line(b).take((b.version@.len() + 29) as int) == b.version@
            + " (rev unknown, not a CI build"@,
        b.built_at matches Some(at) ==> build_line(b).skip(build_line(b).len() - (at@.len() + 9))
            == ", built "@ + at@ + ")"@,
        b.built_at is None ==> build_line(b).last() == ')',
{
    reveal_strlit(" (rev ");
    reveal_strlit(" (rev unknown, not a CI build");
    reveal_strlit(", built ");
    reveal_strlit(")");
    let line = build_line(b);
    match b.revision {
        Some(rev) => {
            let head = b.version@ + " (rev "@ + rev@;
            assert(line.take(head.len() as int) =~= head);
        },
        None => {
            let head = b.version@ + " (rev unknown, not a CI build"@;
            assert(line.take(head.len() as int) =~= head);
        },
    }
    match b.built_at {
        Some(at) => {
            let tail = ", built "@ + at@ + ")"@;
            assert(line.skip(line.len() - tail.len()) =~= tail);
        },
        None => {},
    }
}

} // verus!
