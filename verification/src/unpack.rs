//! Unpack-stage logic: entry-name containment and the extraction plan.
//!
//! An archive entry's name is an untrusted separator-delimited relative
//! path.  Before anything is materialized for an entry, its name is
//! resolved and checked: a name that would land outside the destination
//! directory (an absolute name, or one with a `..` component, under
//! either separator) fails the whole operation, while a name that
//! resolves to nothing — or that carries a byte no plain relative path
//! holds, such as `NUL` or a drive or stream colon — is skipped.

use crate::progress::{Fraction, InstallPhase, ProgressChannel};
use vstd::prelude::*;

verus! {

/// Why an unpack failed.
#[derive(PartialEq, Eq, Structural, Copy, Clone, Debug)]
pub enum UnpackError {
    /// The archive could not be parsed: a corrupt or truncated download,
    /// or not an archive at all.
    OpenFailed,
    /// An entry's resolved path would leave the destination directory.
    PathEscape,
    /// Reading an entry failed.
    IoError,
}

/// The byte an entry name separates its components with: `/`.
pub const SLASH: u8 = 47;

/// The byte `\`, which some archivers use as a separator and which a
/// Windows path join would treat as one: it is never let through as an
/// ordinary name character.
pub const BACKSLASH: u8 = 92;

/// The byte `.`, which forms the `.` and `..` path components.
pub const DOT: u8 = 46;

/// The byte `NUL`, which no resolvable name contains.
pub const NUL: u8 = 0;

/// The byte `:`, which on Windows marks a drive or an alternate data
/// stream: no resolvable name contains it.
pub const COLON: u8 = 58;

/// A byte that separates name components: either slash.
pub open spec fn is_separator(b: u8) -> bool {
    b == SLASH || b == BACKSLASH
}

/// An entry name split at every separator, empty components included:
/// `"a//b/"` splits into `"a"`, `""`, `"b"`, `""`.  Both `/` and `\`
/// separate, so no component ever carries a byte a path join could
/// reinterpret as structure.
pub open spec fn raw_split(name: Seq<u8>) -> Seq<Seq<u8>>
    decreases name.len(),
{
    if name.len() == 0 {
        seq![Seq::<u8>::empty()]
    } else {
        let rest = raw_split(name.drop_last());
        if is_separator(name.last()) {
            rest.push(Seq::<u8>::empty())
        } else {
            rest.update(rest.len() - 1, rest.last().push(name.last()))
        }
    }
}

/// A component that survives resolution: non-empty and not `.`.
pub open spec fn keep_component(c: Seq<u8>) -> bool {
    c.len() > 0 && !(c.len() == 1 && c[0] == DOT)
}

/// The component `..`, which climbs out of a directory.
pub open spec fn is_dotdot(c: Seq<u8>) -> bool {
    c.len() == 2 && c[0] == DOT && c[1] == DOT
}

/// The components that survive resolution, in order.
pub open spec fn cleaned(raw: Seq<Seq<u8>>) -> Seq<Seq<u8>>
    decreases raw.len(),
{
    if raw.len() == 0 {
        Seq::empty()
    } else if keep_component(raw.last()) {
        cleaned(raw.drop_last()).push(raw.last())
    } else {
        cleaned(raw.drop_last())
    }
}

/// Some split component is `..`.
pub open spec fn has_dotdot(raw: Seq<Seq<u8>>) -> bool {
    exists|i: int| 0 <= i < raw.len() && is_dotdot(#[trigger] raw[i])
}

/// The name's resolved path would land outside the destination directory:
/// it is absolute (it starts with either separator), or some component
/// climbs with `..`.
pub open spec fn name_escapes(name: Seq<u8>) -> bool {
    (name.len() > 0 && is_separator(name[0])) || has_dotdot(raw_split(name))
}

/// The safe relative path the name resolves to, as its components.
pub open spec fn name_components(name: Seq<u8>) -> Seq<Seq<u8>> {
    cleaned(raw_split(name))
}

/// The name resolves to no path at all: it contains `NUL` or a colon (a
/// drive or stream marker, not a plain relative path), or nothing
/// survives resolution (as for `""`, `"."` or `"//"`).  Such an entry is
/// skipped rather than failing the whole unpack.
pub open spec fn name_malformed(name: Seq<u8>) -> bool {
    name.contains(NUL) || name.contains(COLON) || name_components(name).len() == 0
}

/// The name denotes a directory entry: it ends with a separator.
pub open spec fn is_dir_name(name: Seq<u8>) -> bool {
    name.len() > 0 && is_separator(name.last())
}

/// The byte sequences a list of path components denotes.
pub open spec fn component_views(comps: Seq<Vec<u8>>) -> Seq<Seq<u8>> {
    comps.map_values(|v: Vec<u8>| v@)
}

/// What resolving an entry name yields.
pub enum PathResolution {
    /// The resolved path would leave the destination directory.
    Escape,
    /// The name resolves to no path; the entry is skipped.
    Malformed,
    /// The safe relative path, component by component.
    Components(Vec<Vec<u8>>),
}

/// Resolve an untrusted entry name into a relative path confined to the
/// destination directory, or report why there is none.
pub fn resolve_entry_name(name: &Vec<u8>) -> (r: PathResolution)
    ensures
        match r {
            PathResolution::Escape => name_escapes(name@),
            PathResolution::Malformed => !name_escapes(name@) && name_malformed(name@),
            PathResolution::Components(c) => {
                &&& !name_escapes(name@)
                &&& !name_malformed(name@)
                &&& component_views(c@) =~= name_components(name@)
            },
        },
{
    let n = name.len();
    let mut comps: Vec<Vec<u8>> = Vec::new();
    let mut cur: Vec<u8> = Vec::new();
    let mut found_dotdot = false;
    let mut found_nul = false;
    let mut found_colon = false;
    let ghost mut done: Seq<Seq<u8>> = Seq::empty();
    let mut i: usize = 0;
    proof {
        assert(raw_split(name@.take(0)) =~= done.push(cur@));
        assert(component_views(comps@) =~= cleaned(done));
        assert(!has_dotdot(done));
        assert(!name@.take(0).contains(NUL));
        assert(!name@.take(0).contains(COLON));
    }
    while i < n
        invariant
            n == name@.len(),
            i <= n,
            raw_split(name@.take(i as int)) =~= done.push(cur@),
            component_views(comps@) =~= cleaned(done),
            found_dotdot == has_dotdot(done),
            found_nul == name@.take(i as int).contains(NUL),
            found_colon == name@.take(i as int).contains(COLON),
        decreases n - i,
    {
        let b = name[i];
        let ghost prev = name@.take(i as int);
        let ghost nxt = name@.take(i as int + 1);
        proof {
            assert(nxt.drop_last() =~= prev);
            assert(nxt.last() == name@[i as int]);
        }
        if b == NUL {
            found_nul = true;
        }
        if b == COLON {
            found_colon = true;
        }
        proof {
            if name@[i as int] == NUL {
                assert(nxt[i as int] == NUL);
                assert(nxt.contains(NUL));
            } else if prev.contains(NUL) {
                let k = choose|k: int| 0 <= k < prev.len() && prev[k] == NUL;
                assert(nxt[k] == NUL);
                assert(nxt.contains(NUL));
            } else {
                assert forall|k: int| 0 <= k < nxt.len() implies nxt[k] != NUL by {
                    if k < i {
                        assert(nxt[k] == prev[k]);
                        assert(!prev.contains(NUL));
                    }
                }
                assert(!nxt.contains(NUL));
            }
            if name@[i as int] == COLON {
                assert(nxt[i as int] == COLON);
                assert(nxt.contains(COLON));
            } else if prev.contains(COLON) {
                let k = choose|k: int| 0 <= k < prev.len() && prev[k] == COLON;
                assert(nxt[k] == COLON);
                assert(nxt.contains(COLON));
            } else {
                assert forall|k: int| 0 <= k < nxt.len() implies nxt[k] != COLON by {
                    if k < i {
                        assert(nxt[k] == prev[k]);
                        assert(!prev.contains(COLON));
                    }
                }
                assert(!nxt.contains(COLON));
            }
        }
        let sep = b == SLASH || b == BACKSLASH;
        if sep {
            let ghost curv = cur@;
            let ghost olddone = done;
            let ghost oldcomps = comps@;
            let ghost had_dotdot = found_dotdot;
            let climbs = cur.len() == 2 && cur[0] == DOT && cur[1] == DOT;
            if climbs {
                found_dotdot = true;
            }
            let keep = cur.len() > 0 && !(cur.len() == 1 && cur[0] == DOT);
            if keep {
                comps.push(cur);
            }
            cur = Vec::new();
            proof {
                done = done.push(curv);
                assert(done.drop_last() =~= olddone);
                assert(done.last() == curv);
                // the split of the consumed prefix gains a fresh component
                assert(is_separator(nxt.last()));
                assert(raw_split(nxt) =~= raw_split(prev).push(Seq::<u8>::empty()));
                assert(raw_split(prev) =~= olddone.push(curv));
                assert(raw_split(nxt) =~= done.push(cur@));
                // the kept components gain the finished one exactly when it survives
                assert(keep == keep_component(curv));
                if keep {
                    assert(cleaned(done) =~= cleaned(olddone).push(curv));
                    assert(component_views(comps@) =~= component_views(oldcomps).push(curv));
                } else {
                    assert(cleaned(done) =~= cleaned(olddone));
                }
                assert(component_views(comps@) =~= cleaned(done));
                // the `..` flag tracks the finished components
                assert(climbs == is_dotdot(curv));
                if had_dotdot {
                    let j = choose|j: int| 0 <= j < olddone.len() && is_dotdot(olddone[j]);
                    assert(is_dotdot(done[j]));
                    assert(has_dotdot(done));
                } else if climbs {
                    assert(is_dotdot(done[olddone.len() as int]));
                    assert(has_dotdot(done));
                } else {
                    assert forall|j: int| 0 <= j < done.len() implies !is_dotdot(done[j]) by {
                        if j < olddone.len() {
                            assert(done[j] == olddone[j]);
                            assert(!has_dotdot(olddone));
                        }
                    }
                    assert(!has_dotdot(done));
                }
            }
            i += 1;
        } else {
            let ghost curv = cur@;
            cur.push(b);
            proof {
                let rest = raw_split(prev);
                assert(rest =~= done.push(curv));
                assert(rest.len() == done.len() + 1);
                assert(rest.last() == curv);
                assert(raw_split(nxt) =~= rest.update(
                    rest.len() - 1,
                    rest.last().push(nxt.last()),
                ));
                assert(cur@ =~= curv.push(name@[i as int]));
                assert(rest.update(rest.len() - 1, curv.push(name@[i as int])) =~= done.push(
                    cur@,
                ));
                assert(raw_split(nxt) =~= done.push(cur@));
            }
            i += 1;
        }
    }
    proof {
        assert(name@.take(n as int) =~= name@);
    }
    let climbs_last = cur.len() == 2 && cur[0] == DOT && cur[1] == DOT;
    let escape_abs = n > 0 && (name[0] == SLASH || name[0] == BACKSLASH);
    proof {
        let raw = raw_split(name@);
        assert(raw =~= done.push(cur@));
        assert(raw.drop_last() =~= done);
        assert(raw.last() == cur@);
        assert(climbs_last == is_dotdot(cur@));
        if found_dotdot {
            let j = choose|j: int| 0 <= j < done.len() && is_dotdot(done[j]);
            assert(is_dotdot(raw[j]));
            assert(has_dotdot(raw));
        } else if climbs_last {
            assert(is_dotdot(raw[done.len() as int]));
            assert(has_dotdot(raw));
        } else {
            assert forall|j: int| 0 <= j < raw.len() implies !is_dotdot(raw[j]) by {
                if j < done.len() {
                    assert(raw[j] == done[j]);
                    assert(!has_dotdot(done));
                }
            }
            assert(!has_dotdot(raw));
        }
    }
    if escape_abs || found_dotdot || climbs_last {
        return PathResolution::Escape;
    }
    let keep_last = cur.len() > 0 && !(cur.len() == 1 && cur[0] == DOT);
    let ghost oldcomps = comps@;
    let ghost curv = cur@;
    if keep_last {
        comps.push(cur);
    }
    proof {
        let raw = raw_split(name@);
        assert(keep_last == keep_component(curv));
        if keep_last {
            assert(cleaned(raw) =~= cleaned(done).push(curv));
            assert(component_views(comps@) =~= component_views(oldcomps).push(curv));
        } else {
            assert(cleaned(raw) =~= cleaned(done));
        }
        assert(component_views(comps@) =~= name_components(name@));
    }
    if found_nul || found_colon || comps.len() == 0 {
        return PathResolution::Malformed;
    }
    PathResolution::Components(comps)
}

/// One entry's effect on the destination directory.  The surrounding
/// application executes these actions in order, resolving each path
/// against the destination directory.
pub enum EntryAction {
    /// Nothing to materialize for this entry.
    Skip,
    /// Create this directory, and any missing ancestors; idempotent if
    /// it already exists.  Mode bits, where carried and supported, are
    /// applied after creation.
    MakeDir { path: Vec<Vec<u8>>, mode: Option<u32> },
    /// Create this file's parent directories on demand, copy its contents
    /// into a newly created file (overwriting any existing one), then
    /// apply the mode bits where the platform supports them.
    WriteFile { path: Vec<Vec<u8>>, data: Vec<u8>, mode: Option<u32> },
}

/// The mathematical shape of one entry's effect.
#[verifier::ext_equal]
pub enum ActionModel {
    Skip,
    Escape,
    Dir { path: Seq<Seq<u8>>, mode: Option<u32> },
    File { path: Seq<Seq<u8>>, data: Seq<u8>, mode: Option<u32> },
}

impl EntryAction {
    /// The effect this action denotes.
    pub open spec fn model(self) -> ActionModel {
        match self {
            EntryAction::Skip => ActionModel::Skip,
            EntryAction::MakeDir { path, mode } => ActionModel::Dir {
                path: component_views(path@),
                mode,
            },
            EntryAction::WriteFile { path, data, mode } => ActionModel::File {
                path: component_views(path@),
                data: data@,
                mode,
            },
        }
    }
}

/// What one entry's name, contents and mode bits decide.
pub open spec fn entry_decision(name: Seq<u8>, data: Seq<u8>, mode: Option<u32>) -> ActionModel {
    if name_escapes(name) {
        ActionModel::Escape
    } else if name_malformed(name) {
        ActionModel::Skip
    } else if is_dir_name(name) {
        ActionModel::Dir { path: name_components(name), mode }
    } else {
        ActionModel::File { path: name_components(name), data, mode }
    }
}

/// The plan an escape-free archive unpacks to, entry by entry.
pub open spec fn plan_of(entries: Seq<(Seq<u8>, Seq<u8>, Option<u32>)>) -> Seq<ActionModel> {
    Seq::new(entries.len(), |i: int| entry_decision(entries[i].0, entries[i].1, entries[i].2))
}

/// No entry's name would leave the destination directory.
pub open spec fn entries_escape_free(entries: Seq<(Seq<u8>, Seq<u8>, Option<u32>)>) -> bool {
    forall|i: int| 0 <= i < entries.len() ==> !name_escapes((#[trigger] entries[i]).0)
}

/// The `Extracting` phases written while the first `k` of `total` entries
/// are processed: the `i`-th carries the fraction `i / total`.
pub open spec fn extract_writes(total: int, k: int) -> Seq<InstallPhase> {
    Seq::new(
        k as nat,
        |i: int| InstallPhase::Extracting(Fraction { num: i as u64, den: total as u64 }),
    )
}

/// Law: an archive with `n` entries yields exactly `n` `Extracting`
/// observations, the `i`-th carrying the fraction `i / n`; as fractions
/// they are strictly increasing.
pub proof fn lemma_extract_fractions_strictly_increase(n: int, i: int, j: int)
    requires
        1 <= n <= u64::MAX,
        0 <= i < j < n,
    ensures
        extract_writes(n, n).len() == n,
        extract_writes(n, n)[i] == InstallPhase::Extracting(
            Fraction { num: i as u64, den: n as u64 },
        ),
        extract_writes(n, n)[j] == InstallPhase::Extracting(
            Fraction { num: j as u64, den: n as u64 },
        ),
        (Fraction { num: i as u64, den: n as u64 }).lt(Fraction { num: j as u64, den: n as u64 }),
{
    let a = i as u64;
    let b = j as u64;
    let d = n as u64;
    assert(a * d < b * d) by (nonlinear_arith)
        requires
            a < b,
            1 <= d,
    ;
}

/// The channel gained exactly the first `k` extraction writes for some
/// entry `k - 1` whose name escapes the destination: the unpack stopped
/// at the first escaping entry, before planning anything for it.
pub open spec fn aborted_at_escape(
    before: Seq<InstallPhase>,
    after: Seq<InstallPhase>,
    entries: Seq<(Seq<u8>, Seq<u8>, Option<u32>)>,
) -> bool {
    exists|k: int|
        #![trigger extract_writes(entries.len() as int, k)]
        {
            &&& 1 <= k <= entries.len()
            &&& name_escapes(entries[k - 1].0)
            &&& after =~= before + extract_writes(entries.len() as int, k)
        }
}

/// The channel gained exactly the first `k` extraction writes before the
/// read of entry `k - 1` — an entry these bytes do not let through
/// cleanly — failed.
pub open spec fn aborted_mid_read(
    before: Seq<InstallPhase>,
    after: Seq<InstallPhase>,
    bytes: Seq<u8>,
    entries: Seq<(Seq<u8>, Seq<u8>, Option<u32>)>,
) -> bool {
    exists|k: int|
        #![trigger extract_writes(entries.len() as int, k)]
        {
            &&& 1 <= k <= entries.len()
            &&& !crate::zipio::entry_readable(bytes, k - 1)
            &&& after =~= before + extract_writes(entries.len() as int, k)
        }
}

/// Read a downloaded archive and turn it into the plan of filesystem
/// actions that materializes it inside the destination directory,
/// publishing `Extracting(i / n)` before entry `i` is processed.
///
/// On success the plan mirrors the archive's entries one for one and no
/// entry escapes the destination.  The first escaping entry aborts the
/// whole operation with `PathEscape` before any action is planned for it;
/// a failed entry read aborts with `IoError`; and exactly the bytes that
/// do not parse fail with `OpenFailed`, before anything is written to
/// the channel.  An archive that parses, whose entries all read cleanly
/// and none of whose names escapes, is owed success.
#[verifier::loop_isolation(false)]
pub fn unpack(bytes: Vec<u8>, progress: &mut ProgressChannel) -> (r: Result<
    Vec<EntryAction>,
    UnpackError,
>)
    requires
        old(progress).wf(),
    ensures
        final(progress).wf(),
        ({
            let entries = crate::zipio::zip_parse(bytes@);
            &&& (r matches Ok(plan) ==> {
                &&& entries_escape_free(entries)
                &&& plan@.map_values(|a: EntryAction| a.model()) =~= plan_of(entries)
                &&& final(progress).writes() =~= old(progress).writes() + extract_writes(
                    entries.len() as int,
                    entries.len() as int,
                )
            })
            &&& (r == Err::<Vec<EntryAction>, UnpackError>(UnpackError::OpenFailed)
                <==> !crate::zipio::zip_parses(bytes@))
            &&& (r == Err::<Vec<EntryAction>, UnpackError>(UnpackError::OpenFailed)
                ==> final(progress).writes() =~= old(progress).writes())
            &&& (r == Err::<Vec<EntryAction>, UnpackError>(UnpackError::PathEscape)
                ==> aborted_at_escape(old(progress).writes(), final(progress).writes(), entries))
            &&& (r == Err::<Vec<EntryAction>, UnpackError>(UnpackError::IoError)
                ==> aborted_mid_read(
                    old(progress).writes(),
                    final(progress).writes(),
                    bytes@,
                    entries,
                ))
            &&& (crate::zipio::zip_parses(bytes@) && entries_escape_free(entries) && (forall|
                i: int,
            |
                0 <= i < entries.len() ==> #[trigger] crate::zipio::entry_readable(
                    bytes@,
                    i,
                )) ==> r is Ok)
        }),
{
    let ghost bv = bytes@;
    let ghost base = old(progress).writes();
    let mut archive = match crate::zipio::zip_open(bytes) {
        Ok(a) => a,
        Err(e) => {
            return Err(e);
        },
    };
    let ghost entries = crate::zipio::archive_entries(archive);
    let total = crate::zipio::zip_len(&archive);
    let mut plan: Vec<EntryAction> = Vec::new();
    let mut i: usize = 0;
    proof {
        assert(extract_writes(total as int, 0) =~= Seq::<InstallPhase>::empty());
        assert(progress.writes() =~= base + extract_writes(total as int, 0));
    }
    while i < total
        invariant
            crate::zipio::archive_entries(archive) == entries,
            crate::zipio::archive_bytes(archive) == bv,
            entries == crate::zipio::zip_parse(bv),
            entries.len() == total,
            i <= total,
            progress.wf(),
            progress.writes() =~= base + extract_writes(total as int, i as int),
            plan@.len() == i,
            forall|k: int| 0 <= k < i ==> (#[trigger] plan@[k]).model() == plan_of(entries)[k],
            forall|k: int| 0 <= k < i ==> !name_escapes((#[trigger] entries[k]).0),
        decreases total - i,
    {
        progress.set(
            InstallPhase::Extracting(Fraction { num: i as u64, den: total as u64 }),
        );
        proof {
            assert(extract_writes(total as int, i as int).push(
                InstallPhase::Extracting(Fraction { num: i as u64, den: total as u64 }),
            ) =~= extract_writes(total as int, i + 1));
            assert(progress.writes() =~= base + extract_writes(total as int, i + 1));
        }
        let e = match crate::zipio::zip_entry_at(&mut archive, i) {
            Ok(e) => e,
            Err(err) => {
                proof {
                    assert(aborted_mid_read(base, progress.writes(), bv, entries)) by {
                        assert(!crate::zipio::entry_readable(bv, (i + 1) - 1));
                        assert(progress.writes() =~= base + extract_writes(
                            entries.len() as int,
                            i + 1,
                        ));
                    }
                }
                return Err(err);
            },
        };
        match resolve_entry_name(&e.name) {
            PathResolution::Escape => {
                proof {
                    assert(!entries_escape_free(entries));
                    assert(aborted_at_escape(base, progress.writes(), entries)) by {
                        assert(name_escapes(entries[(i + 1) - 1].0));
                        assert(progress.writes() =~= base + extract_writes(
                            entries.len() as int,
                            i + 1,
                        ));
                    }
                }
                return Err(UnpackError::PathEscape);
            },
            PathResolution::Malformed => {
                plan.push(EntryAction::Skip);
            },
            PathResolution::Components(c) => {
                let nlen = e.name.len();
                let dir = nlen > 0 && (e.name[nlen - 1] == SLASH || e.name[nlen - 1]
                    == BACKSLASH);
                if dir {
                    plan.push(EntryAction::MakeDir { path: c, mode: e.mode });
                } else {
                    plan.push(EntryAction::WriteFile { path: c, data: e.data, mode: e.mode });
                }
            },
        }
        proof {
            assert(plan@[i as int].model() =~= plan_of(entries)[i as int]);
        }
        i += 1;
    }
    proof {
        assert(plan@.map_values(|a: EntryAction| a.model()) =~= plan_of(entries));
    }
    Ok(plan)
}

} // verus!
