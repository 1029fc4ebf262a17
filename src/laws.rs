use vstd::prelude::*;
use crate::events::{has_failure, has_qualifying, qualifies, signal_of, Signal, WatchEvent};
use crate::lifecycle::{after_step_of, load_action_of, next_step_of, CopyLifecycle, DisposalStep, LoadAction};
use crate::package::{tmp_dylib_path_of, tmp_file_stem_of, Build, PackageInfo};
use crate::paths::{is_separator_of, join_of, separator_of, with_ext_of};
use crate::platform::{dylib_ext_of, file_stem_of};
use crate::timestamp::{timestamp_slug_of, Timestamp};

verus! {

/// Two builds of one package completed at one instant name the same private
/// copy, so loading one build twice reaches one path; a load that finds that
/// copy on disk loads it as it is, without copying again.
pub proof fn lemma_same_build_same_copy(a: Build, b: Build)
    requires
        a.info == b.info,
        a.timestamp == b.timestamp,
    ensures
        tmp_dylib_path_of(*a.info, a.timestamp) == tmp_dylib_path_of(*b.info, b.timestamp),
        load_action_of(true) == LoadAction::LoadCopy,
{
}

/// Builds of one package whose timestamps have different slugs get different
/// private copies; the same path means the same timestamp slug.
pub proof fn lemma_distinct_slugs_distinct_copies(info: PackageInfo, t1: Timestamp, t2: Timestamp)
    ensures
        (tmp_dylib_path_of(info, t1) == tmp_dylib_path_of(info, t2)) == (timestamp_slug_of(t1)
            == timestamp_slug_of(t2)),
{
    let s1 = timestamp_slug_of(t1);
    let s2 = timestamp_slug_of(t2);
    let head = file_stem_of(info.os, info.lib_name@) + seq!['-'];
    let tail = seq!['.'] + dylib_ext_of(info.os);
    let dir = info.tmp_dir@;
    let sep = if dir.len() > 0 && is_separator_of(info.os, dir.last()) {
        Seq::<char>::empty()
    } else {
        seq![separator_of(info.os)]
    };
    let prefix = dir + sep + head;
    assert(tmp_file_stem_of(info, t1) == head + s1);
    assert(with_ext_of(head + s1, dylib_ext_of(info.os)) =~= head + s1 + tail);
    assert(with_ext_of(head + s2, dylib_ext_of(info.os)) =~= head + s2 + tail);
    assert(join_of(info.os, dir, head + s1 + tail) =~= prefix + s1 + tail);
    assert(join_of(info.os, dir, head + s2 + tail) =~= prefix + s2 + tail);
    let p1 = prefix + s1 + tail;
    let p2 = prefix + s2 + tail;
    if p1 == p2 {
        assert(s1.len() == s2.len());
        assert(s1 =~= p1.subrange(prefix.len() as int, (prefix.len() + s1.len()) as int));
        assert(s2 =~= p2.subrange(prefix.len() as int, (prefix.len() + s2.len()) as int));
    }
}

/// Tearing down a loaded copy releases the handle first and deletes the file
/// after it; the file is on disk for as long as the handle is held.
pub proof fn lemma_disposal_order(c: CopyLifecycle)
    requires
        c.handle_held,
        c.file_present,
    ensures
        next_step_of(c) == Some(DisposalStep::ReleaseHandle),
        after_step_of(c, DisposalStep::ReleaseHandle).file_present,
        after_step_of(c, DisposalStep::ReleaseHandle).wf(),
        next_step_of(after_step_of(c, DisposalStep::ReleaseHandle)) == Some(
            DisposalStep::RemoveFile,
        ),
        next_step_of(
            after_step_of(after_step_of(c, DisposalStep::ReleaseHandle), DisposalStep::RemoveFile),
        ) is None,
        after_step_of(
            after_step_of(c, DisposalStep::ReleaseHandle),
            DisposalStep::RemoveFile,
        ).wf(),
{
}

/// Any number of qualifying changes pending at one look give a single ready
/// signal, and the look after it, with the batch consumed, gives none.
pub proof fn lemma_coalescing(s: Seq<WatchEvent>, closed: bool)
    requires
        s.len() > 0,
        forall|i: int|
            0 <= i < s.len() ==> (#[trigger] s[i] matches WatchEvent::Change(k) && qualifies(k)),
    ensures
        signal_of(s, closed) == Signal::Ready,
        signal_of(Seq::empty(), closed) != Signal::Ready,
{
    assert(!has_failure(s)) by {
        assert(forall|i: int| 0 <= i < s.len() ==> !(#[trigger] s[i] is Failure));
    }
    assert(s[0] matches WatchEvent::Change(k) && qualifies(k));
    assert(has_qualifying(s));
}

/// A change that does not qualify, wherever it stands among the pending
/// events, leaves the signal as it would be without it.
pub proof fn lemma_non_qualifying_ignored(
    s1: Seq<WatchEvent>,
    s2: Seq<WatchEvent>,
    k: crate::events::ChangeKind,
    closed: bool,
)
    requires
        !qualifies(k),
    ensures
        signal_of(s1 + seq![WatchEvent::Change(k)] + s2, closed) == signal_of(s1 + s2, closed),
{
    let with = s1 + seq![WatchEvent::Change(k)] + s2;
    let without = s1 + s2;
    let n = s1.len() as int;
    assert forall|i: int| 0 <= i < without.len() implies #[trigger] without[i] == with[if i < n {
        i
    } else {
        i + 1
    }] by {}
    assert forall|i: int| 0 <= i < with.len() && i != n implies #[trigger] with[i] == without[if i
        < n {
        i
    } else {
        i - 1
    }] by {}
    assert(with[n] == WatchEvent::Change(k));
    if has_failure(with) {
        let i = choose|i: int| 0 <= i < with.len() && (#[trigger] with[i]) is Failure;
        assert(i != n);
        let j = if i < n {
            i
        } else {
            i - 1
        };
        assert(without[j] is Failure);
    }
    if has_failure(without) {
        let i = choose|i: int| 0 <= i < without.len() && (#[trigger] without[i]) is Failure;
        let j = if i < n {
            i
        } else {
            i + 1
        };
        assert(with[j] is Failure);
    }
    if has_qualifying(with) {
        let i = choose|i: int|
            0 <= i < with.len() && crate::events::is_qualifying_change(#[trigger] with[i]);
        assert(i != n);
        let j = if i < n {
            i
        } else {
            i - 1
        };
        assert(crate::events::is_qualifying_change(without[j]));
    }
    if has_qualifying(without) {
        let i = choose|i: int|
            0 <= i < without.len() && crate::events::is_qualifying_change(#[trigger] without[i]);
        let j = if i < n {
            i
        } else {
            i + 1
        };
        assert(crate::events::is_qualifying_change(with[j]));
    }
}

} // verus!
