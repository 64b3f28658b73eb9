//! What the operations leave of the files of the system, as far as the
//! library counts on it: which paths are there after a plan, given which
//! paths were there before it.

use vstd::prelude::*;
use crate::action::ActionView;

verus! {

/// Whether `path` lies below the directory `dir`.
pub open spec fn lies_below(path: Seq<char>, dir: Seq<char>) -> bool {
    (dir + "/"@).is_prefix_of(path)
}

/// The paths that are there once `action` is done, where `files` were
/// there before. What makes or writes a file puts its path there; what
/// removes a file takes its path away, and what removes a directory takes
/// away all below it too; every other operation leaves the paths as they
/// are.
pub open spec fn after_action(files: Set<Seq<char>>, action: ActionView) -> Set<Seq<char>> {
    match action {
        ActionView::CreateDirAll { path } => files.insert(path),
        ActionView::MakeDir { path, mode } => files.insert(path),
        ActionView::EnsureFile { path } => files.insert(path),
        ActionView::WriteFile { path, data } => files.insert(path),
        ActionView::SaveSpec { path, spec } => files.insert(path),
        ActionView::Symlink { target, link } => files.insert(link),
        ActionView::Download { url, token, into } => files.insert(into),
        ActionView::Unpack { archive, into } => files.insert(into),
        ActionView::RemoveFile { path } => files.remove(path),
        ActionView::RemoveDirAll { path } => Set::new(
            |p: Seq<char>| files.contains(p) && p != path && !lies_below(p, path),
        ),
        _ => files,
    }
}

/// The paths that are there once the operations of `plan` are done in
/// their order.
pub open spec fn after_plan(files: Set<Seq<char>>, plan: Seq<ActionView>) -> Set<Seq<char>>
    decreases plan.len(),
{
    if plan.len() == 0 {
        files
    } else {
        after_action(after_plan(files, plan.drop_last()), plan.last())
    }
}

/// The mount points that are in use once `action` is done, where `mounts`
/// were in use before.
pub open spec fn mounted_after_action(mounts: Set<Seq<char>>, action: ActionView) -> Set<
    Seq<char>,
> {
    match action {
        ActionView::Mount { source, target, fstype, flags, options } => mounts.insert(target),
        ActionView::Unmount { target } => mounts.remove(target),
        ActionView::Detach { target } => mounts.remove(target),
        _ => mounts,
    }
}

/// The mount points that are in use once the operations of `plan` are done
/// in their order.
pub open spec fn mounted_after(mounts: Set<Seq<char>>, plan: Seq<ActionView>) -> Set<Seq<char>>
    decreases plan.len(),
{
    if plan.len() == 0 {
        mounts
    } else {
        mounted_after_action(mounted_after(mounts, plan.drop_last()), plan.last())
    }
}

/// A plan that holds no mount leaves no mount point in use that was not in
/// use before.
pub proof fn lemma_nothing_mounted(mounts: Set<Seq<char>>, plan: Seq<ActionView>, p: Seq<char>)
    requires
        !mounts.contains(p),
        forall|i: int| 0 <= i < plan.len() ==> !(#[trigger] plan[i] is Mount),
    ensures
        !mounted_after(mounts, plan).contains(p),
    decreases plan.len(),
{
    if plan.len() > 0 {
        assert forall|i: int| 0 <= i < plan.drop_last().len() implies !(
        #[trigger] plan.drop_last()[i] is Mount) by {
            assert(plan.drop_last()[i] == plan[i]);
        }
        lemma_nothing_mounted(mounts, plan.drop_last(), p);
        assert(!(plan[plan.len() - 1] is Mount));
    }
}

/// Two plans one after the other leave in use what they leave as one plan.
pub proof fn lemma_mounted_after_plans(
    mounts: Set<Seq<char>>,
    first: Seq<ActionView>,
    second: Seq<ActionView>,
)
    ensures
        mounted_after(mounts, first + second) == mounted_after(
            mounted_after(mounts, first),
            second,
        ),
    decreases second.len(),
{
    if second.len() == 0 {
        assert(first + second =~= first);
    } else {
        lemma_mounted_after_plans(mounts, first, second.drop_last());
        assert((first + second).drop_last() =~= first + second.drop_last());
        assert((first + second).last() == second.last());
    }
}

/// Whether `action` leaves the path `p` where it is.
pub open spec fn spares(action: ActionView, p: Seq<char>) -> bool {
    match action {
        ActionView::RemoveFile { path } => path != p,
        ActionView::RemoveDirAll { path } => path != p && !lies_below(p, path),
        _ => true,
    }
}

/// Whether `action` puts nothing at the path `p`.
pub open spec fn leaves_out(action: ActionView, p: Seq<char>) -> bool {
    match action {
        ActionView::CreateDirAll { path } => path != p,
        ActionView::MakeDir { path, mode } => path != p,
        ActionView::EnsureFile { path } => path != p,
        ActionView::WriteFile { path, data } => path != p,
        ActionView::SaveSpec { path, spec } => path != p,
        ActionView::Symlink { target, link } => link != p,
        ActionView::Download { url, token, into } => into != p,
        ActionView::Unpack { archive, into } => into != p,
        _ => true,
    }
}

/// A path that is not there is not there after a plan whose operations
/// all put nothing at it.
pub proof fn lemma_left_out(files: Set<Seq<char>>, plan: Seq<ActionView>, p: Seq<char>)
    requires
        !files.contains(p),
        forall|i: int| 0 <= i < plan.len() ==> leaves_out(#[trigger] plan[i], p),
    ensures
        !after_plan(files, plan).contains(p),
    decreases plan.len(),
{
    if plan.len() > 0 {
        assert forall|i: int| 0 <= i < plan.drop_last().len() implies leaves_out(
            #[trigger] plan.drop_last()[i],
            p,
        ) by {
            assert(plan.drop_last()[i] == plan[i]);
        }
        lemma_left_out(files, plan.drop_last(), p);
        assert(leaves_out(plan[plan.len() - 1], p));
    }
}

/// Whether every operation of `plan` leaves the path `p` where it is.
pub open spec fn all_spare(plan: Seq<ActionView>, p: Seq<char>) -> bool {
    forall|i: int| 0 <= i < plan.len() ==> spares(#[trigger] plan[i], p)
}

/// Two plans one after the other are done as one plan.
pub proof fn lemma_after_plans(files: Set<Seq<char>>, first: Seq<ActionView>, second: Seq<ActionView>)
    ensures
        after_plan(files, first + second) == after_plan(after_plan(files, first), second),
    decreases second.len(),
{
    if second.len() == 0 {
        assert(first + second =~= first);
    } else {
        lemma_after_plans(files, first, second.drop_last());
        assert((first + second).drop_last() =~= first + second.drop_last());
        assert((first + second).last() == second.last());
    }
}

/// A path that is there stays there through a plan whose operations all
/// leave it where it is.
pub proof fn lemma_spared(files: Set<Seq<char>>, plan: Seq<ActionView>, p: Seq<char>)
    requires
        files.contains(p),
        all_spare(plan, p),
    ensures
        after_plan(files, plan).contains(p),
    decreases plan.len(),
{
    if plan.len() > 0 {
        assert(all_spare(plan.drop_last(), p)) by {
            assert forall|i: int| 0 <= i < plan.drop_last().len() implies spares(
                #[trigger] plan.drop_last()[i],
                p,
            ) by {
                assert(plan.drop_last()[i] == plan[i]);
            }
        }
        lemma_spared(files, plan.drop_last(), p);
        assert(spares(plan[plan.len() - 1], p));
    }
}

} // verus!
