use vstd::prelude::*;
use crate::version::decimal;

verus! {

/// One filesystem action of an activation. Names are those of entries in the
/// directory that holds the live pointer; a link target is a path.
pub enum LinkOp {
    /// Renames the entry `from` to `to`, replacing what `to` named.
    Rename { from: String, to: String },
    /// Creates a symbolic link named `at` that points at `target`.
    Symlink { at: String, target: String },
}

pub ghost enum LinkOpView {
    Rename(Seq<char>, Seq<char>),
    Symlink(Seq<char>, Seq<char>),
}

impl View for LinkOp {
    type V = LinkOpView;

    open spec fn view(&self) -> LinkOpView {
        match self {
            LinkOp::Rename { from, to } => LinkOpView::Rename(from@, to@),
            LinkOp::Symlink { at, target } => LinkOpView::Symlink(at@, target@),
        }
    }
}

/// The name under which the previous pointer is kept:
/// `<pointer-name>.<unix-seconds>`.
pub open spec fn backup_name_of(pointer: Seq<char>, timestamp: u64) -> Seq<char> {
    pointer + seq!['.'] + decimal(timestamp as nat)
}

/// The activation, in this order: keep the live pointer under its backup
/// name, then link the pointer's name to the new release.
pub open spec fn swap_plan_of(pointer: Seq<char>, timestamp: u64, release: Seq<char>) -> Seq<
    LinkOpView,
> {
    seq![
        LinkOpView::Rename(pointer, backup_name_of(pointer, timestamp)),
        LinkOpView::Symlink(pointer, release),
    ]
}

/// The effect of one action on the links of a directory (name to target);
/// `None` where the action fails: a rename of a missing name, or a link over
/// a name that is taken.
pub open spec fn apply_link_op(links: Map<Seq<char>, Seq<char>>, op: LinkOpView) -> Option<
    Map<Seq<char>, Seq<char>>,
> {
    match op {
        LinkOpView::Rename(from, to) => if links.dom().contains(from) {
            Some(links.remove(from).insert(to, links[from]))
        } else {
            None
        },
        LinkOpView::Symlink(at, target) => if links.dom().contains(at) {
            None
        } else {
            Some(links.insert(at, target))
        },
    }
}

/// Some name among the links resolves to `target`.
pub open spec fn addressable(links: Map<Seq<char>, Seq<char>>, target: Seq<char>) -> bool {
    exists|n: Seq<char>| links.dom().contains(n) && #[trigger] links[n] == target
}

/// Renders the backup name of a pointer for a moment in Unix seconds.
pub fn backup_name(pointer_name: &str, timestamp: u64) -> (r: String)
    ensures
        r@ == backup_name_of(pointer_name@, timestamp),
{
    proof {
        reveal_strlit(".");
    }
    let mut r = pointer_name.to_owned();
    r.append(".");
    r.append(crate::version::decimal_text(timestamp).as_str());
    r
}

/// The two actions that activate a release: rename the pointer to its
/// backup name, then create the pointer anew, linked to `release_target`.
pub fn swap_plan(pointer_name: &str, timestamp: u64, release_target: &str) -> (r: Vec<LinkOp>)
    ensures
        r@.map_values(|o: LinkOp| o@) == swap_plan_of(pointer_name@, timestamp, release_target@),
{
    let backup = backup_name(pointer_name, timestamp);
    let mut r: Vec<LinkOp> = Vec::new();
    r.push(LinkOp::Rename { from: pointer_name.to_owned(), to: backup });
    r.push(LinkOp::Symlink { at: pointer_name.to_owned(), target: release_target.to_owned() });
    assert(r@.map_values(|o: LinkOp| o@) =~= swap_plan_of(
        pointer_name@,
        timestamp,
        release_target@,
    ));
    r
}

/// Activation is order-safe. From a directory whose pointer resolves to a
/// release, the plan succeeds; afterwards the pointer resolves to the new
/// release and the backup name to the previous one, and nothing else changed.
/// The previous release stays addressable at every point, and the pointer's
/// name is missing only between the rename and the link.
pub proof fn lemma_swap_order_safe(
    links: Map<Seq<char>, Seq<char>>,
    pointer: Seq<char>,
    timestamp: u64,
    release: Seq<char>,
)
    requires
        links.dom().contains(pointer),
    ensures
        ({
            let plan = swap_plan_of(pointer, timestamp, release);
            let backup = backup_name_of(pointer, timestamp);
            &&& backup != pointer
            &&& apply_link_op(links, plan[0]) matches Some(mid) && {
                &&& !mid.dom().contains(pointer)
                &&& mid.dom().contains(backup) && mid[backup] == links[pointer]
                &&& addressable(mid, links[pointer])
                &&& apply_link_op(mid, plan[1]) matches Some(done) && {
                    &&& done.dom().contains(pointer) && done[pointer] == release
                    &&& done.dom().contains(backup) && done[backup] == links[pointer]
                    &&& addressable(done, links[pointer])
                    &&& forall|n: Seq<char>|
                        n != pointer && n != backup ==> (#[trigger] done.dom().contains(n)
                            == links.dom().contains(n) && (links.dom().contains(n) ==> done[n]
                            == links[n]))
                }
            }
        }),
{
    let backup = backup_name_of(pointer, timestamp);
    assert(backup.len() > pointer.len());
    let mid = links.remove(pointer).insert(backup, links[pointer]);
    assert(mid.dom().contains(backup) && mid[backup] == links[pointer]);
    let done = mid.insert(pointer, release);
    assert(done.dom().contains(backup) && done[backup] == links[pointer]);
}

} // verus!
