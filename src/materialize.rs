use vstd::prelude::*;

verus! {

/// Whether an extracted entry is a directory or a regular file.
#[derive(Clone, Copy, Debug, PartialEq, Eq, Structural)]
pub enum EntryKind {
    Directory,
    File,
}

/// One entry of an extracted archive: its path below the extraction root,
/// one segment per level, and its kind.
pub struct TreeEntry {
    pub path: Vec<String>,
    pub kind: EntryKind,
}

pub ghost struct EntryView {
    pub path: Seq<Seq<char>>,
    pub kind: EntryKind,
}

/// The view of a path: its segments' texts.
pub open spec fn path_view(p: Vec<String>) -> Seq<Seq<char>> {
    p@.map_values(|s: String| s@)
}

impl View for TreeEntry {
    type V = EntryView;

    open spec fn view(&self) -> EntryView {
        EntryView { path: path_view(self.path), kind: self.kind }
    }
}

/// One filesystem action of a materialization, with paths relative to the
/// release directory (`to`, and a created directory) or to the extraction
/// root (`from`).
pub enum Step {
    CreateDir(Vec<String>),
    CopyFile { from: Vec<String>, to: Vec<String> },
}

pub ghost enum StepView {
    CreateDir(Seq<Seq<char>>),
    CopyFile(Seq<Seq<char>>, Seq<Seq<char>>),
}

impl View for Step {
    type V = StepView;

    open spec fn view(&self) -> StepView {
        match self {
            Step::CreateDir(p) => StepView::CreateDir(path_view(*p)),
            Step::CopyFile { from, to } => StepView::CopyFile(path_view(*from), path_view(*to)),
        }
    }
}

/// How many entries stand at the top level of the extraction root.
pub open spec fn top_level_count(entries: Seq<EntryView>) -> nat
    decreases entries.len(),
{
    if entries.len() == 0 {
        0
    } else {
        top_level_count(entries.drop_last()) + if entries.last().path.len() == 1 {
            1nat
        } else {
            0nat
        }
    }
}

/// How many directories stand at the top level of the extraction root.
pub open spec fn top_level_dir_count(entries: Seq<EntryView>) -> nat
    decreases entries.len(),
{
    if entries.len() == 0 {
        0
    } else {
        top_level_dir_count(entries.drop_last()) + if entries.last().path.len() == 1
            && entries.last().kind == EntryKind::Directory {
            1nat
        } else {
            0nat
        }
    }
}

/// The extraction root holds exactly one entry, a directory that wraps the
/// payload: it is stripped, one level and no more.
pub open spec fn strips_wrapper(entries: Seq<EntryView>) -> bool {
    top_level_count(entries) == 1 && top_level_dir_count(entries) == 1
}

/// Where an extracted path lands below the release directory.
pub open spec fn destination(path: Seq<Seq<char>>, strip: bool) -> Seq<Seq<char>> {
    if strip && path.len() > 0 {
        path.subrange(1, path.len() as int)
    } else {
        path
    }
}

/// The action that mirrors one extracted entry.
pub open spec fn step_for(e: EntryView, strip: bool) -> StepView {
    match e.kind {
        EntryKind::Directory => StepView::CreateDir(destination(e.path, strip)),
        EntryKind::File => StepView::CopyFile(e.path, destination(e.path, strip)),
    }
}

/// The materialization plan: create the release directory, then mirror
/// every extracted entry, in the order given.
pub open spec fn plan_of(entries: Seq<EntryView>) -> Seq<StepView> {
    seq![StepView::CreateDir(Seq::empty())] + entries.map_values(
        |e: EntryView| step_for(e, strips_wrapper(entries)),
    )
}

/// What a release tree holds at a path: a directory, or a file copied from
/// the extracted path given.
pub ghost enum Node {
    Dir,
    File(Seq<Seq<char>>),
}

/// The effect of one action on a release tree. Creating a directory that
/// already exists succeeds and changes nothing; a copy replaces what stood at
/// its destination.
pub open spec fn apply_step(t: Map<Seq<Seq<char>>, Node>, s: StepView) -> Map<
    Seq<Seq<char>>,
    Node,
> {
    match s {
        StepView::CreateDir(p) => if t.dom().contains(p) {
            t
        } else {
            t.insert(p, Node::Dir)
        },
        StepView::CopyFile(from, to) => t.insert(to, Node::File(from)),
    }
}

/// The effect of a sequence of actions, in order.
pub open spec fn apply_steps(t: Map<Seq<Seq<char>>, Node>, steps: Seq<StepView>) -> Map<
    Seq<Seq<char>>,
    Node,
>
    decreases steps.len(),
{
    if steps.len() == 0 {
        t
    } else {
        apply_step(apply_steps(t, steps.drop_last()), steps.last())
    }
}

spec fn lookup(t: Map<Seq<Seq<char>>, Node>, k: Seq<Seq<char>>) -> Option<Node> {
    if t.dom().contains(k) {
        Some(t[k])
    } else {
        None
    }
}

spec fn last_copy(steps: Seq<StepView>, k: Seq<Seq<char>>) -> Option<Seq<Seq<char>>>
    decreases steps.len(),
{
    if steps.len() == 0 {
        None
    } else {
        match steps.last() {
            StepView::CopyFile(from, to) => if to == k {
                Some(from)
            } else {
                last_copy(steps.drop_last(), k)
            },
            _ => last_copy(steps.drop_last(), k),
        }
    }
}

spec fn creates(steps: Seq<StepView>, k: Seq<Seq<char>>) -> bool
    decreases steps.len(),
{
    if steps.len() == 0 {
        false
    } else {
        steps.last() == StepView::CreateDir(k) || creates(steps.drop_last(), k)
    }
}

spec fn expected_at(t: Map<Seq<Seq<char>>, Node>, steps: Seq<StepView>, k: Seq<Seq<char>>) -> Option<
    Node,
> {
    match last_copy(steps, k) {
        Some(from) => Some(Node::File(from)),
        None => if t.dom().contains(k) {
            Some(t[k])
        } else if creates(steps, k) {
            Some(Node::Dir)
        } else {
            None
        },
    }
}

proof fn lemma_apply_steps_at(t: Map<Seq<Seq<char>>, Node>, steps: Seq<StepView>, k: Seq<Seq<char>>)
    ensures
        lookup(apply_steps(t, steps), k) == expected_at(t, steps, k),
    decreases steps.len(),
{
    if steps.len() > 0 {
        lemma_apply_steps_at(t, steps.drop_last(), k);
    }
}

/// Materializing is idempotent: carrying out a plan a second time, on the
/// tree that the first run left, changes nothing, and no directory that
/// already exists makes it fail.
pub proof fn lemma_materialize_idempotent(
    entries: Seq<EntryView>,
    tree: Map<Seq<Seq<char>>, Node>,
)
    ensures
        apply_steps(apply_steps(tree, plan_of(entries)), plan_of(entries)) == apply_steps(
            tree,
            plan_of(entries),
        ),
{
    let steps = plan_of(entries);
    let once = apply_steps(tree, steps);
    let twice = apply_steps(once, steps);
    assert forall|k: Seq<Seq<char>>| lookup(twice, k) == lookup(once, k) by {
        lemma_apply_steps_at(tree, steps, k);
        lemma_apply_steps_at(once, steps, k);
    }
    assert forall|k: Seq<Seq<char>>| #[trigger] twice.dom().contains(k) == once.dom().contains(k)
        by {
        assert(lookup(twice, k) == lookup(once, k));
    }
    assert forall|k: Seq<Seq<char>>| twice.dom().contains(k) implies twice[k] == once[k] by {
        assert(lookup(twice, k) == lookup(once, k));
    }
    assert(twice =~= once);
}

/// Where the extraction root holds a single wrapper directory, every entry
/// lands in the release directory with the wrapper's segment, and only it,
/// taken off its path: the wrapper's children make the release's top level.
pub proof fn lemma_wrapper_stripped(entries: Seq<EntryView>)
    requires
        strips_wrapper(entries),
        forall|i: int| 0 <= i < entries.len() ==> #[trigger] entries[i].path.len() > 0,
    ensures
        forall|i: int|
            0 <= i < entries.len() ==> match #[trigger] plan_of(entries)[i + 1] {
                StepView::CreateDir(to) => to == entries[i].path.subrange(
                    1,
                    entries[i].path.len() as int,
                ),
                StepView::CopyFile(from, to) => from == entries[i].path && to == entries[i].path.subrange(
                    1,
                    entries[i].path.len() as int,
                ),
            },
{
    assert forall|i: int| 0 <= i < entries.len() implies plan_of(entries)[i + 1] == step_for(
        entries[i],
        true,
    ) by {}
}

fn copy_path(p: &Vec<String>, skip: usize) -> (r: Vec<String>)
    requires
        skip <= p@.len(),
    ensures
        path_view(r) == path_view(*p).subrange(skip as int, p@.len() as int),
{
    let mut r: Vec<String> = Vec::new();
    let mut i: usize = skip;
    while i < p.len()
        invariant
            skip <= i <= p@.len(),
            path_view(r) == path_view(*p).subrange(skip as int, i as int),
        decreases p.len() - i,
    {
        let segment = p[i].clone();
        assert(segment@ == path_view(*p)[i as int]);
        let ghost before = path_view(r);
        r.push(segment);
        assert(path_view(r) =~= before.push(segment@));
        assert(path_view(r) =~= path_view(*p).subrange(skip as int, i + 1));
        i = i + 1;
    }
    r
}

/// Whether the extraction root holds exactly one entry, a directory.
pub fn has_wrapper(entries: &Vec<TreeEntry>) -> (r: bool)
    ensures
        r == strips_wrapper(entries@.map_values(|e: TreeEntry| e@)),
{
    let ghost views = entries@.map_values(|e: TreeEntry| e@);
    let mut top: usize = 0;
    let mut top_dirs: usize = 0;
    let mut i: usize = 0;
    while i < entries.len()
        invariant
            i <= entries@.len(),
            views == entries@.map_values(|e: TreeEntry| e@),
            top == top_level_count(views.take(i as int)),
            top_dirs == top_level_dir_count(views.take(i as int)),
            top <= i,
            top_dirs <= i,
        decreases entries.len() - i,
    {
        assert(views.take(i + 1).drop_last() == views.take(i as int));
        if entries[i].path.len() == 1 {
            top = top + 1;
            if entries[i].kind == EntryKind::Directory {
                top_dirs = top_dirs + 1;
            }
        }
        i = i + 1;
    }
    assert(views.take(entries@.len() as int) == views);
    top == 1 && top_dirs == 1
}

/// The plan that turns an extracted archive into a release tree: create the
/// release directory, then, in the order given, create each extracted
/// directory and copy each extracted file to its mirrored path. Where the
/// extraction root holds a single wrapper directory, its segment is taken off
/// every destination.
pub fn plan_materialization(entries: &Vec<TreeEntry>) -> (r: Vec<Step>)
    ensures
        r@.map_values(|s: Step| s@) == plan_of(entries@.map_values(|e: TreeEntry| e@)),
{
    let ghost views = entries@.map_values(|e: TreeEntry| e@);
    let strip = has_wrapper(entries);
    let mut r: Vec<Step> = Vec::new();
    let root: Vec<String> = Vec::new();
    assert(path_view(root) =~= Seq::empty());
    r.push(Step::CreateDir(root));
    assert(r@.map_values(|s: Step| s@) =~= seq![StepView::CreateDir(Seq::empty())]);
    let mut i: usize = 0;
    while i < entries.len()
        invariant
            i <= entries@.len(),
            views == entries@.map_values(|e: TreeEntry| e@),
            strip == strips_wrapper(views),
            r@.map_values(|s: Step| s@) == plan_of(views).take(i + 1),
        decreases entries.len() - i,
    {
        let e = &entries[i];
        let skip: usize = if strip && e.path.len() > 0 {
            1
        } else {
            0
        };
        let to = copy_path(&e.path, skip);
        assert(path_view(e.path).subrange(0, e.path@.len() as int) =~= path_view(e.path));
        let step = match e.kind {
            EntryKind::Directory => Step::CreateDir(to),
            EntryKind::File => Step::CopyFile { from: copy_path(&e.path, 0), to },
        };
        assert(step@ == step_for(views[i as int], strip));
        assert(plan_of(views)[i + 1] == step_for(views[i as int], strip));
        let ghost before = r@.map_values(|s: Step| s@);
        r.push(step);
        assert(r@.map_values(|s: Step| s@) =~= before.push(step@));
        assert(r@.map_values(|s: Step| s@) =~= plan_of(views).take(i + 2));
        i = i + 1;
    }
    assert(plan_of(views).take(entries@.len() + 1int) =~= plan_of(views));
    r
}

/// What creating a directory of the release tree reported.
#[derive(Clone, Copy, Debug, PartialEq, Eq, Structural)]
pub enum DirCreation {
    Created,
    AlreadyExists,
    Failed,
}

/// Whether a directory creation leaves the directory in place: one that
/// already exists counts as success, so that a run can be repeated.
pub fn dir_ready(outcome: DirCreation) -> (r: bool)
    ensures
        r <==> outcome != DirCreation::Failed,
{
    match outcome {
        DirCreation::Failed => false,
        _ => true,
    }
}

} // verus!
