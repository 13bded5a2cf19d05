//! Planning the extraction of an archive: which entries are written, where,
//! and with which permissions.
//!
//! The caller reads the archive and writes the files. What is decided here
//! is decided before anything is written: an entry whose name would lead out
//! of the target directory yields no step at all.

use vstd::prelude::*;
use crate::text::{chars_of, join, join_spec, parent_of, parent_spec};

verus! {

/// What the plan reads of one archive entry.
#[derive(Clone, Debug, PartialEq, Eq)]
pub struct ArchiveEntry {
    /// The name as the archive stores it, with `/` between its parts.
    pub name: String,
    /// The unix permission bits, where the entry carries them.
    pub unix_mode: Option<u32>,
}

/// One thing to do to extract an archive.
#[derive(Clone, Debug, PartialEq, Eq)]
pub enum ExtractStep {
    /// Create the directory `path` and all that lead to it; one that exists
    /// already is no failure. Then set `mode` on it where one is given.
    CreateDir { index: usize, path: String, mode: Option<u32> },
    /// Create `parent` and all that lead to it, write the bytes of entry
    /// `index` to `path`, replacing what is there, then set `mode` on it
    /// where one is given.
    WriteFile { index: usize, path: String, parent: String, mode: Option<u32> },
}

/// An extraction step over plain text.
pub enum StepView {
    CreateDir { index: int, path: Seq<char>, mode: Option<u32> },
    WriteFile { index: int, path: Seq<char>, parent: Seq<char>, mode: Option<u32> },
}

impl View for ExtractStep {
    type V = StepView;

    open spec fn view(&self) -> StepView {
        match *self {
            ExtractStep::CreateDir { index, path, mode } => StepView::CreateDir {
                index: index as int,
                path: path@,
                mode,
            },
            ExtractStep::WriteFile { index, path, parent, mode } => StepView::WriteFile {
                index: index as int,
                path: path@,
                parent: parent@,
                mode,
            },
        }
    }
}

impl StepView {
    /// The entry that the step extracts.
    pub open spec fn index(self) -> int {
        match self {
            StepView::CreateDir { index, .. } => index,
            StepView::WriteFile { index, .. } => index,
        }
    }
}

/// The length of what stands before the first `/` of `name`.
pub open spec fn first_part_len(name: Seq<char>) -> int
    decreases name.len(),
{
    if name.len() == 0 || name[0] == '/' {
        0
    } else {
        1 + first_part_len(name.drop_first())
    }
}

/// The parts of a name, cut at every `/`.
pub open spec fn parts(name: Seq<char>) -> Seq<Seq<char>>
    decreases name.len(),
{
    let n = first_part_len(name);
    if 0 <= n < name.len() {
        seq![name.take(n)] + parts(name.skip(n + 1))
    } else {
        seq![name]
    }
}

/// Whether a walk along `parts` that begins `depth` directories below the
/// target never leaves the target. `..` goes up one directory, an empty part
/// and `.` stay, and every other part goes down one.
pub open spec fn stays_inside(parts: Seq<Seq<char>>, depth: int) -> bool
    decreases parts.len(),
{
    if parts.len() == 0 {
        true
    } else if parts[0] == seq!['.', '.'] {
        depth > 0 && stays_inside(parts.drop_first(), depth - 1)
    } else if parts[0].len() == 0 || parts[0] == seq!['.'] {
        stays_inside(parts.drop_first(), depth)
    } else {
        stays_inside(parts.drop_first(), depth + 1)
    }
}

/// Path containment: the name holds no NUL, is not absolute, and no prefix
/// of it leads above the directory it is resolved in.
pub open spec fn enclosed(name: Seq<char>) -> bool {
    &&& !name.contains('\0')
    &&& !(name.len() > 0 && name[0] == '/')
    &&& stays_inside(parts(name), 0)
}

/// Whether the name is that of a directory: it ends in `/`.
pub open spec fn names_directory(name: Seq<char>) -> bool {
    name.len() > 0 && name.last() == '/'
}

/// The step for entry `index` of an archive extracted into `target`: none
/// for a name that is not enclosed, else the directory or the file at
/// `target` joined with the name, with the entry's permission bits.
pub open spec fn step_for(target: Seq<char>, index: int, entry: ArchiveEntry) -> Option<StepView> {
    if !enclosed(entry.name@) {
        None
    } else if names_directory(entry.name@) {
        Some(
            StepView::CreateDir {
                index,
                path: join_spec(target, entry.name@),
                mode: entry.unix_mode,
            },
        )
    } else {
        Some(
            StepView::WriteFile {
                index,
                path: join_spec(target, entry.name@),
                parent: parent_spec(join_spec(target, entry.name@)),
                mode: entry.unix_mode,
            },
        )
    }
}

/// The steps for the first `count` entries, in archive order.
pub open spec fn plan_upto(target: Seq<char>, entries: Seq<ArchiveEntry>, count: int) -> Seq<
    StepView,
>
    decreases count,
{
    if count <= 0 {
        Seq::<StepView>::empty()
    } else {
        let before = plan_upto(target, entries, count - 1);
        match step_for(target, count - 1, entries[count - 1]) {
            Some(step) => before.push(step),
            None => before,
        }
    }
}

/// The whole plan: the steps of the enclosed entries, in archive order.
pub open spec fn plan_spec(target: Seq<char>, entries: Seq<ArchiveEntry>) -> Seq<StepView> {
    plan_upto(target, entries, entries.len() as int)
}

/// What holds of the steps planned for the first `count` entries.
proof fn lemma_plan_upto(target: Seq<char>, entries: Seq<ArchiveEntry>, count: int)
    requires
        0 <= count <= entries.len(),
    ensures
        forall|j: int|
            0 <= j < plan_upto(target, entries, count).len() ==> {
                let step = #[trigger] plan_upto(target, entries, count)[j];
                &&& 0 <= step.index() < count
                &&& step_for(target, step.index(), entries[step.index()]) == Some(step)
            },
        forall|j: int, k: int|
            0 <= j < k < plan_upto(target, entries, count).len() ==> (#[trigger] plan_upto(
                target,
                entries,
                count,
            )[j]).index() < (#[trigger] plan_upto(target, entries, count)[k]).index(),
        forall|i: int|
            0 <= i < count && #[trigger] enclosed(entries[i].name@) ==> exists|j: int|
                0 <= j < plan_upto(target, entries, count).len() && (#[trigger] plan_upto(
                    target,
                    entries,
                    count,
                )[j]).index() == i,
    decreases count,
{
    if count > 0 {
        lemma_plan_upto(target, entries, count - 1);
        let before = plan_upto(target, entries, count - 1);
        let plan = plan_upto(target, entries, count);
        assert forall|i: int| 0 <= i < count && #[trigger] enclosed(entries[i].name@) implies exists|
            j: int,
        |
            0 <= j < plan.len() && (#[trigger] plan[j]).index() == i by {
            if i < count - 1 {
                let j = choose|j: int| 0 <= j < before.len() && (#[trigger] before[j]).index() == i;
                assert(plan[j].index() == i);
            } else {
                assert(plan[plan.len() - 1].index() == i);
            }
        }
    }
}

/// Extraction is contained and complete. An entry whose name is not
/// enclosed has no step in the plan, so nothing is written for it. Every
/// other entry has exactly one step, which creates or writes the target
/// joined with the entry's name and carries the entry's permission bits,
/// and the steps stand in archive order.
pub proof fn lemma_plan_skips_only_escaping_entries(target: Seq<char>, entries: Seq<ArchiveEntry>)
    ensures
        forall|j: int|
            0 <= j < plan_spec(target, entries).len() ==> {
                let step = #[trigger] plan_spec(target, entries)[j];
                &&& 0 <= step.index() < entries.len()
                &&& enclosed(entries[step.index()].name@)
                &&& step_for(target, step.index(), entries[step.index()]) == Some(step)
            },
        forall|j: int, k: int|
            0 <= j < k < plan_spec(target, entries).len() ==> (#[trigger] plan_spec(
                target,
                entries,
            )[j]).index() < (#[trigger] plan_spec(target, entries)[k]).index(),
        forall|i: int|
            0 <= i < entries.len() && #[trigger] enclosed(entries[i].name@) ==> exists|j: int|
                0 <= j < plan_spec(target, entries).len() && (#[trigger] plan_spec(
                    target,
                    entries,
                )[j]).index() == i,
{
    lemma_plan_upto(target, entries, entries.len() as int);
}

/// Where no `/` stands among the first `n` characters and one follows, or
/// the name ends, the first part has length `n`.
proof fn lemma_first_part(name: Seq<char>, n: int)
    requires
        0 <= n <= name.len(),
        forall|k: int| 0 <= k < n ==> name[k] != '/',
        n == name.len() || name[n] == '/',
    ensures
        first_part_len(name) == n,
    decreases n,
{
    if n > 0 {
        let rest = name.drop_first();
        assert forall|k: int| 0 <= k < n - 1 implies rest[k] != '/' by {
            assert(rest[k] == name[k + 1]);
        }
        lemma_first_part(rest, n - 1);
    }
}

/// Whether `c` occurs in `text`.
fn has_char(text: &Vec<char>, c: char) -> (found: bool)
    ensures
        found == text@.contains(c),
{
    let mut i: usize = 0;
    while i < text.len()
        invariant
            i <= text.len(),
            forall|k: int| 0 <= k < i ==> text@[k] != c,
        decreases text.len() - i,
    {
        if text[i] == c {
            return true;
        }
        i += 1;
    }
    false
}

/// Decides path containment of an entry name.
pub fn is_enclosed(name: &str) -> (inside: bool)
    ensures
        inside == enclosed(name@),
{
    let text = chars_of(name);
    if has_char(&text, '\0') {
        return false;
    }
    if text.len() > 0 && text[0] == '/' {
        return false;
    }
    let mut start: usize = 0;
    let mut depth: usize = 0;
    proof {
        assert(text@.skip(0) =~= text@);
    }
    loop
        invariant
            start <= text.len(),
            depth <= start,
            text@ == name@,
            !text@.contains('\0'),
            !(text.len() > 0 && text@[0] == '/'),
            stays_inside(parts(text@), 0) == stays_inside(
                parts(text@.skip(start as int)),
                depth as int,
            ),
        decreases text.len() - start,
    {
        let ghost rest = text@.skip(start as int);
        let mut end: usize = start;
        while end < text.len() && text[end] != '/'
            invariant
                start <= end <= text.len(),
                forall|k: int| start <= k < end ==> text@[k] != '/',
            decreases text.len() - end,
        {
            end += 1;
        }
        let len = end - start;
        let up = len == 2 && text[start] == '.' && text[start + 1] == '.';
        let stay = len == 0 || (len == 1 && text[start] == '.');
        proof {
            lemma_first_part(rest, len as int);
            let part = rest.take(len as int);
            assert(up == (part == seq!['.', '.'])) by {
                if up {
                    assert(part =~= seq!['.', '.']);
                } else if len == 2 {
                    assert(part[0] == text@[start as int]);
                    assert(part[1] == text@[start + 1]);
                    assert(seq!['.', '.'][0] == '.' && seq!['.', '.'][1] == '.');
                } else {
                    assert(part.len() != seq!['.', '.'].len());
                }
            }
            assert(stay == (part.len() == 0 || part == seq!['.'])) by {
                if len == 1 {
                    assert(part[0] == text@[start as int]);
                    if text@[start as int] == '.' {
                        assert(part =~= seq!['.']);
                    } else {
                        assert(seq!['.'][0] == '.');
                    }
                } else {
                    assert(part.len() != seq!['.'].len());
                }
            }
            let all = parts(rest);
            if end < text.len() {
                assert(rest.skip(len + 1) =~= text@.skip(end + 1));
                assert(all == seq![part] + parts(text@.skip(end + 1)));
                assert(all.drop_first() =~= parts(text@.skip(end + 1)));
                assert(all[0] == part);
            } else {
                assert(rest.take(len as int) =~= rest);
                assert(all == seq![rest]);
                assert(all.drop_first() =~= Seq::<Seq<char>>::empty());
                assert(all[0] == part);
            }
        }
        if up {
            if depth == 0 {
                return false;
            }
            depth -= 1;
        } else if !stay {
            depth += 1;
        }
        if end == text.len() {
            proof {
                assert(stays_inside(Seq::<Seq<char>>::empty(), depth as int));
            }
            return true;
        }
        start = end + 1;
    }
}

/// The step for one entry, or none where its name is not enclosed.
pub fn plan_entry(target: &str, index: usize, entry: &ArchiveEntry) -> (step: Option<ExtractStep>)
    ensures
        match step {
            Some(s) => step_for(target@, index as int, *entry) == Some(s@),
            None => step_for(target@, index as int, *entry) is None,
        },
{
    if !is_enclosed(entry.name.as_str()) {
        return None;
    }
    let text = chars_of(entry.name.as_str());
    let path = join(target, entry.name.as_str());
    if text.len() > 0 && text[text.len() - 1] == '/' {
        Some(ExtractStep::CreateDir { index, path, mode: entry.unix_mode })
    } else {
        let parent = parent_of(path.as_str());
        Some(ExtractStep::WriteFile { index, path, parent, mode: entry.unix_mode })
    }
}

/// Plans the extraction of `entries`, given in archive order, into `target`.
pub fn plan_extraction(target: &str, entries: &Vec<ArchiveEntry>) -> (steps: Vec<ExtractStep>)
    ensures
        steps@.map_values(|s: ExtractStep| s@) == plan_spec(target@, entries@),
{
    let mut steps: Vec<ExtractStep> = Vec::new();
    let mut i: usize = 0;
    proof {
        assert(steps@.map_values(|s: ExtractStep| s@) =~= plan_upto(target@, entries@, 0));
    }
    while i < entries.len()
        invariant
            i <= entries.len(),
            steps@.map_values(|s: ExtractStep| s@) == plan_upto(target@, entries@, i as int),
        decreases entries.len() - i,
    {
        let ghost before = steps@;
        match plan_entry(target, i, &entries[i]) {
            Some(step) => {
                steps.push(step);
                proof {
                    assert(steps@.map_values(|s: ExtractStep| s@) =~= before.map_values(
                        |s: ExtractStep| s@,
                    ).push(step@));
                }
            },
            None => {},
        }
        i += 1;
    }
    steps
}

} // verus!
