//! Folding `..` segments out of a path for display.

use vstd::prelude::*;
use vstd::string::*;

use crate::text;

verus! {

/// One component of a path.
#[derive(Debug)]
pub enum PathPart {
    /// A drive or share in front of the root.
    Prefix(String),
    /// The root of the file system.
    RootDir,
    /// The `.` segment.
    CurDir,
    /// The `..` segment.
    ParentDir,
    /// A named segment.
    Normal(String),
}

/// What a path component is.
pub enum PartView {
    Prefix(Seq<char>),
    RootDir,
    CurDir,
    ParentDir,
    Normal(Seq<char>),
}

impl View for PathPart {
    type V = PartView;

    open spec fn view(&self) -> PartView {
        match self {
            PathPart::Prefix(s) => PartView::Prefix(s@),
            PathPart::RootDir => PartView::RootDir,
            PathPart::CurDir => PartView::CurDir,
            PathPart::ParentDir => PartView::ParentDir,
            PathPart::Normal(s) => PartView::Normal(s@),
        }
    }
}

/// The views of a list of components.
pub open spec fn part_views(v: Seq<PathPart>) -> Seq<PartView> {
    v.map_values(|p: PathPart| p@)
}

/// The path without `x/..` pairs.
pub open spec fn tidied(parts: Seq<PartView>) -> Seq<PartView>
    decreases parts.len(),
{
    if parts.len() == 0 {
        Seq::empty()
    } else {
        let t = tidied(parts.drop_last());
        if parts.last() is ParentDir && t.len() > 0 && t.last() is Normal {
            t.drop_last()
        } else {
            t.push(parts.last())
        }
    }
}

/// Whether no named segment is followed by `..`.
pub open spec fn is_tidy(parts: Seq<PartView>) -> bool {
    forall|i: int|
        0 <= i < parts.len() - 1 && #[trigger] parts[i] is Normal ==> !(parts[i + 1] is ParentDir)
}

/// Removes `x/..` pairs from a path by its text alone; a `..` with no named
/// segment before it stays.
pub fn tidy_path(path: Vec<PathPart>) -> (r: Vec<PathPart>)
    ensures
        part_views(r@) == tidied(part_views(path@)),
{
    let ghost all = part_views(path@);
    let mut rest = path;
    let mut parts: Vec<PathPart> = Vec::new();
    let ghost mut done: int = 0;
    assert(part_views(parts@) =~= tidied(all.take(0)));
    let mut left: usize = rest.len();
    while left > 0
        invariant
            left == rest@.len(),
            done + left == all.len(),
            part_views(rest@) == all.skip(done),
            part_views(parts@) == tidied(all.take(done)),
            0 <= done,
        decreases left,
    {
        let ghost before = parts@;
        let ghost rest0 = rest@;
        let part = rest.remove(0);
        let fold = match &part {
            PathPart::ParentDir => {
                let n: usize = parts.len();
                n > 0 && matches!(parts[n - 1], PathPart::Normal(_))
            },
            _ => false,
        };
        proof {
            assert(all.skip(done)[0] == part@);
            assert(all.take(done + 1).drop_last() =~= all.take(done));
            assert(all.take(done + 1).last() == part@);
            assert(part_views(rest@) =~= part_views(rest0).drop_first());
            assert(all.skip(done).drop_first() =~= all.skip(done + 1));
            assert(before.len() > 0 ==> part_views(before).last() == before.last()@);
        }
        if fold {
            let gone = parts.pop();
            assert(part_views(parts@) =~= part_views(before).drop_last());
        } else {
            parts.push(part);
            assert(part_views(parts@) =~= part_views(before).push(part@));
        }
        proof {
            done = done + 1;
        }
        left = left - 1;
    }
    assert(all.take(all.len() as int) =~= all);
    parts
}

/// How one component is spelled.
pub open spec fn spell_part(part: PartView, sep: char) -> Seq<char> {
    match part {
        PartView::Prefix(s) => s,
        PartView::RootDir => seq![sep],
        PartView::CurDir => seq!['.'],
        PartView::ParentDir => seq!['.', '.'],
        PartView::Normal(s) => s,
    }
}

/// How a path is spelled: a separator stands between two components where none
/// stands already and the first is not a prefix.
pub open spec fn spelled(parts: Seq<PartView>, sep: char) -> Seq<char>
    decreases parts.len(),
{
    if parts.len() == 0 {
        Seq::empty()
    } else {
        let head = spelled(parts.drop_last(), sep);
        let last = spell_part(parts.last(), sep);
        let joint = parts.len() > 1 && !(parts.last() is RootDir) && !(parts[parts.len() - 2]
            is RootDir) && !(parts[parts.len() - 2] is Prefix);
        if joint {
            head.push(sep) + last
        } else {
            head + last
        }
    }
}

/// The path as text, its segments parted by `sep`.
pub fn spell_path(parts: &Vec<PathPart>, sep: char) -> (r: String)
    ensures
        r@ == spelled(part_views(parts@), sep),
{
    let ghost all = part_views(parts@);
    let mut s = String::new();
    let mut i: usize = 0;
    while i < parts.len()
        invariant
            all == part_views(parts@),
            i <= parts@.len(),
            s@ == spelled(all.take(i as int), sep),
        decreases parts@.len() - i,
    {
        proof {
            assert(all.take(i + 1).drop_last() =~= all.take(i as int));
            assert(all.take(i + 1).last() == parts@[i as int]@);
            assert(i > 0 ==> all.take(i + 1)[i - 1] == parts@[i - 1]@);
        }
        let joint = i > 0 && !matches!(parts[i], PathPart::RootDir) && !matches!(
            parts[i - 1],
            PathPart::RootDir
        ) && !matches!(parts[i - 1], PathPart::Prefix(_));
        if joint {
            s.push(sep);
        }
        let ghost head = s@;
        match &parts[i] {
            PathPart::Prefix(t) => s.append(t.as_str()),
            PathPart::RootDir => s.push(sep),
            PathPart::CurDir => s.push('.'),
            PathPart::ParentDir => {
                s.push('.');
                s.push('.');
            },
            PathPart::Normal(t) => s.append(t.as_str()),
        }
        assert(s@ =~= head + spell_part(all[i as int], sep));
        i += 1;
    }
    assert(all.take(all.len() as int) =~= all);
    s
}

/// Preview text for a location choice: the resolved directory with its `..`
/// segments folded away, or a note when it could not be resolved.
pub fn location_preview(resolved: Option<Vec<PathPart>>, sep: char) -> (r: String)
    ensures
        r@ == match resolved {
            Some(parts) => spelled(tidied(part_views(parts@)), sep),
            None => "(needs HOME set)"@,
        },
{
    match resolved {
        Some(parts) => {
            let tidy = tidy_path(parts);
            spell_path(&tidy, sep)
        },
        None => "(needs HOME set)".to_string(),
    }
}

/// A tidied path holds no named segment followed by `..`.
pub proof fn tidied_is_tidy(parts: Seq<PartView>)
    ensures
        is_tidy(tidied(parts)),
    decreases parts.len(),
{
    if parts.len() > 0 {
        tidied_is_tidy(parts.drop_last());
        let t = tidied(parts.drop_last());
        let r = tidied(parts);
        assert forall|i: int| 0 <= i < r.len() - 1 && #[trigger] r[i] is Normal implies !(r[i + 1]
            is ParentDir) by {
            assert(t[i] == r[i]);
        }
    }
}

/// A path with nothing to fold is left as it is, so tidying twice is tidying
/// once.
pub proof fn tidy_is_kept(parts: Seq<PartView>)
    requires
        is_tidy(parts),
    ensures
        tidied(parts) == parts,
    decreases parts.len(),
{
    if parts.len() > 0 {
        let init = parts.drop_last();
        assert forall|i: int| 0 <= i < init.len() - 1 && #[trigger] init[i] is Normal implies !(
        init[i + 1] is ParentDir) by {
            assert(parts[i] == init[i]);
        }
        tidy_is_kept(init);
        if init.len() > 0 {
            assert(parts[parts.len() - 2] == init.last());
        }
        assert(tidied(parts) =~= parts);
    } else {
        assert(tidied(parts) =~= parts);
    }
}

/// Folding never takes away the root that a path begins with.
pub proof fn tidied_keeps_root(parts: Seq<PartView>)
    requires
        parts.len() > 0,
        !(parts[0] is Normal),
    ensures
        tidied(parts).len() > 0,
        tidied(parts)[0] == parts[0],
    decreases parts.len(),
{
    if parts.len() > 1 {
        tidied_keeps_root(parts.drop_last());
    } else {
        assert(tidied(parts.drop_last()) =~= Seq::<PartView>::empty());
    }
}

} // verus!
