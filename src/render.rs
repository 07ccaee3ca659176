use vstd::prelude::*;

use crate::navigator::{Level, LevelView};

verus! {

/// The header line drawn above the items: none at the top level, `/<container>`
/// inside a container, `<container>/<collection>` inside a collection.
pub open spec fn header_of(level: LevelView) -> Option<Seq<char>> {
    match level {
        LevelView::Root => None,
        LevelView::InContainer { container } => Some(seq!['/'] + container),
        LevelView::InCollection { container, collection } => Some(
            container + seq!['/'] + collection,
        ),
    }
}

/// How many screen rows the header takes.
pub open spec fn header_rows(level: LevelView) -> nat {
    if level is Root {
        0
    } else {
        1
    }
}

/// The header line for a level.
pub fn header_text(level: &Level) -> (r: Option<String>)
    ensures
        match r {
            Some(s) => header_of(level@) == Some(s@),
            None => header_of(level@) is None,
        },
{
    match level {
        Level::Root => None,
        Level::InContainer { container } => {
            proof {
                reveal_strlit("/");
            }
            let mut s = "/".to_owned();
            s.append(container.as_str());
            Some(s)
        },
        Level::InCollection { container, collection } => {
            proof {
                reveal_strlit("/");
            }
            let mut s = container.clone();
            s.append("/");
            s.append(collection.as_str());
            Some(s)
        },
    }
}

/// The screen row of the selected item: its row on the list, below the header.
pub fn cursor_row(level: &Level, selected: usize) -> (r: usize)
    requires
        selected < usize::MAX,
    ensures
        r as nat == selected as nat + header_rows(level@),
{
    match level {
        Level::Root => selected,
        _ => selected + 1,
    }
}

/// Whether the items are drawn behind a marker glyph: lists of containers and
/// collections are, records are drawn as they came.
pub fn is_marked(level: &Level) -> (r: bool)
    ensures
        r == !(level@ is InCollection),
{
    match level {
        Level::InCollection { .. } => false,
        _ => true,
    }
}

} // verus!
