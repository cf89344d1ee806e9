//! Drawing the tree of folders under the music folder (`ds`). The folders
//! are read from disk one folder at a time; what to read next, and what the
//! tree shows, is decided here: the folders are drawn depth first, at most
//! `MAX_FOLDERS` of them, each as a line with the marks of the levels above.
use crate::command::files::{child_layers, child_layers_spec, folder_line, folder_line_spec};
use crate::text::{copy_str, push_str};
use vstd::prelude::*;

verus! {

/// The most folders the tree shows.
pub const MAX_FOLDERS: u32 = 21;

/// A folder inside the folder that was read: its path, and its name where
/// the path has one.
pub struct Folder {
    pub path: String,
    pub name: Option<String>,
}

pub struct FolderView {
    pub path: Seq<char>,
    pub name: Option<Seq<char>>,
}

impl View for Folder {
    type V = FolderView;

    open spec fn view(&self) -> FolderView {
        FolderView {
            path: self.path@,
            name: match self.name {
                Some(n) => Some(n@),
                None => None,
            },
        }
    }
}

/// The folders of one folder that is being drawn: how many of them are done,
/// the marks that their lines begin with, and whether a folder on the way
/// down to them was the last of its level.
pub struct Level {
    pub folders: Vec<Folder>,
    pub next: usize,
    pub layers: String,
    pub ending: bool,
}

pub struct LevelView {
    pub folders: Seq<FolderView>,
    pub next: int,
    pub layers: Seq<char>,
    pub ending: bool,
}

impl View for Level {
    type V = LevelView;

    open spec fn view(&self) -> LevelView {
        LevelView {
            folders: self.folders@.map_values(|f: Folder| f@),
            next: self.next as int,
            layers: self.layers@,
            ending: self.ending,
        }
    }
}

/// A tree of folders being drawn: the levels on the way down, how many more
/// folders may be drawn, the text so far, and the marks and end flag for the
/// folders of the folder that is read next.
pub struct TreeWalk {
    pub levels: Vec<Level>,
    pub left: u32,
    pub out: String,
    pub next_layers: String,
    pub next_ending: bool,
}

pub struct TreeWalkView {
    pub levels: Seq<LevelView>,
    pub left: int,
    pub out: Seq<char>,
    pub next_layers: Seq<char>,
    pub next_ending: bool,
}

impl View for TreeWalk {
    type V = TreeWalkView;

    open spec fn view(&self) -> TreeWalkView {
        TreeWalkView {
            levels: self.levels@.map_values(|l: Level| l@),
            left: self.left as int,
            out: self.out@,
            next_layers: self.next_layers@,
            next_ending: self.next_ending,
        }
    }
}

/// What the drawing asks for next: the folders inside a folder, or nothing
/// more (the tree is drawn).
pub enum WalkAction {
    List(String),
    Done,
}

pub enum WalkActionView {
    List(Seq<char>),
    Done,
}

impl View for WalkAction {
    type V = WalkActionView;

    open spec fn view(&self) -> WalkActionView {
        match self {
            WalkAction::List(p) => WalkActionView::List(p@),
            WalkAction::Done => WalkActionView::Done,
        }
    }
}

impl TreeWalkView {
    /// Each level has drawn no more folders than it has.
    pub open spec fn wf(self) -> bool {
        &&& 0 <= self.left <= MAX_FOLDERS
        &&& forall|i: int| 0 <= i < self.levels.len() ==> 0 <= #[trigger] self.levels[i].next <= self.levels[i].folders.len()
    }
}

/// The drawing from `w` on, until the next folder is drawn: the levels that
/// are done are left; where a folder is left to draw and the limit is not
/// reached, its line is added (where it has a name) and its own folders are
/// asked for, with the marks of its level and one more.
pub open spec fn advance_spec(w: TreeWalkView) -> (TreeWalkView, WalkActionView)
    decreases w.levels.len(),
{
    if w.levels.len() == 0 {
        (w, WalkActionView::Done)
    } else {
        let top = w.levels.last();
        if top.next >= top.folders.len() {
            advance_spec(TreeWalkView { levels: w.levels.drop_last(), ..w })
        } else if w.left == 0 {
            (w, WalkActionView::Done)
        } else {
            let f = top.folders[top.next];
            let is_last = top.next + 1 == top.folders.len();
            let ending = is_last || top.ending;
            let out = match f.name {
                Some(n) => w.out + folder_line_spec(top.layers, is_last, n),
                None => w.out,
            };
            (
                TreeWalkView {
                    levels: w.levels.drop_last().push(LevelView { next: top.next + 1, ..top }),
                    left: w.left - 1,
                    out,
                    next_layers: child_layers_spec(top.layers, ending),
                    next_ending: ending,
                },
                WalkActionView::List(f.path),
            )
        }
    }
}

/// The drawing once the folders `folders` of the folder asked for are read:
/// they form a new level below the others.
pub open spec fn listed_spec(w: TreeWalkView, folders: Seq<FolderView>) -> (TreeWalkView, WalkActionView) {
    advance_spec(
        TreeWalkView {
            levels: w.levels.push(
                LevelView { folders, next: 0, layers: w.next_layers, ending: w.next_ending },
            ),
            ..w
        },
    )
}

impl TreeWalk {
    /// Starts drawing the folders under `root`: they are asked for first.
    pub fn start(root: &str) -> (r: (TreeWalk, WalkAction))
        ensures
            r.0@ == (TreeWalkView {
                levels: Seq::empty(),
                left: MAX_FOLDERS as int,
                out: Seq::empty(),
                next_layers: Seq::empty(),
                next_ending: false,
            }),
            r.0@.wf(),
            r.1@ == WalkActionView::List(root@),
    {
        let w = TreeWalk {
            levels: Vec::new(),
            left: MAX_FOLDERS,
            out: String::new(),
            next_layers: String::new(),
            next_ending: false,
        };
        assert(w@.levels =~= Seq::<LevelView>::empty());
        (w, WalkAction::List(copy_str(root)))
    }

    /// Goes on once the folders inside the folder asked for are read.
    pub fn listed(&mut self, folders: Vec<Folder>) -> (r: WalkAction)
        requires
            old(self)@.wf(),
        ensures
            final(self)@.wf(),
            (final(self)@, r@) == listed_spec(old(self)@, folders@.map_values(|f: Folder| f@)),
    {
        let layers = copy_str(self.next_layers.as_str());
        let level = Level { folders, next: 0, layers, ending: self.next_ending };
        let ghost before = self@;
        self.levels.push(level);
        assert(self@.levels =~= before.levels.push(level@));
        self.advance()
    }

    /// Whether there is a level and its folders are all drawn.
    fn top_done(&self) -> (r: bool)
        ensures
            r == (self@.levels.len() > 0 && self@.levels.last().next >= self@.levels.last().folders.len()),
    {
        let n = self.levels.len();
        n > 0 && self.levels[n - 1].next >= self.levels[n - 1].folders.len()
    }

    fn advance(&mut self) -> (r: WalkAction)
        requires
            old(self)@.wf(),
        ensures
            final(self)@.wf(),
            (final(self)@, r@) == advance_spec(old(self)@),
    {
        while self.top_done()
            invariant
                self@.wf(),
                advance_spec(self@) == advance_spec(old(self)@),
            decreases self.levels.len(),
        {
            let ghost before = self@;
            self.levels.pop();
            assert(self@.levels =~= before.levels.drop_last());
        }
        if self.levels.len() == 0 {
            return WalkAction::Done;
        }
        if self.left == 0 {
            return WalkAction::Done;
        }
        let ghost before = self@;
        let n = self.levels.len();
        let mut top = self.levels.pop().unwrap();
        assert(self@.levels =~= before.levels.drop_last());
        assert(top@ == before.levels.last());
        assert(top@.folders.len() == top.folders@.len());
        assert(top.next < top.folders.len());
        let i = top.next;
        let is_last = i + 1 == top.folders.len();
        let ending = is_last || top.ending;
        let path = copy_str(top.folders[i].path.as_str());
        match &top.folders[i].name {
            Some(name) => {
                let line = folder_line(top.layers.as_str(), is_last, name.as_str());
                push_str(&mut self.out, line.as_str());
            },
            None => {},
        }
        self.next_layers = child_layers(top.layers.as_str(), ending);
        self.next_ending = ending;
        self.left = self.left - 1;
        top.next = i + 1;
        let ghost rest = self@.levels;
        self.levels.push(top);
        assert(self@.levels =~= rest.push(top@));
        WalkAction::List(path)
    }
}

} // verus!
