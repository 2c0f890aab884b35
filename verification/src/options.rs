use crate::position::{Offset, Origin, Position};
use crate::template::{replace_all, spec_decimal, spec_replace_all, to_decimal};
use vstd::prelude::*;
use vstd::string::StringExecFns;

verus! {

/// The configuration bundle that seeds an input popup: its title, the
/// initial value and cursor, its placement, and the flush, completion and
/// highlight policies. The engine consumes the value, the cursor and the
/// realtime flag; the rest stays with the presentation layer.
#[derive(Debug)]
pub struct InputCfg {
    pub title: String,
    pub value: String,
    pub cursor: Option<usize>,
    pub position: Position,
    pub realtime: bool,
    pub completion: bool,
    pub highlight: bool,
}

/// The configuration of a pick popup: a title, the listed items and a
/// placement sized to the item count.
#[derive(Debug)]
pub struct PickCfg {
    pub title: String,
    pub items: Vec<String>,
    pub position: Position,
}

/// The configuration of a confirmation popup: a title line, an optional
/// body text, and a list of affected entries, truncated for display.
#[derive(Debug)]
pub struct ConfirmCfg {
    pub position: Position,
    pub title: String,
    pub content: Option<String>,
    pub list: Vec<String>,
}

impl InputCfg {
    /// The configuration of the change-directory input.
    pub fn cd() -> (r: InputCfg)
        ensures
            r.title@ == "Change directory:"@,
            r.value@ == Seq::<char>::empty(),
            r.cursor is None,
            r.position == (Position { origin: Origin::TopCenter, offset: Offset { x: 0, y: 1, width: 50, height: 3 } }),
            !r.realtime,
            r.completion,
            !r.highlight,
    {
        InputCfg {
            title: "Change directory:".to_owned(),
            value: String::new(),
            cursor: None,
            position: Position::new(Origin::TopCenter, Offset::line()),
            realtime: false,
            completion: true,
            highlight: false,
        }
    }

    /// The configuration of the create input; the title names whether a
    /// directory is created.
    pub fn create(dir: bool) -> (r: InputCfg)
        ensures
            dir ==> r.title@ == "Create (dir):"@,
            !dir ==> r.title@ == "Create:"@,
            r.value@ == Seq::<char>::empty(),
            r.cursor is None,
            r.position == (Position { origin: Origin::TopCenter, offset: Offset { x: 0, y: 1, width: 50, height: 3 } }),
            !r.realtime,
            !r.completion,
            !r.highlight,
    {
        InputCfg {
            title: if dir {
                "Create (dir):".to_owned()
            } else {
                "Create:".to_owned()
            },
            value: String::new(),
            cursor: None,
            position: Position::new(Origin::TopCenter, Offset::line()),
            realtime: false,
            completion: false,
            highlight: false,
        }
    }

    /// The configuration of the rename input, placed at the hovered entry.
    pub fn rename() -> (r: InputCfg)
        ensures
            r.title@ == "Rename:"@,
            r.value@ == Seq::<char>::empty(),
            r.cursor is None,
            r.position == (Position { origin: Origin::Hovered, offset: Offset { x: 0, y: 1, width: 50, height: 3 } }),
            !r.realtime,
            !r.completion,
            !r.highlight,
    {
        InputCfg {
            title: "Rename:".to_owned(),
            value: String::new(),
            cursor: None,
            position: Position::new(Origin::Hovered, Offset::line()),
            realtime: false,
            completion: false,
            highlight: false,
        }
    }

    /// The configuration of the filter input, flushed on every keystroke.
    pub fn filter() -> (r: InputCfg)
        ensures
            r.title@ == "Filter:"@,
            r.value@ == Seq::<char>::empty(),
            r.cursor is None,
            r.position == (Position { origin: Origin::TopCenter, offset: Offset { x: 0, y: 1, width: 50, height: 3 } }),
            r.realtime,
            !r.completion,
            !r.highlight,
    {
        InputCfg {
            title: "Filter:".to_owned(),
            value: String::new(),
            cursor: None,
            position: Position::new(Origin::TopCenter, Offset::line()),
            realtime: true,
            completion: false,
            highlight: false,
        }
    }

    /// The configuration of the find input, flushed on every keystroke; the
    /// title names the search direction.
    pub fn find(prev: bool) -> (r: InputCfg)
        ensures
            prev ==> r.title@ == "Find previous:"@,
            !prev ==> r.title@ == "Find next:"@,
            r.value@ == Seq::<char>::empty(),
            r.cursor is None,
            r.position == (Position { origin: Origin::TopCenter, offset: Offset { x: 0, y: 1, width: 50, height: 3 } }),
            r.realtime,
            !r.completion,
            !r.highlight,
    {
        InputCfg {
            title: if prev {
                "Find previous:".to_owned()
            } else {
                "Find next:".to_owned()
            },
            value: String::new(),
            cursor: None,
            position: Position::new(Origin::TopCenter, Offset::line()),
            realtime: true,
            completion: false,
            highlight: false,
        }
    }

    /// The configuration of the search input; the provider's name is
    /// substituted into the title template.
    pub fn search(name: &str) -> (r: InputCfg)
        ensures
            r.title@ == spec_replace_all("Search via {n}:"@, "{n}"@, name@),
            r.value@ == Seq::<char>::empty(),
            r.cursor is None,
            r.position == (Position { origin: Origin::TopCenter, offset: Offset { x: 0, y: 1, width: 50, height: 3 } }),
            !r.realtime,
            !r.completion,
            !r.highlight,
    {
        proof {
            reveal_strlit("{n}");
        }
        InputCfg {
            title: replace_all("Search via {n}:", "{n}", name),
            value: String::new(),
            cursor: None,
            position: Position::new(Origin::TopCenter, Offset::line()),
            realtime: false,
            completion: false,
            highlight: false,
        }
    }

    /// The configuration of the shell input, with syntax highlighting; the
    /// title names whether the command blocks.
    pub fn shell(block: bool) -> (r: InputCfg)
        ensures
            block ==> r.title@ == "Shell (block):"@,
            !block ==> r.title@ == "Shell:"@,
            r.value@ == Seq::<char>::empty(),
            r.cursor is None,
            r.position == (Position { origin: Origin::TopCenter, offset: Offset { x: 0, y: 1, width: 50, height: 3 } }),
            !r.realtime,
            !r.completion,
            r.highlight,
    {
        InputCfg {
            title: if block {
                "Shell (block):".to_owned()
            } else {
                "Shell:".to_owned()
            },
            value: String::new(),
            cursor: None,
            position: Position::new(Origin::TopCenter, Offset::line()),
            realtime: false,
            completion: false,
            highlight: true,
        }
    }

    /// The same configuration with the initial value replaced.
    pub fn with_value(self, value: String) -> (r: InputCfg)
        ensures
            r.value == value,
            r.title == self.title,
            r.cursor == self.cursor,
            r.position == self.position,
            r.realtime == self.realtime,
            r.completion == self.completion,
            r.highlight == self.highlight,
    {
        InputCfg {
            title: self.title,
            value,
            cursor: self.cursor,
            position: self.position,
            realtime: self.realtime,
            completion: self.completion,
            highlight: self.highlight,
        }
    }

    /// The same configuration with the initial cursor replaced.
    pub fn with_cursor(self, cursor: Option<usize>) -> (r: InputCfg)
        ensures
            r.cursor == cursor,
            r.title == self.title,
            r.value == self.value,
            r.position == self.position,
            r.realtime == self.realtime,
            r.completion == self.completion,
            r.highlight == self.highlight,
    {
        InputCfg {
            title: self.title,
            value: self.value,
            cursor,
            position: self.position,
            realtime: self.realtime,
            completion: self.completion,
            highlight: self.highlight,
        }
    }
}

/// The height of the pick popup for a given item count: the items plus the
/// border, capped at the configured height.
pub open spec fn pick_height(len: nat) -> u16 {
    if len + 2 >= 15 {
        15
    } else {
        (len + 2) as u16
    }
}

impl PickCfg {
    /// The height the pick popup needs for this many items.
    fn max_height(len: usize) -> (r: u16)
        ensures
            r == pick_height(len as nat),
    {
        if len >= 13 {
            15
        } else {
            (len as u16) + 2
        }
    }

    /// The configuration of a pick popup over the given items, placed at
    /// the hovered entry and sized to the item count.
    pub fn open(items: Vec<String>) -> (r: PickCfg)
        ensures
            r.title@ == "Pick:"@,
            r.items == items,
            r.position == (Position { origin: Origin::Hovered, offset: Offset { x: 0, y: 1, width: 50, height: pick_height(items@.len()) } }),
    {
        let max_height = Self::max_height(items.len());
        PickCfg {
            title: "Pick:".to_owned(),
            items,
            position: Position::new(
                Origin::Hovered,
                Offset { x: 0, y: 1, width: 50, height: max_height },
            ),
        }
    }
}

/// A confirmation title template with "{n}" replaced by the count and
/// "{s}" by a plural marker.
pub open spec fn spec_replace_number(tpl: Seq<char>, n: nat) -> Seq<char> {
    spec_replace_all(
        spec_replace_all(tpl, "{n}"@, spec_decimal(n)),
        "{s}"@,
        if n > 1 {
            seq!['s']
        } else {
            Seq::<char>::empty()
        },
    )
}

/// The line that ends a truncated confirmation list, naming how many
/// entries were left out.
pub open spec fn spec_more_line(k: nat) -> Seq<char> {
    "... and "@ + spec_decimal(k) + " more"@
}

impl ConfirmCfg {
    fn new(
        title: String,
        origin: Origin,
        offset: Offset,
        content: Option<String>,
        list: Vec<String>,
    ) -> (r: ConfirmCfg)
        ensures
            r.title == title,
            r.position.origin == origin,
            r.position.offset == offset,
            r.content == content,
            r.list == list,
    {
        ConfirmCfg { position: Position::new(origin, offset), title, content, list }
    }

    /// Fills a title template with a count: "{n}" becomes the count and
    /// "{s}" a plural marker.
    fn replace_number(tpl: &str, n: usize) -> (r: String)
        ensures
            r@ == spec_replace_number(tpl@, n as nat),
    {
        proof {
            reveal_strlit("{n}");
            reveal_strlit("{s}");
            reveal_strlit("s");
            reveal_strlit("");
            assert("s"@ =~= seq!['s']);
            assert(""@ =~= Seq::<char>::empty());
        }
        let num = to_decimal(n);
        let step = replace_all(tpl, "{n}", num.as_str());
        let plural = if n > 1 {
            "s"
        } else {
            ""
        };
        replace_all(step.as_str(), "{s}", plural)
    }

    /// The first `max` entries of a list; when more were given, a final
    /// line says how many of the `len` total entries were left out.
    fn truncate_list(items: &Vec<String>, len: usize, max: usize) -> (r: Vec<String>)
        requires
            items@.len() > max ==> len >= max,
        ensures
            items@.len() <= max ==> r.deep_view() == items.deep_view(),
            items@.len() > max ==> r.deep_view() == items.deep_view().take(max as int).push(
                spec_more_line((len - max) as nat),
            ),
    {
        let count = items.len();
        let m = if count <= max {
            count
        } else {
            max
        };
        let mut r: Vec<String> = Vec::new();
        let mut i: usize = 0;
        while i < m
            invariant
                i <= m <= count == items@.len(),
                m <= max,
                count <= max ==> m == count,
                count > max ==> m == max,
                r@.len() == i,
                forall|j: int| 0 <= j < i ==> (#[trigger] r@[j])@ == items@[j]@,
            decreases m - i,
        {
            let s = items[i].clone();
            r.push(s);
            i = i + 1;
        }
        proof {
            if count <= max {
                assert(r.deep_view() =~= items.deep_view());
            } else {
                assert(r.deep_view() =~= items.deep_view().take(max as int));
            }
        }
        if count > max {
            let mut line = "... and ".to_owned();
            let num = to_decimal(len - max);
            line.append(num.as_str());
            line.append(" more");
            r.push(line);
            proof {
                assert(r.deep_view() =~= items.deep_view().take(max as int).push(
                    spec_more_line((len - max) as nat),
                ));
            }
        }
        r
    }

    /// The confirmation shown before trashing the given entries.
    pub fn trash(urls: &Vec<String>) -> (r: ConfirmCfg)
        ensures
            r.title@ == spec_replace_number("Trash {n} selected file{s}?"@, urls@.len()),
            r.position == (Position { origin: Origin::Center, offset: Offset { x: 0, y: 0, width: 70, height: 20 } }),
            r.content is None,
            urls@.len() <= 100 ==> r.list.deep_view() == urls.deep_view(),
            urls@.len() > 100 ==> r.list.deep_view() == urls.deep_view().take(100).push(
                spec_more_line((urls@.len() - 100) as nat),
            ),
    {
        let title = Self::replace_number("Trash {n} selected file{s}?", urls.len());
        let list = Self::truncate_list(urls, urls.len(), 100);
        Self::new(
            title,
            Origin::Center,
            Offset { x: 0, y: 0, width: 70, height: 20 },
            None,
            list,
        )
    }

    /// The confirmation shown before permanently deleting the given
    /// entries.
    pub fn delete(urls: &Vec<String>) -> (r: ConfirmCfg)
        ensures
            r.title@ == spec_replace_number("Permanently delete {n} selected file{s}?"@, urls@.len()),
            r.position == (Position { origin: Origin::Center, offset: Offset { x: 0, y: 0, width: 70, height: 20 } }),
            r.content is None,
            urls@.len() <= 100 ==> r.list.deep_view() == urls.deep_view(),
            urls@.len() > 100 ==> r.list.deep_view() == urls.deep_view().take(100).push(
                spec_more_line((urls@.len() - 100) as nat),
            ),
    {
        let title = Self::replace_number("Permanently delete {n} selected file{s}?", urls.len());
        let list = Self::truncate_list(urls, urls.len(), 100);
        Self::new(
            title,
            Origin::Center,
            Offset { x: 0, y: 0, width: 70, height: 20 },
            None,
            list,
        )
    }

    /// The confirmation shown before overwriting the given target.
    pub fn overwrite(url: &str) -> (r: ConfirmCfg)
        ensures
            r.title@ == "Overwrite an existing file?"@,
            r.position == (Position { origin: Origin::Center, offset: Offset { x: 0, y: 0, width: 70, height: 20 } }),
            r.content matches Some(c) && c@ == "Will overwrite the following file:"@,
            r.list.deep_view() == seq![url@],
    {
        let mut list: Vec<String> = Vec::new();
        list.push(url.to_owned());
        proof {
            assert(list.deep_view() =~= seq![url@]);
        }
        Self::new(
            "Overwrite an existing file?".to_owned(),
            Origin::Center,
            Offset { x: 0, y: 0, width: 70, height: 20 },
            Some("Will overwrite the following file:".to_owned()),
            list,
        )
    }

    /// The confirmation shown before quitting while `len` tasks are still
    /// running, listing up to ten of their names.
    pub fn quit(len: usize, names: Vec<String>) -> (r: ConfirmCfg)
        requires
            names@.len() > 10 ==> len >= 10,
        ensures
            r.title@ == spec_replace_number("There are {n} task{s} running, sure to quit?"@, len as nat),
            r.position == (Position { origin: Origin::Center, offset: Offset { x: 0, y: 0, width: 70, height: 20 } }),
            r.content matches Some(c) && c@ == "The following tasks are still running:"@,
            names@.len() <= 10 ==> r.list.deep_view() == names.deep_view(),
            names@.len() > 10 ==> r.list.deep_view() == names.deep_view().take(10).push(
                spec_more_line((len - 10) as nat),
            ),
    {
        let title = Self::replace_number("There are {n} task{s} running, sure to quit?", len);
        let list = Self::truncate_list(&names, len, 10);
        Self::new(
            title,
            Origin::Center,
            Offset { x: 0, y: 0, width: 70, height: 20 },
            Some("The following tasks are still running:".to_owned()),
            list,
        )
    }
}

} // verus!
