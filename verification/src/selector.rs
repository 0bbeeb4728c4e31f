pub mod config;

use crate::selector::config::Config;
use vstd::prelude::*;
use vstd::seq_lib::*;

verus! {

/// The hard cap on how many filtered rows the selector shows at once.
pub const MAX_ITEMS: usize = 5;

/// What pressing a key in the selector resolved to; the shell resolves
/// keycodes and printable keysyms before dispatching.
#[derive(Clone, Copy, PartialEq, Eq, Structural, Debug)]
pub enum SelectorKey {
    /// The configured close key.
    Close,
    /// The configured select key.
    Select,
    /// The backspace key.
    Backspace,
    /// The configured up key.
    Up,
    /// The configured down key.
    Down,
    /// A key whose keysym resolved to a printable character.
    Char(char),
    /// Any other key.
    Other,
}

/// What a key press leads to: abandon the prompt, print the chosen
/// command and stop, or keep prompting.
#[derive(Clone, PartialEq, Eq, Debug)]
pub enum Outcome {
    /// Exit without a selection.
    Cancel,
    /// Print this command and exit.
    Chosen(String),
    /// Keep running.
    Continue,
}

/// The commands whose text starts with the search input, in order.
pub open spec fn spec_filtered(commands: Seq<String>, input: Seq<char>) -> Seq<String> {
    commands.filter(|c: String| input.is_prefix_of(c@))
}

/// How far the visible window scrolls: when the selection index exceeds
/// the total command count less the row cap, the window starts there;
/// otherwise it starts at row 0.  The offset is computed against the
/// unfiltered total even though the rows displayed are filtered; this is
/// long-standing observed behaviour, preserved as-is, and can push the
/// highlighted row outside the filtered list when the filter narrows it.
pub open spec fn spec_scroll_offset(total: int, sel: int) -> int {
    if sel > total - MAX_ITEMS {
        total - MAX_ITEMS
    } else {
        0
    }
}

/// The row highlighted within the visible window.
pub open spec fn spec_highlighted_row(total: int, sel: int) -> int {
    sel - spec_scroll_offset(total, sel)
}

/// The selector's runtime state: the commands read from standard input,
/// the editable search prefix, and the 0-based selection index.
pub struct Selector {
    pub commands: Vec<String>,
    pub search_input: Vec<char>,
    pub selection_index: usize,
}

impl Selector {
    /// The selection stays inside the command list (and at 0 when the
    /// list is empty).
    pub open spec fn wf(self) -> bool {
        if self.commands@.len() == 0 {
            self.selection_index == 0
        } else {
            self.selection_index < self.commands@.len()
        }
    }

    /// The filtered commands in view order.
    pub open spec fn spec_visible(self) -> Seq<String> {
        let f = spec_filtered(self.commands@, self.search_input@);
        let off = spec_scroll_offset(self.commands@.len() as int, self.selection_index as int);
        if off <= f.len() {
            f.subrange(
                off,
                if off + MAX_ITEMS <= f.len() {
                    off + MAX_ITEMS
                } else {
                    f.len() as int
                },
            )
        } else {
            Seq::empty()
        }
    }

    /// A fresh prompt over the given commands, with an empty filter and
    /// the first command selected.
    pub fn new(commands: Vec<String>) -> (r: Selector)
        ensures
            r.wf(),
            r.commands == commands,
            r.search_input@.len() == 0,
            r.selection_index == 0,
    {
        Selector { commands, search_input: Vec::new(), selection_index: 0 }
    }

    /// The up-to-five filtered rows currently in view.
    pub fn visible_commands(&self) -> (rows: Vec<String>)
        requires
            self.commands@.len() >= MAX_ITEMS,
        ensures
            rows@ == self.spec_visible(),
    {
        broadcast use Seq::filter_distributes_over_add;

        let mut filtered: Vec<String> = Vec::new();
        let mut i: usize = 0;
        while i < self.commands.len()
            invariant
                0 <= i <= self.commands@.len(),
                filtered@ == spec_filtered(self.commands@.take(i as int), self.search_input@),
            decreases self.commands@.len() - i,
        {
            let c = &self.commands[i];
            proof {
                assert(self.commands@.take(i + 1) =~= self.commands@.take(i as int) + seq![
                    self.commands@[i as int],
                ]);
                let pred = |c: String| self.search_input@.is_prefix_of(c@);
                assert(seq![self.commands@[i as int]].filter(pred) =~= if pred(
                    self.commands@[i as int],
                ) {
                    seq![self.commands@[i as int]]
                } else {
                    Seq::<String>::empty()
                }) by {
                    reveal_with_fuel(Seq::filter, 2);
                    assert(seq![self.commands@[i as int]].drop_last() =~= Seq::<String>::empty());
                }
            }
            if starts_with_chars(c, &self.search_input) {
                filtered.push(c.clone());
            }
            i += 1;
        }
        proof {
            assert(self.commands@.take(self.commands@.len() as int) =~= self.commands@);
        }

        let total = self.commands.len();
        let offset: usize = if self.selection_index > total - MAX_ITEMS {
            total - MAX_ITEMS
        } else {
            0
        };
        let mut rows: Vec<String> = Vec::new();
        let mut k: usize = offset;
        if offset <= filtered.len() {
            let end = if offset + MAX_ITEMS <= filtered.len() {
                offset + MAX_ITEMS
            } else {
                filtered.len()
            };
            while k < end
                invariant
                    offset <= k <= end <= filtered@.len(),
                    rows@ == filtered@.subrange(offset as int, k as int),
                decreases end - k,
            {
                rows.push(filtered[k].clone());
                proof {
                    assert(filtered@.subrange(offset as int, k + 1) =~= filtered@.subrange(
                        offset as int,
                        k as int,
                    ).push(filtered@[k as int]));
                }
                k += 1;
            }
        }
        proof {
            assert(rows@ =~= self.spec_visible());
        }
        rows
    }

    /// The row highlighted within the visible window.
    pub fn highlighted_row(&self) -> (r: usize)
        requires
            self.wf(),
            self.commands@.len() >= MAX_ITEMS,
        ensures
            r == spec_highlighted_row(self.commands@.len() as int, self.selection_index as int),
    {
        let total = self.commands.len();
        if self.selection_index > total - MAX_ITEMS {
            self.selection_index - (total - MAX_ITEMS)
        } else {
            self.selection_index
        }
    }

    /// The popup's height: one row per visible filtered command plus the
    /// header row.
    pub fn window_height(&self, cfg: &Config) -> (h: u16)
        requires
            self.commands@.len() >= MAX_ITEMS,
            cfg.font_size + cfg.font_size / 2 <= u16::MAX,
            (cfg.font_size + cfg.font_size / 2) * (self.spec_visible().len() + 1) <= u16::MAX,
        ensures
            h == (cfg.font_size + cfg.font_size / 2) * (self.spec_visible().len() + 1),
    {
        let item = cfg.font_size + cfg.font_size / 2;
        let rows = self.visible_commands().len() + 1;
        (item as usize * rows) as u16
    }

    /// Reacts to one key press: the close key abandons the prompt; the
    /// select key prints the selected command, if one exists; backspace
    /// removes the last character of the search input and nothing else;
    /// the up and down keys move the selection with wraparound, but only
    /// under the configured modifier; a printable key extends the search
    /// input.
    pub fn on_key_press(&mut self, cfg: &Config, key: SelectorKey, state: u16) -> (r: Outcome)
        requires
            old(self).wf(),
            (key is Up || key is Down) && state == cfg.modifier ==> old(self).commands@.len() > 0,
        ensures
            final(self).wf(),
            final(self).commands == old(self).commands,
            key is Close ==> r == Outcome::Cancel && *final(self) == *old(self),
            key is Select ==> *final(self) == *old(self) && (if old(self).selection_index < old(
                self,
            ).commands@.len() {
                r matches Outcome::Chosen(c) && c@ == old(self).commands@[old(
                    self,
                ).selection_index as int]@
            } else {
                r == Outcome::Continue
            }),
            key is Backspace ==> r == Outcome::Continue && final(self).selection_index == old(
                self,
            ).selection_index && final(self).search_input@ == (if old(
                self,
            ).search_input@.len() > 0 {
                old(self).search_input@.drop_last()
            } else {
                old(self).search_input@
            }),
            key is Up ==> r == Outcome::Continue && final(self).search_input == old(
                self,
            ).search_input && final(self).selection_index == (if state == cfg.modifier {
                if old(self).selection_index > 0 {
                    (old(self).selection_index - 1) as usize
                } else {
                    (old(self).commands@.len() - 1) as usize
                }
            } else {
                old(self).selection_index as usize
            }),
            key is Down ==> r == Outcome::Continue && final(self).search_input == old(
                self,
            ).search_input && final(self).selection_index == (if state == cfg.modifier {
                if old(self).selection_index < old(self).commands@.len() - 1 {
                    (old(self).selection_index + 1) as usize
                } else {
                    0usize
                }
            } else {
                old(self).selection_index as usize
            }),
            key is Char ==> r == Outcome::Continue && final(self).selection_index == old(
                self,
            ).selection_index && final(self).search_input@ == old(self).search_input@.push(
                key->Char_0,
            ),
            key is Other ==> r == Outcome::Continue && *final(self) == *old(self),
    {
        match key {
            SelectorKey::Close => Outcome::Cancel,
            SelectorKey::Select => {
                if self.selection_index < self.commands.len() {
                    let chosen = self.commands[self.selection_index].clone();
                    Outcome::Chosen(chosen)
                } else {
                    Outcome::Continue
                }
            },
            SelectorKey::Backspace => {
                self.search_input.pop();
                Outcome::Continue
            },
            SelectorKey::Up => {
                if state == cfg.modifier {
                    if self.selection_index > 0 {
                        self.selection_index = self.selection_index - 1;
                    } else {
                        self.selection_index = self.commands.len() - 1;
                    }
                }
                Outcome::Continue
            },
            SelectorKey::Down => {
                if state == cfg.modifier {
                    if self.selection_index < self.commands.len() - 1 {
                        self.selection_index = self.selection_index + 1;
                    } else {
                        self.selection_index = 0;
                    }
                }
                Outcome::Continue
            },
            SelectorKey::Char(c) => {
                self.search_input.push(c);
                Outcome::Continue
            },
            SelectorKey::Other => Outcome::Continue,
        }
    }
}

/// True when the search input is a prefix of the command's text.
fn starts_with_chars(s: &String, p: &Vec<char>) -> (r: bool)
    ensures
        r == p@.is_prefix_of(s@),
{
    let slice = s.as_str();
    let n = slice.unicode_len();
    if p.len() > n {
        proof {
            assert(!p@.is_prefix_of(s@));
        }
        return false;
    }
    let mut i: usize = 0;
    while i < p.len()
        invariant
            0 <= i <= p@.len() <= s@.len(),
            slice@ == s@,
            forall|j: int| 0 <= j < i ==> p@[j] == s@[j],
        decreases p@.len() - i,
    {
        if slice.get_char(i) != p[i] {
            proof {
                assert(!p@.is_prefix_of(s@));
            }
            return false;
        }
        i += 1;
    }
    proof {
        assert(p@.is_prefix_of(s@)) by {
            assert(p@ =~= s@.subrange(0, p@.len() as int));
        }
    }
    true
}

} // verus!
