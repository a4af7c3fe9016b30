use vstd::prelude::*;

verus! {

/// How the run loop interprets input: as navigation over the listing, as
/// scrolling over a file's content, or as text entry for a rename or a new
/// entry. Local interaction state, owned by the run loop alone.
#[derive(Clone, Copy, PartialEq, Eq, Structural, Debug)]
pub enum ViewMode {
    ListView,
    ContentView,
    /// Renaming the selected entry; the input buffer is pre-seeded.
    Edit,
    /// Naming a new entry; the input buffer starts empty.
    Create,
}

/// The transient text-entry buffer, created on entering Edit or Create and
/// discarded on commit or cancel.
pub struct Input {
    pub name: Vec<char>,
    pub index: usize,
}

/// Model of the input buffer.
#[verifier::ext_equal]
pub ghost struct InputModel {
    pub name: Seq<char>,
    pub index: int,
}

impl View for Input {
    type V = InputModel;

    open spec fn view(&self) -> InputModel {
        InputModel { name: self.name@, index: self.index as int }
    }
}

/// A typed character appended to the buffer, the cursor following it.
pub open spec fn input_push_model(i: InputModel, c: char) -> InputModel {
    InputModel {
        name: i.name.push(c),
        index: if i.index < usize::MAX {
            i.index + 1
        } else {
            i.index
        },
    }
}

/// A backspace: the last character dropped, the cursor stepping back and
/// saturating at the start.
pub open spec fn input_pop_model(i: InputModel) -> InputModel {
    InputModel {
        name: if i.name.len() > 0 {
            i.name.drop_last()
        } else {
            i.name
        },
        index: if i.index > 0 {
            i.index - 1
        } else {
            0
        },
    }
}

pub open spec fn empty_input() -> InputModel {
    InputModel { name: Seq::empty(), index: 0 }
}

/// An exact copy of a character string.
pub fn copy_chars(v: &Vec<char>) -> (r: Vec<char>)
    ensures
        r@ == v@,
{
    let mut out: Vec<char> = Vec::new();
    let mut i: usize = 0;
    while i < v.len()
        invariant
            i <= v.len(),
            out@ =~= v@.take(i as int),
        decreases v.len() - i,
    {
        out.push(v[i]);
        i = i + 1;
    }
    proof {
        assert(v@.take(v@.len() as int) =~= v@);
    }
    out
}

/// The interaction state beside the shared explorer state: the mode, the
/// text-entry buffer, and the content view's scroll offsets.
pub struct ViewState {
    pub mode: ViewMode,
    pub input: Input,
    pub scroll_x: u16,
    pub scroll_y: u16,
}

/// Model of the interaction state.
#[verifier::ext_equal]
pub ghost struct ViewModel {
    pub mode: ViewMode,
    pub input: InputModel,
    pub scroll_x: u16,
    pub scroll_y: u16,
}

impl View for ViewState {
    type V = ViewModel;

    open spec fn view(&self) -> ViewModel {
        ViewModel {
            mode: self.mode,
            input: self.input@,
            scroll_x: self.scroll_x,
            scroll_y: self.scroll_y,
        }
    }
}

/// Text entry abandoned or committed: back to the listing with the buffer
/// discarded.
pub open spec fn reset_to_list_model(v: ViewModel) -> ViewModel {
    ViewModel { mode: ViewMode::ListView, input: empty_input(), ..v }
}

/// The new-entry command: into Create with a fresh buffer.
pub open spec fn begin_create_model(v: ViewModel) -> ViewModel {
    ViewModel { mode: ViewMode::Create, input: empty_input(), ..v }
}

/// The rename command: into Edit; the buffer is seeded separately, from
/// the selected entry's name, with the cursor at its end.
pub open spec fn begin_edit_model(v: ViewModel) -> ViewModel {
    ViewModel { mode: ViewMode::Edit, input: empty_input(), ..v }
}

/// Leaving the content view resets both scroll offsets; entering it is
/// allowed only off a selected file and keeps them.
pub open spec fn leave_content_model(v: ViewModel) -> ViewModel {
    ViewModel { mode: ViewMode::ListView, scroll_x: 0, scroll_y: 0, ..v }
}

/// One step down through the content: the vertical offset never exceeds
/// the last line's index and never wraps.
pub open spec fn scroll_down_model(y: u16, lines: nat) -> u16 {
    if lines > 0 && (y as int) + 1 <= lines - 1 && y < u16::MAX {
        (y + 1) as u16
    } else {
        y
    }
}

impl ViewState {
    /// The interaction state the run loop starts in.
    pub fn start() -> (r: ViewState)
        ensures
            r@ == (ViewModel {
                mode: ViewMode::ListView,
                input: empty_input(),
                scroll_x: 0,
                scroll_y: 0,
            }),
    {
        let r = ViewState {
            mode: ViewMode::ListView,
            input: Input { name: Vec::new(), index: 0 },
            scroll_x: 0,
            scroll_y: 0,
        };
        proof {
            assert(r.input@ =~= empty_input());
        }
        r
    }

    /// Append a typed character to the buffer.
    pub fn push_char(&mut self, c: char)
        ensures
            final(self)@ == (ViewModel { input: input_push_model(old(self)@.input, c), ..old(
                self,
            )@ }),
    {
        self.input.name.push(c);
        self.input.index = self.input.index.saturating_add(1);
        proof {
            assert(self@ =~= (ViewModel {
                input: input_push_model(old(self)@.input, c),
                ..old(self)@
            }));
        }
    }

    /// Drop the last character on backspace.
    pub fn pop_char(&mut self)
        ensures
            final(self)@ == (ViewModel { input: input_pop_model(old(self)@.input), ..old(self)@ }),
    {
        self.input.name.pop();
        self.input.index = self.input.index.saturating_sub(1);
        proof {
            assert(self@ =~= (ViewModel {
                input: input_pop_model(old(self)@.input),
                ..old(self)@
            }));
        }
    }

    /// Seed the buffer, as the rename command does with the selected
    /// entry's name, the cursor at its end.
    pub fn seed_input(&mut self, name: Vec<char>)
        ensures
            final(self)@ == (ViewModel {
                input: InputModel { name: name@, index: name@.len() as int },
                ..old(self)@
            }),
    {
        let index = name.len();
        self.input = Input { name, index };
    }

    /// Discard the buffer and return to the listing.
    pub fn reset_to_list(&mut self)
        ensures
            final(self)@ == reset_to_list_model(old(self)@),
    {
        self.input = Input { name: Vec::new(), index: 0 };
        self.mode = ViewMode::ListView;
        proof {
            assert(self@ =~= reset_to_list_model(old(self)@));
        }
    }

    /// Enter Create with a fresh buffer.
    pub fn begin_create(&mut self)
        ensures
            final(self)@ == begin_create_model(old(self)@),
    {
        self.input = Input { name: Vec::new(), index: 0 };
        self.mode = ViewMode::Create;
        proof {
            assert(self@ =~= begin_create_model(old(self)@));
        }
    }

    /// Enter Edit with a buffer awaiting its seed.
    pub fn begin_edit(&mut self)
        ensures
            final(self)@ == begin_edit_model(old(self)@),
    {
        self.input = Input { name: Vec::new(), index: 0 };
        self.mode = ViewMode::Edit;
        proof {
            assert(self@ =~= begin_edit_model(old(self)@));
        }
    }

    /// Leave the content view, resetting both scroll offsets.
    pub fn leave_content(&mut self)
        ensures
            final(self)@ == leave_content_model(old(self)@),
    {
        self.mode = ViewMode::ListView;
        self.scroll_x = 0;
        self.scroll_y = 0;
        proof {
            assert(self@ =~= leave_content_model(old(self)@));
        }
    }

    /// Enter the content view, keeping the scroll offsets.
    pub fn enter_content(&mut self)
        ensures
            final(self)@ == (ViewModel { mode: ViewMode::ContentView, ..old(self)@ }),
    {
        self.mode = ViewMode::ContentView;
    }

    /// Scroll the content down one line, clamped to the last line.
    pub fn scroll_down(&mut self, line_count: usize)
        ensures
            final(self)@ == (ViewModel {
                scroll_y: scroll_down_model(old(self)@.scroll_y, line_count as nat),
                ..old(self)@
            }),
    {
        if line_count > 0 && (self.scroll_y as usize) + 1 <= line_count - 1 && self.scroll_y
            < u16::MAX {
            self.scroll_y = self.scroll_y + 1;
        }
    }

    /// Scroll the content up one line, saturating at the top.
    pub fn scroll_up(&mut self)
        ensures
            final(self)@ == (ViewModel {
                scroll_y: if old(self)@.scroll_y > 0 {
                    (old(self)@.scroll_y - 1) as u16
                } else {
                    0
                },
                ..old(self)@
            }),
    {
        self.scroll_y = self.scroll_y.saturating_sub(1);
    }

    /// Scroll the content right, saturating; line width is not tracked.
    pub fn scroll_right(&mut self)
        ensures
            final(self)@ == (ViewModel {
                scroll_x: if old(self)@.scroll_x < u16::MAX {
                    (old(self)@.scroll_x + 1) as u16
                } else {
                    u16::MAX
                },
                ..old(self)@
            }),
    {
        self.scroll_x = self.scroll_x.saturating_add(1);
    }

    /// Scroll the content left, saturating at the margin.
    pub fn scroll_left(&mut self)
        ensures
            final(self)@ == (ViewModel {
                scroll_x: if old(self)@.scroll_x > 0 {
                    (old(self)@.scroll_x - 1) as u16
                } else {
                    0
                },
                ..old(self)@
            }),
    {
        self.scroll_x = self.scroll_x.saturating_sub(1);
    }
}

} // verus!
