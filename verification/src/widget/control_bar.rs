//! The bar at the bottom: the name of the track, its progress and the
//! buttons for shuffle, seeking, pause and repeat.

use crate::action::Action;
use crate::input::MouseEvent;
use crate::input::MouseEventKind;
use crate::layout::columns;
use crate::layout::inside;
use crate::layout::rows;
use crate::layout::Constraint;
use crate::layout::Rect;
use crate::playback::Repeat;
use crate::playback::Shuffle;
use std::ops::Range;
use vstd::prelude::*;

verus! {

/// The number of rows that the bar takes.
pub const CONTROL_BAR_HEIGHT: u16 = 4;

/// How far a click on a seek button moves the position, in milliseconds.
pub const SEEK_STEP_MS: u64 = 5000;

/// The width of the row of buttons: five buttons of three cells with one
/// cell between them.
pub const BUTTONS_WIDTH: u16 = 19;

#[derive(Debug)]
pub struct ControlBar {
    pub name: String,
    /// How much of the track was played, in thousandths.
    pub progress: u16,
    pub repeat: Repeat,
    pub shuffle: Shuffle,
    pub paused: bool,
    /// The row of the buttons.
    pub control_bar_y: u16,
    /// The columns of each button.
    pub shuffle_pos: Range<u16>,
    pub seek_backward_pos: Range<u16>,
    pub pause_pos: Range<u16>,
    pub seek_forward_pos: Range<u16>,
    pub repeat_pos: Range<u16>,
}

/// What the bar asks the session to do.
#[derive(Debug, Clone)]
pub enum Instruction {
    SetShuffle(Shuffle),
    SetRepeat(Repeat),
    SetPause(bool),
    SeekForward(u64),
    SeekBackward(u64),
}

#[derive(Debug, Clone)]
pub enum Message {
    SetProgress(u16),
    SetName(String),
    ToggleShuffle,
    ToggleRepeat,
    TogglePause,
    SeekForward(u64),
    SeekBackward(u64),
    SetShuffle(Shuffle),
    SetRepeat(Repeat),
    SetPause(bool),
    Resize(Rect),
}

/// Where the buttons stand: the row, and the first column of the first
/// button.
pub struct Buttons {
    pub y: u16,
    pub start: u16,
}

/// The column `offset` cells right of `start`, as far as columns are counted.
pub open spec fn column(start: u16, offset: u16) -> u16 {
    if start + offset > u16::MAX {
        u16::MAX
    } else {
        (start + offset) as u16
    }
}

/// The bar as contracts speak of it.
#[verifier::ext_equal]
pub struct ControlBarView {
    pub name: Seq<char>,
    pub progress: u16,
    pub repeat: Repeat,
    pub shuffle: Shuffle,
    pub paused: bool,
    pub control_bar_y: u16,
    pub shuffle_pos: Range<u16>,
    pub seek_backward_pos: Range<u16>,
    pub pause_pos: Range<u16>,
    pub seek_forward_pos: Range<u16>,
    pub repeat_pos: Range<u16>,
}

impl View for ControlBar {
    type V = ControlBarView;

    open spec fn view(&self) -> ControlBarView {
        ControlBarView {
            name: self.name@,
            progress: self.progress,
            repeat: self.repeat,
            shuffle: self.shuffle,
            paused: self.paused,
            control_bar_y: self.control_bar_y,
            shuffle_pos: self.shuffle_pos,
            seek_backward_pos: self.seek_backward_pos,
            pause_pos: self.pause_pos,
            seek_forward_pos: self.seek_forward_pos,
            repeat_pos: self.repeat_pos,
        }
    }
}

/// Whether column `x` lies in `range`.
pub open spec fn within(range: Range<u16>, x: u16) -> bool {
    range.start <= x < range.end
}

impl ControlBarView {
    /// The bar with its buttons placed in row `y` from column `start` on:
    /// shuffle, seek backward, pause, seek forward, repeat.
    pub open spec fn placed(self, y: u16, start: u16) -> ControlBarView {
        ControlBarView {
            control_bar_y: y,
            shuffle_pos: start..column(start, 3),
            seek_backward_pos: column(start, 4)..column(start, 7),
            pause_pos: column(start, 8)..column(start, 11),
            seek_forward_pos: column(start, 12)..column(start, 15),
            repeat_pos: column(start, 16)..column(start, 19),
            ..self
        }
    }

    /// The message that a mouse event stands for: a button that goes down
    /// over one of the five buttons presses it. The row is not looked at.
    pub open spec fn mouse_message(self, ev: MouseEvent) -> Option<Message> {
        if ev.kind != MouseEventKind::Down {
            None
        } else if within(self.repeat_pos, ev.column) {
            Some(Message::ToggleRepeat)
        } else if within(self.seek_backward_pos, ev.column) {
            Some(Message::SeekBackward(SEEK_STEP_MS))
        } else if within(self.shuffle_pos, ev.column) {
            Some(Message::ToggleShuffle)
        } else if within(self.seek_forward_pos, ev.column) {
            Some(Message::SeekForward(SEEK_STEP_MS))
        } else if within(self.pause_pos, ev.column) {
            Some(Message::TogglePause)
        } else {
            None
        }
    }

    /// The bar after `message`, but for `Resize`, which asks the layout.
    pub open spec fn after(self, message: Message) -> ControlBarView {
        match message {
            Message::SetProgress(progress) => ControlBarView { progress, ..self },
            Message::SetName(name) => ControlBarView { name: name@, ..self },
            Message::ToggleShuffle => ControlBarView { shuffle: self.shuffle.toggled(), ..self },
            Message::ToggleRepeat => ControlBarView { repeat: self.repeat.toggled(), ..self },
            Message::TogglePause => ControlBarView { paused: !self.paused, ..self },
            Message::SetShuffle(shuffle) => ControlBarView { shuffle, ..self },
            Message::SetRepeat(repeat) => ControlBarView { repeat, ..self },
            Message::SetPause(paused) => ControlBarView { paused, ..self },
            Message::SeekForward(_) => self,
            Message::SeekBackward(_) => self,
            Message::Resize(_) => self,
        }
    }

    /// What the bar asks of the session on `message`: a toggle asks for the
    /// new mode, a seek is passed on.
    pub open spec fn asks(self, message: Message) -> Option<Instruction> {
        match message {
            Message::ToggleShuffle => Some(Instruction::SetShuffle(self.shuffle.toggled())),
            Message::ToggleRepeat => Some(Instruction::SetRepeat(self.repeat.toggled())),
            Message::TogglePause => Some(Instruction::SetPause(!self.paused)),
            Message::SeekForward(dur) => Some(Instruction::SeekForward(dur)),
            Message::SeekBackward(dur) => Some(Instruction::SeekBackward(dur)),
            _ => None,
        }
    }
}

/// Whether row `y` and column `start` are a row and a column of `area`, or
/// the row or column just behind it.
pub open spec fn stands_in(area: Rect, y: u16, start: u16) -> bool {
    &&& area.y <= y <= area.y + area.height
    &&& area.x <= start <= area.x + area.width
}

/// The constraints that cut the bar into its four rows.
fn four_rows() -> (constraints: Vec<Constraint>)
    ensures
        constraints@ == seq![
            Constraint::Length(1),
            Constraint::Length(1),
            Constraint::Length(1),
            Constraint::Length(1),
        ],
{
    let mut constraints = Vec::new();
    constraints.push(Constraint::Length(1));
    constraints.push(Constraint::Length(1));
    constraints.push(Constraint::Length(1));
    constraints.push(Constraint::Length(1));
    constraints
}

/// The constraints that centre the buttons in their row.
fn centred_buttons() -> (constraints: Vec<Constraint>)
    ensures
        constraints@ == seq![
            Constraint::Fill(1),
            Constraint::Length(BUTTONS_WIDTH),
            Constraint::Fill(1),
        ],
{
    let mut constraints = Vec::new();
    constraints.push(Constraint::Fill(1));
    constraints.push(Constraint::Length(BUTTONS_WIDTH));
    constraints.push(Constraint::Fill(1));
    constraints
}

/// Where the buttons stand in a bar that takes `area`: in the last of its
/// four rows, centred. The row of the buttons is a row of the area and their
/// first column a column of it, or the row or column just behind where the
/// area has no room; where exactly the layout puts them is up to it.
fn locate_buttons(area: Rect) -> (buttons: Buttons)
    ensures
        stands_in(area, buttons.y, buttons.start),
{
    let bar_rows = rows(area, &four_rows());
    let button_row = bar_rows[3];
    let parts = columns(button_row, &centred_buttons());
    let buttons = parts[1];
    proof {
        assert(inside(button_row, area));
        assert(inside(buttons, button_row));
    }
    Buttons { y: buttons.y, start: buttons.x }
}

impl ControlBar {
    /// The bar in `area`, with no name and not paused. Its buttons stand
    /// side by side in a row of the area.
    pub fn new(area: Rect, progress: u16, shuffle: Shuffle, repeat: Repeat) -> (bar: Self)
        ensures
            exists|y: u16, start: u16|
                stands_in(area, y, start) && bar@ == (#[trigger] ControlBarView {
                    name: Seq::empty(),
                    progress,
                    repeat,
                    shuffle,
                    paused: false,
                    control_bar_y: y,
                    shuffle_pos: 0..0,
                    seek_backward_pos: 0..0,
                    pause_pos: 0..0,
                    seek_forward_pos: 0..0,
                    repeat_pos: 0..0,
                }.placed(y, start)),
    {
        let buttons = locate_buttons(area);
        let bar = ControlBar::with_buttons(buttons, progress, shuffle, repeat);
        proof {
            let blank = ControlBarView {
                name: Seq::empty(),
                progress,
                repeat,
                shuffle,
                paused: false,
                control_bar_y: buttons.y,
                shuffle_pos: 0..0,
                seek_backward_pos: 0..0,
                pause_pos: 0..0,
                seek_forward_pos: 0..0,
                repeat_pos: 0..0,
            };
            assert(bar@ == blank.placed(buttons.y, buttons.start));
        }
        bar
    }

    /// The bar with its buttons at the place given.
    pub fn with_buttons(buttons: Buttons, progress: u16, shuffle: Shuffle, repeat: Repeat) -> (bar:
        Self)
        ensures
            bar@ == (ControlBarView {
                name: Seq::empty(),
                progress,
                repeat,
                shuffle,
                paused: false,
                control_bar_y: buttons.y,
                shuffle_pos: 0..0,
                seek_backward_pos: 0..0,
                pause_pos: 0..0,
                seek_forward_pos: 0..0,
                repeat_pos: 0..0,
            }).placed(buttons.y, buttons.start),
    {
        let mut bar = ControlBar {
            name: String::new(),
            progress,
            repeat,
            shuffle,
            paused: false,
            control_bar_y: 0,
            shuffle_pos: 0..0,
            seek_backward_pos: 0..0,
            pause_pos: 0..0,
            seek_forward_pos: 0..0,
            repeat_pos: 0..0,
        };
        bar.place_buttons(buttons);
        bar
    }

    /// The message that a mouse event stands for.
    pub fn handle_mouse(&self, ev: MouseEvent) -> (message: Option<Message>)
        ensures
            message == self@.mouse_message(ev),
    {
        let x = ev.column;
        match ev.kind {
            MouseEventKind::Down => {
                if self.repeat_pos.start <= x && x < self.repeat_pos.end {
                    return Some(Message::ToggleRepeat);
                }
                if self.seek_backward_pos.start <= x && x < self.seek_backward_pos.end {
                    return Some(Message::SeekBackward(SEEK_STEP_MS));
                }
                if self.shuffle_pos.start <= x && x < self.shuffle_pos.end {
                    return Some(Message::ToggleShuffle);
                }
                if self.seek_forward_pos.start <= x && x < self.seek_forward_pos.end {
                    return Some(Message::SeekForward(SEEK_STEP_MS));
                }
                if self.pause_pos.start <= x && x < self.pause_pos.end {
                    return Some(Message::TogglePause);
                }
                None
            },
            _ => None,
        }
    }

    /// Answers `message`. A resize places the buttons anew, where the
    /// layout puts them; every other message is answered as `after` and
    /// `asks` say. There are never follow-up messages.
    pub fn update(&mut self, message: Message) -> (action: Action<Instruction, Message>)
        ensures
            action@.messages is None,
            action@.instruction == old(self)@.asks(message),
            match message {
                Message::Resize(area) => exists|y: u16, start: u16|
                    stands_in(area, y, start) && final(self)@ == #[trigger] old(self)@.placed(
                        y,
                        start,
                    ),
                _ => final(self)@ == old(self)@.after(message),
            },
    {
        match message {
            Message::SetProgress(progress) => {
                self.progress = progress;
            },
            Message::SetName(name) => {
                self.name = name;
            },
            Message::ToggleShuffle => {
                self.shuffle = self.shuffle.toggle();
                return Action::instruction(Instruction::SetShuffle(self.shuffle));
            },
            Message::ToggleRepeat => {
                self.repeat = self.repeat.toggle();
                return Action::instruction(Instruction::SetRepeat(self.repeat));
            },
            Message::TogglePause => {
                self.paused = !self.paused;
                return Action::instruction(Instruction::SetPause(self.paused));
            },
            Message::SeekForward(dur) => {
                return Action::instruction(Instruction::SeekForward(dur));
            },
            Message::SeekBackward(dur) => {
                return Action::instruction(Instruction::SeekBackward(dur));
            },
            Message::SetShuffle(shuffle) => {
                self.shuffle = shuffle;
            },
            Message::SetRepeat(repeat) => {
                self.repeat = repeat;
            },
            Message::SetPause(paused) => {
                self.paused = paused;
            },
            Message::Resize(area) => {
                self.resize(area);
            },
        }
        Action::none()
    }

    /// Places the buttons for a bar that takes `area`: side by side in a
    /// row of the area.
    pub fn resize(&mut self, area: Rect)
        ensures
            exists|y: u16, start: u16|
                stands_in(area, y, start) && final(self)@ == #[trigger] old(self)@.placed(
                    y,
                    start,
                ),
    {
        let buttons = locate_buttons(area);
        self.place_buttons(buttons);
        proof {
            assert(self@ == old(self)@.placed(buttons.y, buttons.start));
        }
    }

    /// Places the buttons in the row and from the column given.
    pub fn place_buttons(&mut self, buttons: Buttons)
        ensures
            final(self)@ == old(self)@.placed(buttons.y, buttons.start),
    {
        let start = buttons.start;
        self.control_bar_y = buttons.y;
        self.shuffle_pos = start..start.saturating_add(3);
        self.seek_backward_pos = start.saturating_add(4)..start.saturating_add(7);
        self.pause_pos = start.saturating_add(8)..start.saturating_add(11);
        self.seek_forward_pos = start.saturating_add(12)..start.saturating_add(15);
        self.repeat_pos = start.saturating_add(16)..start.saturating_add(19);
    }
}

} // verus!
