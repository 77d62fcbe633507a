//! The list of notes: where the selection stands, what a key does to it,
//! and how a note is named, headed and previewed.
//!
//! The list shows one row to make a new note, and below it one row for each
//! note. Row 0 is the row to make a new note; row `i + 1` is note `i`.

use vstd::prelude::*;
use vstd::string::{StrSliceExecFns, StringExecFns};

verus! {

/// A key, as far as the list tells keys apart.
#[derive(Clone, Copy, Debug, PartialEq, Eq, Structural)]
pub enum Key {
    Char(char),
    Up,
    Down,
    Enter,
    Esc,
    Backspace,
    Other,
}

/// What the list is doing.
#[derive(Clone, Copy, Debug, PartialEq, Eq, Structural)]
pub enum Mode {
    /// The selection moves through the list.
    Normal,
    /// The title of a new note is being typed.
    TitleInput,
}

/// What a key asks the embedding program to do.
#[derive(Clone, Copy, Debug, PartialEq, Eq, Structural)]
pub enum Command {
    /// Nothing but to draw again.
    Stay,
    /// End the program.
    Quit,
    /// Open the note of this index in an editor, and read the notes again.
    Open(usize),
    /// Make a note with the typed title, open it in an editor, read the
    /// notes again, and then call [`Browser::created`].
    Create,
}

/// What a list is, as plain values.
pub struct BrowserView {
    pub selected: nat,
    pub mode: Mode,
    pub title_input: Seq<char>,
}

/// Whether a title is blank: empty, or white space only.
pub open spec fn is_blank(title: Seq<char>) -> bool {
    forall|i: int| 0 <= i < title.len() ==> crate::text::is_space(#[trigger] title[i])
}

impl BrowserView {
    /// The list after `key`, with `entries` notes in it.
    pub open spec fn after_key(self, key: Key, entries: nat) -> BrowserView {
        match self.mode {
            Mode::Normal => match key {
                Key::Char('j') | Key::Down => BrowserView {
                    selected: if self.selected < entries {
                        self.selected + 1
                    } else {
                        self.selected
                    },
                    ..self
                },
                Key::Char('k') | Key::Up => BrowserView {
                    selected: if self.selected > 0 {
                        (self.selected - 1) as nat
                    } else {
                        self.selected
                    },
                    ..self
                },
                Key::Char('g') => BrowserView { selected: 0, ..self },
                Key::Char('G') => BrowserView { selected: entries, ..self },
                Key::Enter => if self.selected == 0 {
                    BrowserView { mode: Mode::TitleInput, ..self }
                } else {
                    self
                },
                _ => self,
            },
            Mode::TitleInput => match key {
                Key::Esc => BrowserView { mode: Mode::Normal, title_input: Seq::empty(), ..self },
                Key::Backspace => BrowserView {
                    title_input: if self.title_input.len() > 0 {
                        self.title_input.drop_last()
                    } else {
                        self.title_input
                    },
                    ..self
                },
                Key::Char(c) => BrowserView { title_input: self.title_input.push(c), ..self },
                _ => self,
            },
        }
    }

    /// What `key` asks for, with `entries` notes in the list.
    pub open spec fn command_of(self, key: Key, entries: nat) -> Command {
        match self.mode {
            Mode::Normal => match key {
                Key::Char('q') => Command::Quit,
                Key::Enter => if 0 < self.selected <= entries {
                    Command::Open((self.selected - 1) as usize)
                } else {
                    Command::Stay
                },
                _ => Command::Stay,
            },
            Mode::TitleInput => match key {
                Key::Enter => if is_blank(self.title_input) {
                    Command::Stay
                } else {
                    Command::Create
                },
                _ => Command::Stay,
            },
        }
    }
}

/// A selection within the list stays within it, whatever the key; and a
/// note that a key asks to open is one of the list.
pub proof fn lemma_selection_stays_in_list(browser: BrowserView, key: Key, entries: nat)
    requires
        browser.selected <= entries,
        entries <= usize::MAX,
    ensures
        browser.after_key(key, entries).selected <= entries,
        browser.command_of(key, entries) matches Command::Open(index) ==> index < entries && index
            + 1 == browser.selected,
{
}

/// The list: its selection, and the title being typed.
pub struct Browser {
    selected: usize,
    mode: Mode,
    title_input: String,
}

impl View for Browser {
    type V = BrowserView;

    closed spec fn view(&self) -> BrowserView {
        BrowserView {
            selected: self.selected as nat,
            mode: self.mode,
            title_input: self.title_input@,
        }
    }
}

impl Browser {
    /// A list with the row to make a new note selected.
    pub fn new() -> (browser: Self)
        ensures
            browser@ == (BrowserView {
                selected: 0,
                mode: Mode::Normal,
                title_input: Seq::empty(),
            }),
    {
        Browser { selected: 0, mode: Mode::Normal, title_input: String::new() }
    }

    /// The selected row.
    pub fn selected(&self) -> (selected: usize)
        ensures
            selected == self@.selected,
    {
        self.selected
    }

    /// What the list is doing.
    pub fn mode(&self) -> (mode: Mode)
        ensures
            mode == self@.mode,
    {
        self.mode
    }

    /// The title typed so far.
    pub fn title_input(&self) -> (title: &str)
        ensures
            title@ == self@.title_input,
    {
        self.title_input.as_str()
    }

    /// The selection moves up a row, unless it is on the first.
    pub fn move_selection_up(&mut self)
        ensures
            final(self)@ == (BrowserView {
                selected: if old(self)@.selected > 0 {
                    (old(self)@.selected - 1) as nat
                } else {
                    old(self)@.selected
                },
                ..old(self)@
            }),
    {
        if self.selected > 0 {
            self.selected = self.selected - 1;
        }
    }

    /// The selection moves down a row, unless it is on the last of the
    /// `entries` notes or below.
    pub fn move_selection_down(&mut self, entries: usize)
        ensures
            final(self)@ == (BrowserView {
                selected: if old(self)@.selected < entries {
                    old(self)@.selected + 1
                } else {
                    old(self)@.selected
                },
                ..old(self)@
            }),
    {
        if self.selected < entries {
            self.selected = self.selected + 1;
        }
    }

    /// Takes `key`, with `entries` notes in the list, and says what the
    /// embedding program is to do.
    pub fn on_key(&mut self, key: Key, entries: usize) -> (command: Command)
        ensures
            final(self)@ == old(self)@.after_key(key, entries as nat),
            command == old(self)@.command_of(key, entries as nat),
    {
        match self.mode {
            Mode::Normal => match key {
                Key::Char(c) => {
                    if c == 'q' {
                        return Command::Quit;
                    } else if c == 'j' {
                        self.move_selection_down(entries);
                    } else if c == 'k' {
                        self.move_selection_up();
                    } else if c == 'g' {
                        self.selected = 0;
                    } else if c == 'G' {
                        self.selected = entries;
                    }
                    Command::Stay
                },
                Key::Down => {
                    self.move_selection_down(entries);
                    Command::Stay
                },
                Key::Up => {
                    self.move_selection_up();
                    Command::Stay
                },
                Key::Enter => {
                    if self.selected == 0 {
                        self.mode = Mode::TitleInput;
                        Command::Stay
                    } else if self.selected <= entries {
                        Command::Open(self.selected - 1)
                    } else {
                        Command::Stay
                    }
                },
                _ => Command::Stay,
            },
            Mode::TitleInput => match key {
                Key::Esc => {
                    self.title_input.clear();
                    self.mode = Mode::Normal;
                    Command::Stay
                },
                Key::Enter => {
                    if is_blank_title(self.title_input.as_str()) {
                        Command::Stay
                    } else {
                        Command::Create
                    }
                },
                Key::Backspace => {
                    let _ = self.title_input.pop();
                    Command::Stay
                },
                Key::Char(c) => {
                    self.title_input.push(c);
                    Command::Stay
                },
                _ => Command::Stay,
            },
        }
    }

    /// The note asked for by [`Command::Create`] has been made: the typed
    /// title is dropped, and the selection moves through the list again.
    pub fn created(&mut self)
        ensures
            final(self)@ == (BrowserView {
                mode: Mode::Normal,
                title_input: Seq::empty(),
                ..old(self)@
            }),
    {
        self.title_input.clear();
        self.mode = Mode::Normal;
    }
}

/// Whether `title` is blank: empty, or white space only.
pub fn is_blank_title(title: &str) -> (blank: bool)
    ensures
        blank == is_blank(title@),
{
    let length = title.unicode_len();
    let mut index: usize = 0;
    while index < length
        invariant
            index <= length,
            length == title@.len(),
            forall|i: int| 0 <= i < index ==> crate::text::is_space(#[trigger] title@[i]),
        decreases length - index,
    {
        if !crate::text::is_white_space(title.get_char(index)) {
            return false;
        }
        index = index + 1;
    }
    true
}

/// `title` with an underscore in place of every space.
pub open spec fn underscored(title: Seq<char>) -> Seq<char> {
    Seq::new(
        title.len(),
        |i: int|
            if title[i] == ' ' {
                '_'
            } else {
                title[i]
            },
    )
}

/// The file name of a note: the time stamp, an underscore, the title with
/// underscores for spaces, and `.md`.
pub open spec fn file_name_of(stamp: Seq<char>, title: Seq<char>) -> Seq<char> {
    stamp + "_"@ + underscored(title) + ".md"@
}

/// The file name of the note of this title made at the moment that `stamp`
/// spells.
pub fn entry_file_name(stamp: &str, title: &str) -> (name: String)
    ensures
        name@ == file_name_of(stamp@, title@),
{
    let mut name = String::from_str(stamp);
    name.append("_");
    let length = title.unicode_len();
    let mut index: usize = 0;
    while index < length
        invariant
            index <= length,
            length == title@.len(),
            name@ == stamp@ + "_"@ + underscored(title@).subrange(0, index as int),
        decreases length - index,
    {
        let c = title.get_char(index);
        if c == ' ' {
            name.push('_');
        } else {
            name.push(c);
        }
        assert(name@ =~= stamp@ + "_"@ + underscored(title@).subrange(0, index + 1));
        index = index + 1;
    }
    assert(underscored(title@).subrange(0, length as int) =~= underscored(title@));
    name.append(".md");
    name
}

/// What a new note holds: its title as a heading, and an empty line.
pub open spec fn heading_of(title: Seq<char>) -> Seq<char> {
    "# "@ + title + "\n\n"@
}

/// What the new note of this title holds.
pub fn entry_heading(title: &str) -> (content: String)
    ensures
        content@ == heading_of(title@),
{
    let mut content = String::from_str("# ");
    content.append(title);
    content.append("\n\n");
    content
}

/// Whether `line` is a heading: it begins with `# `.
pub open spec fn is_heading(line: Seq<char>) -> bool {
    line.len() >= 2 && line[0] == '#' && line[1] == ' '
}

/// The title among `lines`: what follows `# ` in the first line that begins
/// so.
pub open spec fn title_among(lines: Seq<Seq<char>>) -> Option<Seq<char>>
    decreases lines.len(),
{
    if lines.len() == 0 {
        None
    } else if is_heading(lines[0]) {
        Some(lines[0].subrange(2, lines[0].len() as int))
    } else {
        title_among(lines.drop_first())
    }
}

/// The title of the note that holds `lines`, if one of them is a heading.
pub fn title_of(lines: &Vec<String>) -> (title: Option<String>)
    ensures
        title.deep_view() == title_among(lines.deep_view()),
{
    let mut index: usize = 0;
    assert(lines.deep_view().skip(0) =~= lines.deep_view());
    while index < lines.len()
        invariant
            index <= lines@.len(),
            title_among(lines.deep_view()) == title_among(lines.deep_view().skip(index as int)),
        decreases lines@.len() - index,
    {
        let line = lines[index].as_str();
        let length = line.unicode_len();
        let ghost rest = lines.deep_view().skip(index as int);
        assert(rest[0] == line@);
        if length >= 2 && line.get_char(0) == '#' && line.get_char(1) == ' ' {
            return Some(String::from_str(line.substring_char(2, length)));
        }
        assert(rest.drop_first() =~= lines.deep_view().skip(index + 1));
        index = index + 1;
    }
    assert(lines.deep_view().skip(index as int).len() == 0);
    None
}

/// The longest line that is previewed whole.
pub const PREVIEW_WIDTH: usize = 60;

/// The number of lines of a note that are previewed.
pub const PREVIEW_LINES: usize = 20;

/// A line as it is previewed: whole up to [`PREVIEW_WIDTH`] characters, and
/// else its first 57 characters and three dots.
pub open spec fn previewed(line: Seq<char>) -> Seq<char> {
    if line.len() > PREVIEW_WIDTH {
        line.subrange(0, 57) + "..."@
    } else {
        line
    }
}

/// The line as it is previewed.
pub fn preview_line(line: &str) -> (shown: String)
    ensures
        shown@ == previewed(line@),
{
    let length = line.unicode_len();
    if length > PREVIEW_WIDTH {
        let mut shown = String::from_str(line.substring_char(0, 57));
        shown.append("...");
        shown
    } else {
        String::from_str(line)
    }
}

/// The lines of a note that are previewed: up to [`PREVIEW_LINES`] of them,
/// after the heading and the line below it.
pub open spec fn preview_range(lines: int) -> (int, int) {
    if lines <= 2 {
        (lines, lines)
    } else if lines - 2 > PREVIEW_LINES {
        (2, 2 + PREVIEW_LINES)
    } else {
        (2, lines)
    }
}

/// The preview of the note that holds `lines`.
pub fn preview_of(lines: &Vec<String>) -> (shown: Vec<String>)
    ensures
        ({
            let (from, to) = preview_range(lines@.len() as int);
            &&& shown@.len() == to - from
            &&& forall|i: int|
                0 <= i < to - from ==> (#[trigger] shown@[i])@ == previewed(lines@[from + i]@)
        }),
{
    let mut shown: Vec<String> = Vec::new();
    if lines.len() <= 2 {
        return shown;
    }
    let to = if lines.len() - 2 > PREVIEW_LINES {
        2 + PREVIEW_LINES
    } else {
        lines.len()
    };
    let mut index: usize = 2;
    while index < to
        invariant
            2 <= index <= to <= lines@.len(),
            shown@.len() == index - 2,
            forall|i: int|
                0 <= i < index - 2 ==> (#[trigger] shown@[i])@ == previewed(lines@[2 + i]@),
        decreases to - index,
    {
        shown.push(preview_line(lines[index].as_str()));
        index = index + 1;
    }
    shown
}

} // verus!
