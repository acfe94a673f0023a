//! The menu of operations that a user can choose from: an ordered table of
//! labels, each with the operation it stands for.

use vstd::prelude::*;
use vstd::string::*;
use crate::text::{decimal, decimal_text};

verus! {

/// An operation that the menu offers. Carrying an operation out is the
/// caller's part: it asks the user for what the operation needs and calls
/// the project.
#[derive(Clone, Copy, Debug, PartialEq, Eq, Structural)]
pub enum MenuAction {
    AddFrame,
    RemoveFrame,
    MoveFrame,
    ChangeFrameDuration,
    ChangeDurationOfAllFrames,
    DisplayFrames,
    Play,
    SaveProject,
}

/// A line of the menu: the label shown to the user, and the operation.
pub type MenuEntry = (&'static str, MenuAction);

/// What a number typed at the menu means.
#[derive(Clone, Copy, Debug, PartialEq, Eq, Structural)]
pub enum MenuChoice {
    /// Leave the program.
    Exit,
    /// Carry out this operation.
    Run(MenuAction),
    /// The number stands for nothing; ask again.
    Invalid,
}

/// The menu.
pub struct Menu {
    menu: Vec<MenuEntry>,
}

/// The entries of the menu, in the order in which they are shown.
pub open spec fn standard_entries() -> Seq<(Seq<char>, MenuAction)> {
    seq![
        ("Add Frame"@, MenuAction::AddFrame),
        ("Remove Frame"@, MenuAction::RemoveFrame),
        ("Move Frame"@, MenuAction::MoveFrame),
        ("Change Frame Duration"@, MenuAction::ChangeFrameDuration),
        ("Change Duration of All Frames"@, MenuAction::ChangeDurationOfAllFrames),
        ("Display Frames"@, MenuAction::DisplayFrames),
        ("Play"@, MenuAction::Play),
        ("Save Project"@, MenuAction::SaveProject),
    ]
}

/// What the number `number` means on a menu with these entries: zero leaves,
/// the numbers from one up each stand for the entry at that place, and every
/// other number stands for nothing.
pub open spec fn choice_of(entries: Seq<(Seq<char>, MenuAction)>, number: usize) -> MenuChoice {
    if number == 0 {
        MenuChoice::Exit
    } else if number <= entries.len() {
        MenuChoice::Run(entries[number - 1].1)
    } else {
        MenuChoice::Invalid
    }
}

/// The line that shows the entry at place `number`, counted from one.
pub open spec fn entry_line(number: nat, label: Seq<char>) -> Seq<char> {
    seq![' ', '['] + decimal_text(number) + seq![']', ' '] + label + seq!['\n']
}

/// The lines of all entries, one after another.
pub open spec fn entries_text(entries: Seq<(Seq<char>, MenuAction)>) -> Seq<char>
    decreases entries.len(),
{
    if entries.len() == 0 {
        Seq::<char>::empty()
    } else {
        entries_text(entries.drop_last()) + entry_line(entries.len(), entries.last().0)
    }
}

impl View for Menu {
    type V = Seq<(Seq<char>, MenuAction)>;

    closed spec fn view(&self) -> Seq<(Seq<char>, MenuAction)> {
        self.menu@.map_values(|entry: MenuEntry| (entry.0@, entry.1))
    }
}

impl Menu {
    /// The menu with its eight entries.
    pub fn new() -> (menu: Menu)
        ensures
            menu@ == standard_entries(),
    {
        let mut menu: Vec<MenuEntry> = Vec::new();
        menu.push(("Add Frame", MenuAction::AddFrame));
        menu.push(("Remove Frame", MenuAction::RemoveFrame));
        menu.push(("Move Frame", MenuAction::MoveFrame));
        menu.push(("Change Frame Duration", MenuAction::ChangeFrameDuration));
        menu.push(("Change Duration of All Frames", MenuAction::ChangeDurationOfAllFrames));
        menu.push(("Display Frames", MenuAction::DisplayFrames));
        menu.push(("Play", MenuAction::Play));
        menu.push(("Save Project", MenuAction::SaveProject));
        let menu = Menu { menu };
        menu
    }

    /// The number of entries.
    pub fn len(&self) -> (len: usize)
        ensures
            len == self@.len(),
    {
        self.menu.len()
    }

    /// The entry at `index`, counted from zero, if there is one.
    pub fn get(&self, index: usize) -> (entry: Option<&MenuEntry>)
        ensures
            match entry {
                Some(entry) => index < self@.len() && (entry.0@, entry.1) == self@[index as int],
                None => index >= self@.len(),
            },
    {
        if index < self.menu.len() {
            Some(&self.menu[index])
        } else {
            None
        }
    }

    /// What a number typed at the menu means.
    pub fn choose_entry(&self, number: usize) -> (choice: MenuChoice)
        ensures
            choice == choice_of(self@, number),
    {
        if number == 0 {
            MenuChoice::Exit
        } else if number <= self.menu.len() {
            MenuChoice::Run(self.menu[number - 1].1)
        } else {
            MenuChoice::Invalid
        }
    }

    /// The menu as it is shown: one line for each entry, with the number to
    /// type for it.
    pub fn to_text(&self) -> (text: String)
        ensures
            text@ == entries_text(self@),
    {
        proof {
            reveal_strlit(" [");
            reveal_strlit("] ");
            reveal_strlit("\n");
        }
        let mut text = String::new();
        let mut index: usize = 0;
        while index < self.menu.len()
            invariant
                index <= self.menu.len(),
                text@ == entries_text(self@.take(index as int)),
                " ["@ == seq![' ', '['],
                "] "@ == seq![']', ' '],
                "\n"@ == seq!['\n'],
            decreases self.menu.len() - index,
        {
            let number = decimal((index + 1) as u64);
            text.append(" [");
            text.append(number.as_str());
            text.append("] ");
            text.append(self.menu[index].0);
            text.append("\n");
            assert(self@.take(index + 1).drop_last() =~= self@.take(index as int));
            index += 1;
        }
        assert(self@.take(index as int) =~= self@);
        text
    }
}

} // verus!
