//! The start menu: three options, moved through with the arrow keys (or
//! `j` and `k`), and a space-prefixed shortcut `SPC f` for the file locator.

use crate::key::Key;
use vstd::prelude::*;

verus! {

/// What the caller should do after a key on the start menu.
#[derive(Clone, Copy, Debug, PartialEq, Eq, Structural)]
pub enum DashboardAction {
    Quit,
    OpenFinder,
    Moved,
    Ignore,
}

/// The start menu: its banner, the directory it was opened on, the selected
/// option (1 to 3) and whether a space is waiting for its second key.
pub struct Dashboard {
    pub banner: &'static str,
    pub dir: String,
    pub selected_option: u8,
    pub leader: bool,
}

/// The selected option after a key, and the action it gives.
pub open spec fn dashboard_step(selected: u8, leader: bool, key: Key) -> (u8, bool, DashboardAction) {
    if leader {
        (selected, false, if key == Key::Char('f') {
            DashboardAction::OpenFinder
        } else {
            DashboardAction::Ignore
        })
    } else {
        match key {
            Key::Ctrl('q') => (selected, false, DashboardAction::Quit),
            Key::Enter | Key::Tab => (selected, false, if selected == 1 {
                DashboardAction::OpenFinder
            } else {
                DashboardAction::Ignore
            }),
            Key::Down | Key::Char('j') => if selected != 3 {
                ((selected + 1) as u8, false, DashboardAction::Moved)
            } else {
                (selected, false, DashboardAction::Ignore)
            },
            Key::Up | Key::Char('k') => if selected != 1 {
                ((selected - 1) as u8, false, DashboardAction::Moved)
            } else {
                (selected, false, DashboardAction::Ignore)
            },
            Key::Char(' ') => (selected, true, DashboardAction::Ignore),
            _ => (selected, false, DashboardAction::Ignore),
        }
    }
}

impl Dashboard {
    pub open spec fn wf(&self) -> bool {
        1 <= self.selected_option <= 3
    }

    /// The menu with its first option selected.
    pub fn new() -> (d: Dashboard)
        ensures
            d.wf(),
            d.selected_option == 1,
            !d.leader,
            d.dir@ == Seq::<char>::empty(),
    {
        Dashboard {
            banner: "
\u{2588}\u{2588}\u{2588}\u{2588}\u{2588}\u{2588}\u{2588}\u{2557}\u{2588}\u{2588}\u{2588}\u{2588}\u{2588}\u{2588}\u{2588}\u{2557}\u{2588}\u{2588}\u{2588}\u{2588}\u{2588}\u{2588}\u{2557}     
\u{255a}\u{2550}\u{2550}\u{2588}\u{2588}\u{2588}\u{2554}\u{255d}\u{2588}\u{2588}\u{2554}\u{2550}\u{2550}\u{2550}\u{2550}\u{255d}\u{2588}\u{2588}\u{2554}\u{2550}\u{2550}\u{2588}\u{2588}\u{2557}    
  \u{2588}\u{2588}\u{2588}\u{2554}\u{255d} \u{2588}\u{2588}\u{2588}\u{2588}\u{2588}\u{2557}  \u{2588}\u{2588}\u{2551}  \u{2588}\u{2588}\u{2551}    
 \u{2588}\u{2588}\u{2588}\u{2554}\u{255d}  \u{2588}\u{2588}\u{2554}\u{2550}\u{2550}\u{255d}  \u{2588}\u{2588}\u{2551}  \u{2588}\u{2588}\u{2551}    
\u{2588}\u{2588}\u{2588}\u{2588}\u{2588}\u{2588}\u{2588}\u{2557}\u{2588}\u{2588}\u{2588}\u{2588}\u{2588}\u{2588}\u{2588}\u{2557}\u{2588}\u{2588}\u{2588}\u{2588}\u{2588}\u{2588}\u{2554}\u{255d}    
\u{255a}\u{2550}\u{2550}\u{2550}\u{2550}\u{2550}\u{2550}\u{255d}\u{255a}\u{2550}\u{2550}\u{2550}\u{2550}\u{2550}\u{2550}\u{255d}\u{255a}\u{2550}\u{2550}\u{2550}\u{2550}\u{2550}\u{255d}     
    ",
            dir: String::new(),
            selected_option: 1,
            leader: false,
        }
    }

    /// Sets the directory the file locator will search.
    pub fn set_dir(&mut self, p: String)
        ensures
            *final(self) == (Dashboard { dir: p, ..*old(self) }),
    {
        self.dir = p;
    }

    /// Applies one key; see `dashboard_step`.
    pub fn handle_key(&mut self, key: Key) -> (r: DashboardAction)
        requires
            old(self).wf(),
        ensures
            final(self).wf(),
            final(self).banner == old(self).banner,
            final(self).dir == old(self).dir,
            (final(self).selected_option, final(self).leader, r) == dashboard_step(
                old(self).selected_option,
                old(self).leader,
                key,
            ),
    {
        if self.leader {
            self.leader = false;
            return if key == Key::Char('f') {
                DashboardAction::OpenFinder
            } else {
                DashboardAction::Ignore
            };
        }
        match key {
            Key::Ctrl('q') => DashboardAction::Quit,
            Key::Enter | Key::Tab => if self.selected_option == 1 {
                DashboardAction::OpenFinder
            } else {
                DashboardAction::Ignore
            },
            Key::Down | Key::Char('j') => if self.selected_option != 3 {
                self.selected_option = self.selected_option + 1;
                DashboardAction::Moved
            } else {
                DashboardAction::Ignore
            },
            Key::Up | Key::Char('k') => if self.selected_option != 1 {
                self.selected_option = self.selected_option - 1;
                DashboardAction::Moved
            } else {
                DashboardAction::Ignore
            },
            Key::Char(' ') => {
                self.leader = true;
                DashboardAction::Ignore
            },
            _ => DashboardAction::Ignore,
        }
    }
}

} // verus!
