//! Deferred UI commands: flags raised during a frame and executed at its
//! end, plus the pending error and confirmation modals.  The frame loop
//! around this (key handling, dialogs, the actual saving) is the caller's;
//! the flag and modal bookkeeping is specified here.

use std::collections::VecDeque;
use vstd::prelude::*;

verus! {

/// One flag per deferred command.
#[derive(Debug, Clone, Copy, PartialEq, Eq, Structural)]
pub struct AppActionFlags {
    pub new_project: bool,
    pub new_project_confirmed: bool,
    pub open: bool,
    pub save: bool,
    pub save_as: bool,
    pub quit: bool,
    pub add_undo: bool,
    pub undo: bool,
    pub redo: bool,
}

impl AppActionFlags {
    /// Field-wise disjunction: a flag is raised in the result when either
    /// side raised it.
    pub fn merged(self, rhs: Self) -> (r: Self)
        ensures
            r == (AppActionFlags {
                new_project: self.new_project || rhs.new_project,
                new_project_confirmed: self.new_project_confirmed || rhs.new_project_confirmed,
                open: self.open || rhs.open,
                save: self.save || rhs.save,
                save_as: self.save_as || rhs.save_as,
                quit: self.quit || rhs.quit,
                add_undo: self.add_undo || rhs.add_undo,
                undo: self.undo || rhs.undo,
                redo: self.redo || rhs.redo,
            }),
    {
        AppActionFlags {
            new_project: self.new_project || rhs.new_project,
            new_project_confirmed: self.new_project_confirmed || rhs.new_project_confirmed,
            open: self.open || rhs.open,
            save: self.save || rhs.save,
            save_as: self.save_as || rhs.save_as,
            quit: self.quit || rhs.quit,
            add_undo: self.add_undo || rhs.add_undo,
            undo: self.undo || rhs.undo,
            redo: self.redo || rhs.redo,
        }
    }
}

pub open spec fn no_flags() -> AppActionFlags {
    AppActionFlags {
        new_project: false,
        new_project_confirmed: false,
        open: false,
        save: false,
        save_as: false,
        quit: false,
        add_undo: false,
        undo: false,
        redo: false,
    }
}

impl Default for AppActionFlags {
    fn default() -> (r: Self)
        ensures
            r == no_flags(),
    {
        AppActionFlags {
            new_project: false,
            new_project_confirmed: false,
            open: false,
            save: false,
            save_as: false,
            quit: false,
            add_undo: false,
            undo: false,
            redo: false,
        }
    }
}

struct AppModals {
    errors: Vec<String>,
    confirmations: VecDeque<(String, AppActionFlags)>,
}

/// The deferred commands of the current frame and the modal queues.
pub struct AppAction {
    has_undo: bool,
    has_redo: bool,
    flags: AppActionFlags,
    modals: AppModals,
}

impl AppAction {
    pub closed spec fn has_undo_spec(&self) -> bool {
        self.has_undo
    }

    pub closed spec fn has_redo_spec(&self) -> bool {
        self.has_redo
    }

    pub closed spec fn flags_spec(&self) -> AppActionFlags {
        self.flags
    }

    pub closed spec fn errors_spec(&self) -> Seq<String> {
        self.modals.errors@
    }

    pub closed spec fn confirmations_spec(&self) -> Seq<(String, AppActionFlags)> {
        self.modals.confirmations@
    }

    /// Everything except the command flags is unchanged.
    pub open spec fn same_but_flags(&self, other: &Self) -> bool {
        &&& self.has_undo_spec() == other.has_undo_spec()
        &&& self.has_redo_spec() == other.has_redo_spec()
        &&& self.errors_spec() == other.errors_spec()
        &&& self.confirmations_spec() == other.confirmations_spec()
    }

    /// Records what the undo history offers this frame.
    pub fn new_frame(&mut self, has_undo: bool, has_redo: bool)
        ensures
            final(self).has_undo_spec() == has_undo,
            final(self).has_redo_spec() == has_redo,
            final(self).flags_spec() == old(self).flags_spec(),
            final(self).errors_spec() == old(self).errors_spec(),
            final(self).confirmations_spec() == old(self).confirmations_spec(),
    {
        self.has_undo = has_undo;
        self.has_redo = has_redo;
    }

    pub fn has_undo(&self) -> (r: bool)
        ensures
            r == self.has_undo_spec(),
    {
        self.has_undo
    }

    pub fn has_redo(&self) -> (r: bool)
        ensures
            r == self.has_redo_spec(),
    {
        self.has_redo
    }

    pub fn new_project(&mut self)
        ensures
            final(self).flags_spec() == (AppActionFlags {
                new_project: true,
                ..old(self).flags_spec()
            }),
            final(self).same_but_flags(old(self)),
    {
        self.flags.new_project = true;
    }

    pub fn open(&mut self)
        ensures
            final(self).flags_spec() == (AppActionFlags { open: true, ..old(self).flags_spec() }),
            final(self).same_but_flags(old(self)),
    {
        self.flags.open = true;
    }

    pub fn save(&mut self)
        ensures
            final(self).flags_spec() == (AppActionFlags { save: true, ..old(self).flags_spec() }),
            final(self).same_but_flags(old(self)),
    {
        self.flags.save = true;
    }

    pub fn save_as(&mut self)
        ensures
            final(self).flags_spec() == (AppActionFlags {
                save_as: true,
                ..old(self).flags_spec()
            }),
            final(self).same_but_flags(old(self)),
    {
        self.flags.save_as = true;
    }

    pub fn quit(&mut self)
        ensures
            final(self).flags_spec() == (AppActionFlags { quit: true, ..old(self).flags_spec() }),
            final(self).same_but_flags(old(self)),
    {
        self.flags.quit = true;
    }

    pub fn add_undo(&mut self)
        ensures
            final(self).flags_spec() == (AppActionFlags {
                add_undo: true,
                ..old(self).flags_spec()
            }),
            final(self).same_but_flags(old(self)),
    {
        self.flags.add_undo = true;
    }

    pub fn undo(&mut self)
        ensures
            final(self).flags_spec() == (AppActionFlags { undo: true, ..old(self).flags_spec() }),
            final(self).same_but_flags(old(self)),
    {
        self.flags.undo = true;
    }

    pub fn redo(&mut self)
        ensures
            final(self).flags_spec() == (AppActionFlags { redo: true, ..old(self).flags_spec() }),
            final(self).same_but_flags(old(self)),
    {
        self.flags.redo = true;
    }

    /// Queues an error text for the error modal.
    pub fn add_error_modal(&mut self, error: String)
        ensures
            final(self).errors_spec() == old(self).errors_spec().push(error),
            final(self).flags_spec() == old(self).flags_spec(),
            final(self).confirmations_spec() == old(self).confirmations_spec(),
            final(self).has_undo_spec() == old(self).has_undo_spec(),
            final(self).has_redo_spec() == old(self).has_redo_spec(),
    {
        self.modals.errors.push(error);
    }

    /// Queues a confirmation: its flags are merged in only when the user
    /// confirms (see `confirm_front`).
    pub fn add_confirmation_modal(&mut self, message: String, flags: AppActionFlags)
        ensures
            final(self).confirmations_spec() == old(self).confirmations_spec().push(
                (message, flags),
            ),
            final(self).flags_spec() == old(self).flags_spec(),
            final(self).errors_spec() == old(self).errors_spec(),
            final(self).has_undo_spec() == old(self).has_undo_spec(),
            final(self).has_redo_spec() == old(self).has_redo_spec(),
    {
        self.modals.confirmations.push_back((message, flags));
    }

    pub fn errors(&self) -> (r: &Vec<String>)
        ensures
            r@ == self.errors_spec(),
    {
        &self.modals.errors
    }

    /// Dismisses the error modal.
    pub fn clear_errors(&mut self)
        ensures
            final(self).errors_spec().len() == 0,
            final(self).flags_spec() == old(self).flags_spec(),
            final(self).confirmations_spec() == old(self).confirmations_spec(),
            final(self).has_undo_spec() == old(self).has_undo_spec(),
            final(self).has_redo_spec() == old(self).has_redo_spec(),
    {
        self.modals.errors.clear();
    }

    pub fn front_confirmation(&self) -> (r: Option<&(String, AppActionFlags)>)
        ensures
            match r {
                Some(c) => self.confirmations_spec().len() > 0 && *c
                    == self.confirmations_spec()[0],
                None => self.confirmations_spec().len() == 0,
            },
    {
        if self.modals.confirmations.len() > 0 {
            Some(&self.modals.confirmations[0])
        } else {
            None
        }
    }

    /// The front confirmation was accepted: its flags are merged into the
    /// pending flags and it leaves the queue.
    pub fn confirm_front(&mut self)
        ensures
            old(self).confirmations_spec().len() == 0 ==> final(self).confirmations_spec()
                == old(self).confirmations_spec() && final(self).flags_spec() == old(
                self,
            ).flags_spec() && final(self).same_but_flags(old(self)),
            old(self).confirmations_spec().len() > 0 ==> {
                &&& final(self).confirmations_spec() == old(self).confirmations_spec().skip(1)
                &&& final(self).flags_spec() == merged_spec(
                    old(self).flags_spec(),
                    old(self).confirmations_spec()[0].1,
                )
                &&& final(self).errors_spec() == old(self).errors_spec()
                &&& final(self).has_undo_spec() == old(self).has_undo_spec()
                &&& final(self).has_redo_spec() == old(self).has_redo_spec()
            },
    {
        match self.modals.confirmations.pop_front() {
            Some((_, flags)) => {
                self.flags = self.flags.merged(flags);
                proof {
                    assert(old(self).confirmations_spec().subrange(
                        1,
                        old(self).confirmations_spec().len() as int,
                    ) =~= old(self).confirmations_spec().skip(1));
                }
            },
            None => {},
        }
    }

    /// The front confirmation was declined: it leaves the queue unused.
    pub fn dismiss_front(&mut self)
        ensures
            old(self).confirmations_spec().len() == 0 ==> final(self).confirmations_spec()
                == old(self).confirmations_spec() && final(self).flags_spec() == old(
                self,
            ).flags_spec() && final(self).same_but_flags(old(self)),
            old(self).confirmations_spec().len() > 0 ==> {
                &&& final(self).confirmations_spec() == old(self).confirmations_spec().skip(1)
                &&& final(self).flags_spec() == old(self).flags_spec()
                &&& final(self).errors_spec() == old(self).errors_spec()
                &&& final(self).has_undo_spec() == old(self).has_undo_spec()
                &&& final(self).has_redo_spec() == old(self).has_redo_spec()
            },
    {
        match self.modals.confirmations.pop_front() {
            Some(_) => {
                proof {
                    assert(old(self).confirmations_spec().subrange(
                        1,
                        old(self).confirmations_spec().len() as int,
                    ) =~= old(self).confirmations_spec().skip(1));
                }
            },
            None => {},
        }
    }

    /// Hands the frame's flags to the caller (which performs the commands)
    /// and resets them, as the end of a frame does.
    pub fn take_flags(&mut self) -> (r: AppActionFlags)
        ensures
            r == old(self).flags_spec(),
            final(self).flags_spec() == no_flags(),
            final(self).same_but_flags(old(self)),
    {
        let r = self.flags;
        self.flags = AppActionFlags::default();
        r
    }
}

/// Field-wise disjunction of two flag sets.
pub open spec fn merged_spec(a: AppActionFlags, b: AppActionFlags) -> AppActionFlags {
    AppActionFlags {
        new_project: a.new_project || b.new_project,
        new_project_confirmed: a.new_project_confirmed || b.new_project_confirmed,
        open: a.open || b.open,
        save: a.save || b.save,
        save_as: a.save_as || b.save_as,
        quit: a.quit || b.quit,
        add_undo: a.add_undo || b.add_undo,
        undo: a.undo || b.undo,
        redo: a.redo || b.redo,
    }
}

impl Default for AppAction {
    fn default() -> (r: Self)
        ensures
            r.flags_spec() == no_flags(),
            !r.has_undo_spec(),
            !r.has_redo_spec(),
            r.errors_spec().len() == 0,
            r.confirmations_spec().len() == 0,
    {
        AppAction {
            has_undo: false,
            has_redo: false,
            flags: AppActionFlags::default(),
            modals: AppModals { errors: Vec::new(), confirmations: VecDeque::new() },
        }
    }
}

} // verus!
