//! The entry form: two fields, a confirmation prompt, and the steps by which
//! an entry is added to the store or a stored one is updated.
//!
//! The form edits no text and reads no store. A key that belongs to a field
//! is handed out as a request to edit, and the lines of the field come back;
//! an entry is written in two steps, a lookup of its name and then the
//! write, each of them a request with its reply.

use crate::keys::Key;
use crate::requests::Reply;
use crate::requests::Request;
use crate::screens::interpret;
use crate::screens::interpretation;
use crate::screens::Action;
use crate::screens::InputSelector;
use crate::screens::Problem;
use crate::screens::ScreenKind;
use crate::text::blank;
use crate::text::is_blank;
use crate::text::join;
use crate::text::joined;
use crate::text::rating_is_valid;
use crate::text::spells_rating;
use vstd::prelude::*;

verus! {

/// The reply that the form waits for.
#[derive(Clone, Copy, Debug, PartialEq, Eq, Structural)]
pub enum Awaiting {
    /// None: the form has asked for nothing.
    Nothing,
    /// The lines of the field that has the focus, after a key went to it.
    Edit,
    /// Whether the name is stored, before an insert.
    AddLookup,
    /// That the insert was made.
    AddWrite,
    /// Whether the name is stored, before an update.
    UpdateLookup,
    /// That the update was made.
    UpdateWrite,
}

/// The entry form.
#[derive(Clone, Debug, PartialEq, Eq)]
pub struct AddProblemScreen {
    /// The lines of the name field.
    pub problem_name: Vec<String>,
    /// The lines of the rating field.
    pub problem_rating: Vec<String>,
    /// The time at which the form was opened: the date of the entry.
    pub entry_date: String,
    pub input_mode: InputSelector,
    pub confirm_popup: bool,
    pub successful_problem_added: bool,
    pub failed_to_add_problem: bool,
    pub sucessfully_updated_problem: bool,
    /// The store failed on the last lookup or write.
    pub store_failed: bool,
    pub incorrect_rating: bool,
    pub incorrect_name: bool,
    pub awaiting: Awaiting,
}

/// The field that gets the focus when `Tab` is pressed in `field`.
pub open spec fn other_field(field: InputSelector) -> InputSelector {
    match field {
        InputSelector::ProblemName => InputSelector::ProblemRating,
        InputSelector::ProblemRating => InputSelector::ProblemName,
    }
}

/// The text that a field commits to the store: its lines, one below the
/// other.
pub open spec fn committed(lines: Seq<String>) -> Seq<char> {
    joined(lines, seq!['\n'])
}

impl AddProblemScreen {
    /// The form after the key `key`.
    ///
    /// Any key drops a request that is still unanswered. `Enter` opens the
    /// confirmation prompt, or closes it; `Esc` closes it, and leaves the
    /// form; `Tab` moves the focus to the other field. Under the prompt, `A`
    /// starts an insert and `U` an update, unless a field is marked as wrong
    /// (for an update only the rating counts), which is a failure at once;
    /// every other key closes the prompt and clears what the last attempt
    /// left. Without the prompt, every other key belongs to the field that
    /// has the focus.
    pub open spec fn after_key(self, key: Key) -> AddProblemScreen {
        let idle = AddProblemScreen { awaiting: Awaiting::Nothing, ..self };
        match key {
            Key::Enter => AddProblemScreen { confirm_popup: !self.confirm_popup, ..idle },
            Key::Esc => AddProblemScreen { confirm_popup: false, ..idle },
            Key::Tab => AddProblemScreen { input_mode: other_field(self.input_mode), ..idle },
            _ => if self.confirm_popup {
                match key {
                    Key::Char('A') => if self.incorrect_rating || self.incorrect_name {
                        AddProblemScreen { failed_to_add_problem: true, ..idle }
                    } else {
                        AddProblemScreen { awaiting: Awaiting::AddLookup, ..idle }
                    },
                    Key::Char('U') => if self.incorrect_rating {
                        AddProblemScreen { failed_to_add_problem: true, ..idle }
                    } else {
                        AddProblemScreen { awaiting: Awaiting::UpdateLookup, ..idle }
                    },
                    _ => AddProblemScreen {
                        confirm_popup: false,
                        successful_problem_added: false,
                        failed_to_add_problem: false,
                        sucessfully_updated_problem: false,
                        store_failed: false,
                        ..idle
                    },
                }
            } else {
                AddProblemScreen { awaiting: Awaiting::Edit, ..idle }
            },
        }
    }

    /// The form after the reply `reply`.
    ///
    /// A reply counts only where the form waits for it; any other one leaves
    /// the form as it is. The lines of an edited field replace those of the
    /// field that has the focus, and the field is checked: a name must not
    /// be blank, a rating must spell a number from 1 to 5. An insert goes on
    /// to the write where the name is not stored yet, an update where it is;
    /// otherwise the attempt has failed. A write that the store has taken is
    /// a success, and a store that fails leaves its own mark.
    pub open spec fn after_reply(self, reply: Reply) -> AddProblemScreen {
        let idle = AddProblemScreen { awaiting: Awaiting::Nothing, ..self };
        match (self.awaiting, reply) {
            (Awaiting::Edit, Reply::Edited(lines)) => match self.input_mode {
                InputSelector::ProblemName => AddProblemScreen {
                    problem_name: lines,
                    incorrect_name: is_blank(lines@),
                    ..idle
                },
                InputSelector::ProblemRating => AddProblemScreen {
                    problem_rating: lines,
                    incorrect_rating: !spells_rating(lines@),
                    ..idle
                },
            },
            (Awaiting::AddLookup, Reply::Exists(found)) => if found {
                AddProblemScreen { failed_to_add_problem: true, ..idle }
            } else {
                AddProblemScreen { awaiting: Awaiting::AddWrite, ..idle }
            },
            (Awaiting::UpdateLookup, Reply::Exists(found)) => if found {
                AddProblemScreen { awaiting: Awaiting::UpdateWrite, ..idle }
            } else {
                AddProblemScreen { failed_to_add_problem: true, ..idle }
            },
            (Awaiting::AddWrite, Reply::Written) => AddProblemScreen {
                successful_problem_added: true,
                ..idle
            },
            (Awaiting::UpdateWrite, Reply::Written) => AddProblemScreen {
                sucessfully_updated_problem: true,
                ..idle
            },
            (Awaiting::AddLookup, Reply::Failed)
            | (Awaiting::AddWrite, Reply::Failed)
            | (Awaiting::UpdateLookup, Reply::Failed)
            | (Awaiting::UpdateWrite, Reply::Failed) => AddProblemScreen {
                store_failed: true,
                ..idle
            },
            _ => self,
        }
    }

    /// Holds where `problem` is the entry that the form holds: the text of
    /// the two fields and the date of the form.
    pub open spec fn holds_entry(&self, problem: Problem) -> bool {
        &&& problem.name@ == committed(self.problem_name@)
        &&& problem.rating@ == committed(self.problem_rating@)
        &&& problem.entry_date@ == self.entry_date@
    }

    /// Holds where `request` is what the form asks for in its present state.
    pub open spec fn asks(&self, request: Request) -> bool {
        match self.awaiting {
            Awaiting::Nothing => request == Request::Nothing,
            Awaiting::Edit => request == Request::Edit(self.input_mode),
            Awaiting::AddLookup | Awaiting::UpdateLookup => request matches Request::Exists(name)
                && name@ == committed(self.problem_name@),
            Awaiting::AddWrite => request matches Request::Insert(problem) && self.holds_entry(
                problem,
            ),
            Awaiting::UpdateWrite => request matches Request::Update(problem) && self.holds_entry(
                problem,
            ),
        }
    }

    /// Holds for the form as it is when the screen is entered: two fields of
    /// one empty line, the focus on the name, no prompt, no mark.
    pub open spec fn is_fresh(&self) -> bool {
        &&& self.problem_name@.len() == 1
        &&& self.problem_name@[0]@.len() == 0
        &&& self.problem_rating@.len() == 1
        &&& self.problem_rating@[0]@.len() == 0
        &&& self.input_mode == InputSelector::ProblemName
        &&& !self.confirm_popup
        &&& !self.successful_problem_added
        &&& !self.failed_to_add_problem
        &&& !self.sucessfully_updated_problem
        &&& !self.store_failed
        &&& !self.incorrect_rating
        &&& !self.incorrect_name
        &&& self.awaiting == Awaiting::Nothing
    }

    /// An empty form whose entries will carry the date `entry_date`.
    pub fn new(entry_date: String) -> (screen: AddProblemScreen)
        ensures
            screen.is_fresh(),
            screen.entry_date == entry_date,
    {
        let mut problem_name: Vec<String> = Vec::new();
        problem_name.push(String::new());
        let mut problem_rating: Vec<String> = Vec::new();
        problem_rating.push(String::new());
        AddProblemScreen {
            problem_name,
            problem_rating,
            entry_date,
            input_mode: InputSelector::ProblemName,
            confirm_popup: false,
            successful_problem_added: false,
            failed_to_add_problem: false,
            sucessfully_updated_problem: false,
            store_failed: false,
            incorrect_rating: false,
            incorrect_name: false,
            awaiting: Awaiting::Nothing,
        }
    }

    /// Takes one key: the form becomes [`Self::after_key`], and the action
    /// is to leave the form for `Esc` and nothing for any other key.
    pub fn handle_key_event(&mut self, key: Key) -> (action: Action)
        ensures
            *final(self) == old(self).after_key(key),
            action == interpretation(ScreenKind::AddProblem, key),
    {
        self.awaiting = Awaiting::Nothing;
        match key {
            Key::Enter => {
                self.confirm_popup = !self.confirm_popup;
            },
            Key::Esc => {
                self.confirm_popup = false;
            },
            Key::Tab => {
                self.input_mode =
                match self.input_mode {
                    InputSelector::ProblemName => InputSelector::ProblemRating,
                    InputSelector::ProblemRating => InputSelector::ProblemName,
                };
            },
            _ => {
                if self.confirm_popup {
                    match key {
                        Key::Char('A') => {
                            if self.incorrect_rating || self.incorrect_name {
                                self.failed_to_add_problem = true;
                            } else {
                                self.awaiting = Awaiting::AddLookup;
                            }
                        },
                        Key::Char('U') => {
                            if self.incorrect_rating {
                                self.failed_to_add_problem = true;
                            } else {
                                self.awaiting = Awaiting::UpdateLookup;
                            }
                        },
                        _ => {
                            self.confirm_popup = false;
                            self.successful_problem_added = false;
                            self.failed_to_add_problem = false;
                            self.sucessfully_updated_problem = false;
                            self.store_failed = false;
                        },
                    }
                } else {
                    self.awaiting = Awaiting::Edit;
                }
            },
        }
        interpret(ScreenKind::AddProblem, key)
    }

    /// Takes the reply to the last request: the form becomes
    /// [`Self::after_reply`].
    pub fn handle_reply(&mut self, reply: Reply)
        ensures
            *final(self) == old(self).after_reply(reply),
    {
        match reply {
            Reply::Edited(lines) => {
                if self.awaiting == Awaiting::Edit {
                    self.awaiting = Awaiting::Nothing;
                    match self.input_mode {
                        InputSelector::ProblemName => {
                            self.incorrect_name = blank(&lines);
                            self.problem_name = lines;
                        },
                        InputSelector::ProblemRating => {
                            self.incorrect_rating = !rating_is_valid(&lines);
                            self.problem_rating = lines;
                        },
                    }
                }
            },
            Reply::Exists(found) => {
                if self.awaiting == Awaiting::AddLookup {
                    if found {
                        self.failed_to_add_problem = true;
                        self.awaiting = Awaiting::Nothing;
                    } else {
                        self.awaiting = Awaiting::AddWrite;
                    }
                } else if self.awaiting == Awaiting::UpdateLookup {
                    if found {
                        self.awaiting = Awaiting::UpdateWrite;
                    } else {
                        self.failed_to_add_problem = true;
                        self.awaiting = Awaiting::Nothing;
                    }
                }
            },
            Reply::Written => {
                if self.awaiting == Awaiting::AddWrite {
                    self.successful_problem_added = true;
                    self.awaiting = Awaiting::Nothing;
                } else if self.awaiting == Awaiting::UpdateWrite {
                    self.sucessfully_updated_problem = true;
                    self.awaiting = Awaiting::Nothing;
                }
            },
            Reply::Failed => {
                if self.awaiting == Awaiting::AddLookup || self.awaiting == Awaiting::AddWrite
                    || self.awaiting == Awaiting::UpdateLookup || self.awaiting
                    == Awaiting::UpdateWrite {
                    self.store_failed = true;
                    self.awaiting = Awaiting::Nothing;
                }
            },
            Reply::Problems(_) => {},
        }
    }

    /// The entry that the form holds.
    pub fn entry(&self) -> (problem: Problem)
        ensures
            self.holds_entry(problem),
    {
        proof {
            reveal_strlit("\n");
            assert("\n"@ == seq!['\n']);
        }
        Problem {
            name: join(&self.problem_name, "\n"),
            rating: join(&self.problem_rating, "\n"),
            entry_date: self.entry_date.clone(),
        }
    }

    /// What the form asks for in its present state.
    pub fn request(&self) -> (request: Request)
        ensures
            self.asks(request),
    {
        proof {
            reveal_strlit("\n");
            assert("\n"@ == seq!['\n']);
        }
        match self.awaiting {
            Awaiting::Nothing => Request::Nothing,
            Awaiting::Edit => Request::Edit(self.input_mode),
            Awaiting::AddLookup | Awaiting::UpdateLookup => Request::Exists(
                join(&self.problem_name, "\n"),
            ),
            Awaiting::AddWrite => Request::Insert(self.entry()),
            Awaiting::UpdateWrite => Request::Update(self.entry()),
        }
    }
}

/// The form comes to ask for a write only by the answer to a lookup: for an
/// insert, that the name is not stored; for an update, that it is. No key
/// brings it there.
pub proof fn lemma_writes_follow_lookups(form: AddProblemScreen, reply: Reply, key: Key)
    ensures
        form.after_reply(reply).awaiting == Awaiting::AddWrite && form.awaiting
            != Awaiting::AddWrite ==> form.awaiting == Awaiting::AddLookup && reply
            == Reply::Exists(false),
        form.after_reply(reply).awaiting == Awaiting::UpdateWrite && form.awaiting
            != Awaiting::UpdateWrite ==> form.awaiting == Awaiting::UpdateLookup && reply
            == Reply::Exists(true),
        form.after_key(key).awaiting != Awaiting::AddWrite,
        form.after_key(key).awaiting != Awaiting::UpdateWrite,
{
}

/// A reply leaves the text of the fields alone unless it brings the lines
/// of an edited field, and it never touches the date of the entry, the
/// focus or the prompt.
pub proof fn lemma_replies_keep_the_entry(form: AddProblemScreen, reply: Reply)
    ensures
        form.after_reply(reply).entry_date == form.entry_date,
        form.after_reply(reply).input_mode == form.input_mode,
        form.after_reply(reply).confirm_popup == form.confirm_popup,
        !(reply is Edited) ==> form.after_reply(reply).problem_name == form.problem_name
            && form.after_reply(reply).problem_rating == form.problem_rating,
{
}

/// A key never changes the text of the fields or the date of the entry.
pub proof fn lemma_keys_keep_the_entry(form: AddProblemScreen, key: Key)
    ensures
        form.after_key(key).problem_name == form.problem_name,
        form.after_key(key).problem_rating == form.problem_rating,
        form.after_key(key).entry_date == form.entry_date,
        form.after_key(key).incorrect_name == form.incorrect_name,
        form.after_key(key).incorrect_rating == form.incorrect_rating,
{
}

} // verus!
