//! The application state machine: viewing the countdown tabs, or walking the
//! strictly ordered creation wizard, driven by key inputs.

use vstd::prelude::*;

use crate::clock::{epoch_of_text, parse_datetime};
use crate::codec::{color_of_hex, parse_hex_color};
use crate::countdown::{Countdown, CountdownModel};
use crate::list::{next_index, prev_index, CountdownList};
use crate::store::{file_model, load, load_spec, ParseError, RecordFile};

verus! {

/// The wizard's steps, one field collected per step, in this order.
#[derive(Debug, Clone, Copy, PartialEq, Eq, Structural)]
pub enum Step {
    Name,
    BackgroundColor,
    ForegroundColor,
    DateTime,
}

/// What the application is doing: browsing the countdowns, or collecting the
/// fields of a new one.
#[derive(Debug, Clone, Copy, PartialEq, Eq, Structural)]
pub enum AppState {
    ViewingCountdowns,
    CreatingCountdown(Step),
}

impl Default for AppState {
    /// The state before any record file is consulted: creating the first
    /// countdown.
    fn default() -> (r: Self)
        ensures
            r == AppState::CreatingCountdown(Step::Name),
    {
        AppState::CreatingCountdown(Step::Name)
    }
}

/// A key press, already mapped to its meaning. Confirming the current wizard
/// field travels with its text through [`App::confirm_step`] instead.
#[derive(Debug, Clone, Copy, PartialEq, Eq, Structural)]
pub enum KeyInput {
    Quit,
    NextTab,
    PrevTab,
    New,
    Cancel,
    Other,
}

/// The fields collected so far by the creation wizard, each set exactly when
/// the wizard has moved past its step.
#[derive(Debug, Clone, PartialEq)]
pub struct Draft {
    pub name: Option<String>,
    pub background_color: Option<u32>,
    pub foreground_color: Option<u32>,
}

/// The mathematical content of a [`Draft`].
#[verifier::ext_equal]
pub ghost struct DraftModel {
    pub name: Option<Seq<char>>,
    pub background_color: Option<u32>,
    pub foreground_color: Option<u32>,
}

impl View for Draft {
    type V = DraftModel;

    open spec fn view(&self) -> DraftModel {
        DraftModel {
            name: match self.name {
                Some(ref s) => Some(s@),
                None => None,
            },
            background_color: self.background_color,
            foreground_color: self.foreground_color,
        }
    }
}

/// The draft with no field collected.
pub open spec fn empty_draft() -> DraftModel {
    DraftModel { name: None, background_color: None, foreground_color: None }
}

impl Draft {
    fn empty() -> (r: Draft)
        ensures
            r@ == empty_draft(),
    {
        Draft { name: None, background_color: None, foreground_color: None }
    }
}

/// The whole application: the state machine, the countdown list, the wizard
/// draft and the exit flag the run loop checks.
#[derive(Debug)]
pub struct App {
    pub state: AppState,
    pub countdowns: CountdownList,
    pub draft: Draft,
    pub exit: bool,
}

/// The mathematical content of an [`App`].
#[verifier::ext_equal]
pub ghost struct AppModel {
    pub state: AppState,
    pub countdowns: crate::list::CountdownListModel,
    pub draft: DraftModel,
    pub exit: bool,
}

impl View for App {
    type V = AppModel;

    open spec fn view(&self) -> AppModel {
        AppModel {
            state: self.state,
            countdowns: self.countdowns@,
            draft: self.draft@,
            exit: self.exit,
        }
    }
}

impl AppModel {
    /// The draft matches the wizard step: every field of an earlier step is
    /// collected and valid, every later one still unset.
    pub open spec fn draft_wf(self) -> bool {
        match self.state {
            AppState::ViewingCountdowns => self.draft == empty_draft(),
            AppState::CreatingCountdown(Step::Name) => self.draft == empty_draft(),
            AppState::CreatingCountdown(Step::BackgroundColor) => {
                &&& self.draft.name is Some
                &&& self.draft.name->Some_0.len() > 0
                &&& self.draft.background_color is None
                &&& self.draft.foreground_color is None
            },
            AppState::CreatingCountdown(Step::ForegroundColor) => {
                &&& self.draft.name is Some
                &&& self.draft.name->Some_0.len() > 0
                &&& self.draft.background_color is Some
                &&& self.draft.background_color->Some_0 < 0x1000000
                &&& self.draft.foreground_color is None
            },
            AppState::CreatingCountdown(Step::DateTime) => {
                &&& self.draft.name is Some
                &&& self.draft.name->Some_0.len() > 0
                &&& self.draft.background_color is Some
                &&& self.draft.background_color->Some_0 < 0x1000000
                &&& self.draft.foreground_color is Some
                &&& self.draft.foreground_color->Some_0 < 0x1000000
            },
        }
    }

    pub open spec fn wf(self) -> bool {
        &&& self.countdowns.wf()
        &&& self.draft_wf()
    }
}

/// Where a key press takes the state machine: "new" starts the wizard from
/// the viewing state, "cancel" abandons it from any step; every other key
/// leaves the state where it is.
pub open spec fn key_transition(state: AppState, key: KeyInput) -> AppState {
    match state {
        AppState::ViewingCountdowns => if key is New {
            AppState::CreatingCountdown(Step::Name)
        } else {
            state
        },
        AppState::CreatingCountdown(_) => if key is Cancel {
            AppState::ViewingCountdowns
        } else {
            state
        },
    }
}

/// The "new" key moves the viewing state to the first wizard step, and the
/// "cancel" key returns every wizard step to the viewing state.
pub proof fn lemma_new_and_cancel_transitions(step: Step)
    ensures
        key_transition(AppState::ViewingCountdowns, KeyInput::New) == AppState::CreatingCountdown(
            Step::Name,
        ),
        key_transition(AppState::CreatingCountdown(step), KeyInput::Cancel)
            == AppState::ViewingCountdowns,
{
}

impl App {
    pub open spec fn wf(self) -> bool {
        self@.wf()
    }

    /// Builds the application from the loaded record file (`None` where the
    /// file is missing): the loaded list with its selection, viewing it if it
    /// holds at least one countdown and otherwise starting the wizard.
    pub fn new(file: Option<&RecordFile>) -> (r: Result<App, ParseError>)
        ensures
            match r {
                Ok(app) => {
                    &&& app.wf()
                    &&& load_spec(file_model(file)) == Ok::<
                        crate::list::CountdownListModel,
                        ParseError,
                    >(app@.countdowns)
                    &&& app.state == (if app@.countdowns.entries.len() == 0 {
                        AppState::CreatingCountdown(Step::Name)
                    } else {
                        AppState::ViewingCountdowns
                    })
                    &&& app@.draft == empty_draft()
                    &&& !app.exit
                },
                Err(e) => load_spec(file_model(file)) == Err::<
                    crate::list::CountdownListModel,
                    ParseError,
                >(e),
            },
    {
        let countdowns = match load(file) {
            Ok(l) => l,
            Err(e) => {
                return Err(e);
            },
        };
        let state = if countdowns.len() == 0 {
            AppState::CreatingCountdown(Step::Name)
        } else {
            AppState::ViewingCountdowns
        };
        Ok(App { state, countdowns, draft: Draft::empty(), exit: false })
    }

    /// Dispatches one key press: quit sets the exit flag in any state; in the
    /// viewing state the arrow keys move the selection with wrap-around and
    /// "new" starts the wizard; in the wizard "cancel" discards the draft and
    /// returns to viewing, leaving the list untouched.
    pub fn handle_key(&mut self, key: KeyInput)
        requires
            old(self).wf(),
        ensures
            final(self).wf(),
            final(self).state == key_transition(old(self).state, key),
            final(self).exit == (old(self).exit || key is Quit),
            final(self)@.countdowns.entries == old(self)@.countdowns.entries,
            final(self)@.countdowns.selected_index == (
            if old(self).state is ViewingCountdowns && key is NextTab {
                next_index(
                    old(self)@.countdowns.selected_index,
                    old(self)@.countdowns.entries.len() as int,
                )
            } else if old(self).state is ViewingCountdowns && key is PrevTab {
                prev_index(
                    old(self)@.countdowns.selected_index,
                    old(self)@.countdowns.entries.len() as int,
                )
            } else {
                old(self)@.countdowns.selected_index
            }),
            final(self)@.draft == (if old(self).state is CreatingCountdown && key is Cancel {
                empty_draft()
            } else {
                old(self)@.draft
            }),
    {
        if matches!(key, KeyInput::Quit) {
            self.exit = true;
        }
        match self.state {
            AppState::ViewingCountdowns => {
                match key {
                    KeyInput::NextTab => self.countdowns.select_next(),
                    KeyInput::PrevTab => self.countdowns.select_previous(),
                    KeyInput::New => {
                        self.state = AppState::CreatingCountdown(Step::Name);
                    },
                    _ => {},
                }
            },
            AppState::CreatingCountdown(_) => {
                match key {
                    KeyInput::Cancel => {
                        self.state = AppState::ViewingCountdowns;
                        self.draft = Draft::empty();
                    },
                    _ => {},
                }
            },
        }
    }

    /// Confirms the text of the current wizard field. Valid input stores the
    /// field and advances the wizard one step; at the last step it commits the
    /// new countdown, which is appended and selected, and the application
    /// returns to viewing. Invalid input (an empty name, a color that is not
    /// six hexadecimal digits, an unparsable datetime) changes nothing and
    /// reports `false`; outside the wizard the call is a no-op.
    pub fn confirm_step(&mut self, input: &str) -> (accepted: bool)
        requires
            old(self).wf(),
        ensures
            final(self).wf(),
            final(self).exit == old(self).exit,
            match old(self).state {
                AppState::ViewingCountdowns => !accepted && final(self)@ == old(self)@,
                AppState::CreatingCountdown(Step::Name) => if input@.len() > 0 {
                    &&& accepted
                    &&& final(self).state == AppState::CreatingCountdown(Step::BackgroundColor)
                    &&& final(self)@.draft == DraftModel {
                        name: Some(input@),
                        background_color: None,
                        foreground_color: None,
                    }
                    &&& final(self)@.countdowns == old(self)@.countdowns
                } else {
                    !accepted && final(self)@ == old(self)@
                },
                AppState::CreatingCountdown(Step::BackgroundColor) => match color_of_hex(input@) {
                    Some(v) => {
                        &&& accepted
                        &&& final(self).state == AppState::CreatingCountdown(Step::ForegroundColor)
                        &&& final(self)@.draft == DraftModel {
                            background_color: Some(v),
                            ..old(self)@.draft
                        }
                        &&& final(self)@.countdowns == old(self)@.countdowns
                    },
                    None => !accepted && final(self)@ == old(self)@,
                },
                AppState::CreatingCountdown(Step::ForegroundColor) => match color_of_hex(input@) {
                    Some(v) => {
                        &&& accepted
                        &&& final(self).state == AppState::CreatingCountdown(Step::DateTime)
                        &&& final(self)@.draft == DraftModel {
                            foreground_color: Some(v),
                            ..old(self)@.draft
                        }
                        &&& final(self)@.countdowns == old(self)@.countdowns
                    },
                    None => !accepted && final(self)@ == old(self)@,
                },
                AppState::CreatingCountdown(Step::DateTime) => match epoch_of_text(input@) {
                    Some(t) => {
                        &&& accepted
                        &&& final(self).state == AppState::ViewingCountdowns
                        &&& final(self)@.draft == empty_draft()
                        &&& final(self)@.countdowns.entries == old(self)@.countdowns.entries.push(
                            CountdownModel {
                                name: old(self)@.draft.name->Some_0,
                                background_color: old(self)@.draft.background_color->Some_0,
                                foreground_color: old(self)@.draft.foreground_color->Some_0,
                                target_time: t,
                            },
                        )
                        &&& final(self)@.countdowns.selected_index == old(
                            self,
                        )@.countdowns.entries.len() as int
                    },
                    None => !accepted && final(self)@ == old(self)@,
                },
            },
    {
        match self.state {
            AppState::ViewingCountdowns => false,
            AppState::CreatingCountdown(Step::Name) => {
                if input.unicode_len() > 0 {
                    self.draft.name = Some(input.to_owned());
                    self.state = AppState::CreatingCountdown(Step::BackgroundColor);
                    true
                } else {
                    false
                }
            },
            AppState::CreatingCountdown(Step::BackgroundColor) => {
                match parse_hex_color(input) {
                    Some(v) => {
                        self.draft.background_color = Some(v);
                        self.state = AppState::CreatingCountdown(Step::ForegroundColor);
                        proof {
                            crate::codec::lemma_color_of_hex_bound(input@);
                        }
                        true
                    },
                    None => false,
                }
            },
            AppState::CreatingCountdown(Step::ForegroundColor) => {
                match parse_hex_color(input) {
                    Some(v) => {
                        self.draft.foreground_color = Some(v);
                        self.state = AppState::CreatingCountdown(Step::DateTime);
                        proof {
                            crate::codec::lemma_color_of_hex_bound(input@);
                        }
                        true
                    },
                    None => false,
                }
            },
            AppState::CreatingCountdown(Step::DateTime) => {
                let t = match parse_datetime(input) {
                    Some(t) => t,
                    None => {
                        return false;
                    },
                };
                let name = match &self.draft.name {
                    Some(s) => s.clone(),
                    None => {
                        return false;
                    },
                };
                let background_color = match self.draft.background_color {
                    Some(v) => v,
                    None => {
                        return false;
                    },
                };
                let foreground_color = match self.draft.foreground_color {
                    Some(v) => v,
                    None => {
                        return false;
                    },
                };
                let c = Countdown { name, background_color, foreground_color, target_time: t };
                let new_index = self.countdowns.entries.len();
                self.countdowns.entries.push(c);
                self.countdowns.selected_index = new_index;
                self.state = AppState::ViewingCountdowns;
                self.draft = Draft::empty();
                proof {
                    assert(self@.countdowns.entries =~= old(self)@.countdowns.entries.push(c@));
                }
                true
            },
        }
    }
}

} // verus!
