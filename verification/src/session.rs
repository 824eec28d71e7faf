//! The decisions of the chooser window: which picture is shown, what a
//! button or key does, how a choice is recorded and undone, and the texts
//! the window shows. The window itself asks for the writes these decisions
//! need, performs them and the picture loading, and hands back the outcome.

use vstd::prelude::*;
use crate::error::{error_message, Error};
use crate::image::{ImageChoice, ImageRecord};
use crate::project::{
    counts_match, error_change, opt_record, queue_answer, status_change, update_id, Project,
    ProjectView,
};
use crate::status::{ImageStatus, StatusCounts};
use crate::text::{chars_of, push_signed, push_str, signed_decimal, string_of};

verus! {

/// Which pictures the chooser goes through.
#[derive(Debug, Clone, Copy, PartialEq, Eq, Structural)]
pub enum SelectionQueue {
    MainUnseen,
    ReviewLater,
}

/// The three answers the chooser offers for a picture.
#[derive(Debug, Clone, Copy, PartialEq, Eq, Structural)]
pub enum ChoiceAction {
    Select,
    Reject,
    Later,
}

/// The keys the chooser reacts to.
#[derive(Debug, Clone, Copy, PartialEq, Eq, Structural)]
pub enum KeyboardShortcut {
    Select,
    Reject,
    Later,
    Undo,
    Escape,
}

/// What a key asks for once the zoom view has been taken into account.
#[derive(Debug, Clone, Copy, PartialEq, Eq, Structural)]
pub enum KeyCommand {
    Choose(ChoiceAction),
    Undo,
}

/// A recorded choice that can be taken back: the picture, its status
/// before, and where the chooser stood.
#[derive(Debug, Clone, Copy, PartialEq, Eq, Structural)]
pub struct UndoAction {
    pub image_id: i64,
    pub previous_status: ImageStatus,
    pub queue: SelectionQueue,
    pub review_after_position: Option<i64>,
}

/// Where the shown picture stands in loading.
#[derive(Debug, Clone, PartialEq, Eq)]
pub enum LoadState {
    Idle,
    Loading,
    Loaded,
    Failed { message: String },
}

/// Work the window has to do after a decision.
#[derive(Debug, Clone, PartialEq, Eq)]
pub enum Effect {
    Nothing,
    LoadImage { image_id: i64, path: String },
}

/// A status to be written to the project file before the chooser takes it.
#[derive(Debug, Clone, PartialEq, Eq)]
pub struct StatusWrite {
    pub image_id: i64,
    pub status: ImageStatus,
    pub now: String,
}

/// A stored error to be written (or cleared, when `message` is `None`).
#[derive(Debug, Clone, PartialEq, Eq)]
pub struct ErrorWrite {
    pub image_id: i64,
    pub message: Option<String>,
    pub now: String,
}

/// The screen the window shows.
#[derive(Debug, Clone, Copy, PartialEq, Eq, Structural)]
pub enum Screen {
    Zoom,
    Setup,
    Completion,
    Selection,
}

/// The state of the chooser window.
pub struct ChooserState {
    pub project: Option<Project>,
    pub current: Option<ImageChoice>,
    pub counts: StatusCounts,
    pub queue: SelectionQueue,
    pub review_after_position: Option<i64>,
    pub load_state: LoadState,
    pub undo_stack: Vec<UndoAction>,
    pub status: String,
    pub zoom: bool,
}

/// The status a choice records.
pub open spec fn status_for(action: ChoiceAction) -> ImageStatus {
    match action {
        ChoiceAction::Select => ImageStatus::Selected,
        ChoiceAction::Reject => ImageStatus::Rejected,
        ChoiceAction::Later => ImageStatus::Undecided,
    }
}

/// The status a choice records.
pub fn status_for_action(action: ChoiceAction) -> (r: ImageStatus)
    ensures
        r == status_for(action),
{
    match action {
        ChoiceAction::Select => ImageStatus::Selected,
        ChoiceAction::Reject => ImageStatus::Rejected,
        ChoiceAction::Later => ImageStatus::Undecided,
    }
}

/// The shortcut of a character key: Y selects, N rejects, L puts off,
/// U undoes, in either case.
pub open spec fn key_shortcut(key: Seq<char>) -> Option<KeyboardShortcut> {
    if key == seq!['y'] || key == seq!['Y'] {
        Some(KeyboardShortcut::Select)
    } else if key == seq!['n'] || key == seq!['N'] {
        Some(KeyboardShortcut::Reject)
    } else if key == seq!['l'] || key == seq!['L'] {
        Some(KeyboardShortcut::Later)
    } else if key == seq!['u'] || key == seq!['U'] {
        Some(KeyboardShortcut::Undo)
    } else {
        None
    }
}

/// The shortcut of the text a character key produces (see `key_shortcut`).
pub fn shortcut_for_key(key: &str) -> (r: Option<KeyboardShortcut>)
    ensures
        r == key_shortcut(key@),
{
    let cs = chars_of(key);
    if cs.len() != 1 {
        assert(key@.len() != 1);
        return None;
    }
    let c = cs[0];
    assert(key@ =~= seq![c]);
    if c == 'y' || c == 'Y' {
        Some(KeyboardShortcut::Select)
    } else if c == 'n' || c == 'N' {
        Some(KeyboardShortcut::Reject)
    } else if c == 'l' || c == 'L' {
        Some(KeyboardShortcut::Later)
    } else if c == 'u' || c == 'U' {
        Some(KeyboardShortcut::Undo)
    } else {
        None
    }
}

/// The queue query behind each queue: new pictures, or pictures put off for
/// later above the last one reviewed (above 0 at the start).
pub open spec fn queue_query(queue: SelectionQueue, review_after: Option<i64>) -> (ImageStatus, Option<int>) {
    match queue {
        SelectionQueue::MainUnseen => (ImageStatus::Unseen, None),
        SelectionQueue::ReviewLater => (
            ImageStatus::Undecided,
            Some(
                match review_after {
                    Some(a) => a as int,
                    None => 0,
                },
            ),
        ),
    }
}

impl ChooserState {
    /// The project, if any, is well formed.
    pub open spec fn wf(&self) -> bool {
        &&& match self.project {
            Some(p) => p.wf(),
            None => self.undo_stack@.len() == 0,
        }
    }

    /// A window without a project, showing `status`.
    pub fn new(status: String) -> (r: ChooserState)
        ensures
            r.wf(),
            r.project is None,
            r.current is None,
            r.counts == (StatusCounts { unseen: 0, undecided: 0, selected: 0, rejected: 0 }),
            r.queue == SelectionQueue::MainUnseen,
            r.review_after_position is None,
            r.load_state == LoadState::Idle,
            r.undo_stack@.len() == 0,
            r.status == status,
            !r.zoom,
    {
        ChooserState {
            project: None,
            current: None,
            counts: StatusCounts { unseen: 0, undecided: 0, selected: 0, rejected: 0 },
            queue: SelectionQueue::MainUnseen,
            review_after_position: None,
            load_state: LoadState::Idle,
            undo_stack: Vec::new(),
            status,
            zoom: false,
        }
    }

    /// Takes fresh counts from the project.
    pub fn refresh_counts(&mut self)
        requires
            old(self).wf(),
        ensures
            final(self).wf(),
            final(self).project == old(self).project,
            final(self).current == old(self).current,
            final(self).queue == old(self).queue,
            final(self).review_after_position == old(self).review_after_position,
            final(self).load_state == old(self).load_state,
            final(self).undo_stack == old(self).undo_stack,
            final(self).status == old(self).status,
            final(self).zoom == old(self).zoom,
            match old(self).project {
                Some(p) => counts_match(final(self).counts, p@.images),
                None => final(self).counts == old(self).counts,
            },
    {
        match &self.project {
            Some(p) => {
                match p.status_counts() {
                    Ok(c) => {
                        self.counts = c;
                    },
                    Err(_) => {},
                }
            },
            None => {},
        }
    }

    /// Starts loading the current picture.
    pub fn load_current_image(&mut self) -> (e: Effect)
        ensures
            final(self).project == old(self).project,
            final(self).current == old(self).current,
            final(self).counts == old(self).counts,
            final(self).queue == old(self).queue,
            final(self).review_after_position == old(self).review_after_position,
            final(self).undo_stack == old(self).undo_stack,
            final(self).status == old(self).status,
            final(self).zoom == old(self).zoom,
            match old(self).current {
                Some(c) => final(self).load_state == LoadState::Loading && (e matches Effect::LoadImage { image_id, path } && image_id == c.id && path@ == c.path@),
                None => final(self).load_state == LoadState::Idle && e == Effect::Nothing,
            },
    {
        match &self.current {
            Some(c) => {
                let e = Effect::LoadImage { image_id: c.id, path: c.path.clone() };
                self.load_state = LoadState::Loading;
                e
            },
            None => {
                self.load_state = LoadState::Idle;
                Effect::Nothing
            },
        }
    }

    /// Shows the next picture of the current queue: the first new picture,
    /// or the first picture put off for later above the last one reviewed.
    /// When the queue is empty nothing is shown and the counts are refreshed.
    pub fn load_next_image(&mut self) -> (e: Effect)
        requires
            old(self).wf(),
        ensures
            final(self).wf(),
            final(self).project == old(self).project,
            final(self).queue == old(self).queue,
            final(self).review_after_position == old(self).review_after_position,
            final(self).undo_stack == old(self).undo_stack,
            final(self).status == old(self).status,
            final(self).zoom == old(self).zoom,
            next_shown(old(self).project, old(self).queue, old(self).review_after_position, old(self).current, old(self).counts, old(self).load_state, *final(self), e),
    {
        let next = match &self.project {
            Some(p) => match self.queue {
                SelectionQueue::MainUnseen => p.next_unseen(),
                SelectionQueue::ReviewLater => p.next_undecided_after(self.review_after_position),
            },
            None => {
                return Effect::Nothing;
            },
        };
        match next {
            Ok(Some(image)) => {
                self.current = Some(image);
                self.load_current_image()
            },
            Ok(None) => {
                self.current = None;
                self.load_state = LoadState::Idle;
                self.refresh_counts();
                Effect::Nothing
            },
            Err(_) => Effect::Nothing,
        }
    }

    /// A window on an opened project: counts taken and the first new picture
    /// shown, with the status naming the project.
    pub fn with_project(project: Project, path: &str) -> (r: (ChooserState, Effect))
        requires
            project.wf(),
        ensures
            r.0.wf(),
            r.0.project == Some(project),
            r.0.queue == SelectionQueue::MainUnseen,
            r.0.review_after_position is None,
            r.0.undo_stack@.len() == 0,
            r.0.status@ == "Projekt geladen: "@ + path@,
            !r.0.zoom,
            queue_answer(project@.images, ImageStatus::Unseen, None, opt_record(r.0.current)),
            match r.0.current {
                Some(c) => r.0.load_state == LoadState::Loading && counts_match(r.0.counts, project@.images)
                    && (r.1 matches Effect::LoadImage { image_id, path } && image_id == c.id && path@ == c.path@),
                None => r.0.load_state == LoadState::Idle && r.1 == Effect::Nothing && counts_match(r.0.counts, project@.images),
            },
    {
        let mut status = string_of(&chars_of("Projekt geladen: "));
        push_str(&mut status, path);
        let mut st = ChooserState::new(status);
        st.project = Some(project);
        st.refresh_counts();
        let e = st.load_next_image();
        (st, e)
    }

    /// Switches to the pictures put off for later, from the start.
    pub fn start_review_later(&mut self) -> (e: Effect)
        requires
            old(self).wf(),
        ensures
            final(self).wf(),
            final(self).project == old(self).project,
            final(self).queue == SelectionQueue::ReviewLater,
            final(self).review_after_position is None,
            final(self).undo_stack == old(self).undo_stack,
            final(self).status@ == "Später-Entscheidungen ansehen."@,
            !final(self).zoom,
            next_shown(old(self).project, SelectionQueue::ReviewLater, None, old(self).current, old(self).counts, old(self).load_state, *final(self), e),
    {
        self.queue = SelectionQueue::ReviewLater;
        self.review_after_position = None;
        self.zoom = false;
        self.status = string_of(&chars_of("Später-Entscheidungen ansehen."));
        self.load_next_image()
    }

    /// Switches back to the new pictures.
    pub fn exit_review_later(&mut self) -> (e: Effect)
        requires
            old(self).wf(),
        ensures
            final(self).wf(),
            final(self).project == old(self).project,
            final(self).queue == SelectionQueue::MainUnseen,
            final(self).review_after_position is None,
            final(self).undo_stack == old(self).undo_stack,
            final(self).status@ == "Zurück zur normalen Auswahl."@,
            !final(self).zoom,
            next_shown(old(self).project, SelectionQueue::MainUnseen, None, old(self).current, old(self).counts, old(self).load_state, *final(self), e),
    {
        self.queue = SelectionQueue::MainUnseen;
        self.review_after_position = None;
        self.zoom = false;
        self.status = string_of(&chars_of("Zurück zur normalen Auswahl."));
        self.load_next_image()
    }

    /// Leaves the zoom view.
    pub fn close_zoom(&mut self)
        ensures
            final(self).project == old(self).project,
            final(self).current == old(self).current,
            final(self).counts == old(self).counts,
            final(self).queue == old(self).queue,
            final(self).review_after_position == old(self).review_after_position,
            final(self).load_state == old(self).load_state,
            final(self).undo_stack == old(self).undo_stack,
            final(self).status == old(self).status,
            !final(self).zoom,
    {
        self.zoom = false;
    }

    /// Scrolling the mouse wheel over the picture: scrolling in opens the
    /// zoom view when a picture is shown, scrolling out leaves it.
    pub fn scroll_zoom(&mut self, zoom_in: bool)
        ensures
            final(self).project == old(self).project,
            final(self).current == old(self).current,
            final(self).counts == old(self).counts,
            final(self).queue == old(self).queue,
            final(self).review_after_position == old(self).review_after_position,
            final(self).load_state == old(self).load_state,
            final(self).undo_stack == old(self).undo_stack,
            final(self).status == old(self).status,
            final(self).zoom == if zoom_in {
                old(self).zoom || old(self).current is Some
            } else {
                false
            },
    {
        if zoom_in {
            if self.current.is_some() {
                self.zoom = true;
            }
        } else {
            self.zoom = false;
        }
    }

    /// What a key asks for: the choice keys and undo only act outside the
    /// zoom view; Escape leaves the zoom view.
    pub fn apply_keyboard_shortcut(&mut self, shortcut: KeyboardShortcut) -> (r: Option<KeyCommand>)
        ensures
            final(self).project == old(self).project,
            final(self).current == old(self).current,
            final(self).counts == old(self).counts,
            final(self).queue == old(self).queue,
            final(self).review_after_position == old(self).review_after_position,
            final(self).load_state == old(self).load_state,
            final(self).undo_stack == old(self).undo_stack,
            final(self).status == old(self).status,
            final(self).zoom == (old(self).zoom && shortcut != KeyboardShortcut::Escape),
            r == match shortcut {
                KeyboardShortcut::Select => if old(self).zoom { None } else { Some(KeyCommand::Choose(ChoiceAction::Select)) },
                KeyboardShortcut::Reject => if old(self).zoom { None } else { Some(KeyCommand::Choose(ChoiceAction::Reject)) },
                KeyboardShortcut::Later => if old(self).zoom { None } else { Some(KeyCommand::Choose(ChoiceAction::Later)) },
                KeyboardShortcut::Undo => if old(self).zoom { None } else { Some(KeyCommand::Undo) },
                KeyboardShortcut::Escape => None::<KeyCommand>,
            },
    {
        match shortcut {
            KeyboardShortcut::Select => if self.zoom { None } else { Some(KeyCommand::Choose(ChoiceAction::Select)) },
            KeyboardShortcut::Reject => if self.zoom { None } else { Some(KeyCommand::Choose(ChoiceAction::Reject)) },
            KeyboardShortcut::Later => if self.zoom { None } else { Some(KeyCommand::Choose(ChoiceAction::Later)) },
            KeyboardShortcut::Undo => if self.zoom { None } else { Some(KeyCommand::Undo) },
            KeyboardShortcut::Escape => {
                self.zoom = false;
                None
            },
        }
    }

    /// The write a choice needs: the status for the shown picture, stamped
    /// with `now`; none without a shown picture or a project.
    pub fn choice_write(&self, action: ChoiceAction, now: &str) -> (r: Option<StatusWrite>)
        ensures
            match r {
                Some(w) => (self.current matches Some(c) && w.image_id == c.id) && self.project is Some
                    && w.status == status_for(action) && w.now@ == now@,
                None => self.current is None || self.project is None,
            },
    {
        match (&self.current, &self.project) {
            (Some(c), Some(_)) => Some(StatusWrite { image_id: c.id, status: status_for_action(action), now: string_of(&chars_of(now)) }),
            _ => None,
        }
    }

    /// Takes a choice for the shown picture once its write has been
    /// attempted. When it was saved, the choice can be undone, the picture
    /// gets its status, the next picture of the queue is shown (in the later
    /// queue, the next one after this picture) and the status says what was
    /// saved. When saving failed, only the status changes, to the error.
    pub fn apply_choice(&mut self, action: ChoiceAction, now: &str, saved: Result<(), Error>) -> (e: Effect)
        requires
            old(self).wf(),
            old(self).current is Some,
            old(self).project is Some,
        ensures
            final(self).wf(),
            ({
                let c = old(self).current.unwrap();
                let p = old(self).project.unwrap();
                match saved {
                    Ok(()) => {
                        let review = if old(self).queue == SelectionQueue::ReviewLater {
                            Some(c.position)
                        } else {
                            old(self).review_after_position
                        };
                        &&& final(self).undo_stack@ == old(self).undo_stack@.push(UndoAction {
                            image_id: c.id,
                            previous_status: c.status,
                            queue: old(self).queue,
                            review_after_position: old(self).review_after_position,
                        })
                        &&& !final(self).zoom
                        &&& final(self).queue == old(self).queue
                        &&& final(self).review_after_position == review
                        &&& final(self).status@ == choice_status(action)
                        &&& (final(self).project matches Some(q) && q@ == ProjectView {
                            images: update_id(p@.images, c.id as int, status_change(status_for(action), now@)),
                            ..p@
                        })
                        &&& next_shown(final(self).project, old(self).queue, review, old(self).current, final(self).counts, old(self).load_state, *final(self), e)
                        &&& (final(self).current is Some ==> counts_match(final(self).counts, final(self).project.unwrap()@.images))
                    },
                    Err(err) => {
                        &&& final(self).status@ == "Auswahl konnte nicht gespeichert werden: "@ + error_message(err)
                        &&& final(self).project == old(self).project
                        &&& final(self).current == old(self).current
                        &&& final(self).counts == old(self).counts
                        &&& final(self).queue == old(self).queue
                        &&& final(self).review_after_position == old(self).review_after_position
                        &&& final(self).load_state == old(self).load_state
                        &&& final(self).undo_stack == old(self).undo_stack
                        &&& final(self).zoom == old(self).zoom
                        &&& e == Effect::Nothing
                    },
                }
            }),
    {
        match saved {
            Err(err) => {
                let mut m = string_of(&chars_of("Auswahl konnte nicht gespeichert werden: "));
                let em = err.message();
                push_str(&mut m, em.as_str());
                self.status = m;
                Effect::Nothing
            },
            Ok(()) => {
                let (id, previous, position) = match &self.current {
                    Some(c) => (c.id, c.status, c.position),
                    None => {
                        return Effect::Nothing;
                    },
                };
                let mut project = match self.project.take() {
                    Some(p) => p,
                    None => {
                        return Effect::Nothing;
                    },
                };
                project.set_status_at(id, status_for_action(action), now);
                self.project = Some(project);
                self.undo_stack.push(UndoAction {
                    image_id: id,
                    previous_status: previous,
                    queue: self.queue,
                    review_after_position: self.review_after_position,
                });
                self.zoom = false;
                if self.queue == SelectionQueue::ReviewLater {
                    self.review_after_position = Some(position);
                }
                self.status = string_of(&chars_of(choice_status_text(action)));
                self.refresh_counts();
                self.load_next_image()
            },
        }
    }
}

impl ChooserState {
    /// The write an undo needs: the previous status of the last choice,
    /// stamped with `now`; none when there is nothing to undo.
    pub fn undo_write(&self, now: &str) -> (r: Option<StatusWrite>)
        ensures
            match r {
                Some(w) => self.undo_stack@.len() > 0 && w.image_id == self.undo_stack@.last().image_id
                    && w.status == self.undo_stack@.last().previous_status && w.now@ == now@,
                None => self.undo_stack@.len() == 0,
            },
    {
        let n = self.undo_stack.len();
        if n == 0 {
            None
        } else {
            let u = self.undo_stack[n - 1];
            Some(StatusWrite { image_id: u.image_id, status: u.previous_status, now: string_of(&chars_of(now)) })
        }
    }

    /// Takes back the last choice once its write has been attempted; the
    /// choice leaves the undo stack either way. When the previous status was
    /// saved, the chooser returns to the queue and position it had, and the
    /// picture is shown again (or, if it is gone, the next one of the queue).
    /// When saving failed, only the status changes, to the error.
    pub fn undo_last_choice(&mut self, now: &str, saved: Result<(), Error>) -> (e: Effect)
        requires
            old(self).wf(),
            old(self).undo_stack@.len() > 0,
        ensures
            final(self).wf(),
            final(self).undo_stack@ == old(self).undo_stack@.drop_last(),
            ({
                let u = old(self).undo_stack@.last();
                let p = old(self).project.unwrap();
                match saved {
                    Err(err) => {
                        &&& final(self).status@ == "Rückgängig konnte nicht gespeichert werden: "@ + error_message(err)
                        &&& final(self).project == old(self).project
                        &&& final(self).current == old(self).current
                        &&& final(self).counts == old(self).counts
                        &&& final(self).queue == old(self).queue
                        &&& final(self).review_after_position == old(self).review_after_position
                        &&& final(self).load_state == old(self).load_state
                        &&& final(self).zoom == old(self).zoom
                        &&& e == Effect::Nothing
                    },
                    Ok(()) => {
                        let images = update_id(p@.images, u.image_id as int, status_change(u.previous_status, now@));
                        &&& (final(self).project matches Some(q) && q@ == ProjectView { images: images, ..p@ })
                        &&& final(self).queue == u.queue
                        &&& final(self).review_after_position == u.review_after_position
                        &&& !final(self).zoom
                        &&& if exists|i: int| 0 <= i < images.len() && images[i].id == u.image_id {
                            &&& (final(self).current matches Some(c) && exists|i: int|
                                0 <= i < images.len() && images[i] == c@ && c.id == u.image_id
                                    && forall|j: int| 0 <= j < i ==> images[j].id != u.image_id)
                            &&& final(self).status@ == "Rückgängig gemacht."@
                            &&& final(self).load_state == LoadState::Loading
                            &&& counts_match(final(self).counts, images)
                            &&& (e matches Effect::LoadImage { image_id, path } && image_id == u.image_id
                                && path@ == final(self).current.unwrap().path@)
                        } else {
                            &&& final(self).status@ == "Bild für Rückgängig wurde nicht gefunden."@
                            &&& ({
                                let (st, bound) = queue_query(u.queue, u.review_after_position);
                                queue_answer(images, st, bound, opt_record(final(self).current))
                            })
                            &&& match final(self).current {
                                Some(c) => final(self).load_state == LoadState::Loading
                                    && counts_match(final(self).counts, images)
                                    && (e matches Effect::LoadImage { image_id, path } && image_id == c.id && path@ == c.path@),
                                None => final(self).load_state == LoadState::Idle && e == Effect::Nothing
                                    && counts_match(final(self).counts, images),
                            }
                        }
                    },
                }
            }),
    {
        let u = match self.undo_stack.pop() {
            Some(u) => u,
            None => {
                return Effect::Nothing;
            },
        };
        match saved {
            Err(err) => {
                let mut m = string_of(&chars_of("Rückgängig konnte nicht gespeichert werden: "));
                let em = err.message();
                push_str(&mut m, em.as_str());
                self.status = m;
                Effect::Nothing
            },
            Ok(()) => {
                let mut project = match self.project.take() {
                    Some(p) => p,
                    None => {
                        return Effect::Nothing;
                    },
                };
                project.set_status_at(u.image_id, u.previous_status, now);
                let found = project.image_by_id(u.image_id);
                self.project = Some(project);
                self.queue = u.queue;
                self.review_after_position = u.review_after_position;
                self.zoom = false;
                self.refresh_counts();
                match found {
                    Ok(Some(image)) => {
                        self.current = Some(image);
                        self.status = string_of(&chars_of("Rückgängig gemacht."));
                        self.load_current_image()
                    },
                    Ok(None) => {
                        self.status = string_of(&chars_of("Bild für Rückgängig wurde nicht gefunden."));
                        self.load_next_image()
                    },
                    Err(_) => Effect::Nothing,
                }
            },
        }
    }

    /// The write that records how loading the shown picture went: its stored
    /// error is cleared, or set to the message, stamped with `now`. None
    /// when the picture is no longer shown or there is no project.
    pub fn image_load_write(&self, image_id: i64, result: &Result<(), String>, now: &str) -> (r: Option<ErrorWrite>)
        ensures
            match r {
                Some(w) => (self.current matches Some(c) && c.id == image_id) && self.project is Some
                    && w.image_id == image_id && w.now@ == now@ && match result {
                        Ok(()) => w.message is None,
                        Err(m) => w.message matches Some(x) && x@ == m@,
                    },
                None => !(self.current matches Some(c) && c.id == image_id) || self.project is None,
            },
    {
        match (&self.current, &self.project) {
            (Some(c), Some(_)) => {
                if c.id != image_id {
                    return None;
                }
                let message = match result {
                    Ok(()) => None,
                    Err(m) => Some(m.clone()),
                };
                Some(ErrorWrite { image_id, message, now: string_of(&chars_of(now)) })
            },
            _ => None,
        }
    }

    /// Takes the outcome of loading a picture, once its write has been
    /// attempted. An outcome for a picture that is no longer shown is
    /// ignored. Otherwise the picture counts as loaded or failed; a saved
    /// write updates its stored error, and a failed write is reported in the
    /// status.
    pub fn finish_image_load(&mut self, image_id: i64, result: Result<(), String>, now: &str, saved: Result<(), Error>)
        requires
            old(self).wf(),
        ensures
            final(self).wf(),
            final(self).current == old(self).current,
            final(self).counts == old(self).counts,
            final(self).queue == old(self).queue,
            final(self).review_after_position == old(self).review_after_position,
            final(self).undo_stack == old(self).undo_stack,
            final(self).zoom == old(self).zoom,
            if old(self).current matches Some(c) && c.id == image_id {
                &&& match result {
                    Ok(()) => final(self).load_state == LoadState::Loaded,
                    Err(m) => final(self).load_state matches LoadState::Failed { message } && message@ == m@,
                }
                &&& match old(self).project {
                    None => final(self).project == old(self).project && final(self).status == old(self).status,
                    Some(p) => match saved {
                        Ok(()) => {
                            &&& final(self).status == old(self).status
                            &&& final(self).project matches Some(q) && q@ == ProjectView {
                                images: update_id(p@.images, image_id as int, error_change(
                                    match result {
                                        Ok(()) => None,
                                        Err(m) => Some(m@),
                                    },
                                    now@,
                                )),
                                ..p@
                            }
                        },
                        Err(err) => {
                            &&& final(self).project == old(self).project
                            &&& final(self).status@ == match result {
                                Ok(()) => "Bild geladen, Fehlerstatus konnte nicht gelöscht werden: "@,
                                Err(_) => "Bildfehler konnte nicht gespeichert werden: "@,
                            } + error_message(err)
                        },
                    },
                }
            } else {
                &&& final(self).project == old(self).project
                &&& final(self).status == old(self).status
                &&& final(self).load_state == old(self).load_state
            },
    {
        let shown = match &self.current {
            Some(c) => c.id == image_id,
            None => false,
        };
        if !shown {
            return;
        }
        match self.project.take() {
            Some(mut project) => {
                match saved {
                    Ok(()) => {
                        match &result {
                            Ok(()) => project.clear_last_error_at(image_id, now),
                            Err(m) => project.store_last_error_at(image_id, m.as_str(), now),
                        }
                    },
                    Err(err) => {
                        let prefix = match &result {
                            Ok(()) => "Bild geladen, Fehlerstatus konnte nicht gelöscht werden: ",
                            Err(_) => "Bildfehler konnte nicht gespeichert werden: ",
                        };
                        let mut m = string_of(&chars_of(prefix));
                        let em = err.message();
                        push_str(&mut m, em.as_str());
                        self.status = m;
                    },
                }
                self.project = Some(project);
            },
            None => {},
        }
        self.load_state = match result {
            Ok(()) => LoadState::Loaded,
            Err(message) => LoadState::Failed { message },
        };
    }

    /// The screen to show: the zoom view, the setup hint without a project,
    /// the completion screen without a picture, else the chooser.
    pub fn screen(&self) -> (r: Screen)
        ensures
            r == if self.zoom {
                Screen::Zoom
            } else if self.project is None {
                Screen::Setup
            } else if self.current is None {
                Screen::Completion
            } else {
                Screen::Selection
            },
    {
        if self.zoom {
            Screen::Zoom
        } else if self.project.is_none() {
            Screen::Setup
        } else if self.current.is_none() {
            Screen::Completion
        } else {
            Screen::Selection
        }
    }

    /// Whether the completion screen offers the pictures put off for later.
    pub fn offers_review_later(&self) -> (r: bool)
        ensures
            r == (self.queue == SelectionQueue::MainUnseen && self.counts.undecided > 0),
    {
        self.queue == SelectionQueue::MainUnseen && self.counts.undecided > 0
    }

    /// Whether the completion screen offers the way back to new pictures.
    pub fn offers_exit_review(&self) -> (r: bool)
        ensures
            r == (self.queue == SelectionQueue::ReviewLater),
    {
        self.queue == SelectionQueue::ReviewLater
    }

    /// Whether the undo button is active.
    pub fn can_undo(&self) -> (r: bool)
        ensures
            r == (self.undo_stack@.len() > 0),
    {
        self.undo_stack.len() > 0
    }
}

/// The counts line of the window.
pub open spec fn counts_line(c: StatusCounts) -> Seq<char> {
    "Neu: "@ + signed_decimal(c.unseen as int) + " · Ausgewählt: "@ + signed_decimal(c.selected as int)
        + " · Später: "@ + signed_decimal(c.undecided as int) + " · Abgelehnt: "@ + signed_decimal(c.rejected as int)
}

/// The counts line of the window: new, selected, later and rejected pictures.
pub fn counts_text(counts: StatusCounts) -> (r: String)
    ensures
        r@ == counts_line(counts),
{
    let mut s = string_of(&chars_of("Neu: "));
    push_signed(&mut s, counts.unseen);
    push_str(&mut s, " · Ausgewählt: ");
    push_signed(&mut s, counts.selected);
    push_str(&mut s, " · Später: ");
    push_signed(&mut s, counts.undecided);
    push_str(&mut s, " · Abgelehnt: ");
    push_signed(&mut s, counts.rejected);
    s
}

/// The name of a queue, as shown above the picture.
pub fn queue_text(queue: SelectionQueue) -> (r: &'static str)
    ensures
        r@ == match queue {
            SelectionQueue::MainUnseen => "Neue Bilder"@,
            SelectionQueue::ReviewLater => "Später ansehen"@,
        },
{
    match queue {
        SelectionQueue::MainUnseen => "Neue Bilder",
        SelectionQueue::ReviewLater => "Später ansehen",
    }
}

/// The title of the completion screen of a queue.
pub fn completion_text(queue: SelectionQueue) -> (r: &'static str)
    ensures
        r@ == match queue {
            SelectionQueue::MainUnseen => "Fertig: keine neuen Bilder mehr"@,
            SelectionQueue::ReviewLater => "Fertig: keine Später-Bilder mehr"@,
        },
{
    match queue {
        SelectionQueue::MainUnseen => "Fertig: keine neuen Bilder mehr",
        SelectionQueue::ReviewLater => "Fertig: keine Später-Bilder mehr",
    }
}

fn message_with(prefix: &str, detail: &str) -> (r: String)
    ensures
        r@ == prefix@ + detail@,
{
    let mut s = string_of(&chars_of(prefix));
    push_str(&mut s, detail);
    s
}

/// The status when no project was given and the default one does not exist.
pub fn no_project_status(default_path: &str) -> (r: String)
    ensures
        r@ == "Noch kein Projekt geladen. Standardpfad wäre: "@ + default_path@,
{
    message_with("Noch kein Projekt geladen. Standardpfad wäre: ", default_path)
}

/// The status when the default project path cannot be determined.
pub fn default_path_failed_status(error: &Error) -> (r: String)
    ensures
        r@ == "Standard-Projektpfad konnte nicht bestimmt werden: "@ + error_message(*error),
{
    let m = error.message();
    message_with("Standard-Projektpfad konnte nicht bestimmt werden: ", m.as_str())
}

/// The status when the project cannot be opened.
pub fn open_failed_status(error: &Error) -> (r: String)
    ensures
        r@ == "Projekt konnte nicht geöffnet werden: "@ + error_message(*error),
{
    let m = error.message();
    message_with("Projekt konnte nicht geöffnet werden: ", m.as_str())
}

/// The name shown in the zoom view: the shown picture's name, or `Kein Bild`.
pub fn zoom_title(current: &Option<ImageChoice>) -> (r: String)
    ensures
        r@ == match current {
            Some(c) => crate::image::display_name(c.path@),
            None => "Kein Bild"@,
        },
{
    match current {
        Some(c) => c.filename(),
        None => string_of(&chars_of("Kein Bild")),
    }
}

/// What `load_next_image` does, given the project, the queue and the bound
/// it runs on and the parts of the state it may change.
pub open spec fn next_shown(
    project: Option<Project>,
    queue: SelectionQueue,
    review_after: Option<i64>,
    current_before: Option<ImageChoice>,
    counts_before: StatusCounts,
    load_before: LoadState,
    after: ChooserState,
    e: Effect,
) -> bool {
    match project {
        None => after.current == current_before && after.counts == counts_before
            && after.load_state == load_before && e == Effect::Nothing,
        Some(p) => {
            let (st, bound) = queue_query(queue, review_after);
            &&& queue_answer(p@.images, st, bound, opt_record(after.current))
            &&& match after.current {
                Some(c) => after.load_state == LoadState::Loading && after.counts == counts_before
                    && (e matches Effect::LoadImage { image_id, path } && image_id == c.id && path@ == c.path@),
                None => after.load_state == LoadState::Idle && e == Effect::Nothing && counts_match(after.counts, p@.images),
            }
        },
    }
}

/// The status text after a saved choice.
pub open spec fn choice_status(action: ChoiceAction) -> Seq<char> {
    match action {
        ChoiceAction::Select => "Gespeichert: Ja, drucken."@,
        ChoiceAction::Reject => "Gespeichert: Nein, nicht drucken."@,
        ChoiceAction::Later => "Gespeichert: Später entscheiden."@,
    }
}

/// The status text after a saved choice.
pub fn choice_status_text(action: ChoiceAction) -> (r: &'static str)
    ensures
        r@ == choice_status(action),
{
    match action {
        ChoiceAction::Select => "Gespeichert: Ja, drucken.",
        ChoiceAction::Reject => "Gespeichert: Nein, nicht drucken.",
        ChoiceAction::Later => "Gespeichert: Später entscheiden.",
    }
}

} // verus!
