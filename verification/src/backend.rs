//! What a portal backend receives and answers: the options of an access
//! dialog and the answer to it, the options of a screen cast selection, and
//! the life of a request object.

pub mod account;
pub mod email;
pub mod screenshot;
pub mod wallpaper;

use vstd::prelude::*;
use crate::file_chooser::{Choice, ChoiceView, choices_view, pairs_view};
use crate::icon::Icon;
use crate::request::Response;
use crate::screencast::{CursorMode, PersistMode};
use crate::text::{owned, opt_text, opt_str};

verus! {

/// The options of an access dialog.
#[derive(Debug)]
pub struct AccessOptions {
    modal: Option<bool>,
    deny_label: Option<String>,
    grant_label: Option<String>,
    icon: Option<String>,
    choices: Option<Vec<Choice>>,
}

/// The model of an [`AccessOptions`].
pub struct AccessOptionsView {
    pub modal: Option<bool>,
    pub deny_label: Option<Seq<char>>,
    pub grant_label: Option<Seq<char>>,
    pub icon: Option<Seq<char>>,
    pub choices: Option<Seq<ChoiceView>>,
}

impl View for AccessOptions {
    type V = AccessOptionsView;

    closed spec fn view(&self) -> AccessOptionsView {
        AccessOptionsView {
            modal: self.modal,
            deny_label: opt_text(self.deny_label),
            grant_label: opt_text(self.grant_label),
            icon: opt_text(self.icon),
            choices: match self.choices {
                Some(c) => Some(choices_view(c@)),
                None => None,
            },
        }
    }
}

impl AccessOptions {
    /// The options as received.
    pub fn new(
        modal: Option<bool>,
        deny_label: Option<String>,
        grant_label: Option<String>,
        icon: Option<String>,
        choices: Option<Vec<Choice>>,
    ) -> (o: AccessOptions)
        ensures
            o@.modal == modal,
            o@.deny_label == opt_text(deny_label),
            o@.grant_label == opt_text(grant_label),
            o@.icon == opt_text(icon),
            o@.choices == match choices {
                Some(c) => Some(choices_view(c@)),
                None => None,
            },
    {
        AccessOptions { modal, deny_label, grant_label, icon, choices }
    }

    /// Whether the dialog should be modal.
    pub fn is_modal(&self) -> (b: Option<bool>)
        ensures
            b == self@.modal,
    {
        self.modal
    }

    /// The label of the deny button.
    pub fn deny_label(&self) -> (s: Option<&str>)
        ensures
            opt_str(s) == self@.deny_label,
    {
        match &self.deny_label {
            Some(s) => Some(s.as_str()),
            None => None,
        }
    }

    /// The label of the grant button.
    pub fn grant_label(&self) -> (s: Option<&str>)
        ensures
            opt_str(s) == self@.grant_label,
    {
        match &self.grant_label {
            Some(s) => Some(s.as_str()),
            None => None,
        }
    }

    /// The icon: a themed icon with the given name.
    pub fn icon(&self) -> (i: Option<Icon>)
        ensures
            match i {
                Some(Icon::Names(n)) => self@.icon matches Some(name) && n@.len() == 1 && n@[0]@ == name,
                Some(_) => false,
                None => self@.icon is None,
            },
    {
        match &self.icon {
            Some(name) => {
                let mut names: Vec<String> = Vec::new();
                names.push(owned(name.as_str()));
                Some(Icon::with_names(names))
            },
            None => None,
        }
    }

    /// The choices to offer; none where the options hold none.
    pub fn choices(&self) -> (c: &[Choice])
        ensures
            choices_view(c@) == match self@.choices {
                Some(v) => v,
                None => Seq::<ChoiceView>::empty(),
            },
    {
        match &self.choices {
            Some(v) => v.as_slice(),
            None => {
                let e: &[Choice] = &[];
                assert(choices_view(e@) =~= Seq::<ChoiceView>::empty());
                e
            },
        }
    }
}

/// The answer to an access dialog: the choices the user made.
#[derive(Debug)]
pub struct AccessResponse {
    choices: Option<Vec<(String, String)>>,
}

impl View for AccessResponse {
    type V = Option<Seq<(Seq<char>, Seq<char>)>>;

    closed spec fn view(&self) -> Option<Seq<(Seq<char>, Seq<char>)>> {
        match self.choices {
            Some(c) => Some(pairs_view(c@)),
            None => None,
        }
    }
}

impl AccessResponse {
    /// An answer with no choices.
    pub fn default() -> (r: AccessResponse)
        ensures
            r@ is None,
    {
        AccessResponse { choices: None }
    }

    /// Adds a selected choice (key, value).
    pub fn choice(self, key: &str, value: &str) -> (r: AccessResponse)
        ensures
            r@ == Some(
                match self@ {
                    Some(c) => c,
                    None => Seq::<(Seq<char>, Seq<char>)>::empty(),
                }.push((key@, value@)),
            ),
    {
        let mut choices = match self.choices {
            Some(c) => c,
            None => Vec::new(),
        };
        let ghost before = choices@;
        choices.push((owned(key), owned(value)));
        assert(pairs_view(choices@) =~= pairs_view(before).push((key@, value@)));
        proof {
            if self@ is None {
                assert(pairs_view(before) =~= Seq::<(Seq<char>, Seq<char>)>::empty());
            }
        }
        AccessResponse { choices: Some(choices) }
    }
}

/// The options a backend receives with a request to select the sources of
/// a screen cast.
#[derive(Debug)]
pub struct SelectSourcesOptions {
    types: Option<u32>,
    multiple: Option<bool>,
    cursor_mode: Option<CursorMode>,
    restore_token: Option<String>,
    persist_mode: Option<PersistMode>,
}

impl SelectSourcesOptions {
    /// The options as received.
    pub fn new(
        types: Option<u32>,
        multiple: Option<bool>,
        cursor_mode: Option<CursorMode>,
        restore_token: Option<String>,
        persist_mode: Option<PersistMode>,
    ) -> (o: SelectSourcesOptions)
        ensures
            o.spec_types() == types,
            o.spec_multiple() == multiple,
            o.spec_cursor_mode() == cursor_mode,
            o.spec_restore_token() == opt_text(restore_token),
            o.spec_persist_mode() == persist_mode,
    {
        SelectSourcesOptions { types, multiple, cursor_mode, restore_token, persist_mode }
    }

    /// The source types, as received.
    pub closed spec fn spec_types(self) -> Option<u32> {
        self.types
    }

    /// Whether several sources may be selected, as received.
    pub closed spec fn spec_multiple(self) -> Option<bool> {
        self.multiple
    }

    /// The cursor mode, as received.
    pub closed spec fn spec_cursor_mode(self) -> Option<CursorMode> {
        self.cursor_mode
    }

    /// The restore token, as received.
    pub closed spec fn spec_restore_token(self) -> Option<Seq<char>> {
        opt_text(self.restore_token)
    }

    /// The persistence mode, as received.
    pub closed spec fn spec_persist_mode(self) -> Option<PersistMode> {
        self.persist_mode
    }

    /// What types of content to record, as source type bits.
    pub fn types(&self) -> (t: Option<u32>)
        ensures
            t == self.spec_types(),
    {
        self.types
    }

    /// Whether to allow selecting multiple sources.
    pub fn is_multiple(&self) -> (b: Option<bool>)
        ensures
            b == self.spec_multiple(),
    {
        self.multiple
    }

    /// How the cursor will be drawn in the screen cast stream.
    pub fn cursor_mode(&self) -> (c: Option<CursorMode>)
        ensures
            c == self.spec_cursor_mode(),
    {
        self.cursor_mode
    }

    /// The token of a session to restore.
    pub fn restore_token(&self) -> (t: Option<&str>)
        ensures
            opt_str(t) == self.spec_restore_token(),
    {
        match &self.restore_token {
            Some(s) => Some(s.as_str()),
            None => None,
        }
    }

    /// How long the selection persists.
    pub fn persist_mode(&self) -> (p: Option<PersistMode>)
        ensures
            p == self.spec_persist_mode(),
    {
        self.persist_mode
    }
}

/// The answer to a request to select the sources of a screen cast; it holds
/// nothing.
#[derive(Debug)]
pub struct SelectSourcesResponse {}

/// What a backend's implementation of a request offers: a way to close it.
pub trait RequestImpl {
    /// Called when the request is closed before it was answered.
    fn close(&self);
}

/// The state of a request once it was closed: its callback run or being
/// run, its work aborted.
pub open spec fn closed_request() -> (bool, bool) {
    (false, true)
}

/// Closing a request twice runs its close callback at most once: the second
/// close, made on the state the first one left, never runs it, and leaves
/// that state as it is. Each close here is described by what `close`
/// ensures: the callback runs where the state before had it pending, and
/// the state after is the closed one.
pub proof fn lemma_close_runs_callback_once(
    before: (bool, bool),
    first_run: bool,
    between: (bool, bool),
    second_run: bool,
    after: (bool, bool),
)
    requires
        first_run == before.0,
        between == closed_request(),
        second_run == between.0,
        after == closed_request(),
    ensures
        !second_run,
        !(first_run && second_run),
        after == between,
        after.1,
{
}

/// The life of a request object that a backend serves: it is answered once,
/// and a close runs the implementation's close callback at most once.
#[derive(Debug)]
pub struct RequestState {
    callback_pending: bool,
    aborted: bool,
}

impl View for RequestState {
    type V = (bool, bool);

    closed spec fn view(&self) -> (bool, bool) {
        (self.callback_pending, self.aborted)
    }
}

impl RequestState {
    /// A request being served: its close callback not run, its work not
    /// aborted.
    pub fn new() -> (s: RequestState)
        ensures
            s@ == (true, false),
    {
        RequestState { callback_pending: true, aborted: false }
    }

    /// Closes the request: aborts its work and tells whether the close
    /// callback is to run now, which it is on the first close only.
    pub fn close(&mut self) -> (run_callback: bool)
        ensures
            run_callback == old(self)@.0,
            final(self)@ == closed_request(),
    {
        let run = self.callback_pending;
        self.callback_pending = false;
        self.aborted = true;
        run
    }

    /// Whether the request's work was aborted.
    pub fn is_aborted(&self) -> (b: bool)
        ensures
            b == self@.1,
    {
        self.aborted
    }

    /// The answer of the request: what its work gave, or the cancelled
    /// answer where the work was aborted before it gave one.
    pub fn answer<T>(&self, outcome: Option<Response<T>>) -> (r: Response<T>)
        ensures
            match outcome {
                Some(o) => r == o,
                None => r is Failure && r->Failure_0 == crate::request::ResponseError::Cancelled,
            },
    {
        match outcome {
            Some(o) => o,
            None => Response::cancelled(),
        }
    }
}

} // verus!
