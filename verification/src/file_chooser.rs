//! The file chooser portal: file filters, choices, the requests to open and
//! save files, and the files the user selected.

use vstd::prelude::*;
use crate::handle_token::{is_fresh_token, HandleToken};
use crate::text::{owned, opt_owned, owned_or_empty, opt_str, str_or_empty, opt_text, text_or_empty, string_or_empty, opt_bytes};

verus! {

/// What a file filter entry matches on.
#[derive(Debug, Clone, Copy, PartialEq, Eq, Structural)]
pub enum FilterType {
    /// A glob pattern.
    GlobPattern,
    /// A mime type.
    MimeType,
}

impl FilterType {
    /// The number that stands for the kind on the bus.
    pub fn code(self) -> (n: u32)
        ensures
            n == filter_type_code(self),
    {
        match self {
            FilterType::GlobPattern => 0,
            FilterType::MimeType => 1,
        }
    }
}

/// The number of a filter kind on the bus.
pub open spec fn filter_type_code(t: FilterType) -> u32 {
    match t {
        FilterType::GlobPattern => 0,
        FilterType::MimeType => 1,
    }
}

/// What `filter_type_code` gives, value by value, each different from the others:
/// GlobPattern is 0; MimeType is 1.
pub proof fn lemma_filter_type_code_values(x: FilterType)
    ensures
        (filter_type_code(x) == 0) == (x is GlobPattern),
        (filter_type_code(x) == 1) == (x is MimeType),
{
}

/// A file filter, to limit the available file choices to a mimetype or a
/// glob pattern.
#[derive(Debug)]
pub struct FileFilter {
    label: String,
    entries: Vec<(FilterType, String)>,
}

/// The model of a file filter: its label and its entries in order.
pub struct FileFilterView {
    pub label: Seq<char>,
    pub entries: Seq<(FilterType, Seq<char>)>,
}

/// The model of one filter entry.
pub open spec fn entry_view(e: (FilterType, String)) -> (FilterType, Seq<char>) {
    (e.0, e.1@)
}

impl View for FileFilter {
    type V = FileFilterView;

    closed spec fn view(&self) -> FileFilterView {
        FileFilterView { label: self.label@, entries: self.entries@.map_values(|e: (FilterType, String)| entry_view(e)) }
    }
}

impl FileFilter {
    /// A new file filter with the given user-visible name and no entries.
    pub fn new(label: &str) -> (f: FileFilter)
        ensures
            f@.label == label@,
            f@.entries == Seq::<(FilterType, Seq<char>)>::empty(),
    {
        let f = FileFilter { label: owned(label), entries: Vec::new() };
        assert(f@.entries =~= Seq::<(FilterType, Seq<char>)>::empty());
        f
    }

    fn push_entry(self, kind: FilterType, text: &str) -> (f: FileFilter)
        ensures
            f@.label == self@.label,
            f@.entries == self@.entries.push((kind, text@)),
    {
        let mut f = self;
        let ghost old_entries = f.entries@;
        f.entries.push((kind, owned(text)));
        assert(f.entries@.map_values(|e: (FilterType, String)| entry_view(e)) =~= old_entries.map_values(
            |e: (FilterType, String)| entry_view(e),
        ).push((kind, text@)));
        f
    }

    /// Adds a mime type to the file filter.
    pub fn mimetype(self, mimetype: &str) -> (f: FileFilter)
        ensures
            f@.label == self@.label,
            f@.entries == self@.entries.push((FilterType::MimeType, mimetype@)),
    {
        self.push_entry(FilterType::MimeType, mimetype)
    }

    /// Adds a glob pattern to the file filter.
    pub fn glob(self, pattern: &str) -> (f: FileFilter)
        ensures
            f@.label == self@.label,
            f@.entries == self@.entries.push((FilterType::GlobPattern, pattern@)),
    {
        self.push_entry(FilterType::GlobPattern, pattern)
    }

    /// The user-visible name of the filter.
    pub fn label(&self) -> (s: &str)
        ensures
            s@ == self@.label,
    {
        self.label.as_str()
    }

    /// The number of entries.
    pub fn len(&self) -> (n: usize)
        ensures
            n == self@.entries.len(),
    {
        self.entries.len()
    }

    /// The entry at index `i`: its kind and its pattern or mime type.
    pub fn entry(&self, i: usize) -> (e: (FilterType, &str))
        requires
            i < self@.entries.len(),
        ensures
            e.0 == self@.entries[i as int].0,
            e.1@ == self@.entries[i as int].1,
    {
        let e = &self.entries[i];
        (e.0, e.1.as_str())
    }
}

/// Presents the user with a choice to select from or as a checkbox.
#[derive(Debug)]
pub struct Choice {
    id: String,
    label: String,
    options: Vec<(String, String)>,
    initial_selection: String,
}

/// The model of a choice.
pub struct ChoiceView {
    pub id: Seq<char>,
    pub label: Seq<char>,
    pub options: Seq<(Seq<char>, Seq<char>)>,
    pub initial_selection: Seq<char>,
}

/// The model of a pair of strings.
pub open spec fn pair_view(p: (String, String)) -> (Seq<char>, Seq<char>) {
    (p.0@, p.1@)
}

/// The models of a list of string pairs.
pub open spec fn pairs_view(v: Seq<(String, String)>) -> Seq<(Seq<char>, Seq<char>)> {
    v.map_values(|p: (String, String)| pair_view(p))
}

impl View for Choice {
    type V = ChoiceView;

    closed spec fn view(&self) -> ChoiceView {
        ChoiceView {
            id: self.id@,
            label: self.label@,
            options: pairs_view(self.options@),
            initial_selection: self.initial_selection@,
        }
    }
}

/// The text of a boolean: `true` or `false`.
pub open spec fn bool_text(b: bool) -> Seq<char> {
    if b {
        seq!['t', 'r', 'u', 'e']
    } else {
        seq!['f', 'a', 'l', 's', 'e']
    }
}

/// The text of a boolean.
pub fn bool_to_string(b: bool) -> (s: String)
    ensures
        s@ == bool_text(b),
{
    if b {
        let s = owned("true");
        proof {
            reveal_strlit("true");
        }
        s
    } else {
        let s = owned("false");
        proof {
            reveal_strlit("false");
        }
        s
    }
}

impl Choice {
    /// A checkbox choice, whose initial selection is the text of `state`.
    pub fn boolean(id: &str, label: &str, state: bool) -> (c: Choice)
        ensures
            c@.id == id@,
            c@.label == label@,
            c@.options == Seq::<(Seq<char>, Seq<char>)>::empty(),
            c@.initial_selection == bool_text(state),
    {
        let s = bool_to_string(state);
        Choice::new(id, label, s.as_str())
    }

    /// A new choice with no options.
    pub fn new(id: &str, label: &str, initial_selection: &str) -> (c: Choice)
        ensures
            c@.id == id@,
            c@.label == label@,
            c@.options == Seq::<(Seq<char>, Seq<char>)>::empty(),
            c@.initial_selection == initial_selection@,
    {
        let c = Choice {
            id: owned(id),
            label: owned(label),
            options: Vec::new(),
            initial_selection: owned(initial_selection),
        };
        assert(c@.options =~= Seq::<(Seq<char>, Seq<char>)>::empty());
        c
    }

    /// Adds a (key, value) as a choice.
    pub fn insert(self, key: &str, value: &str) -> (c: Choice)
        ensures
            c@.id == self@.id,
            c@.label == self@.label,
            c@.options == self@.options.push((key@, value@)),
            c@.initial_selection == self@.initial_selection,
    {
        let mut c = self;
        let ghost old_options = c.options@;
        c.options.push((owned(key), owned(value)));
        assert(pairs_view(c.options@) =~= pairs_view(old_options).push((key@, value@)));
        c
    }

    /// The choice's unique id.
    pub fn id(&self) -> (s: &str)
        ensures
            s@ == self@.id,
    {
        self.id.as_str()
    }

    /// The user visible label of the choice.
    pub fn label(&self) -> (s: &str)
        ensures
            s@ == self@.label,
    {
        self.label.as_str()
    }

    /// The initially selected value.
    pub fn initial_selection(&self) -> (s: &str)
        ensures
            s@ == self@.initial_selection,
    {
        self.initial_selection.as_str()
    }

    /// The (key, value) pairs offered, in the order they were added.
    pub fn pairs(&self) -> (p: &Vec<(String, String)>)
        ensures
            pairs_view(p@) == self@.options,
    {
        &self.options
    }

    /// A copy of the choice.
    pub fn copy(&self) -> (c: Choice)
        ensures
            c@ == self@,
    {
        let mut options: Vec<(String, String)> = Vec::new();
        let mut i: usize = 0;
        while i < self.options.len()
            invariant
                i <= self.options@.len(),
                pairs_view(options@) =~= pairs_view(self.options@.subrange(0, i as int)),
            decreases self.options@.len() - i,
        {
            let ghost before = options@;
            let p = &self.options[i];
            options.push((p.0.clone(), p.1.clone()));
            assert(pairs_view(options@) =~= pairs_view(before).push(pair_view(self.options@[i as int])));
            assert(self.options@.subrange(0, i + 1) =~= self.options@.subrange(0, i as int).push(
                self.options@[i as int],
            ));
            i = i + 1;
        }
        assert(self.options@.subrange(0, self.options@.len() as int) =~= self.options@);
        Choice {
            id: self.id.clone(),
            label: self.label.clone(),
            options,
            initial_selection: self.initial_selection.clone(),
        }
    }
}

/// The bytes of a path as the portal takes them: the path's bytes and a
/// closing nul byte. A path that holds a nul byte cannot be passed, so such
/// a path is outside the contract.
pub fn nul_terminated(path: &[u8]) -> (b: Vec<u8>)
    requires
        forall|i: int| 0 <= i < path@.len() ==> path@[i] != 0u8,
    ensures
        b@ == path@.push(0u8),
{
    let mut b: Vec<u8> = Vec::new();
    let mut i: usize = 0;
    while i < path.len()
        invariant
            i <= path@.len(),
            b@ == path@.subrange(0, i as int),
        decreases path@.len() - i,
    {
        b.push(path[i]);
        assert(path@.subrange(0, i + 1) =~= path@.subrange(0, i as int).push(path@[i as int]));
        i = i + 1;
    }
    assert(path@.subrange(0, path@.len() as int) =~= path@);
    b.push(0u8);
    b
}

/// Whether a byte string holds no nul byte.
pub open spec fn no_nul(bytes: Seq<u8>) -> bool {
    forall|i: int| 0 <= i < bytes.len() ==> bytes[i] != 0u8
}

/// Whether each of a list of paths holds no nul byte.
pub open spec fn all_no_nul(paths: Seq<Vec<u8>>) -> bool {
    forall|i: int| 0 <= i < paths.len() ==> no_nul(#[trigger] paths[i]@)
}

/// The models of a list of file filters.
pub open spec fn filters_view(v: Seq<FileFilter>) -> Seq<FileFilterView> {
    v.map_values(|f: FileFilter| f@)
}

/// The models of a list of choices.
pub open spec fn choices_view(v: Seq<Choice>) -> Seq<ChoiceView> {
    v.map_values(|c: Choice| c@)
}

/// The model of an optional filter.
pub open spec fn opt_filter_view(f: Option<FileFilter>) -> Option<FileFilterView> {
    match f {
        Some(x) => Some(x@),
        None => None,
    }
}

/// The models of a list of byte strings.
pub open spec fn bytes_view(v: Seq<Vec<u8>>) -> Seq<Seq<u8>> {
    v.map_values(|b: Vec<u8>| b@)
}

/// Each path of a list as its bytes and a closing nul byte.
pub fn terminate_all(paths: &Vec<Vec<u8>>) -> (r: Vec<Vec<u8>>)
    requires
        all_no_nul(paths@),
    ensures
        bytes_view(r@) == bytes_view(paths@).map_values(|p: Seq<u8>| p.push(0u8)),
{
    let mut r: Vec<Vec<u8>> = Vec::new();
    let mut i: usize = 0;
    while i < paths.len()
        invariant
            i <= paths@.len(),
            all_no_nul(paths@),
            bytes_view(r@) =~= bytes_view(paths@.subrange(0, i as int)).map_values(|p: Seq<u8>| p.push(0u8)),
        decreases paths@.len() - i,
    {
        let ghost before = r@;
        assert(no_nul(paths@[i as int]@));
        let t = nul_terminated(paths[i].as_slice());
        r.push(t);
        assert(bytes_view(r@) =~= bytes_view(before).push(paths@[i as int]@.push(0u8)));
        assert(paths@.subrange(0, i + 1) =~= paths@.subrange(0, i as int).push(paths@[i as int]));
        assert(bytes_view(paths@.subrange(0, i + 1)).map_values(|p: Seq<u8>| p.push(0u8)) =~= bytes_view(
            paths@.subrange(0, i as int),
        ).map_values(|p: Seq<u8>| p.push(0u8)).push(paths@[i as int]@.push(0u8)));
        i = i + 1;
    }
    assert(paths@.subrange(0, paths@.len() as int) =~= paths@);
    r
}

/// The files the user selected and the value selected for each choice.
#[derive(Debug)]
pub struct SelectedFiles {
    uris: Vec<String>,
    choices: Option<Vec<(String, String)>>,
}

impl SelectedFiles {
    /// The response made of the given URIs and choices.
    pub fn new(uris: Vec<String>, choices: Option<Vec<(String, String)>>) -> (s: SelectedFiles)
        ensures
            s.spec_uris() == uris@,
            s.spec_choices() == choices,
    {
        SelectedFiles { uris, choices }
    }

    /// The selected files' URIs.
    pub closed spec fn spec_uris(self) -> Seq<String> {
        self.uris@
    }

    /// The selected choices, as received.
    pub closed spec fn spec_choices(self) -> Option<Vec<(String, String)>> {
        self.choices
    }

    /// The selected files' URIs.
    pub fn uris(&self) -> (u: &[String])
        ensures
            u@ == self.spec_uris(),
    {
        self.uris.as_slice()
    }

    /// The selected value of each choice as a tuple of (key, value); none
    /// where the response held no choices.
    pub fn choices(&self) -> (c: &[(String, String)])
        ensures
            c@ == match self.spec_choices() {
                Some(v) => v@,
                None => Seq::<(String, String)>::empty(),
            },
    {
        match &self.choices {
            Some(v) => v.as_slice(),
            None => {
                let e: &[(String, String)] = &[];
                assert(e@ =~= Seq::<(String, String)>::empty());
                e
            },
        }
    }
}

/// A request to pick one or more files to open.
#[derive(Debug)]
pub struct OpenFileRequest {
    handle_token: HandleToken,
    identifier: String,
    title: String,
    accept_label: Option<String>,
    modal: Option<bool>,
    multiple: Option<bool>,
    directory: Option<bool>,
    filters: Vec<FileFilter>,
    current_filter: Option<FileFilter>,
    choices: Vec<Choice>,
}

/// The model of a [`OpenFileRequest`]: the text of its handle token and each option.
pub struct OpenFileRequestView {
    pub token: Seq<char>,
    pub identifier: Seq<char>,
    pub title: Seq<char>,
    pub accept_label: Option<Seq<char>>,
    pub modal: Option<bool>,
    pub multiple: Option<bool>,
    pub directory: Option<bool>,
    pub filters: Seq<FileFilterView>,
    pub current_filter: Option<FileFilterView>,
    pub choices: Seq<ChoiceView>,
}

impl View for OpenFileRequest {
    type V = OpenFileRequestView;

    closed spec fn view(&self) -> OpenFileRequestView {
        OpenFileRequestView {
            token: self.handle_token@,
            identifier: self.identifier@,
            title: self.title@,
            accept_label: opt_text(self.accept_label),
            modal: self.modal,
            multiple: self.multiple,
            directory: self.directory,
            filters: filters_view(self.filters@),
            current_filter: opt_filter_view(self.current_filter),
            choices: choices_view(self.choices@),
        }
    }
}

impl OpenFileRequest {
    /// A request with a fresh handle token and every option unset.
    pub fn default() -> (r: OpenFileRequest)
        ensures
            is_fresh_token(r@.token),
            r@.identifier == Seq::<char>::empty(),
            r@.title == Seq::<char>::empty(),
            r@.accept_label is None,
            r@.modal is None,
            r@.multiple is None,
            r@.directory is None,
            r@.filters == Seq::<FileFilterView>::empty(),
            r@.current_filter is None,
            r@.choices == Seq::<ChoiceView>::empty(),
    {
        let r = OpenFileRequest {
            handle_token: HandleToken::default(),
            identifier: String::new(),
            title: String::new(),
            accept_label: None,
            modal: None,
            multiple: None,
            directory: None,
            filters: Vec::new(),
            current_filter: None,
            choices: Vec::new(),
        };
        assert(r@.identifier =~= Seq::<char>::empty());
        assert(r@.title =~= Seq::<char>::empty());
        assert(r@.filters =~= Seq::<FileFilterView>::empty());
        assert(r@.choices =~= Seq::<ChoiceView>::empty());
        r
    }

    /// The handle token of the request.
    pub fn handle_token(&self) -> (t: &HandleToken)
        ensures
            t@ == self@.token,
    {
        &self.handle_token
    }

    /// Sets the identifier of the window the dialog is transient for; no
    /// identifier stands for the empty one.
    pub fn identifier(self, identifier: Option<String>) -> (r: Self)
        ensures
            r@ == (OpenFileRequestView { identifier: text_or_empty(identifier), ..self@ }),
    {
        let mut r = self;
        r.identifier = string_or_empty(identifier);
        r
    }

    /// Sets the user-visible dialog title; no title stands for the empty one.
    pub fn title(self, title: Option<&str>) -> (r: Self)
        ensures
            r@ == (OpenFileRequestView { title: str_or_empty(title), ..self@ }),
    {
        let mut r = self;
        r.title = owned_or_empty(title);
        r
    }

    /// Sets a user-visible string to use as the label of the accept button.
    pub fn accept_label(self, accept_label: Option<&str>) -> (r: Self)
        ensures
            r@ == (OpenFileRequestView { accept_label: opt_str(accept_label), ..self@ }),
    {
        let mut r = self;
        r.accept_label = opt_owned(accept_label);
        r
    }

    /// Sets whether the dialog should be modal.
    pub fn modal(self, modal: Option<bool>) -> (r: Self)
        ensures
            r@ == (OpenFileRequestView { modal: modal, ..self@ }),
    {
        let mut r = self;
        r.modal = modal;
        r
    }

    /// Sets whether to allow picking more than one file.
    pub fn multiple(self, multiple: Option<bool>) -> (r: Self)
        ensures
            r@ == (OpenFileRequestView { multiple: multiple, ..self@ }),
    {
        let mut r = self;
        r.multiple = multiple;
        r
    }

    /// Sets whether to pick folders instead of files.
    pub fn directory(self, directory: Option<bool>) -> (r: Self)
        ensures
            r@ == (OpenFileRequestView { directory: directory, ..self@ }),
    {
        let mut r = self;
        r.directory = directory;
        r
    }

    /// Adds a file filter.
    pub fn filter(self, filter: FileFilter) -> (r: Self)
        ensures
            r@ == (OpenFileRequestView { filters: self@.filters.push(filter@), ..self@ }),
    {
        let mut r = self;
        let ghost before = r.filters@;
        r.filters.push(filter);
        assert(filters_view(r.filters@) =~= filters_view(before).push(filter@));
        r
    }

    /// Replaces the file filters.
    pub fn filters(self, filters: Vec<FileFilter>) -> (r: Self)
        ensures
            r@ == (OpenFileRequestView { filters: filters_view(filters@), ..self@ }),
    {
        let mut r = self;
        r.filters = filters;
        r
    }

    /// Sets the filter selected by default.
    pub fn current_filter(self, current_filter: Option<FileFilter>) -> (r: Self)
        ensures
            r@ == (OpenFileRequestView { current_filter: opt_filter_view(current_filter), ..self@ }),
    {
        let mut r = self;
        r.current_filter = current_filter;
        r
    }

    /// Adds a choice.
    pub fn choice(self, choice: Choice) -> (r: Self)
        ensures
            r@ == (OpenFileRequestView { choices: self@.choices.push(choice@), ..self@ }),
    {
        let mut r = self;
        let ghost before = r.choices@;
        r.choices.push(choice);
        assert(choices_view(r.choices@) =~= choices_view(before).push(choice@));
        r
    }

    /// Replaces the choices.
    pub fn choices(self, choices: Vec<Choice>) -> (r: Self)
        ensures
            r@ == (OpenFileRequestView { choices: choices_view(choices@), ..self@ }),
    {
        let mut r = self;
        r.choices = choices;
        r
    }

}

/// A request to pick a file to save to.
#[derive(Debug)]
pub struct SaveFileRequest {
    handle_token: HandleToken,
    identifier: String,
    title: String,
    accept_label: Option<String>,
    modal: Option<bool>,
    current_name: Option<String>,
    current_folder: Option<Vec<u8>>,
    current_file: Option<Vec<u8>>,
    filters: Vec<FileFilter>,
    current_filter: Option<FileFilter>,
    choices: Vec<Choice>,
}

/// The model of a [`SaveFileRequest`]: the text of its handle token and each option.
pub struct SaveFileRequestView {
    pub token: Seq<char>,
    pub identifier: Seq<char>,
    pub title: Seq<char>,
    pub accept_label: Option<Seq<char>>,
    pub modal: Option<bool>,
    pub current_name: Option<Seq<char>>,
    pub current_folder: Option<Seq<u8>>,
    pub current_file: Option<Seq<u8>>,
    pub filters: Seq<FileFilterView>,
    pub current_filter: Option<FileFilterView>,
    pub choices: Seq<ChoiceView>,
}

impl View for SaveFileRequest {
    type V = SaveFileRequestView;

    closed spec fn view(&self) -> SaveFileRequestView {
        SaveFileRequestView {
            token: self.handle_token@,
            identifier: self.identifier@,
            title: self.title@,
            accept_label: opt_text(self.accept_label),
            modal: self.modal,
            current_name: opt_text(self.current_name),
            current_folder: opt_bytes(self.current_folder),
            current_file: opt_bytes(self.current_file),
            filters: filters_view(self.filters@),
            current_filter: opt_filter_view(self.current_filter),
            choices: choices_view(self.choices@),
        }
    }
}

impl SaveFileRequest {
    /// A request with a fresh handle token and every option unset.
    pub fn default() -> (r: SaveFileRequest)
        ensures
            is_fresh_token(r@.token),
            r@.identifier == Seq::<char>::empty(),
            r@.title == Seq::<char>::empty(),
            r@.accept_label is None,
            r@.modal is None,
            r@.current_name is None,
            r@.current_folder is None,
            r@.current_file is None,
            r@.filters == Seq::<FileFilterView>::empty(),
            r@.current_filter is None,
            r@.choices == Seq::<ChoiceView>::empty(),
    {
        let r = SaveFileRequest {
            handle_token: HandleToken::default(),
            identifier: String::new(),
            title: String::new(),
            accept_label: None,
            modal: None,
            current_name: None,
            current_folder: None,
            current_file: None,
            filters: Vec::new(),
            current_filter: None,
            choices: Vec::new(),
        };
        assert(r@.identifier =~= Seq::<char>::empty());
        assert(r@.title =~= Seq::<char>::empty());
        assert(r@.filters =~= Seq::<FileFilterView>::empty());
        assert(r@.choices =~= Seq::<ChoiceView>::empty());
        r
    }

    /// The handle token of the request.
    pub fn handle_token(&self) -> (t: &HandleToken)
        ensures
            t@ == self@.token,
    {
        &self.handle_token
    }

    /// Sets the identifier of the window the dialog is transient for; no
    /// identifier stands for the empty one.
    pub fn identifier(self, identifier: Option<String>) -> (r: Self)
        ensures
            r@ == (SaveFileRequestView { identifier: text_or_empty(identifier), ..self@ }),
    {
        let mut r = self;
        r.identifier = string_or_empty(identifier);
        r
    }

    /// Sets the user-visible dialog title; no title stands for the empty one.
    pub fn title(self, title: Option<&str>) -> (r: Self)
        ensures
            r@ == (SaveFileRequestView { title: str_or_empty(title), ..self@ }),
    {
        let mut r = self;
        r.title = owned_or_empty(title);
        r
    }

    /// Sets a user-visible string to use as the label of the accept button.
    pub fn accept_label(self, accept_label: Option<&str>) -> (r: Self)
        ensures
            r@ == (SaveFileRequestView { accept_label: opt_str(accept_label), ..self@ }),
    {
        let mut r = self;
        r.accept_label = opt_owned(accept_label);
        r
    }

    /// Sets whether the dialog should be modal.
    pub fn modal(self, modal: Option<bool>) -> (r: Self)
        ensures
            r@ == (SaveFileRequestView { modal: modal, ..self@ }),
    {
        let mut r = self;
        r.modal = modal;
        r
    }

    /// Sets the suggested file name.
    pub fn current_name(self, current_name: Option<&str>) -> (r: Self)
        ensures
            r@ == (SaveFileRequestView { current_name: opt_str(current_name), ..self@ }),
    {
        let mut r = self;
        r.current_name = opt_owned(current_name);
        r
    }

    /// Sets the suggested folder to save the file in. The path is passed as its bytes and a closing nul byte; a path
    /// that holds a nul byte is outside the contract.
    pub fn current_folder(self, current_folder: Option<&[u8]>) -> (r: Self)
        requires
            current_folder matches Some(p) ==> no_nul(p@),
        ensures
            r@ == (SaveFileRequestView { current_folder: match current_folder { Some(p) => Some(p@.push(0u8)), None => None }, ..self@ }),
    {
        let mut r = self;
        r.current_folder = match current_folder {
            Some(p) => Some(nul_terminated(p)),
            None => None,
        };
        r
    }

    /// Sets the file to save to. The path is passed as its bytes and a closing nul byte; a path
    /// that holds a nul byte is outside the contract.
    pub fn current_file(self, current_file: Option<&[u8]>) -> (r: Self)
        requires
            current_file matches Some(p) ==> no_nul(p@),
        ensures
            r@ == (SaveFileRequestView { current_file: match current_file { Some(p) => Some(p@.push(0u8)), None => None }, ..self@ }),
    {
        let mut r = self;
        r.current_file = match current_file {
            Some(p) => Some(nul_terminated(p)),
            None => None,
        };
        r
    }

    /// Adds a file filter.
    pub fn filter(self, filter: FileFilter) -> (r: Self)
        ensures
            r@ == (SaveFileRequestView { filters: self@.filters.push(filter@), ..self@ }),
    {
        let mut r = self;
        let ghost before = r.filters@;
        r.filters.push(filter);
        assert(filters_view(r.filters@) =~= filters_view(before).push(filter@));
        r
    }

    /// Replaces the file filters.
    pub fn filters(self, filters: Vec<FileFilter>) -> (r: Self)
        ensures
            r@ == (SaveFileRequestView { filters: filters_view(filters@), ..self@ }),
    {
        let mut r = self;
        r.filters = filters;
        r
    }

    /// Sets the filter selected by default.
    pub fn current_filter(self, current_filter: Option<FileFilter>) -> (r: Self)
        ensures
            r@ == (SaveFileRequestView { current_filter: opt_filter_view(current_filter), ..self@ }),
    {
        let mut r = self;
        r.current_filter = current_filter;
        r
    }

    /// Adds a choice.
    pub fn choice(self, choice: Choice) -> (r: Self)
        ensures
            r@ == (SaveFileRequestView { choices: self@.choices.push(choice@), ..self@ }),
    {
        let mut r = self;
        let ghost before = r.choices@;
        r.choices.push(choice);
        assert(choices_view(r.choices@) =~= choices_view(before).push(choice@));
        r
    }

    /// Replaces the choices.
    pub fn choices(self, choices: Vec<Choice>) -> (r: Self)
        ensures
            r@ == (SaveFileRequestView { choices: choices_view(choices@), ..self@ }),
    {
        let mut r = self;
        r.choices = choices;
        r
    }

}

/// A request to pick a folder to save several files in.
#[derive(Debug)]
pub struct SaveFilesRequest {
    handle_token: HandleToken,
    identifier: String,
    title: String,
    accept_label: Option<String>,
    modal: Option<bool>,
    choices: Vec<Choice>,
    current_folder: Option<Vec<u8>>,
    files: Option<Vec<Vec<u8>>>,
}

/// The model of a [`SaveFilesRequest`]: the text of its handle token and each option.
pub struct SaveFilesRequestView {
    pub token: Seq<char>,
    pub identifier: Seq<char>,
    pub title: Seq<char>,
    pub accept_label: Option<Seq<char>>,
    pub modal: Option<bool>,
    pub choices: Seq<ChoiceView>,
    pub current_folder: Option<Seq<u8>>,
    pub files: Option<Seq<Seq<u8>>>,
}

impl View for SaveFilesRequest {
    type V = SaveFilesRequestView;

    closed spec fn view(&self) -> SaveFilesRequestView {
        SaveFilesRequestView {
            token: self.handle_token@,
            identifier: self.identifier@,
            title: self.title@,
            accept_label: opt_text(self.accept_label),
            modal: self.modal,
            choices: choices_view(self.choices@),
            current_folder: opt_bytes(self.current_folder),
            files: match self.files { Some(v) => Some(bytes_view(v@)), None => None },
        }
    }
}

impl SaveFilesRequest {
    /// A request with a fresh handle token and every option unset.
    pub fn default() -> (r: SaveFilesRequest)
        ensures
            is_fresh_token(r@.token),
            r@.identifier == Seq::<char>::empty(),
            r@.title == Seq::<char>::empty(),
            r@.accept_label is None,
            r@.modal is None,
            r@.choices == Seq::<ChoiceView>::empty(),
            r@.current_folder is None,
            r@.files is None,
    {
        let r = SaveFilesRequest {
            handle_token: HandleToken::default(),
            identifier: String::new(),
            title: String::new(),
            accept_label: None,
            modal: None,
            choices: Vec::new(),
            current_folder: None,
            files: None,
        };
        assert(r@.identifier =~= Seq::<char>::empty());
        assert(r@.title =~= Seq::<char>::empty());
        assert(r@.choices =~= Seq::<ChoiceView>::empty());
        r
    }

    /// The handle token of the request.
    pub fn handle_token(&self) -> (t: &HandleToken)
        ensures
            t@ == self@.token,
    {
        &self.handle_token
    }

    /// Sets the identifier of the window the dialog is transient for; no
    /// identifier stands for the empty one.
    pub fn identifier(self, identifier: Option<String>) -> (r: Self)
        ensures
            r@ == (SaveFilesRequestView { identifier: text_or_empty(identifier), ..self@ }),
    {
        let mut r = self;
        r.identifier = string_or_empty(identifier);
        r
    }

    /// Sets the user-visible dialog title; no title stands for the empty one.
    pub fn title(self, title: Option<&str>) -> (r: Self)
        ensures
            r@ == (SaveFilesRequestView { title: str_or_empty(title), ..self@ }),
    {
        let mut r = self;
        r.title = owned_or_empty(title);
        r
    }

    /// Sets a user-visible string to use as the label of the accept button.
    pub fn accept_label(self, accept_label: Option<&str>) -> (r: Self)
        ensures
            r@ == (SaveFilesRequestView { accept_label: opt_str(accept_label), ..self@ }),
    {
        let mut r = self;
        r.accept_label = opt_owned(accept_label);
        r
    }

    /// Sets whether the dialog should be modal.
    pub fn modal(self, modal: Option<bool>) -> (r: Self)
        ensures
            r@ == (SaveFilesRequestView { modal: modal, ..self@ }),
    {
        let mut r = self;
        r.modal = modal;
        r
    }

    /// Adds a choice.
    pub fn choice(self, choice: Choice) -> (r: Self)
        ensures
            r@ == (SaveFilesRequestView { choices: self@.choices.push(choice@), ..self@ }),
    {
        let mut r = self;
        let ghost before = r.choices@;
        r.choices.push(choice);
        assert(choices_view(r.choices@) =~= choices_view(before).push(choice@));
        r
    }

    /// Replaces the choices.
    pub fn choices(self, choices: Vec<Choice>) -> (r: Self)
        ensures
            r@ == (SaveFilesRequestView { choices: choices_view(choices@), ..self@ }),
    {
        let mut r = self;
        r.choices = choices;
        r
    }

    /// Sets the folder to save the files in. The path is passed as its bytes and a closing nul byte; a path
    /// that holds a nul byte is outside the contract.
    pub fn current_folder(self, current_folder: Option<&[u8]>) -> (r: Self)
        requires
            current_folder matches Some(p) ==> no_nul(p@),
        ensures
            r@ == (SaveFilesRequestView { current_folder: match current_folder { Some(p) => Some(p@.push(0u8)), None => None }, ..self@ }),
    {
        let mut r = self;
        r.current_folder = match current_folder {
            Some(p) => Some(nul_terminated(p)),
            None => None,
        };
        r
    }

    /// Sets the files to save, each passed as its bytes and a closing nul
    /// byte; a file whose path holds a nul byte is outside the contract.
    pub fn files(self, files: Option<Vec<Vec<u8>>>) -> (r: Self)
        requires
            files matches Some(v) ==> all_no_nul(v@),
        ensures
            r@ == (SaveFilesRequestView { files: match files { Some(v) => Some(bytes_view(v@).map_values(|p: Seq<u8>| p.push(0u8))), None => None }, ..self@ }),
    {
        let mut r = self;
        r.files = match files {
            Some(v) => Some(terminate_all(&v)),
            None => None,
        };
        r
    }

}

} // verus!
