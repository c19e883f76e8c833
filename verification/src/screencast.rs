//! The screen cast portal: what may be recorded, how the cursor is drawn,
//! how long a selection persists, and the PipeWire streams a cast yields.

use vstd::prelude::*;
use crate::handle_token::{is_fresh_token, HandleToken};
use crate::proxy::{desktop_destination, desktop_path, Proxy, ProxyView};
use crate::text::{opt_owned, opt_str, opt_text};

verus! {

/// A bit flag for the available sources to record.
#[derive(Debug, Clone, Copy, PartialEq, Eq, Structural)]
pub enum SourceType {
    /// A monitor.
    Monitor,
    /// A specific window.
    Window,
    /// Virtual.
    Virtual,
}

/// The bit that stands for a [`SourceType`].
pub open spec fn source_type_bit(x: SourceType) -> u32 {
    match x {
        SourceType::Monitor => 1,
        SourceType::Window => 2,
        SourceType::Virtual => 4,
    }
}

/// What `source_type_bit` gives, value by value, each different from the others:
/// Monitor is 1; Window is 2; Virtual is 4.
pub proof fn lemma_source_type_bit_values(x: SourceType)
    ensures
        (source_type_bit(x) == 1) == (x is Monitor),
        (source_type_bit(x) == 2) == (x is Window),
        (source_type_bit(x) == 4) == (x is Virtual),
{
}

impl SourceType {
    /// The bit that stands for the value.
    pub fn bits(self) -> (b: u32)
        ensures
            b == source_type_bit(self),
    {
        match self {
            SourceType::Monitor => 1,
            SourceType::Window => 2,
            SourceType::Virtual => 4,
        }
    }

    /// The value that a single bit stands for.
    pub fn from_bit(bit: u32) -> (x: Option<SourceType>)
        ensures
            match x {
                Some(v) => source_type_bit(v) == bit,
                None => bit != 1 && bit != 2 && bit != 4,
            },
    {
        if bit == 1 {
            Some(SourceType::Monitor)
        } else if bit == 2 {
            Some(SourceType::Window)
        } else if bit == 4 {
            Some(SourceType::Virtual)
        } else {
            None
        }
    }

    /// The bits of all values.
    pub fn all_bits() -> (b: u32)
        ensures
            b == 7,
    {
        7
    }
}

/// A bit flag for the possible cursor modes.
#[derive(Debug, Clone, Copy, PartialEq, Eq, Structural)]
pub enum CursorMode {
    /// The cursor is not part of the screen cast stream.
    Hidden,
    /// The cursor is embedded as part of the stream buffers.
    Embedded,
    /// The cursor is not part of the screen cast stream, but sent as PipeWire stream metadata.
    Metadata,
}

/// The bit that stands for a [`CursorMode`].
pub open spec fn cursor_mode_bit(x: CursorMode) -> u32 {
    match x {
        CursorMode::Hidden => 1,
        CursorMode::Embedded => 2,
        CursorMode::Metadata => 4,
    }
}

/// What `cursor_mode_bit` gives, value by value, each different from the others:
/// Hidden is 1; Embedded is 2; Metadata is 4.
pub proof fn lemma_cursor_mode_bit_values(x: CursorMode)
    ensures
        (cursor_mode_bit(x) == 1) == (x is Hidden),
        (cursor_mode_bit(x) == 2) == (x is Embedded),
        (cursor_mode_bit(x) == 4) == (x is Metadata),
{
}

impl CursorMode {
    /// The bit that stands for the value.
    pub fn bits(self) -> (b: u32)
        ensures
            b == cursor_mode_bit(self),
    {
        match self {
            CursorMode::Hidden => 1,
            CursorMode::Embedded => 2,
            CursorMode::Metadata => 4,
        }
    }

    /// The value that a single bit stands for.
    pub fn from_bit(bit: u32) -> (x: Option<CursorMode>)
        ensures
            match x {
                Some(v) => cursor_mode_bit(v) == bit,
                None => bit != 1 && bit != 2 && bit != 4,
            },
    {
        if bit == 1 {
            Some(CursorMode::Hidden)
        } else if bit == 2 {
            Some(CursorMode::Embedded)
        } else if bit == 4 {
            Some(CursorMode::Metadata)
        } else {
            None
        }
    }

    /// The bits of all values.
    pub fn all_bits() -> (b: u32)
        ensures
            b == 7,
    {
        7
    }
}

/// Persistence mode for a screencast session.
#[derive(Debug, Clone, Copy, PartialEq, Eq, Structural)]
pub enum PersistMode {
    /// Do not persist.
    DoNot,
    /// Persist while the application is running.
    Application,
    /// Persist until explicitly revoked.
    ExplicitlyRevoked,
}

/// The number that stands for a [`PersistMode`] on the bus.
pub open spec fn persist_mode_code(x: PersistMode) -> u32 {
    match x {
        PersistMode::DoNot => 0,
        PersistMode::Application => 1,
        PersistMode::ExplicitlyRevoked => 2,
    }
}

/// What `persist_mode_code` gives, value by value, each different from the others:
/// DoNot is 0; Application is 1; ExplicitlyRevoked is 2.
pub proof fn lemma_persist_mode_code_values(x: PersistMode)
    ensures
        (persist_mode_code(x) == 0) == (x is DoNot),
        (persist_mode_code(x) == 1) == (x is Application),
        (persist_mode_code(x) == 2) == (x is ExplicitlyRevoked),
{
}

impl PersistMode {
    /// The number that stands for the value on the bus.
    pub fn code(self) -> (n: u32)
        ensures
            n == persist_mode_code(self),
    {
        match self {
            PersistMode::DoNot => 0,
            PersistMode::Application => 1,
            PersistMode::ExplicitlyRevoked => 2,
        }
    }

    /// The value that a number stands for on the bus.
    pub fn from_code(n: u32) -> (x: Option<PersistMode>)
        ensures
            match x {
                Some(v) => persist_mode_code(v) == n,
                None => n != 0 && n != 1 && n != 2,
            },
    {
        if n == 0 {
            Some(PersistMode::DoNot)
        } else if n == 1 {
            Some(PersistMode::Application)
        } else if n == 2 {
            Some(PersistMode::ExplicitlyRevoked)
        } else {
            None
        }
    }

    /// The default value.
    pub fn default() -> (x: PersistMode)
        ensures
            x == PersistMode::DoNot,
    {
        PersistMode::DoNot
    }
}

/// Decoding the number of a value gives the value back.
pub proof fn lemma_persist_mode_code_round_trip(x: PersistMode)
    ensures
        forall|y: PersistMode| persist_mode_code(y) == persist_mode_code(x) ==> y == x,
{
}

/// The options of a request to select the sources of a screen cast.
#[derive(Debug)]
pub struct SelectSourcesOptions {
    handle_token: HandleToken,
    types: Option<u32>,
    multiple: Option<bool>,
    cursor_mode: Option<CursorMode>,
    restore_token: Option<String>,
    persist_mode: Option<PersistMode>,
}

/// The model of a [`SelectSourcesOptions`].
pub struct SelectSourcesOptionsView {
    pub token: Seq<char>,
    pub types: Option<u32>,
    pub multiple: Option<bool>,
    pub cursor_mode: Option<CursorMode>,
    pub restore_token: Option<Seq<char>>,
    pub persist_mode: Option<PersistMode>,
}

impl View for SelectSourcesOptions {
    type V = SelectSourcesOptionsView;

    closed spec fn view(&self) -> SelectSourcesOptionsView {
        SelectSourcesOptionsView {
            token: self.handle_token@,
            types: self.types,
            multiple: self.multiple,
            cursor_mode: self.cursor_mode,
            restore_token: opt_text(self.restore_token),
            persist_mode: self.persist_mode,
        }
    }
}

impl SelectSourcesOptions {
    /// Options with a fresh handle token and nothing else set.
    pub fn default() -> (o: SelectSourcesOptions)
        ensures
            is_fresh_token(o@.token),
            o@.types is None,
            o@.multiple is None,
            o@.cursor_mode is None,
            o@.restore_token is None,
            o@.persist_mode is None,
    {
        SelectSourcesOptions {
            handle_token: HandleToken::default(),
            types: None,
            multiple: None,
            cursor_mode: None,
            restore_token: None,
            persist_mode: None,
        }
    }

    /// The handle token of the request.
    pub fn handle_token(&self) -> (t: &HandleToken)
        ensures
            t@ == self@.token,
    {
        &self.handle_token
    }

    /// Sets whether to allow selecting multiple sources.
    pub fn multiple(self, multiple: Option<bool>) -> (o: SelectSourcesOptions)
        ensures
            o@ == (SelectSourcesOptionsView { multiple: multiple, ..self@ }),
    {
        let mut o = self;
        o.multiple = multiple;
        o
    }

    /// Sets how the cursor will be drawn on the screen cast stream.
    pub fn cursor_mode(self, cursor_mode: Option<CursorMode>) -> (o: SelectSourcesOptions)
        ensures
            o@ == (SelectSourcesOptionsView { cursor_mode: cursor_mode, ..self@ }),
    {
        let mut o = self;
        o.cursor_mode = cursor_mode;
        o
    }

    /// Sets the types of content to record, as a set of [`SourceType`] bits.
    pub fn types(self, types: Option<u32>) -> (o: SelectSourcesOptions)
        ensures
            o@ == (SelectSourcesOptionsView { types: types, ..self@ }),
    {
        let mut o = self;
        o.types = types;
        o
    }

    /// Sets how long the selection persists.
    pub fn persist_mode(self, persist_mode: Option<PersistMode>) -> (o: SelectSourcesOptions)
        ensures
            o@ == (SelectSourcesOptionsView { persist_mode: persist_mode, ..self@ }),
    {
        let mut o = self;
        o.persist_mode = persist_mode;
        o
    }

    /// Sets the token of a previous session to restore.
    pub fn restore_token(self, token: Option<&str>) -> (o: SelectSourcesOptions)
        ensures
            o@ == (SelectSourcesOptionsView { restore_token: opt_str(token), ..self@ }),
    {
        let mut o = self;
        o.restore_token = opt_owned(token);
        o
    }
}

/// The properties of a stream.
#[derive(Debug)]
pub struct StreamProperties {
    pub id: Option<String>,
    pub position: Option<(i32, i32)>,
    pub size: Option<(i32, i32)>,
    pub source_type: Option<SourceType>,
    pub mapping_id: Option<String>,
}

/// A PipeWire stream.
#[derive(Debug)]
pub struct Stream {
    node_id: u32,
    properties: StreamProperties,
}

/// The model of a [`Stream`].
pub struct StreamView {
    pub node_id: u32,
    pub id: Option<Seq<char>>,
    pub position: Option<(i32, i32)>,
    pub size: Option<(i32, i32)>,
    pub source_type: Option<SourceType>,
    pub mapping_id: Option<Seq<char>>,
}

impl View for Stream {
    type V = StreamView;

    closed spec fn view(&self) -> StreamView {
        StreamView {
            node_id: self.node_id,
            id: opt_text(self.properties.id),
            position: self.properties.position,
            size: self.properties.size,
            source_type: self.properties.source_type,
            mapping_id: opt_text(self.properties.mapping_id),
        }
    }
}

impl Stream {
    /// The stream with the given node ID and properties.
    pub fn new(node_id: u32, properties: StreamProperties) -> (s: Stream)
        ensures
            s@.node_id == node_id,
            s@.id == opt_text(properties.id),
            s@.position == properties.position,
            s@.size == properties.size,
            s@.source_type == properties.source_type,
            s@.mapping_id == opt_text(properties.mapping_id),
    {
        Stream { node_id, properties }
    }

    /// The PipeWire stream Node ID.
    pub fn pipe_wire_node_id(&self) -> (n: u32)
        ensures
            n == self@.node_id,
    {
        self.node_id
    }

    /// The position (x, y) in the compositor coordinate space.
    pub fn position(&self) -> (p: Option<(i32, i32)>)
        ensures
            p == self@.position,
    {
        self.properties.position
    }

    /// The size (width, height) as displayed in the compositor coordinate
    /// space.
    pub fn size(&self) -> (s: Option<(i32, i32)>)
        ensures
            s == self@.size,
    {
        self.properties.size
    }

    /// The source type of the stream.
    pub fn source_type(&self) -> (t: Option<SourceType>)
        ensures
            t == self@.source_type,
    {
        self.properties.source_type
    }

    /// The stream identifier.
    pub fn id(&self) -> (i: Option<&str>)
        ensures
            opt_str(i) == self@.id,
    {
        match &self.properties.id {
            Some(s) => Some(s.as_str()),
            None => None,
        }
    }

    /// The stream mapping id.
    pub fn mapping_id(&self) -> (i: Option<&str>)
        ensures
            opt_str(i) == self@.mapping_id,
    {
        match &self.properties.mapping_id {
            Some(s) => Some(s.as_str()),
            None => None,
        }
    }
}

/// The models of a list of streams.
pub open spec fn streams_view(v: Seq<Stream>) -> Seq<StreamView> {
    v.map_values(|s: Stream| s@)
}

/// The response to a request to start a screen cast.
#[derive(Debug)]
pub struct Streams {
    streams: Vec<Stream>,
    restore_token: Option<String>,
}

impl Streams {
    /// The response holding the given streams and restore token.
    pub fn new(streams: Vec<Stream>, restore_token: Option<String>) -> (s: Streams)
        ensures
            s.spec_streams() == streams_view(streams@),
            s.spec_restore_token() == opt_text(restore_token),
    {
        Streams { streams, restore_token }
    }

    /// The streams.
    pub closed spec fn spec_streams(self) -> Seq<StreamView> {
        streams_view(self.streams@)
    }

    /// The restore token.
    pub closed spec fn spec_restore_token(self) -> Option<Seq<char>> {
        opt_text(self.restore_token)
    }

    /// The session restore token.
    pub fn restore_token(&self) -> (t: Option<&str>)
        ensures
            opt_str(t) == self.spec_restore_token(),
    {
        match &self.restore_token {
            Some(s) => Some(s.as_str()),
            None => None,
        }
    }

    /// The list of streams.
    pub fn streams(&self) -> (s: &[Stream])
        ensures
            streams_view(s@) == self.spec_streams(),
    {
        self.streams.as_slice()
    }
}

/// Create screen cast sessions.
///
/// Wrapper of the DBus interface `org.freedesktop.portal.ScreenCast`.
#[derive(Debug)]
pub struct Screencast {
    proxy: Proxy,
}

impl View for Screencast {
    type V = ProxyView;

    closed spec fn view(&self) -> ProxyView {
        self.proxy@
    }
}

impl Screencast {
    /// The portal, which implements the given version of its interface.
    pub fn new(version: u32) -> (p: Screencast)
        ensures
            p@.destination == desktop_destination(),
            p@.interface == "org.freedesktop.portal.ScreenCast"@,
            p@.path == desktop_path(),
            p@.version == version,
    {
        Screencast { proxy: Proxy::new_desktop("org.freedesktop.portal.ScreenCast", version) }
    }

    /// Where the portal's calls go.
    pub fn inner(&self) -> (p: &Proxy)
        ensures
            p@ == self@,
    {
        &self.proxy
    }
}

impl Screencast {
    /// The options of a request to select sources: each of the given
    /// settings, set.
    pub fn select_sources_options(
        cursor_mode: CursorMode,
        types: u32,
        multiple: bool,
        restore_token: Option<&str>,
        persist_mode: PersistMode,
    ) -> (o: SelectSourcesOptions)
        ensures
            o@.cursor_mode == Some(cursor_mode),
            o@.types == Some(types),
            o@.multiple == Some(multiple),
            o@.restore_token == opt_str(restore_token),
            o@.persist_mode == Some(persist_mode),
    {
        SelectSourcesOptions::default().cursor_mode(Some(cursor_mode)).multiple(Some(multiple)).types(
            Some(types),
        ).persist_mode(Some(persist_mode)).restore_token(restore_token)
    }

    /// Refuses to read the available cursor modes from a portal older than
    /// version 2.
    pub fn check_cursor_modes_version(&self) -> (r: Result<(), crate::error::AshpdError>)
        ensures
            r is Err <==> self@.version < 2,
            r matches Err(e) ==> e == crate::error::AshpdError::RequiresVersion(2, self@.version),
    {
        self.proxy.check_version(2)
    }
}

} // verus!
