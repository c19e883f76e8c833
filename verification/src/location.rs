//! The location portal: accuracy levels, the options of a location session
//! and what a location update describes.

use vstd::prelude::*;
use crate::handle_token::{is_fresh_token, HandleToken};
use crate::proxy::{desktop_destination, desktop_path, Proxy, ProxyView};

verus! {

/// The accuracy of the location.
#[derive(Debug, Clone, Copy, PartialEq, Eq, Structural)]
pub enum Accuracy {
    /// None.
    NoAccuracy,
    /// Country.
    Country,
    /// City.
    City,
    /// Neighborhood.
    Neighborhood,
    /// Street.
    Street,
    /// The exact location.
    Exact,
}

/// The number that stands for a [`Accuracy`] on the bus.
pub open spec fn accuracy_code(x: Accuracy) -> u32 {
    match x {
        Accuracy::NoAccuracy => 0,
        Accuracy::Country => 1,
        Accuracy::City => 2,
        Accuracy::Neighborhood => 3,
        Accuracy::Street => 4,
        Accuracy::Exact => 5,
    }
}

/// What `accuracy_code` gives, value by value, each different from the others:
/// NoAccuracy is 0; Country is 1; City is 2; Neighborhood is 3; Street is 4; Exact is 5.
pub proof fn lemma_accuracy_code_values(x: Accuracy)
    ensures
        (accuracy_code(x) == 0) == (x is NoAccuracy),
        (accuracy_code(x) == 1) == (x is Country),
        (accuracy_code(x) == 2) == (x is City),
        (accuracy_code(x) == 3) == (x is Neighborhood),
        (accuracy_code(x) == 4) == (x is Street),
        (accuracy_code(x) == 5) == (x is Exact),
{
}

impl Accuracy {
    /// The number that stands for the value on the bus.
    pub fn code(self) -> (n: u32)
        ensures
            n == accuracy_code(self),
    {
        match self {
            Accuracy::NoAccuracy => 0,
            Accuracy::Country => 1,
            Accuracy::City => 2,
            Accuracy::Neighborhood => 3,
            Accuracy::Street => 4,
            Accuracy::Exact => 5,
        }
    }

    /// The value that a number stands for on the bus.
    pub fn from_code(n: u32) -> (x: Option<Accuracy>)
        ensures
            match x {
                Some(v) => accuracy_code(v) == n,
                None => n != 0 && n != 1 && n != 2 && n != 3 && n != 4 && n != 5,
            },
    {
        if n == 0 {
            Some(Accuracy::NoAccuracy)
        } else if n == 1 {
            Some(Accuracy::Country)
        } else if n == 2 {
            Some(Accuracy::City)
        } else if n == 3 {
            Some(Accuracy::Neighborhood)
        } else if n == 4 {
            Some(Accuracy::Street)
        } else if n == 5 {
            Some(Accuracy::Exact)
        } else {
            None
        }
    }
}

/// Decoding the number of a value gives the value back.
pub proof fn lemma_accuracy_code_round_trip(x: Accuracy)
    ensures
        forall|y: Accuracy| accuracy_code(y) == accuracy_code(x) ==> y == x,
{
}

/// The options of a request to create a location session.
#[derive(Debug)]
pub struct CreateSessionOptions {
    session_handle_token: HandleToken,
    distance_threshold: Option<u32>,
    time_threshold: Option<u32>,
    accuracy: Option<Accuracy>,
}

impl CreateSessionOptions {
    /// Options with a fresh session handle token and nothing else set.
    pub fn default() -> (o: CreateSessionOptions)
        ensures
            o.spec_distance_threshold() is None,
            o.spec_time_threshold() is None,
            o.spec_accuracy() is None,
            is_fresh_token(o.spec_token()),
    {
        CreateSessionOptions {
            session_handle_token: HandleToken::default(),
            distance_threshold: None,
            time_threshold: None,
            accuracy: None,
        }
    }

    /// The session handle token.
    pub closed spec fn spec_token(self) -> Seq<char> {
        self.session_handle_token@
    }

    /// The distance threshold.
    pub closed spec fn spec_distance_threshold(self) -> Option<u32> {
        self.distance_threshold
    }

    /// The time threshold.
    pub closed spec fn spec_time_threshold(self) -> Option<u32> {
        self.time_threshold
    }

    /// The accuracy.
    pub closed spec fn spec_accuracy(self) -> Option<Accuracy> {
        self.accuracy
    }

    /// Sets the distance threshold, in meters.
    pub fn distance_threshold(self, distance_threshold: u32) -> (o: CreateSessionOptions)
        ensures
            o.spec_token() == self.spec_token(),
            o.spec_distance_threshold() == Some(distance_threshold),
            o.spec_time_threshold() == self.spec_time_threshold(),
            o.spec_accuracy() == self.spec_accuracy(),
    {
        let mut o = self;
        o.distance_threshold = Some(distance_threshold);
        o
    }

    /// Sets the time threshold, in seconds.
    pub fn time_threshold(self, time_threshold: u32) -> (o: CreateSessionOptions)
        ensures
            o.spec_token() == self.spec_token(),
            o.spec_distance_threshold() == self.spec_distance_threshold(),
            o.spec_time_threshold() == Some(time_threshold),
            o.spec_accuracy() == self.spec_accuracy(),
    {
        let mut o = self;
        o.time_threshold = Some(time_threshold);
        o
    }

    /// Sets the accuracy.
    pub fn accuracy(self, accuracy: Accuracy) -> (o: CreateSessionOptions)
        ensures
            o.spec_token() == self.spec_token(),
            o.spec_distance_threshold() == self.spec_distance_threshold(),
            o.spec_time_threshold() == self.spec_time_threshold(),
            o.spec_accuracy() == Some(accuracy),
    {
        let mut o = self;
        o.accuracy = Some(accuracy);
        o
    }

    /// The session handle token.
    pub fn session_handle_token(&self) -> (t: &HandleToken)
        ensures
            t@ == self.spec_token(),
    {
        &self.session_handle_token
    }

    /// The options of a new location session: the thresholds given, `0`
    /// where none is given, and the accuracy given, exact where none is.
    pub fn for_session(
        distance_threshold: Option<u32>,
        time_threshold: Option<u32>,
        accuracy: Option<Accuracy>,
    ) -> (o: CreateSessionOptions)
        ensures
            o.spec_distance_threshold() == Some(
                match distance_threshold {
                    Some(d) => d,
                    None => 0u32,
                },
            ),
            o.spec_time_threshold() == Some(
                match time_threshold {
                    Some(t) => t,
                    None => 0u32,
                },
            ),
            o.spec_accuracy() == Some(
                match accuracy {
                    Some(a) => a,
                    None => Accuracy::Exact,
                },
            ),
    {
        let d = match distance_threshold {
            Some(d) => d,
            None => 0,
        };
        let t = match time_threshold {
            Some(t) => t,
            None => 0,
        };
        let a = match accuracy {
            Some(a) => a,
            None => Accuracy::Exact,
        };
        CreateSessionOptions::default().distance_threshold(d).time_threshold(t).accuracy(a)
    }
}

/// The description of a location as a location update gives it: none where
/// the text is empty.
pub fn location_description(description: &str) -> (d: Option<&str>)
    ensures
        match d {
            Some(s) => s@ == description@ && description@.len() > 0,
            None => description@.len() == 0,
        },
{
    if description.is_empty() {
        None
    } else {
        Some(description)
    }
}

/// Query the user's location.
///
/// Wrapper of the DBus interface `org.freedesktop.portal.Location`.
#[derive(Debug)]
pub struct LocationProxy {
    proxy: Proxy,
}

impl View for LocationProxy {
    type V = ProxyView;

    closed spec fn view(&self) -> ProxyView {
        self.proxy@
    }
}

impl LocationProxy {
    /// The portal, which implements the given version of its interface.
    pub fn new(version: u32) -> (p: LocationProxy)
        ensures
            p@.destination == desktop_destination(),
            p@.interface == "org.freedesktop.portal.Location"@,
            p@.path == desktop_path(),
            p@.version == version,
    {
        LocationProxy { proxy: Proxy::new_desktop("org.freedesktop.portal.Location", version) }
    }

    /// Where the portal's calls go.
    pub fn inner(&self) -> (p: &Proxy)
        ensures
            p@ == self@,
    {
        &self.proxy
    }
}

} // verus!
