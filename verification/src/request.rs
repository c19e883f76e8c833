//! Requests: the objects through which a portal answers a call, the shape of
//! the answer, and the object path at which a request is found.

use vstd::prelude::*;
use crate::dbus_names::{all_name_chars, is_name_char, is_object_path, object_path_is_valid};
use crate::handle_token::HandleToken;
use crate::text::push_char;
use crate::error::AshpdError;
use crate::proxy::{Proxy, ProxyView};

verus! {

/// How a portal interaction ended, as the `Response` signal reports it.
#[derive(Debug, Clone, Copy, PartialEq, Eq, Structural)]
pub enum ResponseType {
    /// The request was carried out.
    Success,
    /// The user cancelled the interaction.
    Cancelled,
    /// The interaction ended in some other way.
    Other,
}

/// Why a portal request did not succeed.
#[derive(Debug, Clone, Copy, PartialEq, Eq, Hash, Structural)]
pub enum ResponseError {
    /// The user cancelled the request.
    Cancelled,
    /// Something else happened.
    Other,
}

/// The number that stands for a response type on the bus.
pub open spec fn response_code(t: ResponseType) -> u32 {
    match t {
        ResponseType::Success => 0,
        ResponseType::Cancelled => 1,
        ResponseType::Other => 2,
    }
}

/// What `response_code` gives, value by value, each different from the others:
/// Success is 0; Cancelled is 1; Other is 2.
pub proof fn lemma_response_code_values(x: ResponseType)
    ensures
        (response_code(x) == 0) == (x is Success),
        (response_code(x) == 1) == (x is Cancelled),
        (response_code(x) == 2) == (x is Other),
{
}

impl ResponseType {
    /// The number that stands for this response type on the bus.
    pub fn code(self) -> (n: u32)
        ensures
            n == response_code(self),
    {
        match self {
            ResponseType::Success => 0,
            ResponseType::Cancelled => 1,
            ResponseType::Other => 2,
        }
    }

    /// The response type a number stands for, if any.
    pub fn from_code(n: u32) -> (t: Option<ResponseType>)
        ensures
            match t {
                Some(t) => response_code(t) == n,
                None => n > 2,
            },
    {
        if n == 0 {
            Some(ResponseType::Success)
        } else if n == 1 {
            Some(ResponseType::Cancelled)
        } else if n == 2 {
            Some(ResponseType::Other)
        } else {
            None
        }
    }

    /// The response type that reports an error.
    pub fn from_error(err: ResponseError) -> (t: ResponseType)
        ensures
            t == error_response_type(err),
    {
        match err {
            ResponseError::Other => ResponseType::Other,
            ResponseError::Cancelled => ResponseType::Cancelled,
        }
    }
}

/// The response type that reports `err`.
pub open spec fn error_response_type(err: ResponseError) -> ResponseType {
    match err {
        ResponseError::Cancelled => ResponseType::Cancelled,
        ResponseError::Other => ResponseType::Other,
    }
}

/// What `error_response_type` gives, value by value, each different from the others:
/// Cancelled is ResponseType::Cancelled; Other is ResponseType::Other.
pub proof fn lemma_error_response_type_values(x: ResponseError)
    ensures
        (error_response_type(x) == ResponseType::Cancelled) == (x is Cancelled),
        (error_response_type(x) == ResponseType::Other) == (x is Other),
{
}

/// The name `Display` gives a response error.
pub open spec fn response_error_name(err: ResponseError) -> Seq<char> {
    match err {
        ResponseError::Cancelled => "Cancelled"@,
        ResponseError::Other => "Other"@,
    }
}

/// What `response_error_name` gives, value by value, each different from the others:
/// Cancelled is "Cancelled"; Other is "Other".
pub proof fn lemma_response_error_name_values(x: ResponseError)
    ensures
        (response_error_name(x) == "Cancelled"@) == (x is Cancelled),
        (response_error_name(x) == "Other"@) == (x is Other),
{
    reveal_strlit("Cancelled");
    reveal_strlit("Other");
    assert("Cancelled"@.len() != "Other"@.len());
}

impl ResponseError {
    /// The error's name: `Cancelled` or `Other`.
    pub fn message(&self) -> (s: String)
        ensures
            s@ == response_error_name(*self),
    {
        match self {
            ResponseError::Cancelled => String::from_str("Cancelled"),
            ResponseError::Other => String::from_str("Other"),
        }
    }
}

/// The answer of a portal request: its results, or why there are none.
#[derive(Debug)]
pub enum Response<T> {
    /// The request was carried out.
    Success(T),
    /// The user cancelled the request or something else happened.
    Failure(ResponseError),
}

/// What a response status and the results that came with it stand for.
pub open spec fn spec_response<T>(t: ResponseType, data: Option<T>) -> Response<T> {
    match t {
        ResponseType::Success => Response::Success(data.unwrap()),
        ResponseType::Cancelled => Response::Failure(ResponseError::Cancelled),
        ResponseType::Other => Response::Failure(ResponseError::Other),
    }
}

/// A response read from a status keeps that status: from `Success` it is a
/// success carrying the results, from `Cancelled` a failure because the
/// user cancelled, from `Other` a failure for another reason.
pub proof fn lemma_response_keeps_status<T>(t: ResponseType, data: Option<T>, r: Response<T>)
    requires
        t == ResponseType::Success ==> data is Some,
        r == spec_response(t, data),
    ensures
        spec_response_type(r) == t,
        (t is Success) == (r is Success),
        t is Success ==> r == Response::<T>::Success(data->Some_0),
        (t is Cancelled) == (r == Response::<T>::Failure(ResponseError::Cancelled)),
        (t is Other) == (r == Response::<T>::Failure(ResponseError::Other)),
{
}

/// Why a response could not be read.
#[derive(Debug, Clone, Copy, PartialEq, Eq, Structural)]
pub enum ResponseDecodeError {
    /// A successful response came without its results.
    MissingResults,
}

impl<T> Response<T> {
    /// The response a status and its results stand for. A success must come
    /// with results.
    pub fn from_parts(t: ResponseType, data: Option<T>) -> (r: Response<T>)
        requires
            t == ResponseType::Success ==> data is Some,
        ensures
            r == spec_response(t, data),
    {
        match t {
            ResponseType::Success => match data {
                Some(d) => Response::Success(d),
                None => Response::Failure(ResponseError::Other),
            },
            ResponseType::Cancelled => Response::Failure(ResponseError::Cancelled),
            ResponseType::Other => Response::Failure(ResponseError::Other),
        }
    }

    /// Reads a response from its status and the results that followed it, if
    /// any: a success without results is refused, the results of any other
    /// status are not looked at.
    pub fn decode(t: ResponseType, data: Option<T>) -> (r: Result<Response<T>, ResponseDecodeError>)
        ensures
            match r {
                Ok(resp) => !(t == ResponseType::Success && data is None) && resp == spec_response(t, data),
                Err(e) => t == ResponseType::Success && data is None && e == ResponseDecodeError::MissingResults,
            },
    {
        if t == ResponseType::Success && data.is_none() {
            Err(ResponseDecodeError::MissingResults)
        } else {
            Ok(Response::from_parts(t, data))
        }
    }

    /// A response that reports a cancelled interaction.
    pub fn cancelled() -> (r: Response<T>)
        ensures
            r == Response::<T>::Failure(ResponseError::Cancelled),
    {
        Response::Failure(ResponseError::Cancelled)
    }

    /// A response that reports an interaction ended in some other way.
    pub fn other() -> (r: Response<T>)
        ensures
            r == Response::<T>::Failure(ResponseError::Other),
    {
        Response::Failure(ResponseError::Other)
    }

    /// A successful response with `data`.
    pub fn ok(data: T) -> (r: Response<T>)
        ensures
            r == Response::<T>::Success(data),
    {
        Response::Success(data)
    }

    /// The status that this response is sent with.
    pub fn response_type(&self) -> (t: ResponseType)
        ensures
            t == spec_response_type(*self),
    {
        match self {
            Response::Success(_) => ResponseType::Success,
            Response::Failure(e) => ResponseType::from_error(*e),
        }
    }

    /// Turns the response into a `Result`.
    pub fn into_result(self) -> (r: Result<T, ResponseError>)
        ensures
            match self {
                Response::Success(d) => r == Ok::<T, ResponseError>(d),
                Response::Failure(e) => r == Err::<T, ResponseError>(e),
            },
    {
        match self {
            Response::Success(d) => Ok(d),
            Response::Failure(e) => Err(e),
        }
    }
}

/// The status a response is sent with.
pub open spec fn spec_response_type<T>(r: Response<T>) -> ResponseType {
    match r {
        Response::Success(_) => ResponseType::Success,
        Response::Failure(e) => error_response_type(e),
    }
}

/// Drops every leading `:` of `s`.
pub open spec fn trim_leading_colons(s: Seq<char>) -> Seq<char>
    decreases s.len(),
{
    if s.len() > 0 && s[0] == ':' {
        trim_leading_colons(s.drop_first())
    } else {
        s
    }
}

/// `s` with every `.` replaced by `_`.
pub open spec fn dots_to_underscores(s: Seq<char>) -> Seq<char> {
    Seq::new(s.len(), |i: int| if s[i] == '.' { '_' } else { s[i] })
}

/// The path element that stands for the caller's unique bus name: the name
/// without its leading `:`, with `.` replaced by `_`.
pub open spec fn sender_element(unique_name: Seq<char>) -> Seq<char> {
    dots_to_underscores(trim_leading_colons(unique_name))
}

/// The object path of a request or session object: the base path, the
/// caller's element and the token, separated by `/`.
pub open spec fn handle_path(base: Seq<char>, unique_name: Seq<char>, token: Seq<char>) -> Seq<char> {
    base + "/"@ + sender_element(unique_name) + "/"@ + token
}

/// The base path of request objects.
pub open spec fn request_base() -> Seq<char> {
    "/org/freedesktop/portal/desktop/request"@
}

/// The base path of session objects.
pub open spec fn session_base() -> Seq<char> {
    "/org/freedesktop/portal/desktop/session"@
}

/// The index from which `s` has no leading `:` left.
pub open spec fn colon_prefix_len(s: Seq<char>, k: int) -> bool {
    &&& 0 <= k <= s.len()
    &&& forall|j: int| 0 <= j < k ==> #[trigger] s[j] == ':'
    &&& (k == s.len() || s[k] != ':')
}

proof fn lemma_trim_colons(s: Seq<char>, k: int)
    requires
        colon_prefix_len(s, k),
    ensures
        trim_leading_colons(s) == s.subrange(k, s.len() as int),
    decreases s.len(),
{
    if k == 0 {
        assert(s.subrange(0, s.len() as int) =~= s);
    } else {
        let t = s.drop_first();
        assert(colon_prefix_len(t, k - 1)) by {
            assert forall|j: int| 0 <= j < k - 1 implies #[trigger] t[j] == ':' by {
                assert(s[j + 1] == ':');
            }
        }
        lemma_trim_colons(t, k - 1);
        assert(t.subrange(k - 1, t.len() as int) =~= s.subrange(k, s.len() as int));
    }
}

/// The path element that stands for `unique_name`.
pub fn sender_element_of(unique_name: &str) -> (e: String)
    ensures
        e@ == sender_element(unique_name@),
{
    let n = unique_name.unicode_len();
    let mut k: usize = 0;
    while k < n && unique_name.get_char(k) == ':'
        invariant
            n == unique_name@.len(),
            k <= n,
            forall|j: int| 0 <= j < k ==> #[trigger] unique_name@[j] == ':',
        decreases n - k,
    {
        k = k + 1;
    }
    proof {
        lemma_trim_colons(unique_name@, k as int);
    }
    let ghost rest = unique_name@.subrange(k as int, n as int);
    let mut out = String::new();
    let mut i: usize = k;
    while i < n
        invariant
            n == unique_name@.len(),
            k <= i <= n,
            rest == unique_name@.subrange(k as int, n as int),
            out@ == dots_to_underscores(rest).subrange(0, i - k),
        decreases n - i,
    {
        let c = unique_name.get_char(i);
        if c == '.' {
            push_char(&mut out, '_');
        } else {
            push_char(&mut out, c);
        }
        assert(out@ =~= dots_to_underscores(rest).subrange(0, i + 1 - k));
        i = i + 1;
    }
    assert(out@ =~= dots_to_underscores(rest));
    out
}

/// Joining path pieces that are each fit keeps the path fit.
proof fn lemma_handle_path_is_object_path(base: Seq<char>, sender: Seq<char>, token: Seq<char>)
    requires
        is_object_path(base),
        base.len() > 1,
        sender.len() >= 1,
        all_name_chars(sender),
        token.len() >= 1,
        all_name_chars(token),
    ensures
        is_object_path(base + "/"@ + sender + "/"@ + token),
{
    let slash = "/"@;
    assert(slash =~= seq!['/']) by {
        reveal_strlit("/");
    }
    let p = base + slash + sender + slash + token;
    let a = base.len();
    let b = a + 1 + sender.len();
    assert forall|i: int| 0 <= i < p.len() implies (#[trigger] is_name_char(p[i]) || p[i] == '/') by {
        if i < a {
            assert(p[i] == base[i]);
        } else if i == a {
        } else if i < b {
            assert(p[i] == sender[i - a - 1]);
            assert(is_name_char(sender[i - a - 1]));
        } else if i == b {
        } else {
            assert(p[i] == token[i - b - 1]);
            assert(is_name_char(token[i - b - 1]));
        }
    }
    assert forall|i: int| 0 <= i < p.len() - 1 && #[trigger] p[i] == '/' implies p[i + 1] != '/' by {
        if i < a - 1 {
            assert(p[i] == base[i] && p[i + 1] == base[i + 1]);
        } else if i == a - 1 {
            assert(base[a - 1] != '/');
        } else if i == a {
            assert(p[i + 1] == sender[0]);
            assert(is_name_char(sender[0]));
        } else if i < b {
            assert(p[i] == sender[i - a - 1]);
            assert(is_name_char(sender[i - a - 1]));
        } else if i == b {
            assert(p[i + 1] == token[0]);
            assert(is_name_char(token[0]));
        } else {
            assert(p[i] == token[i - b - 1]);
            assert(is_name_char(token[i - b - 1]));
        }
    }
    assert(p[p.len() - 1] == token[token.len() - 1]);
    assert(is_name_char(token[token.len() - 1]));
}

/// The object path at which the portal serves the object of a handle token,
/// under `base`, for the caller with unique bus name `unique_name`. The
/// caller's element must be a non-empty run of `[A-Za-z0-9_]`, as it is for
/// the unique names a bus hands out.
pub fn handle_object_path(base: &str, unique_name: &str, token: &HandleToken) -> (p: String)
    requires
        is_object_path(base@),
        base@.len() > 1,
        sender_element(unique_name@).len() >= 1,
        all_name_chars(sender_element(unique_name@)),
    ensures
        p@ == handle_path(base@, unique_name@, token.view()),
        is_object_path(p@),
{
    let sender = sender_element_of(unique_name);
    let tok = token.as_str();
    let mut p = String::from_str(base);
    p.append("/");
    p.append(sender.as_str());
    p.append("/");
    p.append(tok);
    proof {
        lemma_handle_path_is_object_path(base@, sender@, tok@);
    }
    let valid = object_path_is_valid(p.as_str());
    assert(valid);
    p
}

/// The object path of the request object of `token`.
pub fn request_path(unique_name: &str, token: &HandleToken) -> (p: String)
    requires
        sender_element(unique_name@).len() >= 1,
        all_name_chars(sender_element(unique_name@)),
    ensures
        p@ == handle_path(request_base(), unique_name@, token.view()),
        is_object_path(p@),
{
    let base = "/org/freedesktop/portal/desktop/request";
    proof {
        reveal_strlit("/org/freedesktop/portal/desktop/request");
        assert(is_object_path(base@)) by {
            assert forall|i: int| 0 <= i < base@.len() implies (#[trigger] is_name_char(base@[i]) || base@[i] == '/') by {}
        }
    }
    handle_object_path(base, unique_name, token)
}

/// A request object of the portal: where it is, and the answer once the
/// portal has sent it.
#[derive(Debug)]
pub struct Request<T> {
    proxy: Proxy,
    response: Option<Result<T, AshpdError>>,
}

/// What an answer of the portal gives the caller: the results, or the error
/// that the answer reports.
pub open spec fn answer_result<T>(r: Response<T>) -> Result<T, AshpdError> {
    match r {
        Response::Success(t) => Ok(t),
        Response::Failure(e) => Err(AshpdError::Response(e)),
    }
}

/// What the caller gets from an answer read from a status: the results for
/// `Success`, and for `Cancelled` and `Other` the error of the same name.
pub proof fn lemma_answer_of_status<T>(t: ResponseType, data: Option<T>)
    requires
        t == ResponseType::Success ==> data is Some,
    ensures
        t is Success ==> answer_result(spec_response(t, data)) == Ok::<T, AshpdError>(data->Some_0),
        t is Cancelled ==> answer_result(spec_response(t, data)) == Err::<T, AshpdError>(
            AshpdError::Response(ResponseError::Cancelled),
        ),
        t is Other ==> answer_result(spec_response(t, data)) == Err::<T, AshpdError>(
            AshpdError::Response(ResponseError::Other),
        ),
{
}

/// The object path of a request made by the connection `:` followed by `x`
/// with the handle token `t`: `/org/freedesktop/portal/desktop/request/`,
/// then `x` with every `.` made `_`, then `/` and the token. Session objects
/// are named the same way under `/org/freedesktop/portal/desktop/session/`.
pub proof fn lemma_handle_path_shape(x: Seq<char>, t: Seq<char>)
    requires
        x.len() == 0 || x[0] != ':',
    ensures
        ({
            let p = handle_path(request_base(), seq![':'] + x, t);
            &&& p.len() == 40 + x.len() + 1 + t.len()
            &&& p.subrange(0, 40) == "/org/freedesktop/portal/desktop/request/"@
            &&& forall|k: int| 0 <= k < x.len() ==> p[40 + k] == (if x[k] == '.' { '_' } else { x[k] })
            &&& p[40 + x.len() as int] == '/'
            &&& p.subrange(41 + x.len() as int, p.len() as int) == t
        }),
        ({
            let p = handle_path(session_base(), seq![':'] + x, t);
            &&& p.len() == 40 + x.len() + 1 + t.len()
            &&& p.subrange(0, 40) == "/org/freedesktop/portal/desktop/session/"@
            &&& forall|k: int| 0 <= k < x.len() ==> p[40 + k] == (if x[k] == '.' { '_' } else { x[k] })
            &&& p[40 + x.len() as int] == '/'
            &&& p.subrange(41 + x.len() as int, p.len() as int) == t
        }),
{
    reveal_strlit("/org/freedesktop/portal/desktop/request/");
    reveal_strlit("/org/freedesktop/portal/desktop/session/");
    reveal_strlit("/org/freedesktop/portal/desktop/request");
    reveal_strlit("/org/freedesktop/portal/desktop/session");
    reveal_strlit("/");
    let u = seq![':'] + x;
    assert(u.drop_first() =~= x);
    assert(trim_leading_colons(x) == x);
    assert(trim_leading_colons(u) == x);
    let e = sender_element(u);
    assert(e.len() == x.len());
    let p = handle_path(request_base(), u, t);
    assert(p =~= request_base() + "/"@ + e + "/"@ + t);
    assert(p.subrange(0, 40) =~= "/org/freedesktop/portal/desktop/request/"@);
    assert(p.subrange(41 + x.len() as int, p.len() as int) =~= t);
    let q = handle_path(session_base(), u, t);
    assert(q =~= session_base() + "/"@ + e + "/"@ + t);
    assert(q.subrange(0, 40) =~= "/org/freedesktop/portal/desktop/session/"@);
    assert(q.subrange(41 + x.len() as int, q.len() as int) =~= t);
}

impl<T> Request<T> {
    /// The request object at `path`, with no answer yet.
    pub fn new(path: &str, version: u32) -> (r: Request<T>)
        ensures
            r.spec_proxy().interface == "org.freedesktop.portal.Request"@,
            r.spec_proxy().path == path@,
            r.spec_response() is None,
    {
        Request {
            proxy: Proxy::new_desktop_with_path("org.freedesktop.portal.Request", path, version),
            response: None,
        }
    }

    /// The request object of the handle token `token` of the caller with
    /// unique bus name `unique_name`.
    pub fn from_unique_name(unique_name: &str, token: &HandleToken, version: u32) -> (r: Request<T>)
        requires
            sender_element(unique_name@).len() >= 1,
            all_name_chars(sender_element(unique_name@)),
        ensures
            r.spec_proxy().interface == "org.freedesktop.portal.Request"@,
            r.spec_proxy().path == handle_path(request_base(), unique_name@, token.view()),
            r.spec_response() is None,
    {
        let path = request_path(unique_name, token);
        Request::new(path.as_str(), version)
    }

    /// Where the request object is.
    pub closed spec fn spec_proxy(self) -> ProxyView {
        self.proxy@
    }

    /// The answer kept for the caller, if any.
    pub closed spec fn spec_response(self) -> Option<Result<T, AshpdError>> {
        self.response
    }

    /// The object path of the request.
    pub fn path(&self) -> (p: &str)
        ensures
            p@ == self.spec_proxy().path,
    {
        self.proxy.path()
    }

    /// Keeps the answer the portal sent: an error where no answer came,
    /// which leaves the request as it was.
    pub fn prepare_response(&mut self, message: Option<Response<T>>) -> (r: Result<(), AshpdError>)
        ensures
            final(self).spec_proxy() == old(self).spec_proxy(),
            match message {
                Some(m) => r is Ok && final(self).spec_response() == Some(answer_result(m)),
                None => r == Err::<(), AshpdError>(AshpdError::NoResponse) && final(self).spec_response()
                    == old(self).spec_response(),
            },
    {
        match message {
            Some(m) => {
                let answer = match m {
                    Response::Success(t) => Ok(t),
                    Response::Failure(e) => Err(AshpdError::Response(e)),
                };
                self.response = Some(answer);
                Ok(())
            },
            None => Err(AshpdError::NoResponse),
        }
    }

    /// Whether an answer is kept for the caller.
    pub fn has_response(&self) -> (b: bool)
        ensures
            b == self.spec_response() is Some,
    {
        self.response.is_some()
    }

    /// Takes the kept answer. It is taken once; asking for it when none is
    /// kept is outside the contract.
    pub fn response(&mut self) -> (r: Result<T, AshpdError>)
        requires
            old(self).spec_response() is Some,
        ensures
            Some(r) == old(self).spec_response(),
            final(self).spec_response() is None,
            final(self).spec_proxy() == old(self).spec_proxy(),
    {
        match self.response.take() {
            Some(r) => r,
            None => {
                assert(false);
                Err(AshpdError::NoResponse)
            },
        }
    }
}

} // verus!
