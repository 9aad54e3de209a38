//! The typed API error: a code, an optional human message, a locator, RFC 9457
//! fields, a transport status hint, a cause chain and the raise location.

use crate::code::{ApiErrorCode, ApiErrorStatus};
use crate::error_message::{
    copy_opt_str, display_message_sep, display_prefix, messages_view, nonempty_source, opt_source, opt_str, ErrorMessage, ErrorMessageView, ErrorSource,
    ErrorSourceView,
};
use crate::status::{valid_status, DEFAULT_ERROR_STATUS};
use vstd::prelude::*;

verus! {

/// Where an error was raised: source file, line and column.
#[derive(Debug, Clone, PartialEq)]
pub struct Location {
    pub file: String,
    pub line: u32,
    pub column: u32,
}

/// A cause that is not an [`ApiError`]: it carries no code, only text. `display`
/// is how it renders as a whole; `leaves` are the texts of its innermost causes,
/// outermost first — the part that reaches a verbose client payload.
#[derive(Debug, Clone)]
pub struct ForeignError {
    display: String,
    leaves: Vec<String>,
}

/// The mathematical content of a [`ForeignError`].
pub struct ForeignErrorView {
    pub display: Seq<char>,
    pub leaves: Seq<Seq<char>>,
}

/// A sequence of strings, seen as their characters.
pub open spec fn strs_view(v: Seq<String>) -> Seq<Seq<char>> {
    v.map_values(|s: String| s@)
}

impl View for ForeignError {
    type V = ForeignErrorView;

    closed spec fn view(&self) -> ForeignErrorView {
        ForeignErrorView { display: self.display@, leaves: strs_view(self.leaves@) }
    }
}

impl ForeignError {
    /// A plain error with a message and no cause of its own.
    pub fn new(message: String) -> (r: Self)
        ensures
            r@ == (ForeignErrorView { display: message@, leaves: seq![message@] }),
    {
        let mut leaves: Vec<String> = Vec::new();
        leaves.push(message.clone());
        proof {
            assert(strs_view(leaves@) =~= seq![message@]);
        }
        ForeignError { display: message, leaves }
    }

    /// An error that renders as nothing and carries no text: a bare marker
    /// frame, as [`ApiError::track`] adds.
    pub fn transparent() -> (r: Self)
        ensures
            r@ == (ForeignErrorView { display: Seq::empty(), leaves: Seq::empty() }),
    {
        let leaves: Vec<String> = Vec::new();
        proof {
            assert(strs_view(leaves@) =~= Seq::<Seq<char>>::empty());
        }
        ForeignError { display: String::new(), leaves }
    }

    /// An error from its rendering and the texts of its innermost causes.
    pub fn from_parts(display: String, leaves: Vec<String>) -> (r: Self)
        ensures
            r@ == (ForeignErrorView { display: display@, leaves: strs_view(leaves@) }),
    {
        ForeignError { display, leaves }
    }

    /// Wrap this error under a new message: the message becomes the rendering,
    /// and is itself the first innermost text, ahead of this error's.
    pub fn with_context(self, message: String) -> (r: Self)
        ensures
            r@ == (ForeignErrorView {
                display: message@,
                leaves: seq![message@] + self@.leaves,
            }),
    {
        let mut leaves = self.leaves;
        leaves.insert(0, message.clone());
        proof {
            assert(strs_view(leaves@) =~= seq![message@] + strs_view(self.leaves@));
        }
        ForeignError { display: message, leaves }
    }

    /// How this error renders.
    pub fn display(&self) -> (r: &String)
        ensures
            r@ == self@.display,
    {
        &self.display
    }

    /// The texts of this error's innermost causes.
    pub fn leaves(&self) -> (r: &Vec<String>)
        ensures
            strs_view(r@) == self@.leaves,
    {
        &self.leaves
    }
}

/// One link of an error's cause chain.
#[derive(Debug)]
pub enum Cause<C> {
    /// A nested API error, with its own code and its own causes.
    Api(Box<ApiError<C>>),
    /// Anything else.
    Foreign(ForeignError),
}

/// A typed API error. Create one with [`error`] and enrich it with the `with_*`
/// builders.
#[derive(Debug)]
pub struct ApiError<C = &'static str> {
    code: C,
    message: Option<String>,
    meta: Option<serde_json::Value>,
    error_source: Option<ErrorSource>,
    type_uri: Option<String>,
    instance: Option<String>,
    status: Option<u16>,
    source: Vec<Cause<C>>,
    verbose: bool,
    location: Option<Location>,
}

/// The mathematical content of an [`ApiError`]. `source` lists the causes,
/// the most recently attached first.
pub struct ApiErrorView<C> {
    pub code: C,
    pub message: Option<Seq<char>>,
    pub meta: Option<serde_json::Value>,
    pub error_source: Option<ErrorSourceView>,
    pub type_uri: Option<Seq<char>>,
    pub instance: Option<Seq<char>>,
    pub status: Option<u16>,
    pub source: Seq<Cause<C>>,
    pub verbose: bool,
    pub location: Option<Location>,
}

impl<C> View for ApiError<C> {
    type V = ApiErrorView<C>;

    closed spec fn view(&self) -> ApiErrorView<C> {
        ApiErrorView {
            code: self.code,
            message: opt_str(self.message),
            meta: self.meta,
            error_source: opt_source(self.error_source),
            type_uri: opt_str(self.type_uri),
            instance: opt_str(self.instance),
            status: self.status,
            source: self.source@,
            verbose: self.verbose,
            location: self.location,
        }
    }
}

/// A fresh error with only a code (and possibly a message) set.
pub open spec fn fresh_error<C>(code: C, message: Option<Seq<char>>) -> ApiErrorView<C> {
    ApiErrorView {
        code,
        message,
        meta: None,
        error_source: None,
        type_uri: None,
        instance: None,
        status: None,
        source: Seq::empty(),
        verbose: false,
        location: None,
    }
}

/// The locator after setting one of its fields: an absent locator starts empty.
pub open spec fn source_or_empty(s: Option<ErrorSourceView>) -> ErrorSourceView {
    match s {
        Some(v) => v,
        None => ErrorSourceView::empty(),
    }
}

/// Create a bare error from a code.
pub fn error<C>(code: C) -> (r: ApiError<C>)
    ensures
        r@ == fresh_error(code, None),
{
    ApiError {
        code,
        message: None,
        meta: None,
        error_source: None,
        type_uri: None,
        instance: None,
        status: None,
        source: Vec::new(),
        verbose: false,
        location: None,
    }
}

/// Create an error from a code and a message.
pub fn error_and_message<C>(code: C, message: String) -> (r: ApiError<C>)
    ensures
        r@ == fresh_error(code, Some(message@)),
{
    ApiError { message: Some(message), ..error(code) }
}

/// Create an error from a code and a message, with `err` as its cause.
pub fn wrap_error<C>(err: ForeignError, code: C, message: String) -> (r: ApiError<C>)
    ensures
        r@ == (ApiErrorView {
            source: seq![Cause::Foreign(err)],
            ..fresh_error(code, Some(message@))
        }),
{
    let mut source: Vec<Cause<C>> = Vec::new();
    source.push(Cause::Foreign(err));
    ApiError { message: Some(message), source, ..error(code) }
}

impl<C> ApiError<C> {
    /// The code.
    pub fn code(&self) -> (r: &C)
        ensures
            *r == self@.code,
    {
        &self.code
    }

    /// The message set with [`with_message`](Self::with_message), if any.
    pub fn message(&self) -> (r: Option<&String>)
        ensures
            r matches Some(m) ==> self@.message == Some(m@),
            r is None ==> self@.message is None,
    {
        self.message.as_ref()
    }

    /// The cause chain, most recently attached first; `None` when there is none.
    pub fn source(&self) -> (r: Option<&Vec<Cause<C>>>)
        ensures
            r matches Some(v) ==> v@ == self@.source && v@.len() > 0,
            r is None ==> self@.source.len() == 0,
    {
        if self.source.len() == 0 {
            None
        } else {
            Some(&self.source)
        }
    }

    /// The structured detail, if any.
    pub fn meta(&self) -> (r: Option<&serde_json::Value>)
        ensures
            r matches Some(m) ==> self@.meta == Some(*m),
            r is None ==> self@.meta is None,
    {
        self.meta.as_ref()
    }

    /// The error locator (JSON:API `source`), if any.
    pub fn error_source(&self) -> (r: Option<&ErrorSource>)
        ensures
            r matches Some(s) ==> self@.error_source == Some(s@),
            r is None ==> self@.error_source is None,
    {
        self.error_source.as_ref()
    }

    /// The RFC 9457 `type` URI, if any.
    pub fn type_uri(&self) -> (r: Option<&String>)
        ensures
            r matches Some(m) ==> self@.type_uri == Some(m@),
            r is None ==> self@.type_uri is None,
    {
        self.type_uri.as_ref()
    }

    /// The RFC 9457 `instance`, if any.
    pub fn instance(&self) -> (r: Option<&String>)
        ensures
            r matches Some(m) ==> self@.instance == Some(m@),
            r is None ==> self@.instance is None,
    {
        self.instance.as_ref()
    }

    /// Where the error was raised, when the raising code recorded it.
    pub fn location(&self) -> (r: Option<&Location>)
        ensures
            r matches Some(l) ==> self@.location == Some(*l),
            r is None ==> self@.location is None,
    {
        self.location.as_ref()
    }

    /// Whether the full cause chain goes to the client.
    pub fn is_verbose(&self) -> (r: bool)
        ensures
            r == self@.verbose,
    {
        self.verbose
    }

    /// The transport HTTP status: the one set explicitly, else
    /// [`DEFAULT_ERROR_STATUS`]. Wrapping does not inherit a nested status.
    pub fn status(&self) -> (r: u16)
        ensures
            r == status_or_default(self@.status),
    {
        match self.status {
            Some(s) => s,
            None => DEFAULT_ERROR_STATUS,
        }
    }

    /// Whether a transport status was set explicitly.
    pub fn has_status(&self) -> (r: bool)
        ensures
            r == self@.status is Some,
    {
        self.status.is_some()
    }

    /// Adopt `status` unless one was already set explicitly.
    pub fn with_source_status(self, status: u16) -> (r: Self)
        ensures
            r@ == (ApiErrorView {
                status: if self@.status is Some { self@.status } else { Some(status) },
                ..self@
            }),
    {
        if self.status.is_none() {
            ApiError { status: Some(status), ..self }
        } else {
            self
        }
    }

    /// Set the human-readable message.
    pub fn with_message(self, message: String) -> (r: Self)
        ensures
            r@ == (ApiErrorView { message: Some(message@), ..self@ }),
    {
        ApiError { message: Some(message), ..self }
    }

    /// Set the structured detail.
    pub fn with_meta(self, meta: serde_json::Value) -> (r: Self)
        ensures
            r@ == (ApiErrorView { meta: Some(meta), ..self@ }),
    {
        ApiError { meta: Some(meta), ..self }
    }

    /// Set the whole error locator at once.
    pub fn with_error_source(self, source: ErrorSource) -> (r: Self)
        ensures
            r@ == (ApiErrorView { error_source: Some(source@), ..self@ }),
    {
        ApiError { error_source: Some(source), ..self }
    }

    /// Point at the offending value with a JSON Pointer; other locator fields
    /// are kept.
    pub fn with_pointer(self, pointer: String) -> (r: Self)
        ensures
            r@ == (ApiErrorView {
                error_source: Some(ErrorSourceView {
                    pointer: Some(pointer@),
                    ..source_or_empty(self@.error_source)
                }),
                ..self@
            }),
    {
        let current = match self.error_source {
            Some(s) => s,
            None => ErrorSource::new(),
        };
        ApiError { error_source: Some(current.with_pointer(pointer)), ..self }
    }

    /// Point at the offending query parameter; other locator fields are kept.
    pub fn with_parameter(self, parameter: String) -> (r: Self)
        ensures
            r@ == (ApiErrorView {
                error_source: Some(ErrorSourceView {
                    parameter: Some(parameter@),
                    ..source_or_empty(self@.error_source)
                }),
                ..self@
            }),
    {
        let current = match self.error_source {
            Some(s) => s,
            None => ErrorSource::new(),
        };
        ApiError { error_source: Some(current.with_parameter(parameter)), ..self }
    }

    /// Point at the offending request header; other locator fields are kept.
    pub fn with_header(self, header: String) -> (r: Self)
        ensures
            r@ == (ApiErrorView {
                error_source: Some(ErrorSourceView {
                    header: Some(header@),
                    ..source_or_empty(self@.error_source)
                }),
                ..self@
            }),
    {
        let current = match self.error_source {
            Some(s) => s,
            None => ErrorSource::new(),
        };
        ApiError { error_source: Some(current.with_header(header)), ..self }
    }

    /// Set the RFC 9457 `type` URI.
    pub fn with_type(self, type_uri: String) -> (r: Self)
        ensures
            r@ == (ApiErrorView { type_uri: Some(type_uri@), ..self@ }),
    {
        ApiError { type_uri: Some(type_uri), ..self }
    }

    /// Set the RFC 9457 `instance`.
    pub fn with_instance(self, instance: String) -> (r: Self)
        ensures
            r@ == (ApiErrorView { instance: Some(instance@), ..self@ }),
    {
        ApiError { instance: Some(instance), ..self }
    }

    /// Set the transport HTTP status. It is not serialized into the body.
    pub fn with_status(self, status: u16) -> (r: Self)
        requires
            valid_status(status),
        ensures
            r@ == (ApiErrorView { status: Some(status), ..self@ }),
    {
        ApiError { status: Some(status), ..self }
    }

    /// Send the full cause chain to the client.
    pub fn with_verbose(self) -> (r: Self)
        ensures
            r@ == (ApiErrorView { verbose: true, ..self@ }),
    {
        ApiError { verbose: true, ..self }
    }

    /// Record where the error was raised.
    pub fn with_location(self, location: Location) -> (r: Self)
        ensures
            r@ == (ApiErrorView { location: Some(location), ..self@ }),
    {
        ApiError { location: Some(location), ..self }
    }

    /// Attach `cause` as the newest link of the cause chain.
    pub fn with_source(self, cause: Cause<C>) -> (r: Self)
        ensures
            r@ == (ApiErrorView { source: seq![cause] + self@.source, ..self@ }),
    {
        let mut source = self.source;
        source.insert(0, cause);
        proof {
            assert(source@ =~= seq![cause] + self.source@);
        }
        ApiError { source, ..self }
    }

    /// Attach a nested API error as the newest cause.
    pub fn with_error(self, err: ApiError<C>) -> (r: Self)
        ensures
            r@ == (ApiErrorView { source: seq![Cause::Api(Box::new(err))] + self@.source, ..self@ }),
    {
        self.with_source(Cause::Api(Box::new(err)))
    }

    /// Attach a non-API error as the newest cause.
    pub fn with_foreign(self, err: ForeignError) -> (r: Self)
        ensures
            r@ == (ApiErrorView { source: seq![Cause::Foreign(err)] + self@.source, ..self@ }),
    {
        self.with_source(Cause::Foreign(err))
    }

    /// Add a bare frame to the cause chain, marking that the error passed here.
    pub fn track(self) -> (r: Self)
        ensures
            r@.source.len() == self@.source.len() + 1,
            r@.source.drop_first() == self@.source,
            r@.source[0] matches Cause::Foreign(f) && f@.display.len() == 0 && f@.leaves.len() == 0,
            r@ == (ApiErrorView { source: r@.source, ..self@ }),
    {
        let frame = ForeignError::transparent();
        let r = self.with_foreign(frame);
        proof {
            assert(r@.source.drop_first() =~= self@.source);
        }
        r
    }
}

impl<C: ApiErrorStatus> ApiError<C> {
    /// Seed the transport status from the code's [`ApiErrorStatus`] mapping.
    pub fn with_code_status(self) -> (r: Self)
        requires
            valid_status(self@.code.status_of()),
        ensures
            r@ == (ApiErrorView { status: Some(self@.code.status_of()), ..self@ }),
    {
        let status = self.code.status_code();
        ApiError { status: Some(status), ..self }
    }
}

/// The transport status reported for a configured one.
pub open spec fn status_or_default(status: Option<u16>) -> u16 {
    match status {
        Some(s) => s,
        None => DEFAULT_ERROR_STATUS,
    }
}


/// The separator between a message and the rendering of its cause.
pub open spec fn cause_sep() -> Seq<char> {
    ", "@
}

/// The `Display` rendering of an error: `leto error: <code>`, then
/// `, message: <m>` when [`spec_format_message`] gives a non-empty `m`.
pub closed spec fn spec_display<C: ApiErrorCode>(e: ApiError<C>) -> Seq<char>
    decreases e, 3nat,
{
    match spec_format_message(e) {
        Some(m) => if m.len() > 0 {
            display_prefix() + e.code.code_view() + display_message_sep() + m
        } else {
            display_prefix() + e.code.code_view()
        },
        None => display_prefix() + e.code.code_view(),
    }
}

/// The message an error shows: the cause-folded one in verbose mode, else
/// the plain message.
pub closed spec fn spec_format_message<C: ApiErrorCode>(e: ApiError<C>) -> Option<Seq<char>>
    decreases e, 2nat,
{
    if e.verbose {
        spec_format_message_verbose(e)
    } else {
        opt_str(e.message)
    }
}

/// The message folded with the rendering of the newest cause:
/// `<message>, <cause>`, or whichever of the two exists.
pub closed spec fn spec_format_message_verbose<C: ApiErrorCode>(e: ApiError<C>) -> Option<Seq<char>>
    decreases e, 1nat,
{
    if e.source@.len() == 0 {
        opt_str(e.message)
    } else {
        let cause = spec_cause_display(e.source@[0]);
        match e.message {
            Some(m) => Some(m@ + cause_sep() + cause),
            None => Some(cause),
        }
    }
}

/// How a cause renders: a nested API error by its `Display`, anything else by
/// its own rendering.
pub closed spec fn spec_cause_display<C: ApiErrorCode>(c: Cause<C>) -> Seq<char>
    decreases c, 0nat,
{
    match c {
        Cause::Api(b) => spec_display(*b),
        Cause::Foreign(f) => f.display@,
    }
}

/// The client-facing entry of an error: the message is the cause-folded one
/// when `verbose`, the plain one otherwise; an empty locator is dropped.
pub closed spec fn spec_message_with<C: ApiErrorCode>(e: ApiError<C>, verbose: bool) -> ErrorMessageView {
    ErrorMessageView {
        code: e.code.code_view(),
        message: if verbose { spec_format_message_verbose(e) } else { opt_str(e.message) },
        type_uri: opt_str(e.type_uri),
        instance: opt_str(e.instance),
        source: nonempty_source(opt_source(e.error_source)),
        meta: e.meta,
    }
}

/// The client-facing entry of an error, honouring its own verbose flag.
pub closed spec fn spec_message<C: ApiErrorCode>(e: ApiError<C>) -> ErrorMessageView {
    ErrorMessageView {
        code: e.code.code_view(),
        message: spec_format_message(e),
        type_uri: opt_str(e.type_uri),
        instance: opt_str(e.instance),
        source: nonempty_source(opt_source(e.error_source)),
        meta: e.meta,
    }
}

/// Render a cause.
pub fn cause_display_string<C: ApiErrorCode>(c: &Cause<C>) -> (r: String)
    ensures
        r@ == spec_cause_display(*c),
    decreases *c, 0nat,
{
    match c {
        Cause::Api(b) => b.display_string(),
        Cause::Foreign(f) => f.display.clone(),
    }
}

impl<C: ApiErrorCode> ApiError<C> {
    /// The `Display` rendering: `leto error: <code>[, message: <message>]`.
    pub fn display_string(&self) -> (r: String)
        ensures
            r@ == spec_display(*self),
        decreases *self, 3nat,
    {
        let mut out = String::from_str("leto error: ");
        let code = self.code.code_string();
        out.append(code.as_str());
        match self.format_message() {
            Some(m) => {
                if m.as_str().unicode_len() > 0 {
                    out.append(", message: ");
                    out.append(m.as_str());
                }
            },
            None => {},
        }
        out
    }

    /// The message the error shows: [`format_message_verbose`](Self::format_message_verbose)
    /// in verbose mode, the plain message otherwise.
    pub fn format_message(&self) -> (r: Option<String>)
        ensures
            opt_str(r) == spec_format_message(*self),
        decreases *self, 2nat,
    {
        if self.verbose {
            self.format_message_verbose()
        } else {
            copy_opt_str(&self.message)
        }
    }

    /// The message folded with the rendering of the newest cause, for logs.
    pub fn format_message_verbose(&self) -> (r: Option<String>)
        ensures
            opt_str(r) == spec_format_message_verbose(*self),
        decreases *self, 1nat,
    {
        if self.source.len() == 0 {
            copy_opt_str(&self.message)
        } else {
            let cause = cause_display_string(&self.source[0]);
            match &self.message {
                Some(m) => {
                    let mut out = m.clone();
                    out.append(", ");
                    out.append(cause.as_str());
                    Some(out)
                },
                None => Some(cause),
            }
        }
    }
}


/// `needle` occurs somewhere in `hay`.
pub open spec fn contains_seq(hay: Seq<char>, needle: Seq<char>) -> bool {
    exists|i: int|
        0 <= i && i + needle.len() <= hay.len() && #[trigger] hay.subrange(i, i + needle.len())
            == needle
}

/// Whether `needle` occurs in `hay`.
pub fn str_contains(hay: &str, needle: &str) -> (r: bool)
    ensures
        r == contains_seq(hay@, needle@),
{
    let n = hay.unicode_len();
    let m = needle.unicode_len();
    if m > n {
        proof {
            assert forall|i: int| 0 <= i && i + needle@.len() <= hay@.len() implies #[trigger] hay@.subrange(i, i + needle@.len()) != needle@ by {}
        }
        return false;
    }
    let mut i: usize = 0;
    while i <= n - m
        invariant
            n == hay@.len(),
            m == needle@.len(),
            m <= n,
            i <= n - m + 1,
            forall|k: int| 0 <= k < i ==> #[trigger] hay@.subrange(k, k + m) != needle@,
        decreases n - m + 1 - i,
    {
        let mut j: usize = 0;
        let mut same = true;
        while j < m
            invariant
                n == hay@.len(),
                m == needle@.len(),
                i + m <= n,
                j <= m,
                same == (forall|t: int| 0 <= t < j ==> hay@[i + t] == needle@[t]),
            decreases m - j,
        {
            if hay.get_char(i + j) != needle.get_char(j) {
                same = false;
            }
            j = j + 1;
        }
        if same {
            proof {
                assert(hay@.subrange(i as int, i + m) =~= needle@);
            }
            return true;
        }
        proof {
            let k = choose|t: int| 0 <= t < m && hay@[i + t] != needle@[t];
            assert(hay@.subrange(i as int, i + m)[k] != needle@[k]);
        }
        i = i + 1;
    }
    false
}

/// Fold the text of a non-API cause into the last collected entry: set as its
/// message when it has none, appended after `", "` otherwise — unless the
/// message already holds the text. Empty text, or nothing to attach to,
/// changes nothing.
pub open spec fn fold_leaf(out: Seq<ErrorMessageView>, text: Seq<char>) -> Seq<ErrorMessageView> {
    if text.len() == 0 || out.len() == 0 {
        out
    } else {
        let last = out.last();
        match last.message {
            Some(m) => if contains_seq(m, text) {
                out
            } else {
                out.update(out.len() - 1, ErrorMessageView { message: Some(m + cause_sep() + text), ..last })
            },
            None => out.update(out.len() - 1, ErrorMessageView { message: Some(text), ..last }),
        }
    }
}

/// Fold every innermost text of a non-API cause, in order.
pub open spec fn fold_leaves(leaves: Seq<Seq<char>>, out: Seq<ErrorMessageView>) -> Seq<ErrorMessageView>
    decreases leaves.len(),
{
    if leaves.len() == 0 {
        out
    } else {
        fold_leaves(leaves.drop_first(), fold_leaf(out, leaves[0]))
    }
}

/// Walk a cause chain in order, after the entries already in `out`: every
/// nested API error contributes its own entry (its message verbatim unless
/// `verbose`), followed by the entries of its own chain; the text of every
/// other cause is folded into the entry above it.
pub closed spec fn spec_collect<C: ApiErrorCode>(
    causes: Seq<Cause<C>>,
    out: Seq<ErrorMessageView>,
    verbose: bool,
) -> Seq<ErrorMessageView>
    decreases causes,
{
    if causes.len() == 0 {
        out
    } else {
        let next = match causes[0] {
            Cause::Api(b) => spec_collect((*b).source@, out.push(spec_message_with(*b, verbose)), verbose),
            Cause::Foreign(f) => fold_leaves(strs_view(f.leaves@), out),
        };
        spec_collect(causes.drop_first(), next, verbose)
    }
}

/// Fold `text` into the last entry of `output` (see [`fold_leaf`]).
fn append_foreign_cause(text: &String, output: &mut Vec<ErrorMessage>)
    ensures
        messages_view(final(output)@) == fold_leaf(messages_view(old(output)@), text@),
{
    let ghost old_view = messages_view(output@);
    if text.as_str().unicode_len() == 0 || output.len() == 0 {
        return;
    }
    let mut last = output.pop().unwrap();
    proof {
        assert(old_view.last() == last@);
        assert(messages_view(output@) =~= old_view.drop_last());
    }
    let keep = match &last.message {
        Some(m) => str_contains(m.as_str(), text.as_str()),
        None => false,
    };
    if keep {
        output.push(last);
        proof {
            assert(messages_view(output@) =~= old_view);
        }
        return;
    }
    let new_message = match last.message {
        Some(m) => {
            let mut m2 = m;
            m2.append(", ");
            m2.append(text.as_str());
            m2
        },
        None => text.clone(),
    };
    last.message = Some(new_message);
    output.push(last);
    proof {
        assert(messages_view(output@) =~= fold_leaf(old_view, text@));
    }
}

/// Fold every text of `leaves` in turn (see [`fold_leaves`]).
fn append_foreign_leaves(leaves: &Vec<String>, output: &mut Vec<ErrorMessage>)
    ensures
        messages_view(final(output)@) == fold_leaves(strs_view(leaves@), messages_view(old(output)@)),
{
    let ghost start = messages_view(output@);
    let mut i: usize = 0;
    proof {
        assert(strs_view(leaves@).skip(0) =~= strs_view(leaves@));
    }
    while i < leaves.len()
        invariant
            i <= leaves@.len(),
            fold_leaves(strs_view(leaves@), start) == fold_leaves(
                strs_view(leaves@).skip(i as int),
                messages_view(output@),
            ),
        decreases leaves@.len() - i,
    {
        let ghost before = messages_view(output@);
        append_foreign_cause(&leaves[i], output);
        proof {
            let rest = strs_view(leaves@).skip(i as int);
            assert(rest[0] == leaves@[i as int]@);
            assert(rest.drop_first() =~= strs_view(leaves@).skip(i + 1));
        }
        i = i + 1;
    }
    proof {
        assert(strs_view(leaves@).skip(i as int) =~= Seq::<Seq<char>>::empty());
    }
}

/// Append the entries of a cause chain to `output` (see [`spec_collect`]).
fn collect_api_errors<C: ApiErrorCode>(
    causes: &Vec<Cause<C>>,
    verbose: bool,
    output: &mut Vec<ErrorMessage>,
)
    ensures
        messages_view(final(output)@) == spec_collect(causes@, messages_view(old(output)@), verbose),
    decreases causes@,
{
    let ghost start = messages_view(output@);
    let mut i: usize = 0;
    proof {
        assert(causes@.skip(0) =~= causes@);
    }
    while i < causes.len()
        invariant
            i <= causes@.len(),
            spec_collect(causes@, start, verbose) == spec_collect(
                causes@.skip(i as int),
                messages_view(output@),
                verbose,
            ),
        decreases causes@.len() - i,
    {
        let ghost before = messages_view(output@);
        let ghost rest = causes@.skip(i as int);
        proof {
            assert(rest[0] == causes@[i as int]);
            assert(rest.drop_first() =~= causes@.skip(i + 1));
        }
        match &causes[i] {
            Cause::Api(b) => {
                let entry = b.to_error_message_with(verbose);
                output.push(entry);
                proof {
                    assert(messages_view(output@) =~= before.push(spec_message_with(**b, verbose)));
                    assert(decreases_to!(causes@ => causes@[i as int]));
                }
                collect_api_errors(&b.source, verbose, output);
            },
            Cause::Foreign(f) => {
                append_foreign_leaves(&f.leaves, output);
            },
        }
        i = i + 1;
    }
    proof {
        assert(causes@.skip(i as int) =~= Seq::<Cause<C>>::empty());
    }
}

impl<C: ApiErrorCode> ApiError<C> {
    /// The client-facing entry with the message chosen by `verbose`, not by the
    /// error's own flag: the cause-folded message when `true`, the plain one
    /// when `false`.
    pub fn to_error_message_with(&self, verbose: bool) -> (r: ErrorMessage)
        ensures
            r@ == spec_message_with(*self, verbose),
    {
        ErrorMessage {
            code: self.code.code_string(),
            message: if verbose {
                self.format_message_verbose()
            } else {
                copy_opt_str(&self.message)
            },
            type_uri: copy_opt_str(&self.type_uri),
            instance: copy_opt_str(&self.instance),
            source: match &self.error_source {
                Some(s) => if s.is_empty() {
                    None
                } else {
                    Some(s.copied())
                },
                None => None,
            },
            meta: self.meta.clone(),
        }
    }

    /// The client-facing entry, honouring the error's own verbose flag.
    pub fn to_error_message(&self) -> (r: ErrorMessage)
        ensures
            r@ == spec_message(*self),
    {
        ErrorMessage {
            code: self.code.code_string(),
            message: self.format_message(),
            type_uri: copy_opt_str(&self.type_uri),
            instance: copy_opt_str(&self.instance),
            source: match &self.error_source {
                Some(s) => if s.is_empty() {
                    None
                } else {
                    Some(s.copied())
                },
                None => None,
            },
            meta: self.meta.clone(),
        }
    }

    /// The client-facing entry, consuming the error.
    pub fn into_error_message(self) -> (r: ErrorMessage)
        ensures
            r@ == spec_message(self),
    {
        self.to_error_message()
    }

    /// The error's own entry (its plain message) followed by the entries of its
    /// cause chain (see [`spec_collect`]), whatever the verbose mode.
    pub fn collect_messages(&self) -> (r: Vec<ErrorMessage>)
        ensures
            messages_view(r@) == spec_collect(self@.source, seq![spec_message_with(*self, false)], false),
    {
        let mut output: Vec<ErrorMessage> = Vec::new();
        output.push(self.to_error_message_with(false));
        proof {
            assert(messages_view(output@) =~= seq![spec_message_with(*self, false)]);
        }
        collect_api_errors(&self.source, false, &mut output);
        output
    }
}

/// The entries of a cause chain on its own (see [`spec_collect`]).
pub fn report_collect_messages<C: ApiErrorCode>(causes: &Vec<Cause<C>>, verbose: bool) -> (r: Vec<ErrorMessage>)
    ensures
        messages_view(r@) == spec_collect(causes@, Seq::empty(), verbose),
{
    let mut output: Vec<ErrorMessage> = Vec::new();
    proof {
        assert(messages_view(output@) =~= Seq::<ErrorMessageView>::empty());
    }
    collect_api_errors(causes, verbose, &mut output);
    output
}


/// Folding a text never adds or removes an entry, and never changes a code.
pub proof fn lemma_fold_leaf_keeps_codes(out: Seq<ErrorMessageView>, text: Seq<char>)
    ensures
        fold_leaf(out, text).len() == out.len(),
        forall|i: int| 0 <= i < out.len() ==> #[trigger] fold_leaf(out, text)[i].code == out[i].code,
{
}

/// Folding texts never adds or removes an entry, and never changes a code.
pub proof fn lemma_fold_leaves_keeps_codes(leaves: Seq<Seq<char>>, out: Seq<ErrorMessageView>)
    ensures
        fold_leaves(leaves, out).len() == out.len(),
        forall|i: int| 0 <= i < out.len() ==> #[trigger] fold_leaves(leaves, out)[i].code == out[i].code,
    decreases leaves.len(),
{
    if leaves.len() > 0 {
        lemma_fold_leaf_keeps_codes(out, leaves[0]);
        lemma_fold_leaves_keeps_codes(leaves.drop_first(), fold_leaf(out, leaves[0]));
    }
}

/// Walking a cause chain only appends entries: the entries already collected
/// keep their place and their code.
pub proof fn lemma_collect_keeps_entries<C: ApiErrorCode>(
    causes: Seq<Cause<C>>,
    out: Seq<ErrorMessageView>,
    verbose: bool,
)
    ensures
        spec_collect(causes, out, verbose).len() >= out.len(),
        forall|i: int|
            0 <= i < out.len() ==> #[trigger] spec_collect(causes, out, verbose)[i].code == out[i].code,
    decreases causes,
{
    if causes.len() > 0 {
        let next = match causes[0] {
            Cause::Api(b) => spec_collect((*b).source@, out.push(spec_message_with(*b, verbose)), verbose),
            Cause::Foreign(f) => fold_leaves(strs_view(f.leaves@), out),
        };
        match causes[0] {
            Cause::Api(b) => {
                assert(decreases_to!(causes => causes[0]));
                lemma_collect_keeps_entries((*b).source@, out.push(spec_message_with(*b, verbose)), verbose);
                assert forall|i: int| 0 <= i < out.len() implies #[trigger] next[i].code == out[i].code by {
                    assert(out.push(spec_message_with(*b, verbose))[i] == out[i]);
                }
            },
            Cause::Foreign(f) => {
                lemma_fold_leaves_keeps_codes(strs_view(f.leaves@), out);
            },
        }
        lemma_collect_keeps_entries(causes.drop_first(), next, verbose);
    }
}

/// An error's own entry carries its code's wire string.
pub proof fn lemma_entry_code<C: ApiErrorCode>(e: ApiError<C>, verbose: bool)
    ensures
        spec_message_with(e, verbose).code == e@.code.code_view(),
        spec_message(e).code == e@.code.code_view(),
        spec_message_with(e, false).message == e@.message,
{
}

/// With no cause, the verbose and plain renderings agree; a nested error with
/// no cause of its own contributes exactly its own entry, message verbatim.
pub proof fn lemma_single_nested_error<C: ApiErrorCode>(inner: ApiError<C>, out: Seq<ErrorMessageView>)
    requires
        inner@.source.len() == 0,
    ensures
        spec_collect(seq![Cause::Api(Box::new(inner))], out, false) == out.push(spec_message_with(inner, false)),
{
    let causes = seq![Cause::Api(Box::new(inner))];
    let pushed = out.push(spec_message_with(inner, false));
    assert(causes.drop_first() =~= Seq::<Cause<C>>::empty());
    assert(inner.source@ =~= Seq::<Cause<C>>::empty());
    assert(spec_collect(inner.source@, pushed, false) == pushed);
    assert(spec_collect(causes.drop_first(), pushed, false) == pushed);
    assert(causes[0] == Cause::Api(Box::new(inner)));
}


/// The number of API errors in a cause chain: every nested API error, and
/// those of its own chain.
pub closed spec fn api_count<C>(causes: Seq<Cause<C>>) -> nat
    decreases causes,
{
    if causes.len() == 0 {
        0
    } else {
        (match causes[0] {
            Cause::Api(b) => 1 + api_count((*b).source@),
            Cause::Foreign(_) => 0,
        }) + api_count(causes.drop_first())
    }
}

/// Walking a cause chain adds exactly one entry per API error in it, and none
/// for any other cause.
pub proof fn lemma_collect_counts<C: ApiErrorCode>(causes: Seq<Cause<C>>, out: Seq<ErrorMessageView>, verbose: bool)
    ensures
        spec_collect(causes, out, verbose).len() == out.len() + api_count(causes),
    decreases causes,
{
    if causes.len() > 0 {
        let next = match causes[0] {
            Cause::Api(b) => spec_collect((*b).source@, out.push(spec_message_with(*b, verbose)), verbose),
            Cause::Foreign(f) => fold_leaves(strs_view(f.leaves@), out),
        };
        match causes[0] {
            Cause::Api(b) => {
                assert(decreases_to!(causes => causes[0]));
                lemma_collect_counts((*b).source@, out.push(spec_message_with(*b, verbose)), verbose);
            },
            Cause::Foreign(f) => {
                lemma_fold_leaves_keeps_codes(strs_view(f.leaves@), out);
            },
        }
        lemma_collect_counts(causes.drop_first(), next, verbose);
    }
}


/// Two errors that differ at most in their transport status show the same
/// messages and give the same entries.
pub proof fn lemma_entries_ignore_status<C: ApiErrorCode>(a: ApiError<C>, b: ApiError<C>)
    requires
        a@ == (ApiErrorView { status: a@.status, ..b@ }),
    ensures
        spec_message(a) == spec_message(b),
        spec_message_with(a, false) == spec_message_with(b, false),
        spec_message_with(a, true) == spec_message_with(b, true),
        spec_format_message(a) == spec_format_message(b),
        spec_display(a) == spec_display(b),
{
    assert(a.code == b.code);
    assert(opt_str(a.message) == opt_str(b.message));
    assert(a.source@ == b.source@);
    assert(a.verbose == b.verbose);
    assert(opt_str(a.type_uri) == opt_str(b.type_uri));
    assert(opt_str(a.instance) == opt_str(b.instance));
    assert(opt_source(a.error_source) == opt_source(b.error_source));
    assert(a.meta == b.meta);
    assert(spec_format_message_verbose(a) == spec_format_message_verbose(b));
}


/// A copy of a cause: a nested error copied in full, a foreign one as it is.
impl<C: Clone> Clone for Cause<C> {
    fn clone(&self) -> (r: Self)
        decreases self, 0nat,
    {
        match self {
            Cause::Api(b) => Cause::Api(Box::new(clone_error(&**b))),
            Cause::Foreign(f) => Cause::Foreign(f.clone()),
        }
    }
}

/// A copy of an error and of its whole cause chain.
fn clone_error<C: Clone>(e: &ApiError<C>) -> (r: ApiError<C>)
    ensures
        cloned::<C>(e@.code, r@.code),
        r@ == (ApiErrorView { code: r@.code, source: r@.source, location: r@.location, ..e@ }),
        r@.source.len() == e@.source.len(),
        r@.location is Some <==> e@.location is Some,
    decreases *e, 1nat,
{
    let mut source: Vec<Cause<C>> = Vec::new();
    let mut i: usize = 0;
    while i < e.source.len()
        invariant
            i <= e.source@.len(),
            source@.len() == i,
        decreases e.source@.len() - i,
    {
        proof {
            assert(decreases_to!(*e => e.source@[i as int]));
        }
        source.push(e.source[i].clone());
        i = i + 1;
    }
    ApiError {
        code: e.code.clone(),
        message: copy_opt_str(&e.message),
        meta: e.meta.clone(),
        error_source: match &e.error_source {
            Some(s) => Some(s.copied()),
            None => None,
        },
        type_uri: copy_opt_str(&e.type_uri),
        instance: copy_opt_str(&e.instance),
        status: e.status,
        source,
        verbose: e.verbose,
        location: e.location.clone(),
    }
}

impl<C: Clone> Clone for ApiError<C> {
    fn clone(&self) -> (r: Self)
        ensures
            cloned::<C>(self@.code, r@.code),
            r@ == (ApiErrorView { code: r@.code, source: r@.source, location: r@.location, ..self@ }),
            r@.source.len() == self@.source.len(),
    {
        clone_error(self)
    }
}


/// How an error shows its messages and renders, read through its view: the
/// plain message, or in verbose mode the message folded with the rendering of
/// the newest cause; `Display` as `leto error: <code>[, message: <m>]`; and
/// its client-facing entry.
pub proof fn lemma_rendering_unfolds<C: ApiErrorCode>(e: ApiError<C>, verbose: bool)
    ensures
        spec_format_message_verbose(e) == (if e@.source.len() == 0 {
            e@.message
        } else {
            match e@.message {
                Some(m) => Some(m + cause_sep() + spec_cause_display(e@.source[0])),
                None => Some(spec_cause_display(e@.source[0])),
            }
        }),
        spec_format_message(e) == (if e@.verbose {
            spec_format_message_verbose(e)
        } else {
            e@.message
        }),
        spec_display(e) == (match spec_format_message(e) {
            Some(m) => if m.len() > 0 {
                display_prefix() + e@.code.code_view() + display_message_sep() + m
            } else {
                display_prefix() + e@.code.code_view()
            },
            None => display_prefix() + e@.code.code_view(),
        }),
        spec_message_with(e, verbose) == (ErrorMessageView {
            code: e@.code.code_view(),
            message: if verbose {
                spec_format_message_verbose(e)
            } else {
                e@.message
            },
            type_uri: e@.type_uri,
            instance: e@.instance,
            source: nonempty_source(e@.error_source),
            meta: e@.meta,
        }),
        spec_message(e) == spec_message_with(e, e@.verbose),
{
}

/// How a cause renders: a nested API error by its `Display`, anything else by
/// its own rendering.
pub proof fn lemma_cause_display_unfolds<C: ApiErrorCode>(c: Cause<C>)
    ensures
        spec_cause_display(c) == match c {
            Cause::Api(b) => spec_display(*b),
            Cause::Foreign(f) => f@.display,
        },
{
}

/// One step of the walk of a cause chain, read through views: a nested API
/// error adds its own entry, then the entries of its chain; any other cause
/// folds its innermost texts into the entry above it.
pub proof fn lemma_collect_unfolds<C: ApiErrorCode>(causes: Seq<Cause<C>>, out: Seq<ErrorMessageView>, verbose: bool)
    ensures
        causes.len() == 0 ==> spec_collect(causes, out, verbose) == out,
        causes.len() > 0 ==> spec_collect(causes, out, verbose) == spec_collect(
            causes.drop_first(),
            match causes[0] {
                Cause::Api(b) => spec_collect(b@.source, out.push(spec_message_with(*b, verbose)), verbose),
                Cause::Foreign(f) => fold_leaves(f@.leaves, out),
            },
            verbose,
        ),
{
}


/// Substring semantics: a text occurs in every text that has it somewhere in
/// the middle, and a text that occurs in another stands at some offset of it.
pub proof fn lemma_contains_is_substring(a: Seq<char>, b: Seq<char>, c: Seq<char>, h: Seq<char>, n: Seq<char>)
    ensures
        contains_seq(a + b + c, b),
        contains_seq(h, n) ==> exists|i: int| 0 <= i <= h.len() - n.len() && #[trigger] h.subrange(i, i + n.len()) == n,
{
    let w = a + b + c;
    assert(w.subrange(a.len() as int, (a.len() + b.len()) as int) =~= b);
}

/// Folding a foreign text into an entry whose message already holds it leaves
/// every entry as it was; folding one it does not hold appends it after
/// `", "`.
pub proof fn lemma_fold_leaf_skips_known_text(
    out: Seq<ErrorMessageView>,
    a: Seq<char>,
    text: Seq<char>,
    c: Seq<char>,
)
    requires
        out.len() > 0,
        out.last().message == Some(a + text + c),
    ensures
        fold_leaf(out, text) == out,
{
    lemma_contains_is_substring(a, text, c, Seq::empty(), Seq::empty());
}

/// Folding a non-empty foreign text that the last entry's message does not
/// hold appends it to that message after `", "`, and changes nothing else.
pub proof fn lemma_fold_leaf_appends_new_text(out: Seq<ErrorMessageView>, m: Seq<char>, text: Seq<char>)
    requires
        out.len() > 0,
        text.len() > 0,
        out.last().message == Some(m),
        forall|i: int| 0 <= i <= m.len() - text.len() ==> #[trigger] m.subrange(i, i + text.len()) != text,
    ensures
        fold_leaf(out, text).len() == out.len(),
        fold_leaf(out, text).last().message == Some(m + ", "@ + text),
        forall|k: int| 0 <= k < out.len() - 1 ==> #[trigger] fold_leaf(out, text)[k] == out[k],
{
    assert(!contains_seq(m, text));
}


/// An error renders as `leto error: ` and its code, then, when the message it
/// shows is not empty, that message after `, message: `: the rendering starts
/// with the prefix and the code, holds the shown message, and is exactly
/// prefix and code when nothing is shown.
pub proof fn lemma_display_shows_code_and_message<C: ApiErrorCode>(e: ApiError<C>)
    ensures
        spec_display(e).take((display_prefix().len() + e@.code.code_view().len()) as int) == display_prefix()
            + e@.code.code_view(),
        spec_format_message(e) is Some && spec_format_message(e)->Some_0.len() > 0 ==> contains_seq(
            spec_display(e),
            spec_format_message(e)->Some_0,
        ) && spec_display(e).len() == display_prefix().len() + e@.code.code_view().len()
            + display_message_sep().len() + spec_format_message(e)->Some_0.len(),
        !(spec_format_message(e) is Some && spec_format_message(e)->Some_0.len() > 0) ==> spec_display(e)
            == display_prefix() + e@.code.code_view(),
{
    lemma_rendering_unfolds(e, false);
    let head = display_prefix() + e@.code.code_view();
    match spec_format_message(e) {
        Some(m) => {
            if m.len() > 0 {
                let full = head + display_message_sep() + m;
                assert(spec_display(e) == full);
                assert(full.take(head.len() as int) =~= head);
                lemma_contains_is_substring(head + display_message_sep(), m, Seq::empty(), Seq::empty(), Seq::empty());
                assert(head + display_message_sep() + m + Seq::<char>::empty() =~= full);
            } else {
                assert(head.take(head.len() as int) =~= head);
            }
        },
        None => {
            assert(head.take(head.len() as int) =~= head);
        },
    }
}

} // verus!
