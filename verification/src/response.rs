//! The `{ data, meta, errors[] }` envelope.

use crate::code::ApiErrorCode;
use crate::error::{api_count, lemma_collect_counts, lemma_entries_ignore_status, status_or_default, lemma_collect_keeps_entries, lemma_entry_code, spec_collect, spec_message, spec_message_with, ApiError, ApiErrorView, ForeignError, ForeignErrorView};
use crate::error_message::{message_display, messages_view, ErrorMessage, ErrorMessageView};
use crate::rpc_status::{rpc_status_for, ERROR, OK};
use crate::status::{resolve_status, resolved_status, valid_status, DEFAULT_ERROR_STATUS};
use vstd::prelude::*;
use vstd::std_specs::convert::FromSpecImpl;

verus! {

/// A value an envelope can carry as its `data` or its `meta`: any value; the
/// serializer decides how it goes on the wire.
pub trait ResponseData {}

impl<T> ResponseData for T {}

/// The `data` type of an envelope that carries none.
pub type NoData = ();

/// The `meta` type of an envelope that carries none.
pub type NoMeta = ();

/// The response envelope. On the wire, a success document carries `data`
/// (even as `null`) and an error document carries a non-empty `errors[]`;
/// the two never coexist, whatever the struct holds (see [`envelope_shape`]).
#[derive(Debug, Clone, PartialEq)]
pub struct ApiResponse<T = NoData, M = NoMeta> {
    pub data: Option<T>,
    pub meta: Option<M>,
    pub errors: Vec<ErrorMessage>,
}

/// Which top-level fields an envelope puts on the wire.
#[derive(Debug, Clone, Copy, PartialEq, Eq, Structural)]
pub struct WireShape {
    /// `data` is emitted (as `null` when absent).
    pub data: bool,
    /// `meta` is emitted.
    pub meta: bool,
    /// `errors` is emitted.
    pub errors: bool,
}

/// The wire shape of an envelope with `error_count` errors.
pub open spec fn shape_of(error_count: nat, has_meta: bool) -> WireShape {
    WireShape { data: error_count == 0, meta: has_meta, errors: error_count > 0 }
}

/// Decide which top-level fields an envelope emits: `errors` only when
/// non-empty, `data` exactly when there are no errors, `meta` when present.
pub fn envelope_shape(error_count: usize, has_meta: bool) -> (r: WireShape)
    ensures
        r == shape_of(error_count as nat, has_meta),
{
    WireShape { data: error_count == 0, meta: has_meta, errors: error_count > 0 }
}

/// Whatever the envelope holds, `data` and `errors` never go on the wire
/// together, one of them always does, and `errors` goes only when non-empty.
pub proof fn lemma_data_and_errors_exclusive(error_count: nat, has_meta: bool)
    ensures
        shape_of(error_count, has_meta).data != shape_of(error_count, has_meta).errors,
        shape_of(error_count, has_meta).errors ==> error_count > 0,
        shape_of(error_count, has_meta).meta == has_meta,
{
}

/// The index of the first entry carrying `code`, if any.
pub open spec fn first_with_code(errors: Seq<ErrorMessageView>, code: Seq<char>, i: int) -> bool {
    0 <= i < errors.len() && errors[i].code == code && forall|j: int| 0 <= j < i ==> errors[j].code != code
}

impl<T, M> ApiResponse<T, M> {
    /// The outcome header value: `error` when the envelope carries errors,
    /// `ok` otherwise — keyed on the same test that picks the wire shape.
    pub fn rpc_status(&self) -> (r: &'static str)
        ensures
            self.errors@.len() == 0 ==> r@ == OK@,
            self.errors@.len() > 0 ==> r@ == ERROR@,
    {
        rpc_status_for(self.errors.len())
    }

    /// The wire shape of this envelope.
    pub fn shape(&self) -> (r: WireShape)
        ensures
            r == shape_of(self.errors@.len(), self.meta is Some),
    {
        envelope_shape(self.errors.len(), self.meta.is_some())
    }

    /// The first entry whose code is `code`'s wire string.
    pub fn has_error_code<C: ApiErrorCode>(&self, code: C) -> (r: Option<&ErrorMessage>)
        ensures
            r matches Some(m) ==> exists|i: int|
                first_with_code(messages_view(self.errors@), code.code_view(), i) && self.errors@[i] == *m,
            r is None ==> forall|i: int|
                0 <= i < self.errors@.len() ==> self.errors@[i].code@ != code.code_view(),
    {
        let wanted = code.code_string();
        let mut i: usize = 0;
        while i < self.errors.len()
            invariant
                i <= self.errors@.len(),
                wanted@ == code.code_view(),
                forall|j: int| 0 <= j < i ==> self.errors@[j].code@ != code.code_view(),
            decreases self.errors@.len() - i,
        {
            if self.errors[i].code == wanted {
                proof {
                    assert(first_with_code(messages_view(self.errors@), code.code_view(), i as int));
                }
                return Some(&self.errors[i]);
            }
            i = i + 1;
        }
        None
    }

    /// The code of the first entry.
    pub fn first_error_code(&self) -> (r: Option<&str>)
        ensures
            r matches Some(c) ==> self.errors@.len() > 0 && c@ == self.errors@[0].code@,
            r is None ==> self.errors@.len() == 0,
    {
        if self.errors.len() == 0 {
            None
        } else {
            Some(self.errors[0].code.as_str())
        }
    }

    /// The code of the last entry.
    pub fn last_error_code(&self) -> (r: Option<&str>)
        ensures
            r matches Some(c) ==> self.errors@.len() > 0 && c@ == self.errors@.last().code@,
            r is None ==> self.errors@.len() == 0,
    {
        if self.errors.len() == 0 {
            None
        } else {
            Some(self.errors[self.errors.len() - 1].code.as_str())
        }
    }

    /// Set `meta`.
    pub fn with_meta(self, meta: M) -> (r: Self)
        ensures
            r == (ApiResponse { meta: Some(meta), ..self }),
    {
        ApiResponse { meta: Some(meta), ..self }
    }

    /// Set `data`.
    pub fn with_data(self, data: T) -> (r: Self)
        ensures
            r == (ApiResponse { data: Some(data), ..self }),
    {
        ApiResponse { data: Some(data), ..self }
    }

    /// Replace `errors`.
    pub fn with_errors(self, errors: Vec<ErrorMessage>) -> (r: Self)
        ensures
            r == (ApiResponse { errors, ..self }),
    {
        ApiResponse { errors, ..self }
    }

    /// The envelope as the `Ok` of a handler result.
    pub fn as_result(self) -> (r: Result<ApiResponse<T, M>, ApiError>)
        ensures
            r == Ok::<ApiResponse<T, M>, ApiError>(self),
    {
        Ok(self)
    }

    /// The data, if any.
    pub fn ok(&self) -> (r: Option<&T>)
        ensures
            r matches Some(d) ==> self.data == Some(*d),
            r is None ==> self.data is None,
    {
        self.data.as_ref()
    }

    /// The first error entry, if any.
    pub fn err(&self) -> (r: Option<&ErrorMessage>)
        ensures
            r matches Some(m) ==> self.errors@.len() > 0 && *m == self.errors@[0],
            r is None ==> self.errors@.len() == 0,
    {
        if self.errors.len() == 0 {
            None
        } else {
            Some(&self.errors[0])
        }
    }

    /// The first error entry as `Err`, else the (optional) data.
    pub fn inner(&self) -> (r: Result<Option<&T>, &ErrorMessage>)
        ensures
            self.errors@.len() > 0 ==> (r matches Err(m) && *m == self.errors@[0]),
            self.errors@.len() == 0 ==> (r matches Ok(d) && (d matches Some(x) ==> self.data == Some(*x)) && (d is None <==> self.data is None)),
    {
        if self.errors.len() > 0 {
            Err(&self.errors[0])
        } else {
            Ok(self.data.as_ref())
        }
    }

    /// The first error entry as `Err`, else the (optional) data, consuming the
    /// envelope.
    pub fn into_inner(self) -> (r: Result<Option<T>, ErrorMessage>)
        ensures
            self.errors@.len() > 0 ==> r == Err::<Option<T>, ErrorMessage>(self.errors@[0]),
            self.errors@.len() == 0 ==> r == Ok::<Option<T>, ErrorMessage>(self.data),
    {
        let mut errors = self.errors;
        if errors.len() > 0 {
            Err(errors.remove(0))
        } else {
            Ok(self.data)
        }
    }

    /// The data, or an error: the rendering of the first entry when there is
    /// one, else `missing field data in response`.
    pub fn inner_data(&self) -> (r: Result<&T, ForeignError>)
        ensures
            self.errors@.len() > 0 ==> (r matches Err(f) && f@ == (ForeignErrorView {
                display: message_display(self.errors@[0]@),
                leaves: seq![message_display(self.errors@[0]@)],
            })),
            self.errors@.len() == 0 && self.data is Some ==> (r matches Ok(d) && self.data == Some(*d)),
            self.errors@.len() == 0 && self.data is None ==> (r matches Err(f) && f@.display == "missing field data in response"@),
    {
        if self.errors.len() > 0 {
            return Err(ForeignError::new(self.errors[0].to_display_string()));
        }
        match &self.data {
            Some(d) => Ok(d),
            None => Err(ForeignError::new(String::from_str("missing field data in response"))),
        }
    }

    /// [`inner_data`](Self::inner_data), consuming the envelope.
    pub fn into_inner_data(self) -> (r: Result<T, ForeignError>)
        ensures
            self.errors@.len() > 0 ==> (r matches Err(f) && f@ == (ForeignErrorView {
                display: message_display(self.errors@[0]@),
                leaves: seq![message_display(self.errors@[0]@)],
            })),
            self.errors@.len() == 0 && self.data is Some ==> r == Ok::<T, ForeignError>(self.data->0),
            self.errors@.len() == 0 && self.data is None ==> (r matches Err(f) && f@.display == "missing field data in response"@),
    {
        if self.errors.len() > 0 {
            return Err(ForeignError::new(self.errors[0].to_display_string()));
        }
        match self.data {
            Some(d) => Ok(d),
            None => Err(ForeignError::new(String::from_str("missing field data in response"))),
        }
    }
}

/// A success envelope.
pub fn success<T>(data: T) -> (r: ApiResponse<T, NoMeta>)
    ensures
        r.data == Some(data),
        r.meta is None,
        r.errors@.len() == 0,
{
    ApiResponse { data: Some(data), meta: None, errors: Vec::new() }
}

/// A success envelope with typed `meta`.
pub fn success_with_meta<T, M>(data: T, meta: M) -> (r: ApiResponse<T, M>)
    ensures
        r.data == Some(data),
        r.meta == Some(meta),
        r.errors@.len() == 0,
{
    ApiResponse { data: Some(data), meta: Some(meta), errors: Vec::new() }
}

/// A failure envelope carrying `errors`.
pub fn failure<T, M>(errors: Vec<ErrorMessage>) -> (r: ApiResponse<T, M>)
    ensures
        r.data is None,
        r.meta is None,
        r.errors == errors,
{
    ApiResponse { data: None, meta: None, errors }
}

/// The error-only shape of the envelope (`{ "errors": [...] }`).
#[derive(Debug, Clone, PartialEq, Default)]
pub struct ErrorResponse {
    pub errors: Vec<ErrorMessage>,
}

impl ErrorResponse {
    /// The error-only envelope carrying `errors`.
    pub fn new(errors: Vec<ErrorMessage>) -> (r: Self)
        ensures
            r.errors == errors,
    {
        ErrorResponse { errors }
    }
}

impl ErrorMessage {
    /// A failure envelope carrying this entry alone.
    pub fn into_response<T, M>(self) -> (r: ApiResponse<T, M>)
        ensures
            r.data is None,
            r.meta is None,
            r.errors@ == seq![self],
    {
        let mut errors: Vec<ErrorMessage> = Vec::new();
        errors.push(self);
        failure(errors)
    }
}

/// The entries an error's envelope carries: its whole cause chain in verbose
/// mode, its own entry alone otherwise.
pub open spec fn error_entries<C: ApiErrorCode>(e: ApiError<C>) -> Seq<ErrorMessageView> {
    if e@.verbose {
        spec_collect(e@.source, seq![spec_message_with(e, false)], false)
    } else {
        seq![spec_message(e)]
    }
}

impl<C: ApiErrorCode> ApiError<C> {
    /// The client-facing failure envelope, the one builder every adapter uses:
    /// the top-level entry alone by default, the whole cause chain (see
    /// [`collect_messages`](ApiError::collect_messages)) in verbose mode.
    pub fn into_api_response<T>(&self) -> (r: ApiResponse<T, NoMeta>)
        ensures
            r.data is None,
            r.meta is None,
            messages_view(r.errors@) == error_entries(*self),
    {
        let errors = if self.is_verbose() {
            self.collect_messages()
        } else {
            let mut v: Vec<ErrorMessage> = Vec::new();
            v.push(self.to_error_message());
            proof {
                assert(messages_view(v@) =~= seq![spec_message(*self)]);
            }
            v
        };
        ApiResponse { data: None, meta: None, errors }
    }

    /// The HTTP status the error's answer goes out with: the transport status
    /// (the explicit one, else [`DEFAULT_ERROR_STATUS`]) when HTTP defines it,
    /// `200` otherwise. Every adapter answers with it.
    pub fn response_status(&self) -> (r: u16)
        ensures
            r == resolved_status(status_or_default(self@.status)),
            valid_status(r),
    {
        resolve_status(self.status())
    }

    /// The error as the `Err` of a handler result.
    pub fn err<T>(self) -> (r: Result<ApiResponse<T, NoMeta>, ApiError<C>>)
        ensures
            r == Err::<ApiResponse<T, NoMeta>, ApiError<C>>(self),
    {
        Err(self)
    }

    /// The error as the `Err` of a handler result.
    pub fn into_result<T>(self) -> (r: Result<ApiResponse<T, NoMeta>, ApiError<C>>)
        ensures
            r == Err::<ApiResponse<T, NoMeta>, ApiError<C>>(self),
    {
        Err(self)
    }
}

/// A handler result as an envelope: the data on success, the error's
/// envelope on failure.
pub fn response_from_result<T, C: ApiErrorCode>(res: Result<T, ApiError<C>>) -> (r: ApiResponse<T, NoMeta>)
    ensures
        res matches Ok(d) ==> r.data == Some(d) && r.meta is None && r.errors@.len() == 0,
        res matches Err(e) ==> r.data is None && r.meta is None && messages_view(r.errors@) == error_entries(e),
{
    match res {
        Ok(data) => success(data),
        Err(err) => err.into_api_response(),
    }
}


/// An error's envelope is always a failure document: no data, at least one
/// entry, the first entry carrying the error's own code; without verbose mode
/// it carries that entry alone.
pub proof fn lemma_error_envelope_is_failure<C: ApiErrorCode>(e: ApiError<C>)
    ensures
        error_entries(e).len() >= 1,
        error_entries(e)[0].code == e@.code.code_view(),
        !e@.verbose ==> error_entries(e).len() == 1,
        shape_of(error_entries(e).len(), false).errors,
        !shape_of(error_entries(e).len(), false).data,
{
    lemma_entry_code(e, false);
    if e@.verbose {
        lemma_collect_keeps_entries(e@.source, seq![spec_message_with(e, false)], false);
    }
}


/// An error converts into its failure envelope (see
/// [`ApiError::into_api_response`]).
impl<C: ApiErrorCode> From<ApiError<C>> for ApiResponse {
    fn from(err: ApiError<C>) -> (r: Self)
        ensures
            r.data is None,
            r.meta is None,
            messages_view(r.errors@) == error_entries(err),
    {
        err.into_api_response()
    }
}

/// The conversion is stated by `from`'s own contract, over the entries' views:
/// no spec function pins the envelope's vector of entries itself.
impl<C: ApiErrorCode> FromSpecImpl<ApiError<C>> for ApiResponse {
    open spec fn obeys_from_spec() -> bool {
        false
    }

    open spec fn from_spec(v: ApiError<C>) -> Self {
        vstd::pervasive::arbitrary()
    }
}

/// A borrowed error converts into its failure envelope.
impl<'a, C: ApiErrorCode> From<&'a ApiError<C>> for ApiResponse {
    fn from(err: &'a ApiError<C>) -> (r: Self)
        ensures
            r.data is None,
            r.meta is None,
            messages_view(r.errors@) == error_entries(*err),
    {
        err.into_api_response()
    }
}

/// The conversion is stated by `from`'s own contract, over the entries' views.
impl<'a, C: ApiErrorCode> FromSpecImpl<&'a ApiError<C>> for ApiResponse {
    open spec fn obeys_from_spec() -> bool {
        false
    }

    open spec fn from_spec(v: &'a ApiError<C>) -> Self {
        vstd::pervasive::arbitrary()
    }
}

/// A handler result converts into an envelope: the data on success, the
/// error's envelope on failure.
impl<T, C: ApiErrorCode> From<Result<T, ApiError<C>>> for ApiResponse<T, NoMeta> {
    fn from(res: Result<T, ApiError<C>>) -> (r: Self)
        ensures
            res matches Ok(d) ==> r.data == Some(d) && r.meta is None && r.errors@.len() == 0,
            res matches Err(e) ==> r.data is None && r.meta is None && messages_view(r.errors@) == error_entries(e),
    {
        response_from_result(res)
    }
}

/// The conversion is stated by `from`'s own contract, over the entries' views.
impl<T, C: ApiErrorCode> FromSpecImpl<Result<T, ApiError<C>>> for ApiResponse<T, NoMeta> {
    open spec fn obeys_from_spec() -> bool {
        false
    }

    open spec fn from_spec(v: Result<T, ApiError<C>>) -> Self {
        vstd::pervasive::arbitrary()
    }
}


/// A value converts into the success envelope carrying it.
impl<T, M> From<T> for ApiResponse<T, M> {
    fn from(data: T) -> (r: Self)
        ensures
            r.data == Some(data),
            r.meta is None,
            r.errors@.len() == 0,
    {
        ApiResponse { data: Some(data), meta: None, errors: Vec::new() }
    }
}

/// The conversion is stated by `from`'s own contract: no spec function pins
/// the (empty) vector of entries itself.
impl<T, M> FromSpecImpl<T> for ApiResponse<T, M> {
    open spec fn obeys_from_spec() -> bool {
        false
    }

    open spec fn from_spec(v: T) -> Self {
        vstd::pervasive::arbitrary()
    }
}


/// An error's envelope lists one entry per API error it holds: in verbose
/// mode the error's own entry and one for every API error of its cause chain
/// (no cause is repeated, a foreign cause adds none); otherwise its own entry
/// alone.
pub proof fn lemma_one_entry_per_api_error<C: ApiErrorCode>(e: ApiError<C>)
    ensures
        e@.verbose ==> error_entries(e).len() == 1 + api_count(e@.source),
        !e@.verbose ==> error_entries(e).len() == 1,
{
    lemma_collect_counts(e@.source, seq![spec_message_with(e, false)], false);
}


/// The transport status is transport-only: two errors that differ only in
/// their status give the same envelope.
pub proof fn lemma_status_is_transport_only<C: ApiErrorCode>(a: ApiError<C>, b: ApiError<C>)
    requires
        a@ == (ApiErrorView { status: a@.status, ..b@ }),
    ensures
        error_entries(a) == error_entries(b),
{
    lemma_entries_ignore_status(a, b);
}

} // verus!
