//! Codes declared with their wire string, message and status, and the plan that
//! maps a wire code back onto one of several declared variants.

use crate::code::{ApiErrorCode, ApiErrorStatus};
use crate::error::{error, fresh_error, ApiError, ApiErrorView};
use crate::error_message::{copy_opt_str, opt_str, ErrorMessage};
use crate::status::{valid_status, DEFAULT_ERROR_STATUS};
use crate::template::{fields_view, render_message, rendered};
use vstd::prelude::*;

verus! {

/// A code turned into an error the way its declaration says: the code's
/// declared message and status applied.
pub trait IntoApiError: ApiErrorCode + Sized {
    /// Whether the declaration can be raised (its status, if any, is valid).
    spec fn can_raise(&self) -> bool;

    /// The error this code turns into.
    spec fn raised(&self) -> ApiErrorView<Self>;

    /// Turn this code into its declared error.
    fn into_api_error(self) -> (r: ApiError<Self>)
        requires
            self.can_raise(),
        ensures
            r@ == self.raised(),
    ;
}

/// An error code declared by name, with an optional explicit wire string, an
/// optional message (already rendered over the variant's fields) and an
/// optional transport status.
#[derive(Debug, Clone, PartialEq)]
pub struct DeclaredCode {
    /// The variant's name: the wire string when no explicit one is declared.
    pub name: String,
    /// The explicit wire string.
    pub code: Option<String>,
    /// The declared message, already rendered over the variant's fields (see
    /// [`declare_code`]).
    pub message: Option<String>,
    /// The declared transport status.
    pub status: Option<u16>,
}

/// The wire string of a declared code: the explicit one, else the name
/// verbatim.
pub open spec fn declared_wire(name: Seq<char>, code: Option<Seq<char>>) -> Seq<char> {
    match code {
        Some(c) => c,
        None => name,
    }
}

/// The status of a declared code: the declared one, else the default.
pub open spec fn declared_status(status: Option<u16>) -> u16 {
    match status {
        Some(s) => s,
        None => DEFAULT_ERROR_STATUS,
    }
}

impl ApiErrorCode for DeclaredCode {
    open spec fn code_view(&self) -> Seq<char> {
        declared_wire(self.name@, opt_str(self.code))
    }

    fn code_string(&self) -> (r: String) {
        match &self.code {
            Some(c) => c.clone(),
            None => self.name.clone(),
        }
    }
}

impl ApiErrorStatus for DeclaredCode {
    open spec fn status_of(&self) -> u16 {
        declared_status(self.status)
    }

    fn status_code(&self) -> (r: u16) {
        match self.status {
            Some(s) => s,
            None => DEFAULT_ERROR_STATUS,
        }
    }
}

impl IntoApiError for DeclaredCode {
    open spec fn can_raise(&self) -> bool {
        self.status matches Some(s) ==> valid_status(s)
    }

    open spec fn raised(&self) -> ApiErrorView<DeclaredCode> {
        ApiErrorView { status: self.status, ..fresh_error(*self, opt_str(self.message)) }
    }

    fn into_api_error(self) -> (r: ApiError<DeclaredCode>) {
        let message = copy_opt_str(&self.message);
        let status = self.status;
        let base = error(self);
        let with_message = match message {
            Some(m) => base.with_message(m),
            None => base,
        };
        match status {
            Some(s) => with_message.with_status(s),
            None => with_message,
        }
    }
}

/// Declare a code whose message is a template rendered over the variant's
/// field values (see [`render_message`]); `None` when the template cannot be
/// rendered.
pub fn declare_code(
    name: String,
    code: Option<String>,
    template: Option<&str>,
    fields: &Vec<(String, String)>,
    status: Option<u16>,
) -> (r: Option<DeclaredCode>)
    ensures
        template is None ==> r == Some(DeclaredCode { name, code, message: None, status }),
        template matches Some(t) ==> match rendered(t@, fields_view(fields@)) {
            Some(m) => r matches Some(d) && d.name == name && d.code == code && d.status == status
                && opt_str(d.message) == Some(m),
            None => r is None,
        },
{
    match template {
        None => Some(DeclaredCode { name, code, message: None, status }),
        Some(t) => match render_message(t, fields) {
            Some(m) => Some(DeclaredCode { name, code, message: Some(m), status }),
            None => None,
        },
    }
}

/// Whether any of the declared codes carries a status: only then does the
/// declaration map codes to statuses at all.
pub open spec fn has_status_mapping(codes: Seq<DeclaredCode>) -> bool {
    exists|i: int| 0 <= i < codes.len() && (#[trigger] codes[i]).status is Some
}

/// Whether any of the declared codes carries a status.
pub fn declares_statuses(codes: &Vec<DeclaredCode>) -> (r: bool)
    ensures
        r == has_status_mapping(codes@),
{
    let mut i: usize = 0;
    while i < codes.len()
        invariant
            i <= codes@.len(),
            forall|j: int| 0 <= j < i ==> (#[trigger] codes@[j]).status is None,
        decreases codes@.len() - i,
    {
        if codes[i].status.is_some() {
            return true;
        }
        i = i + 1;
    }
    false
}

/// How a variant holds its data.
#[derive(Debug, Clone, Copy, PartialEq, Eq, Structural)]
pub enum VariantFields {
    /// No data.
    Unit,
    /// This many positional fields.
    Unnamed(usize),
    /// This many named fields.
    Named(usize),
}

/// A variant of an enum that wire entries map back onto: its name, its
/// declared wire code (`"_"` for the catch-all) and how it holds the entry.
#[derive(Debug, Clone, PartialEq)]
pub struct MessageVariant {
    pub name: String,
    pub code: Option<String>,
    pub fields: VariantFields,
}

/// Why a set of variants cannot be mapped onto.
#[derive(Debug, Clone, Copy, PartialEq, Eq, Structural)]
pub enum DispatchError {
    /// The variant at this position declares no code.
    MissingCode(usize),
    /// The variant at this position is a unit variant: it cannot hold an entry.
    UnitVariant(usize),
    /// The variant at this position does not hold exactly one field.
    FieldCount(usize),
    /// A second catch-all: the positions of the first and of this one.
    DuplicateCatchAll(usize, usize),
    /// No variant is the catch-all.
    NoCatchAll,
}

/// The code that marks the catch-all variant.
pub open spec fn catch_all_code() -> Seq<char> {
    seq!['_']
}

/// A variant as the plan sees it.
pub struct VariantView {
    pub code: Option<Seq<char>>,
    pub fields: VariantFields,
}

/// The variants as the plan sees them.
pub open spec fn variants_view(vs: Seq<MessageVariant>) -> Seq<VariantView> {
    vs.map_values(|v: MessageVariant| VariantView { code: opt_str(v.code), fields: v.fields })
}

/// The shape problem of a variant that must hold exactly one field, if any.
pub open spec fn fields_problem(fields: VariantFields, i: int) -> Option<DispatchError> {
    match fields {
        VariantFields::Unit => Some(DispatchError::UnitVariant(i as usize)),
        VariantFields::Unnamed(n) => if n == 1 { None } else { Some(DispatchError::FieldCount(i as usize)) },
        VariantFields::Named(n) => if n == 1 { None } else { Some(DispatchError::FieldCount(i as usize)) },
    }
}

/// The plan: the concrete arms in declaration order, as (code, variant), and
/// the catch-all variant, always tried last.
pub struct PlanView {
    pub arms: Seq<(Seq<char>, int)>,
    pub catch_all: int,
}

/// Build the plan from the `i`-th variant on, given the arms so far and the
/// catch-all seen so far. Variants are checked in order; the first problem
/// found is reported.
pub open spec fn plan_from(
    vs: Seq<VariantView>,
    i: int,
    arms: Seq<(Seq<char>, int)>,
    catch_all: Option<int>,
) -> Result<PlanView, DispatchError>
    decreases vs.len() - i,
    when 0 <= i
{
    if i >= vs.len() {
        match catch_all {
            Some(c) => Ok(PlanView { arms, catch_all: c }),
            None => Err(DispatchError::NoCatchAll),
        }
    } else {
        match vs[i].code {
            None => Err(DispatchError::MissingCode(i as usize)),
            Some(code) => match fields_problem(vs[i].fields, i) {
                Some(e) => Err(e),
                None => if code == catch_all_code() {
                    match catch_all {
                        Some(first) => Err(DispatchError::DuplicateCatchAll(first as usize, i as usize)),
                        None => plan_from(vs, i + 1, arms, Some(i)),
                    }
                } else {
                    plan_from(vs, i + 1, arms.push((code, i)), catch_all)
                },
            },
        }
    }
}

/// The plan of a set of variants.
pub open spec fn plan_of(vs: Seq<VariantView>) -> Result<PlanView, DispatchError> {
    plan_from(vs, 0, Seq::empty(), None)
}

/// A checked mapping from wire codes onto variants, by position.
#[derive(Debug, Clone, PartialEq)]
pub struct DispatchPlan {
    arms: Vec<(String, usize)>,
    catch_all: usize,
}

/// The arms of a plan, seen as code and position.
pub open spec fn arms_view(arms: Seq<(String, usize)>) -> Seq<(Seq<char>, int)> {
    arms.map_values(|a: (String, usize)| (a.0@, a.1 as int))
}

impl View for DispatchPlan {
    type V = PlanView;

    closed spec fn view(&self) -> PlanView {
        PlanView { arms: arms_view(self.arms@), catch_all: self.catch_all as int }
    }
}

/// The first arm carrying `code`, from the `k`-th on.
pub open spec fn first_arm_from(arms: Seq<(Seq<char>, int)>, code: Seq<char>, k: int) -> Option<int>
    decreases arms.len() - k,
    when 0 <= k
{
    if k >= arms.len() {
        None
    } else if arms[k].0 == code {
        Some(arms[k].1)
    } else {
        first_arm_from(arms, code, k + 1)
    }
}

/// The variant a wire code maps onto: the first concrete arm carrying it, else
/// the catch-all.
pub open spec fn dispatch_of(plan: PlanView, code: Seq<char>) -> int {
    match first_arm_from(plan.arms, code, 0) {
        Some(v) => v,
        None => plan.catch_all,
    }
}

/// Check a set of variants and build the plan that maps wire codes onto them.
/// Every variant must declare a code and hold exactly one field (the entry);
/// exactly one must be the `"_"` catch-all, which is tried after every
/// concrete code wherever it is declared.
pub fn plan_dispatch(variants: &Vec<MessageVariant>) -> (r: Result<DispatchPlan, DispatchError>)
    ensures
        r matches Ok(p) ==> plan_of(variants_view(variants@)) == Ok::<PlanView, DispatchError>(p@),
        r matches Err(e) ==> plan_of(variants_view(variants@)) == Err::<PlanView, DispatchError>(e),
{
    let ghost vs = variants_view(variants@);
    let mut arms: Vec<(String, usize)> = Vec::new();
    let mut catch_all: Option<usize> = None;
    let mut i: usize = 0;
    proof {
        assert(arms_view(arms@) =~= Seq::<(Seq<char>, int)>::empty());
    }
    while i < variants.len()
        invariant
            i <= variants@.len(),
            vs == variants_view(variants@),
            plan_of(vs) == plan_from(
                vs,
                i as int,
                arms_view(arms@),
                match catch_all {
                    Some(c) => Some(c as int),
                    None => None,
                },
            ),
            forall|k: int| 0 <= k < arms@.len() ==> (#[trigger] arms@[k]).1 < i,
            catch_all matches Some(c) ==> c < i,
        decreases variants@.len() - i,
    {
        let v = &variants[i];
        proof {
            assert(vs[i as int] == VariantView { code: opt_str(v.code), fields: v.fields });
        }
        let code = match &v.code {
            None => {
                return Err(DispatchError::MissingCode(i));
            },
            Some(c) => c,
        };
        match v.fields {
            VariantFields::Unit => {
                return Err(DispatchError::UnitVariant(i));
            },
            VariantFields::Unnamed(n) => {
                if n != 1 {
                    return Err(DispatchError::FieldCount(i));
                }
            },
            VariantFields::Named(n) => {
                if n != 1 {
                    return Err(DispatchError::FieldCount(i));
                }
            },
        }
        let is_catch_all = code.as_str().unicode_len() == 1 && code.as_str().get_char(0) == '_';
        proof {
            if is_catch_all {
                assert(code@ =~= catch_all_code());
            } else if code@.len() == 1 {
                assert(code@[0] != '_');
                assert(code@ != catch_all_code());
            }
        }
        if is_catch_all {
            match catch_all {
                Some(first) => {
                    return Err(DispatchError::DuplicateCatchAll(first, i));
                },
                None => {
                    catch_all = Some(i);
                },
            }
        } else {
            let ghost before = arms@;
            arms.push((code.clone(), i));
            proof {
                assert(arms_view(arms@) =~= arms_view(before).push((code@, i as int)));
            }
        }
        i = i + 1;
    }
    match catch_all {
        Some(c) => Ok(DispatchPlan { arms, catch_all: c }),
        None => Err(DispatchError::NoCatchAll),
    }
}

impl DispatchPlan {
    /// The position of the variant a wire code maps onto.
    pub fn dispatch(&self, code: &str) -> (r: usize)
        ensures
            r as int == dispatch_of(self@, code@),
    {
        let wanted = String::from_str(code);
        let mut k: usize = 0;
        proof {
            assert(arms_view(self.arms@).len() == self.arms@.len());
        }
        while k < self.arms.len()
            invariant
                k <= self.arms@.len(),
                wanted@ == code@,
                arms_view(self.arms@).len() == self.arms@.len(),
                first_arm_from(arms_view(self.arms@), code@, 0) == first_arm_from(
                    arms_view(self.arms@),
                    code@,
                    k as int,
                ),
            decreases self.arms@.len() - k,
        {
            let (arm_code, variant) = &self.arms[k];
            proof {
                assert(arms_view(self.arms@)[k as int] == (arm_code@, *variant as int));
            }
            if *arm_code == wanted {
                return *variant;
            }
            k = k + 1;
        }
        self.catch_all
    }

    /// The position of the variant an entry maps onto, by its code.
    pub fn dispatch_message(&self, message: &ErrorMessage) -> (r: usize)
        ensures
            r as int == dispatch_of(self@, message.code@),
    {
        self.dispatch(message.code.as_str())
    }

    /// The position of the variant an error maps onto, by its code.
    pub fn dispatch_error(&self, err: &ApiError) -> (r: usize)
        ensures
            r as int == dispatch_of(self@, err@.code@),
    {
        self.dispatch(*err.code())
    }
}

/// The first variant from the `i`-th on that declares `code` as a concrete
/// (non-catch-all) code.
pub open spec fn first_declaring(vs: Seq<VariantView>, code: Seq<char>, i: int) -> Option<int>
    decreases vs.len() - i,
    when 0 <= i
{
    if i >= vs.len() || code == catch_all_code() {
        None
    } else if vs[i].code == Some(code) {
        Some(i)
    } else {
        first_declaring(vs, code, i + 1)
    }
}

/// Looking a code up after one more arm: the earlier arms win, the new arm
/// answers only when none of them carries the code.
proof fn lemma_first_arm_push(arms: Seq<(Seq<char>, int)>, arm: (Seq<char>, int), code: Seq<char>, k: int)
    requires
        0 <= k <= arms.len(),
    ensures
        first_arm_from(arms.push(arm), code, k) == match first_arm_from(arms, code, k) {
            Some(v) => Some(v),
            None => if arm.0 == code { Some(arm.1) } else { None },
        },
    decreases arms.len() - k,
{
    let pushed = arms.push(arm);
    if k < arms.len() {
        assert(pushed[k] == arms[k]);
        lemma_first_arm_push(arms, arm, code, k + 1);
    } else {
        assert(pushed[k] == arm);
        assert(first_arm_from(pushed, code, k + 1) == None::<int>);
    }
}

/// What a plan built from the `i`-th variant on answers for a code.
proof fn lemma_plan_lookup(
    vs: Seq<VariantView>,
    i: int,
    arms: Seq<(Seq<char>, int)>,
    catch_all: Option<int>,
    code: Seq<char>,
)
    requires
        0 <= i <= vs.len(),
        plan_from(vs, i, arms, catch_all) is Ok,
    ensures
        first_arm_from(plan_from(vs, i, arms, catch_all)->Ok_0.arms, code, 0) == match first_arm_from(arms, code, 0) {
            Some(v) => Some(v),
            None => first_declaring(vs, code, i),
        },
    decreases vs.len() - i,
{
    if i < vs.len() {
        let c = vs[i].code->Some_0;
        if c == catch_all_code() {
            lemma_plan_lookup(vs, i + 1, arms, Some(i), code);
        } else {
            lemma_plan_lookup(vs, i + 1, arms.push((c, i)), catch_all, code);
            lemma_first_arm_push(arms, (c, i), code, 0);
        }
    }
}

/// Where a plan built from the `i`-th variant on puts its catch-all.
proof fn lemma_plan_catch_all(vs: Seq<VariantView>, i: int, arms: Seq<(Seq<char>, int)>, catch_all: Option<int>)
    requires
        0 <= i <= vs.len(),
        plan_from(vs, i, arms, catch_all) is Ok,
    ensures
        catch_all matches Some(c) ==> plan_from(vs, i, arms, catch_all)->Ok_0.catch_all == c && forall|k: int|
            i <= k < vs.len() ==> vs[k].code != Some(catch_all_code()),
        catch_all is None ==> {
            let c = plan_from(vs, i, arms, catch_all)->Ok_0.catch_all;
            &&& i <= c < vs.len()
            &&& vs[c].code == Some(catch_all_code())
            &&& forall|k: int| i <= k < vs.len() && k != c ==> vs[k].code != Some(catch_all_code())
        },
    decreases vs.len() - i,
{
    if i < vs.len() {
        let c = vs[i].code->Some_0;
        if c == catch_all_code() {
            lemma_plan_catch_all(vs, i + 1, arms, Some(i));
        } else {
            lemma_plan_catch_all(vs, i + 1, arms.push((c, i)), catch_all);
        }
    }
}

/// Mapping wire codes onto variants: exactly one variant is the catch-all; a
/// code some variant declares goes to the first variant declaring it, wherever
/// the catch-all is declared; any other code goes to the catch-all.
pub proof fn lemma_dispatch_prefers_declared(vs: Seq<VariantView>, code: Seq<char>)
    requires
        plan_of(vs) is Ok,
    ensures
        ({
            let p = plan_of(vs)->Ok_0;
            &&& 0 <= p.catch_all < vs.len()
            &&& vs[p.catch_all].code == Some(catch_all_code())
            &&& forall|k: int| 0 <= k < vs.len() && vs[k].code == Some(catch_all_code()) ==> k == p.catch_all
            &&& dispatch_of(p, code) == match first_declaring(vs, code, 0) {
                Some(k) => k,
                None => p.catch_all,
            }
        }),
{
    lemma_plan_catch_all(vs, 0, Seq::empty(), None);
    lemma_plan_lookup(vs, 0, Seq::empty(), None, code);
}


/// A variant of an error enum mapped onto API errors: its declared wire code,
/// whether it is the catch-all that absorbs foreign failures, and its shape.
#[derive(Debug, Clone, PartialEq)]
pub struct ErrorVariant {
    pub name: String,
    pub code: Option<String>,
    pub catch_all: bool,
    pub fields: VariantFields,
}

/// Why the catch-all of an error enum is not usable.
#[derive(Debug, Clone, PartialEq, Eq)]
pub enum CatchAllError {
    /// No variant is the catch-all.
    Missing,
    /// More than one variant is the catch-all: all their positions, in order.
    Repeated(Vec<usize>),
    /// The catch-all at this position does not hold its failure positionally.
    NotPositional(usize),
}

/// The positions of the catch-all variants from the `i`-th on, in order.
pub open spec fn catch_all_positions(vs: Seq<ErrorVariant>, i: int) -> Seq<usize>
    decreases vs.len() - i,
    when 0 <= i
{
    if i >= vs.len() {
        Seq::empty()
    } else if vs[i].catch_all {
        seq![i as usize] + catch_all_positions(vs, i + 1)
    } else {
        catch_all_positions(vs, i + 1)
    }
}

/// Find the catch-all of an error enum: exactly one variant must be the
/// catch-all, and it must hold its failure positionally.
pub fn find_catch_all(variants: &Vec<ErrorVariant>) -> (r: Result<usize, CatchAllError>)
    ensures
        catch_all_positions(variants@, 0).len() == 0 ==> r == Err::<usize, CatchAllError>(
            CatchAllError::Missing,
        ),
        catch_all_positions(variants@, 0).len() > 1 ==> (r matches Err(CatchAllError::Repeated(v)) && v@
            == catch_all_positions(variants@, 0)),
        catch_all_positions(variants@, 0).len() == 1 ==> ({
            let i = catch_all_positions(variants@, 0)[0];
            if variants@[i as int].fields is Unnamed {
                r == Ok::<usize, CatchAllError>(i)
            } else {
                r == Err::<usize, CatchAllError>(CatchAllError::NotPositional(i))
            }
        }),
{
    let mut found: Vec<usize> = Vec::new();
    let mut i: usize = variants.len();
    proof {
        assert(catch_all_positions(variants@, i as int) =~= Seq::<usize>::empty());
    }
    while i > 0
        invariant
            i <= variants@.len(),
            found@ == catch_all_positions(variants@, i as int),
            forall|k: int| 0 <= k < found@.len() ==> found@[k] < variants@.len(),
        decreases i,
    {
        i = i - 1;
        if variants[i].catch_all {
            let ghost before = found@;
            found.insert(0, i);
            proof {
                assert(found@ =~= seq![i] + before);
            }
        }
    }
    if found.len() == 0 {
        Err(CatchAllError::Missing)
    } else if found.len() == 1 {
        let c = found[0];
        match variants[c].fields {
            VariantFields::Unnamed(_) => Ok(c),
            _ => Err(CatchAllError::NotPositional(c)),
        }
    } else {
        Err(CatchAllError::Repeated(found))
    }
}

/// The API error an error-enum variant maps onto: its declared code with the
/// variant's rendering as the message; a variant with no code maps onto none.
pub fn variant_error(variant: &ErrorVariant, rendering: String) -> (r: Option<ApiError<String>>)
    ensures
        variant.code matches Some(c) ==> (r matches Some(e) && e@ == fresh_error(
            e@.code,
            Some(rendering@),
        ) && e@.code@ == c@),
        variant.code is None ==> r is None,
{
    match &variant.code {
        Some(c) => Some(error(c.clone()).with_message(rendering)),
        None => None,
    }
}


/// What looking a crate up in the dependant's manifest found.
#[derive(Debug, Clone, PartialEq)]
pub enum CrateFound {
    /// The code being expanded is inside that crate itself.
    Itself,
    /// The dependant depends on it under this name.
    Name(String),
    /// The dependant does not depend on it.
    Missing,
}

/// A crate name as a path segment: each `-` becomes `_`.
pub open spec fn underscored(s: Seq<char>) -> Seq<char>
    decreases s.len(),
{
    if s.len() == 0 {
        Seq::empty()
    } else {
        underscored(s.drop_last()) + seq![if s.last() == '-' { '_' } else { s.last() }]
    }
}

/// A crate name as a path segment: each `-` becomes `_`.
pub fn underscore_name(name: &str) -> (r: String)
    ensures
        r@ == underscored(name@),
{
    let n = name.unicode_len();
    let mut out = String::new();
    let mut i: usize = 0;
    proof {
        assert(name@.take(0) =~= Seq::<char>::empty());
    }
    while i < n
        invariant
            n == name@.len(),
            i <= n,
            out@ == underscored(name@.take(i as int)),
        decreases n - i,
    {
        let c = name.get_char(i);
        proof {
            assert(name@.take(i + 1).drop_last() =~= name@.take(i as int));
            assert(name@.take(i + 1).last() == c);
            reveal_strlit("_");
        }
        if c == '-' {
            out.append("_");
        } else {
            let one = name.substring_char(i, i + 1);
            proof {
                assert(one@ =~= seq![c]);
            }
            out.append(one);
        }
        i = i + 1;
    }
    proof {
        assert(name@.take(n as int) =~= name@);
    }
    out
}

/// The path the runtime crate is reached by through one candidate: the
/// candidate's own name when expanding inside it, the name the dependant uses
/// otherwise, nothing when the dependant does not depend on it.
pub open spec fn path_through(candidate: Seq<char>, found: CrateFound) -> Option<Seq<char>> {
    match found {
        CrateFound::Itself => Some("::"@ + underscored(candidate)),
        CrateFound::Name(n) => Some("::"@ + underscored(n@)),
        CrateFound::Missing => None,
    }
}

/// The path code generated for a dependant reaches the runtime crate by:
/// through the facade `leto` when the dependant has it, else through
/// `leto-core`, else `::leto`.
pub open spec fn runtime_path_of(facade: CrateFound, core: CrateFound) -> Seq<char> {
    match path_through("leto"@, facade) {
        Some(p) => p,
        None => match path_through("leto-core"@, core) {
            Some(p) => p,
            None => "::leto"@,
        },
    }
}

/// The path through one candidate crate, if the dependant has it.
fn path_via(candidate: &str, found: &CrateFound) -> (r: Option<String>)
    ensures
        opt_str(r) == path_through(candidate@, *found),
{
    match found {
        CrateFound::Itself => {
            let mut p = String::from_str("::");
            p.append(underscore_name(candidate).as_str());
            Some(p)
        },
        CrateFound::Name(n) => {
            let mut p = String::from_str("::");
            p.append(underscore_name(n.as_str()).as_str());
            Some(p)
        },
        CrateFound::Missing => None,
    }
}

/// The path code generated for a dependant reaches the runtime crate by,
/// given what the dependant's manifest says of the facade and of the core
/// crate: the facade first, then the core crate, else `::leto`.
pub fn runtime_path(facade: &CrateFound, core: &CrateFound) -> (r: String)
    ensures
        r@ == runtime_path_of(*facade, *core),
{
    match path_via("leto", facade) {
        Some(p) => p,
        None => match path_via("leto-core", core) {
            Some(p) => p,
            None => String::from_str("::leto"),
        },
    }
}


/// Building a plan from the `i`-th variant on succeeds only when each of those
/// variants declares a code and holds exactly one field.
proof fn lemma_plan_from_checks(vs: Seq<VariantView>, i: int, arms: Seq<(Seq<char>, int)>, catch_all: Option<int>)
    requires
        0 <= i <= vs.len(),
        plan_from(vs, i, arms, catch_all) is Ok,
    ensures
        forall|k: int|
            i <= k < vs.len() ==> (#[trigger] vs[k]).code is Some && (vs[k].fields == VariantFields::Unnamed(1)
                || vs[k].fields == VariantFields::Named(1)),
    decreases vs.len() - i,
{
    if i < vs.len() {
        let c = vs[i].code->Some_0;
        if c == catch_all_code() {
            lemma_plan_from_checks(vs, i + 1, arms, Some(i));
        } else {
            lemma_plan_from_checks(vs, i + 1, arms.push((c, i)), catch_all);
        }
    }
}

/// A plan exists only for variants that each declare a code and hold exactly
/// one field (the entry), positional or named: a unit variant, or one with
/// no field or with two or more, has no plan.
pub proof fn lemma_plan_needs_single_fields(vs: Seq<VariantView>)
    ensures
        plan_of(vs) is Ok ==> forall|k: int|
            0 <= k < vs.len() ==> (#[trigger] vs[k]).code is Some && (vs[k].fields == VariantFields::Unnamed(1)
                || vs[k].fields == VariantFields::Named(1)),
{
    if plan_of(vs) is Ok {
        lemma_plan_from_checks(vs, 0, Seq::empty(), None);
    }
}


/// Making a crate name a path segment changes exactly its `-` into `_`:
/// same length, every other character kept in place.
pub proof fn lemma_underscored_maps_dashes(s: Seq<char>)
    ensures
        underscored(s).len() == s.len(),
        forall|k: int| 0 <= k < s.len() ==> #[trigger] underscored(s)[k] == if s[k] == '-' {
            '_'
        } else {
            s[k]
        },
    decreases s.len(),
{
    if s.len() > 0 {
        lemma_underscored_maps_dashes(s.drop_last());
        let pre = underscored(s.drop_last());
        assert forall|k: int| 0 <= k < s.len() implies #[trigger] underscored(s)[k] == if s[k] == '-' {
            '_'
        } else {
            s[k]
        } by {
            if k < s.len() - 1 {
                assert(underscored(s)[k] == pre[k]);
                assert(s.drop_last()[k] == s[k]);
            }
        }
    }
}

/// The catch-all positions are exactly the variants marked catch-all, each
/// once, in increasing order.
pub proof fn lemma_catch_all_positions_exact(vs: Seq<ErrorVariant>, i: int)
    requires
        0 <= i <= vs.len(),
        vs.len() <= usize::MAX,
    ensures
        forall|k: int| i <= k < vs.len() ==> (#[trigger] vs[k].catch_all <==> catch_all_positions(vs, i).contains(
            k as usize,
        )),
        forall|m: int|
            0 <= m < catch_all_positions(vs, i).len() ==> i <= #[trigger] catch_all_positions(vs, i)[m] < vs.len(),
        forall|m: int, n: int|
            0 <= m < n < catch_all_positions(vs, i).len() ==> #[trigger] catch_all_positions(vs, i)[m]
                < #[trigger] catch_all_positions(vs, i)[n],
    decreases vs.len() - i,
{
    if i < vs.len() {
        lemma_catch_all_positions_exact(vs, i + 1);
        let rest = catch_all_positions(vs, i + 1);
        let here = catch_all_positions(vs, i);
        if vs[i].catch_all {
            assert(here == seq![i as usize] + rest);
            assert(here[0] == i as usize);
            assert forall|k: int| i <= k < vs.len() implies (#[trigger] vs[k].catch_all <==> here.contains(
                k as usize,
            )) by {
                if k == i {
                    assert(here[0] == k as usize);
                } else {
                    if vs[k].catch_all {
                        let m = choose|m: int| 0 <= m < rest.len() && rest[m] == k as usize;
                        assert(here[m + 1] == k as usize);
                    }
                    if here.contains(k as usize) {
                        let m = choose|m: int| 0 <= m < here.len() && here[m] == k as usize;
                        assert(m > 0);
                        assert(rest[m - 1] == k as usize);
                    }
                }
            }
            assert forall|m: int| 0 <= m < here.len() implies i <= #[trigger] here[m] < vs.len() by {
                if m > 0 {
                    assert(here[m] == rest[m - 1]);
                }
            }
            assert forall|m: int, n: int| 0 <= m < n < here.len() implies #[trigger] here[m] < #[trigger] here[n] by {
                assert(here[n] == rest[n - 1]);
                if m > 0 {
                    assert(here[m] == rest[m - 1]);
                }
            }
        } else {
            assert forall|k: int| i <= k < vs.len() implies (#[trigger] vs[k].catch_all <==> here.contains(
                k as usize,
            )) by {
                if k == i && here.contains(k as usize) {
                    let m = choose|m: int| 0 <= m < here.len() && here[m] == k as usize;
                    assert(rest[m] >= i + 1);
                }
            }
        }
    }
}

} // verus!
