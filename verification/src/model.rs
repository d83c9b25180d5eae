//! The data model shared by the parser, the validator and the synthesizer:
//! token trees for annotation bodies, the shape of the original type, the
//! parsed actions, the synthesized declarations and the error taxonomy.
//! Every executable type has a mathematical twin (its `View::V`); all
//! contracts in this crate speak about those twins.

use vstd::prelude::*;

verus! {

broadcast use vstd::std_specs::vec::group_vec_axioms, vstd::seq::group_seq_axioms;

/// Delimiter of a token group.
#[derive(Clone, Copy, PartialEq, Eq, Structural, Debug)]
pub enum Delim {
    Paren,
    Brace,
    Bracket,
}

/// One tree in the token stream of an annotation body.
#[derive(Debug, PartialEq, Eq)]
pub enum Tok {
    /// An identifier or keyword, by its text.
    Ident(String),
    /// A single punctuation character.
    Punct(char),
    /// Any literal, preserved verbatim as text.
    Lit(String),
    /// A delimited group of nested tokens.
    Group(Delim, Vec<Tok>),
}

/// Mathematical twin of [`Tok`].
pub enum TokV {
    Ident(Seq<char>),
    Punct(char),
    Lit(Seq<char>),
    Group(Delim, Seq<TokV>),
}

/// View of one token.
pub open spec fn tok_view(t: Tok) -> TokV
    decreases t,
{
    match t {
        Tok::Ident(s) => TokV::Ident(s@),
        Tok::Punct(c) => TokV::Punct(c),
        Tok::Lit(s) => TokV::Lit(s@),
        Tok::Group(d, ts) => TokV::Group(d, toks_view(ts@)),
    }
}

/// View of a sequence of tokens, elementwise.
pub open spec fn toks_view(ts: Seq<Tok>) -> Seq<TokV>
    decreases ts,
{
    if ts.len() == 0 {
        Seq::empty()
    } else {
        seq![tok_view(ts[0])] + toks_view(ts.drop_first())
    }
}

impl View for Tok {
    type V = TokV;

    open spec fn view(&self) -> TokV {
        tok_view(*self)
    }
}

pub broadcast proof fn lemma_toks_view_len(ts: Seq<Tok>)
    ensures
        #[trigger] toks_view(ts).len() == ts.len(),
    decreases ts,
{
    if ts.len() > 0 {
        lemma_toks_view_len(ts.drop_first());
    }
}

pub broadcast proof fn lemma_toks_view_index(ts: Seq<Tok>, i: int)
    requires
        0 <= i < ts.len(),
    ensures
        toks_view(ts).len() == ts.len(),
        #[trigger] toks_view(ts)[i] == ts[i]@,
    decreases ts,
{
    lemma_toks_view_len(ts);
    if i > 0 {
        lemma_toks_view_index(ts.drop_first(), i - 1);
    }
}

/// Pointwise-equal token vectors have the same view.
pub proof fn lemma_toks_view_pointwise(a: Seq<Tok>, b: Seq<Tok>)
    requires
        a.len() == b.len(),
        forall|i: int| 0 <= i < a.len() ==> #[trigger] a[i]@ == b[i]@,
    ensures
        toks_view(a) == toks_view(b),
{
    lemma_toks_view_len(a);
    lemma_toks_view_len(b);
    assert forall|i: int| 0 <= i < a.len() implies #[trigger] toks_view(a)[i] == toks_view(b)[i] by {
        lemma_toks_view_index(a, i);
        lemma_toks_view_index(b, i);
    }
    assert(toks_view(a) =~= toks_view(b));
}

/// Token views distribute over push.
pub broadcast proof fn lemma_toks_view_push(ts: Seq<Tok>, t: Tok)
    ensures
        #[trigger] toks_view(ts.push(t)) == toks_view(ts).push(t@),
{
    let a = ts.push(t);
    lemma_toks_view_len(a);
    lemma_toks_view_len(ts);
    assert forall|i: int| 0 <= i < a.len() implies #[trigger] toks_view(a)[i] == toks_view(
        ts,
    ).push(t@)[i] by {
        lemma_toks_view_index(a, i);
        if i < ts.len() {
            lemma_toks_view_index(ts, i);
        }
    }
    assert(toks_view(a) =~= toks_view(ts).push(t@));
}

impl Clone for Tok {
    #[verifier::loop_isolation(false)]
    fn clone(&self) -> (res: Self)
        ensures
            res@ == self@,
        decreases *self,
    {
        match self {
            Tok::Ident(s) => Tok::Ident(s.clone()),
            Tok::Punct(c) => Tok::Punct(*c),
            Tok::Lit(s) => Tok::Lit(s.clone()),
            Tok::Group(d, ts) => {
                let mut out: Vec<Tok> = Vec::new();
                let mut i: usize = 0;
                while i < ts.len()
                    invariant
                        i <= ts.len(),
                        out@.len() == i,
                        forall|k: int| 0 <= k < i ==> #[trigger] out@[k]@ == ts@[k]@,
                    decreases ts.len() - i,
                {
                    let t = &ts[i];
                    out.push(t.clone());
                    i = i + 1;
                }
                proof {
                    lemma_toks_view_pointwise(out@, ts@);
                }
                Tok::Group(*d, out)
            }
        }
    }
}

/// Clone a token vector, preserving its view.
pub fn clone_toks(ts: &Vec<Tok>) -> (res: Vec<Tok>)
    ensures
        toks_view(res@) == toks_view(ts@),
{
    let mut out: Vec<Tok> = Vec::new();
    let mut i: usize = 0;
    while i < ts.len()
        invariant
            i <= ts.len(),
            out@.len() == i,
            forall|k: int| 0 <= k < i ==> #[trigger] out@[k]@ == ts@[k]@,
        decreases ts.len() - i,
    {
        let t = &ts[i];
        out.push(t.clone());
        i = i + 1;
    }
    proof {
        lemma_toks_view_pointwise(out@, ts@);
    }
    out
}

/// Clone a vector of identifier texts, preserving every element.
pub fn clone_strings(v: &Vec<String>) -> (res: Vec<String>)
    ensures
        res@ == v@,
{
    let mut out: Vec<String> = Vec::new();
    let mut i: usize = 0;
    while i < v.len()
        invariant
            i <= v.len(),
            out@ =~= v@.take(i as int),
        decreases v.len() - i,
    {
        let s = &v[i];
        out.push(s.clone());
        i = i + 1;
    }
    proof {
        assert(out@ =~= v@);
    }
    out
}

/// A visibility qualifier.
#[derive(Debug, PartialEq, Eq)]
pub enum Visibility {
    /// No qualifier written.
    Inherited,
    /// A plain `pub`.
    Public,
    /// `pub(...)`: the tokens between the parentheses, verbatim.
    Restricted(Vec<Tok>),
}

/// Mathematical twin of [`Visibility`].
pub enum VisV {
    Inherited,
    Public,
    Restricted(Seq<TokV>),
}

impl View for Visibility {
    type V = VisV;

    open spec fn view(&self) -> VisV {
        match self {
            Visibility::Inherited => VisV::Inherited,
            Visibility::Public => VisV::Public,
            Visibility::Restricted(ts) => VisV::Restricted(toks_view(ts@)),
        }
    }
}

impl Clone for Visibility {
    fn clone(&self) -> (res: Self)
        ensures
            res@ == self@,
    {
        match self {
            Visibility::Inherited => Visibility::Inherited,
            Visibility::Public => Visibility::Public,
            Visibility::Restricted(ts) => Visibility::Restricted(clone_toks(ts)),
        }
    }
}

/// One annotation attached to the original type declaration.
#[derive(Debug, PartialEq, Eq)]
pub struct Attr {
    /// Segments of the annotation's path, in order.
    pub path: Vec<String>,
    /// The tokens following the path, verbatim.
    pub toks: Vec<Tok>,
}

/// Mathematical twin of [`Attr`].
pub struct AttrV {
    pub path: Seq<Seq<char>>,
    pub toks: Seq<TokV>,
}

impl View for Attr {
    type V = AttrV;

    open spec fn view(&self) -> AttrV {
        AttrV { path: self.path.deep_view(), toks: toks_view(self.toks@) }
    }
}

impl Clone for Attr {
    fn clone(&self) -> (res: Self)
        ensures
            res@ == self@,
    {
        let res = Attr { path: clone_strings(&self.path), toks: clone_toks(&self.toks) };
        proof {
            assert(res.path.deep_view() =~= self.path.deep_view());
        }
        res
    }
}

/// A named field of a record-shaped original type.
#[derive(Debug, PartialEq, Eq)]
pub struct Field {
    /// The field's identifier.
    pub name: String,
    /// The field's visibility.
    pub vis: Visibility,
    /// The field's payload type, preserved verbatim as text.
    pub ty: String,
}

/// Mathematical twin of [`Field`].
pub struct FieldV {
    pub name: Seq<char>,
    pub vis: VisV,
    pub ty: Seq<char>,
}

impl View for Field {
    type V = FieldV;

    open spec fn view(&self) -> FieldV {
        FieldV { name: self.name@, vis: self.vis@, ty: self.ty@ }
    }
}

impl Clone for Field {
    fn clone(&self) -> (res: Self)
        ensures
            res@ == self@,
    {
        Field { name: self.name.clone(), vis: self.vis.clone(), ty: self.ty.clone() }
    }
}

/// A named variant of a tagged-union-shaped original type.
#[derive(Debug, PartialEq, Eq)]
pub struct Variant {
    /// The variant's identifier.
    pub name: String,
    /// The variant's payload shape, preserved verbatim as text.
    pub payload: String,
}

/// Mathematical twin of [`Variant`].
pub struct VariantV {
    pub name: Seq<char>,
    pub payload: Seq<char>,
}

impl View for Variant {
    type V = VariantV;

    open spec fn view(&self) -> VariantV {
        VariantV { name: self.name@, payload: self.payload@ }
    }
}

impl Clone for Variant {
    fn clone(&self) -> (res: Self)
        ensures
            res@ == self@,
    {
        Variant { name: self.name.clone(), payload: self.payload.clone() }
    }
}

/// View of a sequence of fields, elementwise.
pub open spec fn fields_view(fs: Seq<Field>) -> Seq<FieldV> {
    fs.map_values(|f: Field| f@)
}

/// View of a sequence of variants, elementwise.
pub open spec fn variants_view(vs: Seq<Variant>) -> Seq<VariantV> {
    vs.map_values(|v: Variant| v@)
}

/// The structural classification of the original type declaration.
#[derive(Debug, PartialEq, Eq)]
pub enum TypeShape {
    /// A record with named fields, in declaration order.
    Record(Vec<Field>),
    /// A tuple-like type, by its member count.
    Tuple(usize),
    /// A unit-like type.
    Unit,
    /// A tagged union with named variants, in declaration order.
    TaggedUnion(Vec<Variant>),
}

/// Mathematical twin of [`TypeShape`].
pub enum ShapeV {
    Record(Seq<FieldV>),
    Tuple(int),
    Unit,
    TaggedUnion(Seq<VariantV>),
}

impl View for TypeShape {
    type V = ShapeV;

    open spec fn view(&self) -> ShapeV {
        match self {
            TypeShape::Record(fs) => ShapeV::Record(fields_view(fs@)),
            TypeShape::Tuple(n) => ShapeV::Tuple(*n as int),
            TypeShape::Unit => ShapeV::Unit,
            TypeShape::TaggedUnion(vs) => ShapeV::TaggedUnion(variants_view(vs@)),
        }
    }
}

/// Coarse classification of a shape, used in diagnostics.
#[derive(Clone, Copy, PartialEq, Eq, Structural, Debug)]
pub enum ShapeKind {
    Record,
    Tuple,
    Unit,
    TaggedUnion,
}

impl TypeShape {
    /// The coarse classification of this shape.
    pub open spec fn spec_kind(&self) -> ShapeKind {
        match self {
            TypeShape::Record(_) => ShapeKind::Record,
            TypeShape::Tuple(_) => ShapeKind::Tuple,
            TypeShape::Unit => ShapeKind::Unit,
            TypeShape::TaggedUnion(_) => ShapeKind::TaggedUnion,
        }
    }

    /// Returns the coarse classification of this shape.
    pub fn kind(&self) -> (k: ShapeKind)
        ensures
            k == self.spec_kind(),
    {
        match self {
            TypeShape::Record(_) => ShapeKind::Record,
            TypeShape::Tuple(_) => ShapeKind::Tuple,
            TypeShape::Unit => ShapeKind::Unit,
            TypeShape::TaggedUnion(_) => ShapeKind::TaggedUnion,
        }
    }

    /// A short word for the shape, for diagnostics.
    pub fn display(&self) -> (s: &'static str)
        ensures
            self is Record ==> s@ == "struct"@,
            self is Tuple ==> s@ == "tuple struct"@,
            self is Unit ==> s@ == "unit struct"@,
            self is TaggedUnion ==> s@ == "enum"@,
    {
        match self {
            TypeShape::Record(_) => "struct",
            TypeShape::Tuple(_) => "tuple struct",
            TypeShape::Unit => "unit struct",
            TypeShape::TaggedUnion(_) => "enum",
        }
    }
}

/// The classification of the original declaration as the host hands it in;
/// unlike [`TypeShape`] it still admits kinds the engine rejects outright.
#[derive(Debug, PartialEq, Eq)]
pub enum InputData {
    /// A record with named fields.
    Record(Vec<Field>),
    /// A tuple-like type, by its member count.
    Tuple(usize),
    /// A unit-like type.
    Unit,
    /// A union-of-overlapping-storage declaration; never accepted.
    Union,
    /// A tagged union with named variants.
    TaggedUnion(Vec<Variant>),
}

/// Mathematical twin of [`InputData`].
pub enum DataV {
    Record(Seq<FieldV>),
    Tuple(int),
    Unit,
    Union,
    TaggedUnion(Seq<VariantV>),
}

impl View for InputData {
    type V = DataV;

    open spec fn view(&self) -> DataV {
        match self {
            InputData::Record(fs) => DataV::Record(fields_view(fs@)),
            InputData::Tuple(n) => DataV::Tuple(*n as int),
            InputData::Unit => DataV::Unit,
            InputData::Union => DataV::Union,
            InputData::TaggedUnion(vs) => DataV::TaggedUnion(variants_view(vs@)),
        }
    }
}

/// Whether an action keeps the selected members or drops them.
#[derive(Clone, Copy, PartialEq, Eq, Structural, Debug)]
pub enum ActionKind {
    Pick,
    Omit,
}

impl ActionKind {
    /// The word the annotation grammar uses for this kind, for diagnostics.
    pub fn display(&self) -> (s: &'static str)
        ensures
            self is Pick ==> s@ == "pick"@,
            self is Omit ==> s@ == "omit"@,
    {
        match self {
            ActionKind::Pick => "pick",
            ActionKind::Omit => "omit",
        }
    }
}

/// One entry of an action's selection: a member name with an optional
/// visibility override (`Inherited` when no override was written).
#[derive(Debug, PartialEq, Eq)]
pub struct SelectedMember {
    pub name: String,
    pub vis: Visibility,
}

/// Mathematical twin of [`SelectedMember`].
pub struct SelV {
    pub name: Seq<char>,
    pub vis: VisV,
}

impl View for SelectedMember {
    type V = SelV;

    open spec fn view(&self) -> SelV {
        SelV { name: self.name@, vis: self.vis@ }
    }
}

impl Clone for SelectedMember {
    fn clone(&self) -> (res: Self)
        ensures
            res@ == self@,
    {
        SelectedMember { name: self.name.clone(), vis: self.vis.clone() }
    }
}

/// View of a selection, elementwise.
pub open spec fn sel_view(sel: Seq<SelectedMember>) -> Seq<SelV> {
    sel.map_values(|m: SelectedMember| m@)
}

/// One pick or omit directive, fully parsed.
#[derive(Debug, PartialEq, Eq)]
pub struct Action {
    pub kind: ActionKind,
    /// Capability names accumulated immediately before this action.
    pub capabilities: Vec<String>,
    /// The name of the type declaration this action produces.
    pub name: String,
    /// The produced declaration's visibility.
    pub vis: Visibility,
    /// The produced declaration's generics and constraint block, verbatim.
    pub generics: Vec<Tok>,
    /// The nonempty selection the action operates on.
    pub selection: Vec<SelectedMember>,
}

/// Mathematical twin of [`Action`].
pub struct ActionV {
    pub kind: ActionKind,
    pub capabilities: Seq<Seq<char>>,
    pub name: Seq<char>,
    pub vis: VisV,
    pub generics: Seq<TokV>,
    pub selection: Seq<SelV>,
}

impl View for Action {
    type V = ActionV;

    open spec fn view(&self) -> ActionV {
        ActionV {
            kind: self.kind,
            capabilities: self.capabilities.deep_view(),
            name: self.name@,
            vis: self.vis@,
            generics: toks_view(self.generics@),
            selection: sel_view(self.selection@),
        }
    }
}

/// View of an action list, elementwise.
pub open spec fn actions_view(actions: Seq<Action>) -> Seq<ActionV> {
    actions.map_values(|a: Action| a@)
}

/// The top-level unit of work: one annotated original type declaration,
/// parsed and ready for validation and synthesis.
#[derive(Debug, PartialEq, Eq)]
pub struct TypeUtils {
    /// The original type's name.
    pub ident: String,
    /// The original type's shape.
    pub kind: TypeShape,
    /// Annotations that are neither actions nor capability lists, in order.
    pub attrs: Vec<Attr>,
    /// The parsed actions, in annotation order; never empty.
    pub actions: Vec<Action>,
}

/// Mathematical twin of [`TypeUtils`].
pub struct RequestV {
    pub ident: Seq<char>,
    pub kind: ShapeV,
    pub attrs: Seq<AttrV>,
    pub actions: Seq<ActionV>,
}

impl View for TypeUtils {
    type V = RequestV;

    open spec fn view(&self) -> RequestV {
        RequestV {
            ident: self.ident@,
            kind: self.kind@,
            attrs: attrs_view(self.attrs@),
            actions: actions_view(self.actions@),
        }
    }
}

/// View of an annotation list, elementwise.
pub open spec fn attrs_view(attrs: Seq<Attr>) -> Seq<AttrV> {
    attrs.map_values(|a: Attr| a@)
}

/// The member list of a synthesized type declaration.
#[derive(Debug, PartialEq, Eq)]
pub enum Members {
    Fields(Vec<Field>),
    Variants(Vec<Variant>),
}

/// Mathematical twin of [`Members`].
pub enum MembersV {
    Fields(Seq<FieldV>),
    Variants(Seq<VariantV>),
}

impl View for Members {
    type V = MembersV;

    open spec fn view(&self) -> MembersV {
        match self {
            Members::Fields(fs) => MembersV::Fields(fields_view(fs@)),
            Members::Variants(vs) => MembersV::Variants(variants_view(vs@)),
        }
    }
}

/// One synthesized type declaration.
#[derive(Debug, PartialEq, Eq)]
pub struct TypeDecl {
    /// The new type's name.
    pub name: String,
    /// The new type's visibility.
    pub vis: Visibility,
    /// The new type's generics and constraint block, verbatim.
    pub generics: Vec<Tok>,
    /// Annotations attached to the new type: the passthrough list, then a
    /// capability-attachment annotation when capabilities were requested.
    pub attrs: Vec<Attr>,
    /// The new type's members, in original declaration order.
    pub members: Members,
}

/// Mathematical twin of [`TypeDecl`].
pub struct DeclV {
    pub name: Seq<char>,
    pub vis: VisV,
    pub generics: Seq<TokV>,
    pub attrs: Seq<AttrV>,
    pub members: MembersV,
}

impl View for TypeDecl {
    type V = DeclV;

    open spec fn view(&self) -> DeclV {
        DeclV {
            name: self.name@,
            vis: self.vis@,
            generics: toks_view(self.generics@),
            attrs: attrs_view(self.attrs@),
            members: self.members@,
        }
    }
}

/// View of a declaration list, elementwise.
pub open spec fn decls_view(ds: Seq<TypeDecl>) -> Seq<DeclV> {
    ds.map_values(|d: TypeDecl| d@)
}

/// Everything that can go wrong; each variant carries the context a host
/// needs for a precise diagnostic.  All errors abort the whole request.
#[derive(Debug, PartialEq, Eq)]
pub enum TuError {
    /// The declaration carries no pick/omit annotation at all.
    NoActionsSpecified,
    /// The declaration is a union-of-overlapping-storage kind, which the
    /// model does not describe.
    UnsupportedDataKind,
    /// A pick/omit action targets a shape that forbids actions.
    UnsupportedKindForAction { action_kind: ActionKind, shape_kind: ShapeKind },
    /// A selection references a member absent from the original shape.
    UnknownMember { member: String, action: String, original: String },
    /// A capability list was never consumed by a following action.
    DanglingCapabilityList,
    /// An action or capability-list annotation whose body does not fit the
    /// annotation grammar; carries the annotation's position.
    MalformedAnnotation { index: usize },
    /// A validated action reached synthesis with an incompatible shape;
    /// impossible after validation, kept distinct so that a validator or
    /// synthesizer defect surfaces clearly.
    InternalShapeMismatch { action_kind: ActionKind, shape_kind: ShapeKind },
}

/// Mathematical twin of [`TuError`].
pub enum ErrV {
    NoActionsSpecified,
    UnsupportedDataKind,
    UnsupportedKindForAction { action_kind: ActionKind, shape_kind: ShapeKind },
    UnknownMember { member: Seq<char>, action: Seq<char>, original: Seq<char> },
    DanglingCapabilityList,
    MalformedAnnotation { index: int },
    InternalShapeMismatch { action_kind: ActionKind, shape_kind: ShapeKind },
}

/// Elementwise views distribute over push.
pub broadcast proof fn lemma_fields_view_push(s: Seq<Field>, x: Field)
    ensures
        #[trigger] fields_view(s.push(x)) == fields_view(s).push(x@),
{
    assert(fields_view(s.push(x)) =~= fields_view(s).push(x@));
}

/// Elementwise views distribute over push.
pub broadcast proof fn lemma_variants_view_push(s: Seq<Variant>, x: Variant)
    ensures
        #[trigger] variants_view(s.push(x)) == variants_view(s).push(x@),
{
    assert(variants_view(s.push(x)) =~= variants_view(s).push(x@));
}

/// Elementwise views distribute over push.
pub broadcast proof fn lemma_attrs_view_push(s: Seq<Attr>, x: Attr)
    ensures
        #[trigger] attrs_view(s.push(x)) == attrs_view(s).push(x@),
{
    assert(attrs_view(s.push(x)) =~= attrs_view(s).push(x@));
}

/// Elementwise views distribute over push.
pub broadcast proof fn lemma_sel_view_push(s: Seq<SelectedMember>, x: SelectedMember)
    ensures
        #[trigger] sel_view(s.push(x)) == sel_view(s).push(x@),
{
    assert(sel_view(s.push(x)) =~= sel_view(s).push(x@));
}

/// Elementwise views distribute over push.
pub broadcast proof fn lemma_actions_view_push(s: Seq<Action>, x: Action)
    ensures
        #[trigger] actions_view(s.push(x)) == actions_view(s).push(x@),
{
    assert(actions_view(s.push(x)) =~= actions_view(s).push(x@));
}

/// Elementwise views distribute over push.
pub broadcast proof fn lemma_decls_view_push(s: Seq<TypeDecl>, x: TypeDecl)
    ensures
        #[trigger] decls_view(s.push(x)) == decls_view(s).push(x@),
{
    assert(decls_view(s.push(x)) =~= decls_view(s).push(x@));
}

impl View for TuError {
    type V = ErrV;

    open spec fn view(&self) -> ErrV {
        match self {
            TuError::NoActionsSpecified => ErrV::NoActionsSpecified,
            TuError::UnsupportedDataKind => ErrV::UnsupportedDataKind,
            TuError::UnsupportedKindForAction { action_kind, shape_kind } => {
                ErrV::UnsupportedKindForAction {
                    action_kind: *action_kind,
                    shape_kind: *shape_kind,
                }
            },
            TuError::UnknownMember { member, action, original } => {
                ErrV::UnknownMember { member: member@, action: action@, original: original@ }
            },
            TuError::DanglingCapabilityList => ErrV::DanglingCapabilityList,
            TuError::MalformedAnnotation { index } => {
                ErrV::MalformedAnnotation { index: *index as int }
            },
            TuError::InternalShapeMismatch { action_kind, shape_kind } => {
                ErrV::InternalShapeMismatch { action_kind: *action_kind, shape_kind: *shape_kind }
            },
        }
    }
}

} // verus!
