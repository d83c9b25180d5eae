//! The synthesis engine: given one validated action, the original shape and
//! the passthrough annotations, assemble the new type declaration.  Members
//! keep the original declaration order in every case; a pick keeps exactly
//! the selected members and applies visibility overrides, an omit keeps
//! exactly the unselected members untouched.

use vstd::prelude::*;

use crate::model::Action;
use crate::model::ActionKind;
use crate::model::ActionV;
use crate::model::Attr;
use crate::model::AttrV;
use crate::model::Delim;
use crate::model::Field;
use crate::model::FieldV;
use crate::model::Members;
use crate::model::MembersV;
use crate::model::SelV;
use crate::model::SelectedMember;
use crate::model::ShapeKind;
use crate::model::ShapeV;
use crate::model::Tok;
use crate::model::TokV;
use crate::model::TuError;
use crate::model::ErrV;
use crate::model::TypeDecl;
use crate::model::DeclV;
use crate::model::TypeShape;
use crate::model::Variant;
use crate::model::VariantV;
use crate::model::VisV;
use crate::model::Visibility;
use crate::model::attrs_view;
use crate::model::clone_toks;
use crate::model::fields_view;
use crate::model::sel_view;
use crate::model::toks_view;
use crate::model::variants_view;

verus! {

broadcast use
    vstd::std_specs::vec::group_vec_axioms,
    vstd::seq::group_seq_axioms,
    crate::model::lemma_toks_view_push,
    crate::model::lemma_fields_view_push,
    crate::model::lemma_variants_view_push,
    crate::model::lemma_attrs_view_push,
    crate::model::lemma_decls_view_push;

/// Does the selection mention this member name?
pub open spec fn sel_contains(sel: Seq<SelV>, name: Seq<char>) -> bool {
    exists|i: int| 0 <= i < sel.len() && sel[i].name == name
}

/// The visibility carried by the first selection entry with this name;
/// `Inherited` when the selection does not mention the name.
pub open spec fn sel_override(sel: Seq<SelV>, name: Seq<char>) -> VisV
    decreases sel.len(),
{
    if sel.len() == 0 {
        VisV::Inherited
    } else if sel[0].name == name {
        sel[0].vis
    } else {
        sel_override(sel.drop_first(), name)
    }
}

/// A kept field after a pick: name and payload verbatim, visibility
/// replaced by the selection's override when one was written.
pub open spec fn override_field(f: FieldV, sel: Seq<SelV>) -> FieldV {
    FieldV {
        name: f.name,
        ty: f.ty,
        vis: match sel_override(sel, f.name) {
            VisV::Inherited => f.vis,
            v => v,
        },
    }
}

/// Fields of a pick output: the original fields, in original order,
/// filtered to the selected names, each with its override applied.
pub open spec fn pick_fields(fs: Seq<FieldV>, sel: Seq<SelV>) -> Seq<FieldV>
    decreases fs.len(),
{
    if fs.len() == 0 {
        Seq::empty()
    } else {
        let init = pick_fields(fs.drop_last(), sel);
        if sel_contains(sel, fs.last().name) {
            init.push(override_field(fs.last(), sel))
        } else {
            init
        }
    }
}

/// Fields of an omit output: the original fields, in original order,
/// excluding the selected names, copied verbatim.
pub open spec fn omit_fields(fs: Seq<FieldV>, sel: Seq<SelV>) -> Seq<FieldV>
    decreases fs.len(),
{
    if fs.len() == 0 {
        Seq::empty()
    } else {
        let init = omit_fields(fs.drop_last(), sel);
        if sel_contains(sel, fs.last().name) {
            init
        } else {
            init.push(fs.last())
        }
    }
}

/// Variants of a pick output: original order, selected names, verbatim.
pub open spec fn pick_variants(vs: Seq<VariantV>, sel: Seq<SelV>) -> Seq<VariantV>
    decreases vs.len(),
{
    if vs.len() == 0 {
        Seq::empty()
    } else {
        let init = pick_variants(vs.drop_last(), sel);
        if sel_contains(sel, vs.last().name) {
            init.push(vs.last())
        } else {
            init
        }
    }
}

/// Variants of an omit output: original order, unselected names, verbatim.
pub open spec fn omit_variants(vs: Seq<VariantV>, sel: Seq<SelV>) -> Seq<VariantV>
    decreases vs.len(),
{
    if vs.len() == 0 {
        Seq::empty()
    } else {
        let init = omit_variants(vs.drop_last(), sel);
        if sel_contains(sel, vs.last().name) {
            init
        } else {
            init.push(vs.last())
        }
    }
}

/// The tokens inside the synthesized capability-attachment annotation:
/// the capability names as identifiers, comma-separated.
pub open spec fn cap_ident_toks(caps: Seq<Seq<char>>) -> Seq<TokV>
    decreases caps.len(),
{
    if caps.len() == 0 {
        Seq::empty()
    } else if caps.len() == 1 {
        seq![TokV::Ident(caps[0])]
    } else {
        cap_ident_toks(caps.drop_last()) + seq![TokV::Punct(','), TokV::Ident(caps.last())]
    }
}

/// The synthesized capability-attachment annotation for a nonempty
/// capability list: a `derive`-path annotation listing the names in order.
pub open spec fn cap_attr(caps: Seq<Seq<char>>) -> AttrV {
    AttrV { path: seq!["derive"@], toks: seq![TokV::Group(Delim::Paren, cap_ident_toks(caps))] }
}

/// The annotation list of a synthesized declaration: the passthrough
/// annotations, then the capability-attachment annotation, which is left
/// out entirely when no capability was requested.
pub open spec fn decl_attrs(passthrough: Seq<AttrV>, caps: Seq<Seq<char>>) -> Seq<AttrV> {
    if caps.len() == 0 {
        passthrough
    } else {
        passthrough.push(cap_attr(caps))
    }
}

/// The coarse classification of a shape twin.
pub open spec fn shape_kind_of(s: ShapeV) -> ShapeKind {
    match s {
        ShapeV::Record(_) => ShapeKind::Record,
        ShapeV::Tuple(_) => ShapeKind::Tuple,
        ShapeV::Unit => ShapeKind::Unit,
        ShapeV::TaggedUnion(_) => ShapeKind::TaggedUnion,
    }
}

/// The member list one action produces on one shape; `None` exactly for
/// the shape kinds on which no action is legal.
pub open spec fn spec_members(kind: ActionKind, shape: ShapeV, sel: Seq<SelV>) -> Option<
    MembersV,
> {
    match shape {
        ShapeV::Record(fs) => match kind {
            ActionKind::Pick => Some(MembersV::Fields(pick_fields(fs, sel))),
            ActionKind::Omit => Some(MembersV::Fields(omit_fields(fs, sel))),
        },
        ShapeV::TaggedUnion(vs) => match kind {
            ActionKind::Pick => Some(MembersV::Variants(pick_variants(vs, sel))),
            ActionKind::Omit => Some(MembersV::Variants(omit_variants(vs, sel))),
        },
        _ => None,
    }
}

/// What synthesizing one action yields: the full declaration on a record
/// or tagged-union shape, the internal-consistency error otherwise.
pub open spec fn spec_into_item(a: ActionV, shape: ShapeV, passthrough: Seq<AttrV>) -> Result<
    DeclV,
    ErrV,
> {
    match spec_members(a.kind, shape, a.selection) {
        Some(m) => Ok(
            DeclV {
                name: a.name,
                vis: a.vis,
                generics: a.generics,
                attrs: decl_attrs(passthrough, a.capabilities),
                members: m,
            },
        ),
        None => Err(
            ErrV::InternalShapeMismatch { action_kind: a.kind, shape_kind: shape_kind_of(shape) },
        ),
    }
}

/// What synthesizing a whole action list yields: one declaration per
/// action, in action order, or the first internal-consistency error.
pub open spec fn spec_into_items(
    actions: Seq<ActionV>,
    shape: ShapeV,
    passthrough: Seq<AttrV>,
) -> Result<Seq<DeclV>, ErrV>
    decreases actions.len(),
{
    if actions.len() == 0 {
        Ok(Seq::empty())
    } else {
        match spec_into_items(actions.drop_last(), shape, passthrough) {
            Ok(ds) => match spec_into_item(actions.last(), shape, passthrough) {
                Ok(d) => Ok(ds.push(d)),
                Err(e) => Err(e),
            },
            Err(e) => Err(e),
        }
    }
}

/// The first selection entry carrying `name`, if any.
fn sel_lookup(sel: &Vec<SelectedMember>, name: &String) -> (r: Option<usize>)
    ensures
        match r {
            Some(i) => {
                &&& i < sel@.len()
                &&& sel_view(sel@)[i as int].name == name@
                &&& forall|k: int| 0 <= k < i ==> sel_view(sel@)[k].name != name@
            },
            None => !sel_contains(sel_view(sel@), name@),
        },
{
    let mut i: usize = 0;
    while i < sel.len()
        invariant
            i <= sel@.len(),
            forall|k: int| 0 <= k < i ==> sel_view(sel@)[k].name != name@,
        decreases sel@.len() - i,
    {
        if sel[i].name.eq(name) {
            return Some(i);
        }
        i = i + 1;
    }
    None
}

/// The override decided by the first matching entry, as an index lemma.
proof fn lemma_sel_override_at(sel: Seq<SelV>, name: Seq<char>, i: int)
    requires
        0 <= i < sel.len(),
        sel[i].name == name,
        forall|k: int| 0 <= k < i ==> sel[k].name != name,
    ensures
        sel_override(sel, name) == sel[i].vis,
    decreases i,
{
    if i == 0 {
    } else {
        lemma_sel_override_at(sel.drop_first(), name, i - 1);
    }
}

/// Builds the pick output fields for a record shape.
fn pick_fields_exec(fs: &Vec<Field>, sel: &Vec<SelectedMember>) -> (out: Vec<Field>)
    ensures
        fields_view(out@) == pick_fields(fields_view(fs@), sel_view(sel@)),
{
    let ghost fsv = fields_view(fs@);
    let ghost selv = sel_view(sel@);
    let mut out: Vec<Field> = Vec::new();
    let mut i: usize = 0;
    while i < fs.len()
        invariant
            i <= fs@.len(),
            fsv == fields_view(fs@),
            selv == sel_view(sel@),
            fields_view(out@) == pick_fields(fsv.take(i as int), selv),
        decreases fs@.len() - i,
    {
        let f = &fs[i];
        match sel_lookup(sel, &f.name) {
            Some(j) => {
                let vis = match &sel[j].vis {
                    Visibility::Inherited => f.vis.clone(),
                    v => v.clone(),
                };
                let kept = Field { name: f.name.clone(), vis, ty: f.ty.clone() };
                proof {
                    lemma_sel_override_at(selv, f.name@, j as int);
                    assert(kept@ == override_field(fsv[i as int], selv));
                }
                out.push(kept);
            },
            None => {},
        }
        proof {
            assert(fsv.take(i + 1).drop_last() =~= fsv.take(i as int));
            assert(fsv.take(i + 1).last() == fsv[i as int]);
            assert(fields_view(out@) =~= pick_fields(fsv.take(i + 1), selv));
        }
        i = i + 1;
    }
    proof {
        assert(fsv.take(fs@.len() as int) =~= fsv);
    }
    out
}

/// Builds the omit output fields for a record shape.
fn omit_fields_exec(fs: &Vec<Field>, sel: &Vec<SelectedMember>) -> (out: Vec<Field>)
    ensures
        fields_view(out@) == omit_fields(fields_view(fs@), sel_view(sel@)),
{
    let ghost fsv = fields_view(fs@);
    let ghost selv = sel_view(sel@);
    let mut out: Vec<Field> = Vec::new();
    let mut i: usize = 0;
    while i < fs.len()
        invariant
            i <= fs@.len(),
            fsv == fields_view(fs@),
            selv == sel_view(sel@),
            fields_view(out@) == omit_fields(fsv.take(i as int), selv),
        decreases fs@.len() - i,
    {
        let f = &fs[i];
        match sel_lookup(sel, &f.name) {
            Some(_) => {},
            None => {
                out.push(f.clone());
            },
        }
        proof {
            assert(fsv.take(i + 1).drop_last() =~= fsv.take(i as int));
            assert(fsv.take(i + 1).last() == fsv[i as int]);
            assert(fields_view(out@) =~= omit_fields(fsv.take(i + 1), selv));
        }
        i = i + 1;
    }
    proof {
        assert(fsv.take(fs@.len() as int) =~= fsv);
    }
    out
}

/// Builds the pick output variants for a tagged-union shape.
fn pick_variants_exec(vs: &Vec<Variant>, sel: &Vec<SelectedMember>) -> (out: Vec<Variant>)
    ensures
        variants_view(out@) == pick_variants(variants_view(vs@), sel_view(sel@)),
{
    let ghost vsv = variants_view(vs@);
    let ghost selv = sel_view(sel@);
    let mut out: Vec<Variant> = Vec::new();
    let mut i: usize = 0;
    while i < vs.len()
        invariant
            i <= vs@.len(),
            vsv == variants_view(vs@),
            selv == sel_view(sel@),
            variants_view(out@) == pick_variants(vsv.take(i as int), selv),
        decreases vs@.len() - i,
    {
        let v = &vs[i];
        match sel_lookup(sel, &v.name) {
            Some(_) => {
                out.push(v.clone());
            },
            None => {},
        }
        proof {
            assert(vsv.take(i + 1).drop_last() =~= vsv.take(i as int));
            assert(vsv.take(i + 1).last() == vsv[i as int]);
            assert(variants_view(out@) =~= pick_variants(vsv.take(i + 1), selv));
        }
        i = i + 1;
    }
    proof {
        assert(vsv.take(vs@.len() as int) =~= vsv);
    }
    out
}

/// Builds the omit output variants for a tagged-union shape.
fn omit_variants_exec(vs: &Vec<Variant>, sel: &Vec<SelectedMember>) -> (out: Vec<Variant>)
    ensures
        variants_view(out@) == omit_variants(variants_view(vs@), sel_view(sel@)),
{
    let ghost vsv = variants_view(vs@);
    let ghost selv = sel_view(sel@);
    let mut out: Vec<Variant> = Vec::new();
    let mut i: usize = 0;
    while i < vs.len()
        invariant
            i <= vs@.len(),
            vsv == variants_view(vs@),
            selv == sel_view(sel@),
            variants_view(out@) == omit_variants(vsv.take(i as int), selv),
        decreases vs@.len() - i,
    {
        let v = &vs[i];
        match sel_lookup(sel, &v.name) {
            Some(_) => {},
            None => {
                out.push(v.clone());
            },
        }
        proof {
            assert(vsv.take(i + 1).drop_last() =~= vsv.take(i as int));
            assert(vsv.take(i + 1).last() == vsv[i as int]);
            assert(variants_view(out@) =~= omit_variants(vsv.take(i + 1), selv));
        }
        i = i + 1;
    }
    proof {
        assert(vsv.take(vs@.len() as int) =~= vsv);
    }
    out
}

/// Builds the comma-separated identifier tokens of the capability list.
fn cap_ident_toks_exec(caps: &Vec<String>) -> (out: Vec<Tok>)
    ensures
        toks_view(out@) == cap_ident_toks(caps.deep_view()),
{
    let ghost capsv = caps.deep_view();
    let mut out: Vec<Tok> = Vec::new();
    let mut i: usize = 0;
    while i < caps.len()
        invariant
            i <= caps@.len(),
            capsv == caps.deep_view(),
            toks_view(out@) == cap_ident_toks(capsv.take(i as int)),
            out@.len() == if i == 0 { 0int } else { 2 * i - 1 },
        decreases caps@.len() - i,
    {
        let ghost out0 = out@;
        if i > 0 {
            out.push(Tok::Punct(','));
        }
        out.push(Tok::Ident(caps[i].clone()));
        proof {
            assert(capsv.take(i + 1).drop_last() =~= capsv.take(i as int));
            assert(capsv.take(i + 1).last() == capsv[i as int]);
            if i == 0 {
                assert(toks_view(out@) == toks_view(out0).push(TokV::Ident(capsv[0])));
                assert(toks_view(out0) =~= Seq::<TokV>::empty());
                assert(toks_view(out@) =~= cap_ident_toks(capsv.take(1)));
            } else {
                assert(toks_view(out@) == toks_view(out0).push(TokV::Punct(',')).push(
                    TokV::Ident(capsv[i as int]),
                ));
                assert(toks_view(out@) =~= cap_ident_toks(capsv.take(i as int)) + seq![
                    TokV::Punct(','),
                    TokV::Ident(capsv[i as int]),
                ]);
                assert(toks_view(out@) =~= cap_ident_toks(capsv.take(i + 1)));
            }
        }
        i = i + 1;
    }
    proof {
        assert(capsv.take(caps@.len() as int) =~= capsv);
    }
    out
}

/// Builds the annotation list of one synthesized declaration.
fn build_decl_attrs(passthrough: &Vec<Attr>, caps: &Vec<String>) -> (out: Vec<Attr>)
    ensures
        attrs_view(out@) == decl_attrs(attrs_view(passthrough@), caps.deep_view()),
{
    let ghost pv = attrs_view(passthrough@);
    let mut out: Vec<Attr> = Vec::new();
    let mut i: usize = 0;
    while i < passthrough.len()
        invariant
            i <= passthrough@.len(),
            pv == attrs_view(passthrough@),
            attrs_view(out@) =~= pv.take(i as int),
        decreases passthrough@.len() - i,
    {
        let a = &passthrough[i];
        out.push(a.clone());
        proof {
            assert(attrs_view(out@) =~= pv.take(i + 1));
        }
        i = i + 1;
    }
    proof {
        assert(pv.take(passthrough@.len() as int) =~= pv);
    }
    if caps.len() > 0 {
        let mut path: Vec<String> = Vec::new();
        path.push(String::from_str("derive"));
        let inner = cap_ident_toks_exec(caps);
        let mut toks: Vec<Tok> = Vec::new();
        toks.push(Tok::Group(Delim::Paren, inner));
        let cap = Attr { path, toks };
        proof {
            assert(cap.path.deep_view() =~= seq!["derive"@]);
            assert(toks_view(cap.toks@) =~= seq![
                TokV::Group(Delim::Paren, cap_ident_toks(caps.deep_view())),
            ]);
            assert(cap@ == cap_attr(caps.deep_view()));
        }
        out.push(cap);
        proof {
            assert(attrs_view(out@) =~= decl_attrs(pv, caps.deep_view()));
        }
    }
    out
}

impl Action {
    /// Synthesizes the one type declaration this action produces from the
    /// original shape and the passthrough annotations.  Succeeds exactly on
    /// the shapes the compatibility matrix allows; on a tuple-like or
    /// unit-like shape — unreachable once the request was validated — it
    /// reports the internal-consistency error instead of producing a
    /// malformed declaration.
    pub fn into_item(&self, shape: &TypeShape, passthrough: &Vec<Attr>) -> (r: Result<
        TypeDecl,
        TuError,
    >)
        ensures
            decl_result_view(r) == spec_into_item(self@, shape@, attrs_view(passthrough@)),
    {
        let members: Members = match shape {
            TypeShape::Record(fs) => match self.kind {
                ActionKind::Pick => Members::Fields(pick_fields_exec(fs, &self.selection)),
                ActionKind::Omit => Members::Fields(omit_fields_exec(fs, &self.selection)),
            },
            TypeShape::TaggedUnion(vs) => match self.kind {
                ActionKind::Pick => Members::Variants(pick_variants_exec(vs, &self.selection)),
                ActionKind::Omit => Members::Variants(omit_variants_exec(vs, &self.selection)),
            },
            _ => {
                return Err(
                    TuError::InternalShapeMismatch {
                        action_kind: self.kind,
                        shape_kind: shape.kind(),
                    },
                );
            },
        };
        let decl = TypeDecl {
            name: self.name.clone(),
            vis: self.vis.clone(),
            generics: clone_toks(&self.generics),
            attrs: build_decl_attrs(passthrough, &self.capabilities),
            members,
        };
        Ok(decl)
    }
}

/// The view of a synthesis result.
pub open spec fn decl_result_view(r: Result<TypeDecl, TuError>) -> Result<DeclV, ErrV> {
    match r {
        Ok(d) => Ok(d@),
        Err(e) => Err(e@),
    }
}

/// The view of a whole-pipeline result.
pub open spec fn decls_result_view(r: Result<Vec<TypeDecl>, TuError>) -> Result<Seq<DeclV>, ErrV> {
    match r {
        Ok(ds) => Ok(crate::model::decls_view(ds@)),
        Err(e) => Err(e@),
    }
}

/// Synthesizes one declaration per action, in action order.
pub fn into_items(actions: &Vec<Action>, shape: &TypeShape, passthrough: &Vec<Attr>) -> (r: Result<
    Vec<TypeDecl>,
    TuError,
>)
    ensures
        decls_result_view(r) == spec_into_items(
            crate::model::actions_view(actions@),
            shape@,
            attrs_view(passthrough@),
        ),
{
    let ghost av = crate::model::actions_view(actions@);
    let mut out: Vec<TypeDecl> = Vec::new();
    let mut i: usize = 0;
    proof {
        assert(av.take(0) =~= Seq::<ActionV>::empty());
        assert(crate::model::decls_view(out@) =~= Seq::<DeclV>::empty());
    }
    while i < actions.len()
        invariant
            i <= actions@.len(),
            av == crate::model::actions_view(actions@),
            spec_into_items(av.take(i as int), shape@, attrs_view(passthrough@)) == Ok::<
                Seq<DeclV>,
                ErrV,
            >(crate::model::decls_view(out@)),
        decreases actions@.len() - i,
    {
        let a = &actions[i];
        proof {
            assert(av.take(i + 1).drop_last() =~= av.take(i as int));
            assert(av.take(i + 1).last() == av[i as int]);
        }
        match a.into_item(shape, passthrough) {
            Ok(d) => {
                out.push(d);
                proof {
                    assert(spec_into_items(av.take(i + 1), shape@, attrs_view(passthrough@))
                        == Ok::<Seq<DeclV>, ErrV>(crate::model::decls_view(out@)));
                }
            },
            Err(e) => {
                proof {
                    assert(spec_into_items(av.take(i + 1), shape@, attrs_view(passthrough@))
                        == Err::<Seq<DeclV>, ErrV>(e@));
                    assert(spec_into_items(av, shape@, attrs_view(passthrough@)) == Err::<
                        Seq<DeclV>,
                        ErrV,
                    >(e@)) by {
                        lemma_spec_into_items_err_prefix(av, i + 1, shape@, attrs_view(
                            passthrough@,
                        ));
                    }
                }
                return Err(e);
            },
        }
        i = i + 1;
    }
    proof {
        assert(av.take(actions@.len() as int) =~= av);
    }
    Ok(out)
}

impl crate::model::TypeUtils {
    /// Synthesizes every declaration of this request, one per action, in
    /// action order.
    pub fn into_items(&self) -> (r: Result<Vec<TypeDecl>, TuError>)
        ensures
            decls_result_view(r) == spec_into_items(self@.actions, self@.kind, self@.attrs),
    {
        into_items(&self.actions, &self.kind, &self.attrs)
    }
}

/// An error on a prefix of the action list is the error of the whole list.
proof fn lemma_spec_into_items_err_prefix(
    actions: Seq<ActionV>,
    n: int,
    shape: ShapeV,
    passthrough: Seq<AttrV>,
)
    requires
        0 <= n <= actions.len(),
        spec_into_items(actions.take(n), shape, passthrough) is Err,
    ensures
        spec_into_items(actions, shape, passthrough) == spec_into_items(
            actions.take(n),
            shape,
            passthrough,
        ),
    decreases actions.len(),
{
    if actions.len() > n {
        assert(actions.drop_last().take(n) =~= actions.take(n));
        lemma_spec_into_items_err_prefix(actions.drop_last(), n, shape, passthrough);
    } else {
        assert(actions.take(n) =~= actions);
    }
}

} // verus!
