//! The general laws of the engine, stated over the same spec functions
//! the executable contracts use: order preservation, pick/omit
//! complementarity, locality of visibility overrides, capability
//! association, and fail-fast validation.

use vstd::prelude::*;

use crate::model::ActionKind;
use crate::model::ActionV;
use crate::model::AttrV;
use crate::model::ErrV;
use crate::model::FieldV;
use crate::model::SelV;
use crate::model::ShapeV;
use crate::model::VariantV;
use crate::model::VisV;
use crate::model::DataV;
use crate::parse::ScanV;
use crate::parse::spec_build;
use crate::parse::path_is;
use crate::parse::spec_parse_action_body;
use crate::parse::spec_parse_caps;
use crate::parse::spec_scan;
use crate::parse::spec_scan_step;
use crate::synth::omit_fields;
use crate::synth::omit_variants;
use crate::synth::override_field;
use crate::synth::pick_fields;
use crate::synth::pick_variants;
use crate::synth::sel_contains;
use crate::synth::sel_override;
use crate::synth::spec_into_item;
use crate::synth::spec_into_items;
use crate::spec_expand;
use crate::validate::spec_check_action;
use crate::validate::spec_validate;

verus! {

broadcast use vstd::seq::group_seq_axioms, vstd::set::group_set_axioms;

/// The names of a field list, in order.
pub open spec fn field_names(fs: Seq<FieldV>) -> Seq<Seq<char>> {
    fs.map_values(|f: FieldV| f.name)
}

/// The names of a variant list, in order.
pub open spec fn variant_names(vs: Seq<VariantV>) -> Seq<Seq<char>> {
    vs.map_values(|v: VariantV| v.name)
}

/// The subsequence of `names` that the selection mentions.
pub open spec fn selected_names(names: Seq<Seq<char>>, sel: Seq<SelV>) -> Seq<Seq<char>> {
    names.filter(|n: Seq<char>| sel_contains(sel, n))
}

/// The subsequence of `names` that the selection does not mention.
pub open spec fn unselected_names(names: Seq<Seq<char>>, sel: Seq<SelV>) -> Seq<Seq<char>> {
    names.filter(|n: Seq<char>| !sel_contains(sel, n))
}

/// Order preservation, pick on records: the output field names are the
/// subsequence of the original field names induced by the selection —
/// never the selection's own order.
pub proof fn lemma_pick_fields_order(fs: Seq<FieldV>, sel: Seq<SelV>)
    ensures
        field_names(pick_fields(fs, sel)) == selected_names(field_names(fs), sel),
    decreases fs.len(),
{
    reveal(Seq::filter);
    let p = |n: Seq<char>| sel_contains(sel, n);
    if fs.len() == 0 {
        assert(field_names(fs) =~= Seq::<Seq<char>>::empty());
        assert(field_names(pick_fields(fs, sel)) =~= Seq::<Seq<char>>::empty());
        assert(Seq::<Seq<char>>::empty().filter(p) =~= Seq::<Seq<char>>::empty());
    } else {
        lemma_pick_fields_order(fs.drop_last(), sel);
        let names = field_names(fs);
        assert(names.len() == fs.len());
        assert(names.drop_last() =~= field_names(fs.drop_last()));
        assert(names.last() == fs.last().name);
        if sel_contains(sel, fs.last().name) {
            assert(field_names(pick_fields(fs, sel)) =~= field_names(
                pick_fields(fs.drop_last(), sel),
            ).push(fs.last().name));
        } else {
            assert(field_names(pick_fields(fs, sel)) =~= field_names(
                pick_fields(fs.drop_last(), sel),
            ));
        }
    }
}

/// Order preservation, omit on records.
pub proof fn lemma_omit_fields_order(fs: Seq<FieldV>, sel: Seq<SelV>)
    ensures
        field_names(omit_fields(fs, sel)) == unselected_names(field_names(fs), sel),
    decreases fs.len(),
{
    reveal(Seq::filter);
    let p = |n: Seq<char>| !sel_contains(sel, n);
    if fs.len() == 0 {
        assert(field_names(fs) =~= Seq::<Seq<char>>::empty());
        assert(field_names(omit_fields(fs, sel)) =~= Seq::<Seq<char>>::empty());
        assert(Seq::<Seq<char>>::empty().filter(p) =~= Seq::<Seq<char>>::empty());
    } else {
        lemma_omit_fields_order(fs.drop_last(), sel);
        let names = field_names(fs);
        assert(names.drop_last() =~= field_names(fs.drop_last()));
        assert(names.last() == fs.last().name);
        if sel_contains(sel, fs.last().name) {
            assert(field_names(omit_fields(fs, sel)) =~= field_names(
                omit_fields(fs.drop_last(), sel),
            ));
        } else {
            assert(field_names(omit_fields(fs, sel)) =~= field_names(
                omit_fields(fs.drop_last(), sel),
            ).push(fs.last().name));
        }
    }
}

/// Order preservation, pick on tagged unions.
pub proof fn lemma_pick_variants_order(vs: Seq<VariantV>, sel: Seq<SelV>)
    ensures
        variant_names(pick_variants(vs, sel)) == selected_names(variant_names(vs), sel),
    decreases vs.len(),
{
    reveal(Seq::filter);
    let p = |n: Seq<char>| sel_contains(sel, n);
    if vs.len() == 0 {
        assert(variant_names(vs) =~= Seq::<Seq<char>>::empty());
        assert(variant_names(pick_variants(vs, sel)) =~= Seq::<Seq<char>>::empty());
        assert(Seq::<Seq<char>>::empty().filter(p) =~= Seq::<Seq<char>>::empty());
    } else {
        lemma_pick_variants_order(vs.drop_last(), sel);
        let names = variant_names(vs);
        assert(names.drop_last() =~= variant_names(vs.drop_last()));
        assert(names.last() == vs.last().name);
        if sel_contains(sel, vs.last().name) {
            assert(variant_names(pick_variants(vs, sel)) =~= variant_names(
                pick_variants(vs.drop_last(), sel),
            ).push(vs.last().name));
        } else {
            assert(variant_names(pick_variants(vs, sel)) =~= variant_names(
                pick_variants(vs.drop_last(), sel),
            ));
        }
    }
}

/// Order preservation, omit on tagged unions.
pub proof fn lemma_omit_variants_order(vs: Seq<VariantV>, sel: Seq<SelV>)
    ensures
        variant_names(omit_variants(vs, sel)) == unselected_names(variant_names(vs), sel),
    decreases vs.len(),
{
    reveal(Seq::filter);
    let p = |n: Seq<char>| !sel_contains(sel, n);
    if vs.len() == 0 {
        assert(variant_names(vs) =~= Seq::<Seq<char>>::empty());
        assert(variant_names(omit_variants(vs, sel)) =~= Seq::<Seq<char>>::empty());
        assert(Seq::<Seq<char>>::empty().filter(p) =~= Seq::<Seq<char>>::empty());
    } else {
        lemma_omit_variants_order(vs.drop_last(), sel);
        let names = variant_names(vs);
        assert(names.drop_last() =~= variant_names(vs.drop_last()));
        assert(names.last() == vs.last().name);
        if sel_contains(sel, vs.last().name) {
            assert(variant_names(omit_variants(vs, sel)) =~= variant_names(
                omit_variants(vs.drop_last(), sel),
            ));
        } else {
            assert(variant_names(omit_variants(vs, sel)) =~= variant_names(
                omit_variants(vs.drop_last(), sel),
            ).push(vs.last().name));
        }
    }
}

/// Membership in a filtered name sequence.
proof fn lemma_filter_membership(names: Seq<Seq<char>>, p: spec_fn(Seq<char>) -> bool, x: Seq<char>)
    ensures
        names.filter(p).contains(x) <==> (names.contains(x) && p(x)),
{
    if names.filter(p).contains(x) {
        let i = choose|i: int| 0 <= i < names.filter(p).len() && names.filter(p)[i] == x;
        names.lemma_filter_pred(p, i);
        names.lemma_filter_contains_rev(p, x);
    }
    if names.contains(x) && p(x) {
        let j = choose|j: int| 0 <= j < names.len() && names[j] == x;
        names.lemma_filter_contains(p, j);
    }
}

/// Pick/omit complementarity on records: for one selection applied to one
/// field list, the pick output's names and the omit output's names are
/// disjoint, and together they are exactly the original names.
pub proof fn lemma_pick_omit_complementarity_fields(fs: Seq<FieldV>, sel: Seq<SelV>)
    ensures
        field_names(pick_fields(fs, sel)).to_set().union(
            field_names(omit_fields(fs, sel)).to_set(),
        ) =~= field_names(fs).to_set(),
        field_names(pick_fields(fs, sel)).to_set().disjoint(
            field_names(omit_fields(fs, sel)).to_set(),
        ),
{
    lemma_pick_fields_order(fs, sel);
    lemma_omit_fields_order(fs, sel);
    let names = field_names(fs);
    let p = |n: Seq<char>| sel_contains(sel, n);
    let q = |n: Seq<char>| !sel_contains(sel, n);
    assert forall|x: Seq<char>| #[trigger] names.filter(p).contains(x) || names.filter(q).contains(
        x,
    ) implies names.contains(x) by {
        lemma_filter_membership(names, p, x);
        lemma_filter_membership(names, q, x);
    }
    assert forall|x: Seq<char>| #[trigger] names.contains(x) implies names.filter(p).contains(x)
        || names.filter(q).contains(x) by {
        lemma_filter_membership(names, p, x);
        lemma_filter_membership(names, q, x);
    }
    assert forall|x: Seq<char>|
        !(#[trigger] names.filter(p).contains(x) && names.filter(q).contains(x)) by {
        lemma_filter_membership(names, p, x);
        lemma_filter_membership(names, q, x);
    }
}

/// Pick/omit complementarity on tagged unions.
pub proof fn lemma_pick_omit_complementarity_variants(vs: Seq<VariantV>, sel: Seq<SelV>)
    ensures
        variant_names(pick_variants(vs, sel)).to_set().union(
            variant_names(omit_variants(vs, sel)).to_set(),
        ) =~= variant_names(vs).to_set(),
        variant_names(pick_variants(vs, sel)).to_set().disjoint(
            variant_names(omit_variants(vs, sel)).to_set(),
        ),
{
    lemma_pick_variants_order(vs, sel);
    lemma_omit_variants_order(vs, sel);
    let names = variant_names(vs);
    let p = |n: Seq<char>| sel_contains(sel, n);
    let q = |n: Seq<char>| !sel_contains(sel, n);
    assert forall|x: Seq<char>| #[trigger] names.filter(p).contains(x) || names.filter(q).contains(
        x,
    ) implies names.contains(x) by {
        lemma_filter_membership(names, p, x);
        lemma_filter_membership(names, q, x);
    }
    assert forall|x: Seq<char>| #[trigger] names.contains(x) implies names.filter(p).contains(x)
        || names.filter(q).contains(x) by {
        lemma_filter_membership(names, p, x);
        lemma_filter_membership(names, q, x);
    }
    assert forall|x: Seq<char>|
        !(#[trigger] names.filter(p).contains(x) && names.filter(q).contains(x)) by {
        lemma_filter_membership(names, p, x);
        lemma_filter_membership(names, q, x);
    }
}

/// Two selections mentioning the same member names.
pub open spec fn same_selection_names(a: Seq<SelV>, b: Seq<SelV>) -> bool {
    forall|n: Seq<char>| sel_contains(a, n) == sel_contains(b, n)
}

/// The selection with every visibility override removed.
pub open spec fn strip_overrides(sel: Seq<SelV>) -> Seq<SelV> {
    sel.map_values(|m: SelV| SelV { name: m.name, vis: VisV::Inherited })
}

/// Removing the overrides leaves the mentioned names unchanged.
pub proof fn lemma_strip_same_names(sel: Seq<SelV>)
    ensures
        same_selection_names(sel, strip_overrides(sel)),
{
    assert forall|n: Seq<char>| sel_contains(sel, n) == sel_contains(
        strip_overrides(sel),
        n,
    ) by {
        if sel_contains(sel, n) {
            let i = choose|i: int| 0 <= i < sel.len() && sel[i].name == n;
            assert(strip_overrides(sel)[i].name == n);
        }
        if sel_contains(strip_overrides(sel), n) {
            let i = choose|i: int|
                0 <= i < strip_overrides(sel).len() && strip_overrides(sel)[i].name == n;
            assert(sel[i].name == n);
        }
    }
}

/// Override locality, omit side: an omit output depends only on which
/// names the selection mentions, so a visibility override attached to an
/// omit selection has no observable effect.
pub proof fn lemma_omit_ignores_overrides(fs: Seq<FieldV>, a: Seq<SelV>, b: Seq<SelV>)
    requires
        same_selection_names(a, b),
    ensures
        omit_fields(fs, a) == omit_fields(fs, b),
    decreases fs.len(),
{
    if fs.len() > 0 {
        lemma_omit_ignores_overrides(fs.drop_last(), a, b);
        assert(sel_contains(a, fs.last().name) == sel_contains(b, fs.last().name));
    }
}

/// Override locality, omit side, on tagged unions.
pub proof fn lemma_omit_variants_ignores_overrides(vs: Seq<VariantV>, a: Seq<SelV>, b: Seq<SelV>)
    requires
        same_selection_names(a, b),
    ensures
        omit_variants(vs, a) == omit_variants(vs, b),
    decreases vs.len(),
{
    if vs.len() > 0 {
        lemma_omit_variants_ignores_overrides(vs.drop_last(), a, b);
        assert(sel_contains(a, vs.last().name) == sel_contains(b, vs.last().name));
    }
}

/// Override locality, pick side, on tagged unions: variants carry no
/// visibility, so overrides cannot be observed there at all.
pub proof fn lemma_pick_variants_ignores_overrides(vs: Seq<VariantV>, a: Seq<SelV>, b: Seq<SelV>)
    requires
        same_selection_names(a, b),
    ensures
        pick_variants(vs, a) == pick_variants(vs, b),
    decreases vs.len(),
{
    if vs.len() > 0 {
        lemma_pick_variants_ignores_overrides(vs.drop_last(), a, b);
        assert(sel_contains(a, vs.last().name) == sel_contains(b, vs.last().name));
    }
}

/// A selection with no overrides never overrides.
proof fn lemma_sel_override_all_inherited(sel: Seq<SelV>, name: Seq<char>)
    requires
        forall|k: int| 0 <= k < sel.len() ==> sel[k].vis is Inherited,
    ensures
        sel_override(sel, name) is Inherited,
    decreases sel.len(),
{
    if sel.len() > 0 {
        lemma_sel_override_all_inherited(sel.drop_first(), name);
    }
}

/// Override locality, pick side: with no override written, a pick keeps
/// every kept field's original visibility (and name and payload) intact.
pub proof fn lemma_pick_without_override_keeps_fields(fs: Seq<FieldV>, sel: Seq<SelV>)
    requires
        forall|k: int| 0 <= k < sel.len() ==> sel[k].vis is Inherited,
    ensures
        pick_fields(fs, sel) == fs.filter(|f: FieldV| sel_contains(sel, f.name)),
    decreases fs.len(),
{
    reveal(Seq::filter);
    let p = |f: FieldV| sel_contains(sel, f.name);
    if fs.len() == 0 {
        assert(Seq::<FieldV>::empty().filter(p) =~= Seq::<FieldV>::empty());
    } else {
        lemma_pick_without_override_keeps_fields(fs.drop_last(), sel);
        lemma_sel_override_all_inherited(sel, fs.last().name);
        assert(override_field(fs.last(), sel) == fs.last());
        if p(fs.last()) {
            assert(fs.filter(p) =~= fs.drop_last().filter(p).push(fs.last()));
        } else {
            assert(fs.filter(p) =~= fs.drop_last().filter(p));
        }
    }
}

/// Override locality, pick side: overrides touch visibilities only — two
/// selections with the same names pick the same fields, with the same
/// names and payloads, in the same order.
pub proof fn lemma_pick_overrides_touch_only_visibility(
    fs: Seq<FieldV>,
    a: Seq<SelV>,
    b: Seq<SelV>,
)
    requires
        same_selection_names(a, b),
    ensures
        pick_fields(fs, a).map_values(|f: FieldV| (f.name, f.ty)) == pick_fields(
            fs,
            b,
        ).map_values(|f: FieldV| (f.name, f.ty)),
    decreases fs.len(),
{
    let g = |f: FieldV| (f.name, f.ty);
    if fs.len() > 0 {
        lemma_pick_overrides_touch_only_visibility(fs.drop_last(), a, b);
        assert(sel_contains(a, fs.last().name) == sel_contains(b, fs.last().name));
        if sel_contains(a, fs.last().name) {
            assert(pick_fields(fs, a).map_values(g) =~= pick_fields(fs.drop_last(), a).map_values(
                g,
            ).push(g(override_field(fs.last(), a))));
            assert(pick_fields(fs, b).map_values(g) =~= pick_fields(fs.drop_last(), b).map_values(
                g,
            ).push(g(override_field(fs.last(), b))));
            assert(g(override_field(fs.last(), a)) == g(override_field(fs.last(), b)));
        } else {
            assert(pick_fields(fs, a).map_values(g) =~= pick_fields(fs.drop_last(), a).map_values(
                g,
            ));
            assert(pick_fields(fs, b).map_values(g) =~= pick_fields(fs.drop_last(), b).map_values(
                g,
            ));
        }
    } else {
        assert(pick_fields(fs, a).map_values(g) =~= pick_fields(fs, b).map_values(g));
    }
}

/// Capability association: capability lists attach to the single action
/// immediately following them, and consecutive lists concatenate in
/// order.  After any successfully scanned prefix, two capability-list
/// annotations followed by one action annotation extend the action list
/// by exactly one action whose capability list is the pending names, then
/// the first list, then the second, and leave nothing pending.
pub proof fn lemma_capability_association(attrs: Seq<AttrV>, c1: AttrV, c2: AttrV, act: AttrV)
    requires
        spec_scan(attrs) is Ok,
        path_is(c1.path, "tu_derive"@),
        spec_parse_caps(c1.toks) is Some,
        path_is(c2.path, "tu_derive"@),
        spec_parse_caps(c2.toks) is Some,
        path_is(act.path, "pick"@),
        spec_parse_action_body(act.toks) is Some,
    ensures
        ({
            let st = spec_scan(attrs)->Ok_0;
            let l1 = spec_parse_caps(c1.toks)->Some_0;
            let l2 = spec_parse_caps(c2.toks)->Some_0;
            let b = spec_parse_action_body(act.toks)->Some_0;
            spec_scan(attrs + seq![c1, c2, act]) == Ok::<ScanV, ErrV>(
                ScanV {
                    actions: st.actions.push(
                        ActionV {
                            kind: ActionKind::Pick,
                            capabilities: st.pending + l1 + l2,
                            name: b.name,
                            vis: b.vis,
                            generics: b.generics,
                            selection: b.selection,
                        },
                    ),
                    passthrough: st.passthrough,
                    pending: Seq::empty(),
                },
            )
        }),
{
    let st = spec_scan(attrs)->Ok_0;
    let l1 = spec_parse_caps(c1.toks)->Some_0;
    let l2 = spec_parse_caps(c2.toks)->Some_0;
    let whole = attrs + seq![c1, c2, act];
    assert(whole.drop_last().drop_last().drop_last() =~= attrs);
    assert(whole.drop_last().drop_last() =~= attrs + seq![c1]);
    assert(whole.drop_last() =~= attrs + seq![c1, c2]);
    assert((attrs + seq![c1]).drop_last() =~= attrs);
    assert((attrs + seq![c1, c2]).drop_last() =~= attrs + seq![c1]);
    assert((attrs + seq![c1]).last() == c1);
    assert((attrs + seq![c1, c2]).last() == c2);
    assert(whole.last() == act);
    reveal_strlit("tu_derive");
    reveal_strlit("pick");
    reveal_strlit("omit");
    assert("tu_derive"@.len() == 9 && "pick"@.len() == 4 && "omit"@.len() == 4);
    assert("pick"@[0] == 'p' && "omit"@[0] == 'o');
    assert(!path_is(c1.path, "pick"@) && !path_is(c1.path, "omit"@));
    assert(!path_is(c2.path, "pick"@) && !path_is(c2.path, "omit"@));
    assert(!path_is(act.path, "tu_derive"@));
    assert(spec_scan(attrs + seq![c1]) == spec_scan_step(st, c1, attrs.len() as int));
    let st1 = spec_scan_step(st, c1, attrs.len() as int)->Ok_0;
    assert(st1.pending == st.pending + l1);
    assert(spec_scan(attrs + seq![c1, c2]) == spec_scan_step(st1, c2, attrs.len() as int + 1));
    let st2 = spec_scan_step(st1, c2, attrs.len() as int + 1)->Ok_0;
    assert(st2.pending == st.pending + l1 + l2);
    assert(spec_scan(whole) == spec_scan_step(st2, act, attrs.len() as int + 2));
}

/// A passing validation means every single action passes.
pub proof fn lemma_validate_none_pointwise(shape: ShapeV, actions: Seq<ActionV>, original: Seq<char>)
    requires
        spec_validate(shape, actions, original) is None,
    ensures
        forall|i: int| 0 <= i < actions.len() ==> spec_check_action(shape, actions[i], original)
            is None,
    decreases actions.len(),
{
    if actions.len() > 0 {
        lemma_validate_none_pointwise(shape, actions.drop_first(), original);
        assert forall|i: int| 0 <= i < actions.len() implies spec_check_action(
            shape,
            actions[i],
            original,
        ) is None by {
            if i > 0 {
                assert(actions.drop_first()[i - 1] == actions[i]);
            }
        }
    }
}

/// Synthesis of individually valid actions cannot fail.
proof fn lemma_valid_actions_synthesize(
    actions: Seq<ActionV>,
    shape: ShapeV,
    passthrough: Seq<AttrV>,
    original: Seq<char>,
)
    requires
        forall|i: int| 0 <= i < actions.len() ==> spec_check_action(shape, actions[i], original)
            is None,
    ensures
        spec_into_items(actions, shape, passthrough) is Ok,
        spec_into_items(actions, shape, passthrough)->Ok_0.len() == actions.len(),
    decreases actions.len(),
{
    if actions.len() > 0 {
        assert(forall|i: int|
            0 <= i < actions.drop_last().len() ==> spec_check_action(
                shape,
                #[trigger] actions.drop_last()[i],
                original,
            ) is None);
        lemma_valid_actions_synthesize(actions.drop_last(), shape, passthrough, original);
        assert(spec_check_action(shape, actions.last(), original) is None);
        assert(spec_into_item(actions.last(), shape, passthrough) is Ok);
    }
}

/// Validation is exhaustive: an action list that validated against a
/// shape synthesizes without an internal-consistency error, one
/// declaration per action — the mismatch arm of the synthesis engine is
/// unreachable in the validated pipeline.
pub proof fn lemma_validated_synthesis_succeeds(
    actions: Seq<ActionV>,
    shape: ShapeV,
    passthrough: Seq<AttrV>,
    original: Seq<char>,
)
    requires
        spec_validate(shape, actions, original) is None,
    ensures
        spec_into_items(actions, shape, passthrough) is Ok,
        spec_into_items(actions, shape, passthrough)->Ok_0.len() == actions.len(),
{
    lemma_validate_none_pointwise(shape, actions, original);
    lemma_valid_actions_synthesize(actions, shape, passthrough, original);
}

/// Success is owed: whenever construction succeeds, the whole pipeline
/// succeeds, with exactly one declaration per parsed action.
pub proof fn lemma_expand_succeeds_after_build(ident: Seq<char>, data: DataV, attrs: Seq<AttrV>)
    requires
        spec_build(ident, data, attrs) is Ok,
    ensures
        spec_expand(ident, data, attrs) is Ok,
        spec_expand(ident, data, attrs)->Ok_0.len() == spec_build(
            ident,
            data,
            attrs,
        )->Ok_0.actions.len(),
{
    let req = spec_build(ident, data, attrs)->Ok_0;
    lemma_validated_synthesis_succeeds(req.actions, req.kind, req.attrs, ident);
}

/// Fail-fast validation: when the first action is invalid, the verdict is
/// that action's error, whatever actions follow — the later actions are
/// never consulted.
pub proof fn lemma_validate_fail_fast(
    shape: ShapeV,
    first: ActionV,
    rest1: Seq<ActionV>,
    rest2: Seq<ActionV>,
    original: Seq<char>,
)
    requires
        spec_check_action(shape, first, original) is Some,
    ensures
        spec_validate(shape, seq![first] + rest1, original) == spec_check_action(
            shape,
            first,
            original,
        ),
        spec_validate(shape, seq![first] + rest1, original) == spec_validate(
            shape,
            seq![first] + rest2,
            original,
        ),
{
    assert((seq![first] + rest1)[0] == first);
    assert((seq![first] + rest2)[0] == first);
    assert((seq![first] + rest1).len() > 0);
    assert((seq![first] + rest2).len() > 0);
}

} // verus!
