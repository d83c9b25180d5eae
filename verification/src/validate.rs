//! The selection validator: every action must be compatible with the
//! original shape (records and tagged unions admit actions, tuple-like and
//! unit-like originals admit none), and every selected member name must
//! exist in that shape.  Validation is fail-fast: the first violation, in
//! action order and selection order, aborts the whole request.

use vstd::prelude::*;

use crate::model::Action;
use crate::model::ActionV;
use crate::model::ErrV;
use crate::model::FieldV;
use crate::model::SelV;
use crate::model::TuError;
use crate::model::TypeShape;
use crate::model::ShapeV;
use crate::model::VariantV;
use crate::model::actions_view;
use crate::model::sel_view;
use crate::synth::shape_kind_of;

verus! {

broadcast use vstd::std_specs::vec::group_vec_axioms, vstd::seq::group_seq_axioms;

/// The member names of a shape, in declaration order; empty for the
/// shapes that have no named members.
pub open spec fn shape_member_names(shape: ShapeV) -> Seq<Seq<char>> {
    match shape {
        ShapeV::Record(fs) => fs.map_values(|f: FieldV| f.name),
        ShapeV::TaggedUnion(vs) => vs.map_values(|v: VariantV| v.name),
        _ => Seq::empty(),
    }
}

/// Is this name among the given member names?
pub open spec fn names_contain(names: Seq<Seq<char>>, n: Seq<char>) -> bool {
    exists|i: int| 0 <= i < names.len() && names[i] == n
}

/// The first selected name that is not a member of the shape, if any,
/// scanning the selection in order.
pub open spec fn first_unknown(names: Seq<Seq<char>>, sel: Seq<SelV>) -> Option<Seq<char>>
    decreases sel.len(),
{
    if sel.len() == 0 {
        None
    } else if !names_contain(names, sel[0].name) {
        Some(sel[0].name)
    } else {
        first_unknown(names, sel.drop_first())
    }
}

/// The error one action produces against one shape, if any: the
/// compatibility matrix first, then the first unknown member.
pub open spec fn spec_check_action(shape: ShapeV, a: ActionV, original: Seq<char>) -> Option<
    ErrV,
> {
    match shape {
        ShapeV::Record(_) | ShapeV::TaggedUnion(_) => {
            match first_unknown(shape_member_names(shape), a.selection) {
                Some(n) => Some(ErrV::UnknownMember { member: n, action: a.name, original }),
                None => None,
            }
        },
        _ => Some(
            ErrV::UnsupportedKindForAction {
                action_kind: a.kind,
                shape_kind: shape_kind_of(shape),
            },
        ),
    }
}

/// The first error over the whole action list, scanning in order; `None`
/// when every action is valid.
pub open spec fn spec_validate(shape: ShapeV, actions: Seq<ActionV>, original: Seq<char>) -> Option<
    ErrV,
>
    decreases actions.len(),
{
    if actions.len() == 0 {
        None
    } else {
        match spec_check_action(shape, actions[0], original) {
            Some(e) => Some(e),
            None => spec_validate(shape, actions.drop_first(), original),
        }
    }
}

/// Does the shape contain a member of this name?
#[verifier::loop_isolation(false)]
fn shape_contains(shape: &TypeShape, name: &String) -> (r: bool)
    ensures
        r == names_contain(shape_member_names(shape@), name@),
{
    match shape {
        TypeShape::Record(fs) => {
            let ghost names = shape_member_names(shape@);
            let mut i: usize = 0;
            while i < fs.len()
                invariant
                    i <= fs@.len(),
                    names == shape_member_names(shape@),
                    names.len() == fs@.len(),
                    forall|k: int| 0 <= k < i ==> names[k] != name@,
                decreases fs@.len() - i,
            {
                proof {
                    assert(names[i as int] == fs@[i as int].name@);
                }
                if fs[i].name.eq(name) {
                    return true;
                }
                i = i + 1;
            }
            false
        },
        TypeShape::TaggedUnion(vs) => {
            let ghost names = shape_member_names(shape@);
            let mut i: usize = 0;
            while i < vs.len()
                invariant
                    i <= vs@.len(),
                    names == shape_member_names(shape@),
                    names.len() == vs@.len(),
                    forall|k: int| 0 <= k < i ==> names[k] != name@,
                decreases vs@.len() - i,
            {
                proof {
                    assert(names[i as int] == vs@[i as int].name@);
                }
                if vs[i].name.eq(name) {
                    return true;
                }
                i = i + 1;
            }
            false
        },
        _ => false,
    }
}

/// An entry at `j`, unknown while all earlier entries are known, is the
/// first unknown entry.
proof fn lemma_first_unknown_at(names: Seq<Seq<char>>, sel: Seq<SelV>, j: int)
    requires
        0 <= j < sel.len(),
        !names_contain(names, sel[j].name),
        forall|k: int| 0 <= k < j ==> names_contain(names, sel[k].name),
    ensures
        first_unknown(names, sel) == Some(sel[j].name),
    decreases j,
{
    if j > 0 {
        lemma_first_unknown_at(names, sel.drop_first(), j - 1);
    }
}

/// When every entry is known there is no first unknown entry.
proof fn lemma_first_unknown_none(names: Seq<Seq<char>>, sel: Seq<SelV>)
    requires
        forall|k: int| 0 <= k < sel.len() ==> names_contain(names, sel[k].name),
    ensures
        first_unknown(names, sel) is None,
    decreases sel.len(),
{
    if sel.len() > 0 {
        lemma_first_unknown_none(names, sel.drop_first());
    }
}

/// The view of an optional error.
pub open spec fn err_opt_view(r: Option<TuError>) -> Option<ErrV> {
    match r {
        Some(e) => Some(e@),
        None => None,
    }
}

/// Checks one action against the shape, reporting the first violation.
#[verifier::loop_isolation(false)]
fn check_action(shape: &TypeShape, a: &Action, original: &String) -> (r: Option<TuError>)
    ensures
        err_opt_view(r) == spec_check_action(shape@, a@, original@),
{
    match shape {
        TypeShape::Record(_) | TypeShape::TaggedUnion(_) => {
            let ghost names = shape_member_names(shape@);
            let ghost selv = sel_view(a.selection@);
            let mut j: usize = 0;
            while j < a.selection.len()
                invariant
                    j <= a.selection@.len(),
                    names == shape_member_names(shape@),
                    selv == sel_view(a.selection@),
                    shape@ is Record || shape@ is TaggedUnion,
                    forall|k: int| 0 <= k < j ==> names_contain(names, selv[k].name),
                decreases a.selection@.len() - j,
            {
                let entry = &a.selection[j];
                if !shape_contains(shape, &entry.name) {
                    proof {
                        lemma_first_unknown_at(names, selv, j as int);
                    }
                    return Some(
                        TuError::UnknownMember {
                            member: entry.name.clone(),
                            action: a.name.clone(),
                            original: original.clone(),
                        },
                    );
                }
                j = j + 1;
            }
            proof {
                lemma_first_unknown_none(names, selv);
            }
            None
        },
        _ => Some(
            TuError::UnsupportedKindForAction { action_kind: a.kind, shape_kind: shape.kind() },
        ),
    }
}

/// A passing prefix leaves the verdict to the rest of the action list.
proof fn lemma_spec_validate_skip(shape: ShapeV, actions: Seq<ActionV>, original: Seq<char>, i: int)
    requires
        0 <= i <= actions.len(),
        forall|k: int| 0 <= k < i ==> spec_check_action(shape, actions[k], original) is None,
    ensures
        spec_validate(shape, actions, original) == spec_validate(
            shape,
            actions.skip(i),
            original,
        ),
    decreases i,
{
    if i > 0 {
        assert(spec_check_action(shape, actions[0], original) is None);
        assert(actions.drop_first().skip(i - 1) =~= actions.skip(i));
        lemma_spec_validate_skip(shape, actions.drop_first(), original, i - 1);
    } else {
        assert(actions.skip(0) =~= actions);
    }
}

/// Validates every action against the shape before any synthesis occurs,
/// reporting the first violation in action order and selection order.
pub fn validate(shape: &TypeShape, actions: &Vec<Action>, original: &String) -> (r: Result<
    (),
    TuError,
>)
    ensures
        r is Ok <==> spec_validate(shape@, actions_view(actions@), original@) is None,
        r matches Err(e) ==> spec_validate(shape@, actions_view(actions@), original@) == Some(
            e@,
        ),
{
    let ghost av = actions_view(actions@);
    let mut i: usize = 0;
    while i < actions.len()
        invariant
            i <= actions@.len(),
            av == actions_view(actions@),
            forall|k: int| 0 <= k < i ==> spec_check_action(shape@, av[k], original@) is None,
        decreases actions@.len() - i,
    {
        match check_action(shape, &actions[i], original) {
            Some(e) => {
                proof {
                    lemma_spec_validate_skip(shape@, av, original@, i as int);
                    assert(av.skip(i as int)[0] == av[i as int]);
                }
                return Err(e);
            },
            None => {},
        }
        i = i + 1;
    }
    proof {
        lemma_spec_validate_skip(shape@, av, original@, actions@.len() as int);
    }
    Ok(())
}

} // verus!
