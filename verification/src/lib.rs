//! Source-level generator of "pick"/"omit" companion type declarations.
//!
//! Given the shape of an original type declaration (a record with named
//! fields or a tagged union with named variants) together with the ordered
//! list of annotations attached to it, the library parses the annotations
//! into a list of actions, validates every action against the original
//! shape, and synthesizes one new type declaration per action.  The whole
//! pipeline is a pure transformation on plain values; a thin unverified
//! host shell is expected to supply the parsed input and splice the output
//! back into the surrounding program.

use vstd::prelude::*;

pub mod laws;
pub mod model;
pub mod parse;
pub mod synth;
pub mod validate;

use crate::model::Attr;
use crate::model::AttrV;
use crate::model::DataV;
use crate::model::DeclV;
use crate::model::ErrV;
use crate::model::InputData;
use crate::model::TuError;
use crate::model::TypeDecl;
use crate::model::TypeUtils;
use crate::model::attrs_view;
use crate::parse::spec_build;
use crate::synth::decls_result_view;
use crate::synth::into_items;
use crate::synth::spec_into_items;

verus! {

/// What the whole pipeline yields on one annotated declaration: the
/// request built by the parser and the validator, then one synthesized
/// declaration per action, or the first error found.
pub open spec fn spec_expand(ident: Seq<char>, data: DataV, attrs: Seq<AttrV>) -> Result<
    Seq<DeclV>,
    ErrV,
> {
    match spec_build(ident, data, attrs) {
        Err(e) => Err(e),
        Ok(req) => spec_into_items(req.actions, req.kind, req.attrs),
    }
}

/// Runs the whole pipeline on one annotated original declaration: parse
/// the annotations, validate every action, and synthesize one new type
/// declaration per action, in action order.
pub fn expand(ident: String, data: InputData, attrs: Vec<Attr>) -> (r: Result<
    Vec<TypeDecl>,
    TuError,
>)
    ensures
        decls_result_view(r) == spec_expand(ident@, data@, attrs_view(attrs@)),
        // success is owed exactly when parsing and validation accept the
        // request; synthesis itself never fails after that
        r is Ok <==> spec_build(ident@, data@, attrs_view(attrs@)) is Ok,
{
    proof {
        if spec_build(ident@, data@, attrs_view(attrs@)) is Ok {
            crate::laws::lemma_expand_succeeds_after_build(ident@, data@, attrs_view(attrs@));
        }
    }
    let req = match TypeUtils::build(ident, data, attrs) {
        Ok(req) => req,
        Err(e) => {
            return Err(e);
        },
    };
    into_items(&req.actions, &req.kind, &req.attrs)
}

} // verus!
