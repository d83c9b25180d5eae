//! The annotation parser: one ordered scan over the annotations attached
//! to the original declaration.  Capability lists accumulate; a pick/omit
//! annotation takes ownership of the accumulated capabilities and becomes
//! an action; anything else passes through.  The scan is followed by the
//! construction checks (a trailing capability list and an empty action
//! list are errors), the shape classification, and validation.

use vstd::prelude::*;
use vstd::string::StringExecFns;

use crate::model::Action;
use crate::model::ActionKind;
use crate::model::ActionV;
use crate::model::Attr;
use crate::model::AttrV;
use crate::model::Delim;
use crate::model::ErrV;
use crate::model::InputData;
use crate::model::DataV;
use crate::model::SelV;
use crate::model::SelectedMember;
use crate::model::Tok;
use crate::model::TokV;
use crate::model::TuError;
use crate::model::TypeShape;
use crate::model::ShapeV;
use crate::model::TypeUtils;
use crate::model::RequestV;
use crate::model::VisV;
use crate::model::Visibility;
use crate::model::actions_view;
use crate::model::attrs_view;
use crate::model::clone_toks;
use crate::model::sel_view;
use crate::model::toks_view;
use crate::validate::spec_validate;
use crate::validate::validate;

verus! {

broadcast use
    vstd::std_specs::vec::group_vec_axioms,
    vstd::seq::group_seq_axioms,
    crate::model::lemma_toks_view_len,
    crate::model::lemma_toks_view_index,
    crate::model::lemma_toks_view_push,
    crate::model::lemma_attrs_view_push,
    crate::model::lemma_actions_view_push,
    crate::model::lemma_sel_view_push;

/// Is this path the single given word?
pub open spec fn path_is(path: Seq<Seq<char>>, word: Seq<char>) -> bool {
    path.len() == 1 && path[0] == word
}

/// The visibility at the front of a token sequence, with the number of
/// tokens it occupies: `pub` followed by a parenthesized restriction
/// (starting with `crate`, `self`, `super` or `in`) takes two tokens, a
/// plain `pub` takes one, anything else leaves the visibility inherited.
pub open spec fn spec_parse_vis(ts: Seq<TokV>) -> (VisV, int) {
    if ts.len() > 0 && ts[0] == TokV::Ident("pub"@) {
        if ts.len() > 1 && (ts[1] matches TokV::Group(Delim::Paren, inner)
            && vis_restriction(inner)) {
            (VisV::Restricted(ts[1]->Group_1), 2)
        } else {
            (VisV::Public, 1)
        }
    } else {
        (VisV::Inherited, 0)
    }
}

/// Does a parenthesized group after `pub` restrict the visibility?
pub open spec fn vis_restriction(inner: Seq<TokV>) -> bool {
    inner.len() > 0 && (inner[0] == TokV::Ident("crate"@) || inner[0] == TokV::Ident("self"@)
        || inner[0] == TokV::Ident("super"@) || inner[0] == TokV::Ident("in"@))
}

/// A nonempty comma-separated identifier list, with no trailing comma;
/// `None` on any other token sequence.
pub open spec fn spec_parse_idents(ts: Seq<TokV>) -> Option<Seq<Seq<char>>>
    decreases ts.len(),
{
    if ts.len() == 0 {
        None
    } else {
        match ts[0] {
            TokV::Ident(name) => if ts.len() == 1 {
                Some(seq![name])
            } else if ts[1] == TokV::Punct(',') {
                match spec_parse_idents(ts.skip(2)) {
                    Some(rest) => Some(seq![name] + rest),
                    None => None,
                }
            } else {
                None
            },
            _ => None,
        }
    }
}

/// The body of a capability-list annotation: exactly one parenthesized
/// group holding a nonempty identifier list.
pub open spec fn spec_parse_caps(ts: Seq<TokV>) -> Option<Seq<Seq<char>>> {
    if ts.len() == 1 {
        match ts[0] {
            TokV::Group(Delim::Paren, inner) => spec_parse_idents(inner),
            _ => None,
        }
    } else {
        None
    }
}

/// A nonempty comma-separated selection list: each entry an optional
/// visibility override followed by a member name; no trailing comma.
pub open spec fn spec_parse_sel_entries(ts: Seq<TokV>) -> Option<Seq<SelV>>
    decreases ts.len(),
{
    let vk = spec_parse_vis(ts);
    let k = vk.1;
    if ts.len() <= k {
        None
    } else {
        match ts[k] {
            TokV::Ident(name) => {
                let entry = SelV { name, vis: vk.0 };
                if ts.len() == k + 1 {
                    Some(seq![entry])
                } else if ts[k + 1] == TokV::Punct(',') {
                    match spec_parse_sel_entries(ts.skip(k + 2)) {
                        Some(rest) => Some(seq![entry] + rest),
                        None => None,
                    }
                } else {
                    None
                }
            },
            _ => None,
        }
    }
}

/// The parsed body of one pick/omit annotation, before the action kind
/// and the capability list are attached.
pub struct ActionBodyV {
    pub vis: VisV,
    pub name: Seq<char>,
    pub generics: Seq<TokV>,
    pub selection: Seq<SelV>,
}

/// The content between an action annotation's parentheses: a visibility,
/// the output type name, a verbatim generics-and-constraints block, and a
/// braced selection as the final token.
pub open spec fn spec_parse_action_inner(inner: Seq<TokV>) -> Option<ActionBodyV> {
    let vk = spec_parse_vis(inner);
    let k = vk.1;
    if inner.len() <= k {
        None
    } else {
        match inner[k] {
            TokV::Ident(name) => match inner.last() {
                TokV::Group(Delim::Brace, selts) => match spec_parse_sel_entries(selts) {
                    Some(sel) => Some(
                        ActionBodyV {
                            vis: vk.0,
                            name,
                            generics: inner.subrange(k + 1, inner.len() - 1),
                            selection: sel,
                        },
                    ),
                    None => None,
                },
                _ => None,
            },
            _ => None,
        }
    }
}

/// The body of an action annotation: exactly one parenthesized group.
pub open spec fn spec_parse_action_body(ts: Seq<TokV>) -> Option<ActionBodyV> {
    if ts.len() == 1 {
        match ts[0] {
            TokV::Group(Delim::Paren, inner) => spec_parse_action_inner(inner),
            _ => None,
        }
    } else {
        None
    }
}

/// The state of the annotation scan: the actions built so far, the
/// passthrough annotations kept so far, and the capability names waiting
/// for the next action.
pub struct ScanV {
    pub actions: Seq<ActionV>,
    pub passthrough: Seq<AttrV>,
    pub pending: Seq<Seq<char>>,
}

/// One step of the scan, on the annotation at position `idx`.
pub open spec fn spec_scan_step(st: ScanV, a: AttrV, idx: int) -> Result<ScanV, ErrV> {
    if path_is(a.path, "tu_derive"@) {
        match spec_parse_caps(a.toks) {
            Some(ids) => Ok(
                ScanV {
                    actions: st.actions,
                    passthrough: st.passthrough,
                    pending: st.pending + ids,
                },
            ),
            None => Err(ErrV::MalformedAnnotation { index: idx }),
        }
    } else if path_is(a.path, "pick"@) || path_is(a.path, "omit"@) {
        match spec_parse_action_body(a.toks) {
            Some(b) => Ok(
                ScanV {
                    actions: st.actions.push(
                        ActionV {
                            kind: if path_is(a.path, "pick"@) {
                                ActionKind::Pick
                            } else {
                                ActionKind::Omit
                            },
                            capabilities: st.pending,
                            name: b.name,
                            vis: b.vis,
                            generics: b.generics,
                            selection: b.selection,
                        },
                    ),
                    passthrough: st.passthrough,
                    pending: Seq::empty(),
                },
            ),
            None => Err(ErrV::MalformedAnnotation { index: idx }),
        }
    } else {
        Ok(
            ScanV {
                actions: st.actions,
                passthrough: st.passthrough.push(a),
                pending: st.pending,
            },
        )
    }
}

/// The scan state before anything was read.
pub open spec fn scan_init() -> ScanV {
    ScanV { actions: Seq::empty(), passthrough: Seq::empty(), pending: Seq::empty() }
}

/// The whole scan: the annotations in order, failing on the first
/// malformed action or capability-list body.
pub open spec fn spec_scan(attrs: Seq<AttrV>) -> Result<ScanV, ErrV>
    decreases attrs.len(),
{
    if attrs.len() == 0 {
        Ok(scan_init())
    } else {
        match spec_scan(attrs.drop_last()) {
            Ok(st) => spec_scan_step(st, attrs.last(), attrs.len() - 1),
            Err(e) => Err(e),
        }
    }
}

/// The shape of the original declaration, or the rejection of a kind the
/// model does not describe.
pub open spec fn spec_classify_data(d: DataV) -> Result<ShapeV, ErrV> {
    match d {
        DataV::Record(fs) => Ok(ShapeV::Record(fs)),
        DataV::Tuple(n) => Ok(ShapeV::Tuple(n)),
        DataV::Unit => Ok(ShapeV::Unit),
        DataV::Union => Err(ErrV::UnsupportedDataKind),
        DataV::TaggedUnion(vs) => Ok(ShapeV::TaggedUnion(vs)),
    }
}

/// The whole construction: scan, trailing-capability and no-action
/// checks, shape classification, then validation.
pub open spec fn spec_build(ident: Seq<char>, data: DataV, attrs: Seq<AttrV>) -> Result<
    RequestV,
    ErrV,
> {
    match spec_scan(attrs) {
        Err(e) => Err(e),
        Ok(st) => if st.pending.len() > 0 {
            Err(ErrV::DanglingCapabilityList)
        } else if st.actions.len() == 0 {
            Err(ErrV::NoActionsSpecified)
        } else {
            match spec_classify_data(data) {
                Err(e) => Err(e),
                Ok(shape) => match spec_validate(shape, st.actions, ident) {
                    Some(e) => Err(e),
                    None => Ok(
                        RequestV {
                            ident,
                            kind: shape,
                            attrs: st.passthrough,
                            actions: st.actions,
                        },
                    ),
                },
            }
        },
    }
}

/// Compares an owned identifier text with a literal word.
fn str_eq(a: &String, b: &str) -> (r: bool)
    ensures
        r == (a@ == b@),
{
    let bs = String::from_str(b);
    a.eq(&bs)
}

/// Is this token the given identifier word?
fn tok_is_ident_word(t: &Tok, w: &str) -> (r: bool)
    ensures
        r == (t@ == TokV::Ident(w@)),
{
    match t {
        Tok::Ident(s) => str_eq(s, w),
        _ => false,
    }
}

/// Parses a visibility at position `p`, returning it with the number of
/// tokens it occupied.
fn parse_vis(ts: &Vec<Tok>, p: usize) -> (r: (Visibility, usize))
    requires
        p <= ts@.len(),
    ensures
        r.0@ == spec_parse_vis(toks_view(ts@).skip(p as int)).0,
        r.1 as int == spec_parse_vis(toks_view(ts@).skip(p as int)).1,
        p + r.1 <= ts@.len(),
{
    let ghost sv = toks_view(ts@).skip(p as int);
    proof {
        assert(sv.len() == ts@.len() - p);
        if p < ts@.len() {
            assert(sv[0] == ts@[p as int]@);
        }
        if p + 1 < ts@.len() {
            assert(sv[1] == ts@[p + 1]@);
        }
    }
    if p < ts.len() && tok_is_ident_word(&ts[p], "pub") {
        if p + 1 < ts.len() {
            match &ts[p + 1] {
                Tok::Group(Delim::Paren, inner) => {
                    let restricted = if inner.len() == 0 {
                        false
                    } else {
                        let first = &inner[0];
                        tok_is_ident_word(first, "crate") || tok_is_ident_word(first, "self")
                            || tok_is_ident_word(first, "super") || tok_is_ident_word(first, "in")
                    };
                    proof {
                        if inner@.len() > 0 {
                            assert(toks_view(inner@)[0] == inner@[0]@);
                        }
                        assert(restricted == vis_restriction(toks_view(inner@)));
                    }
                    if restricted {
                        (Visibility::Restricted(clone_toks(inner)), 2)
                    } else {
                        (Visibility::Public, 1)
                    }
                },
                _ => (Visibility::Public, 1),
            }
        } else {
            (Visibility::Public, 1)
        }
    } else {
        (Visibility::Inherited, 0)
    }
}

/// Parses a nonempty comma-separated identifier list.
fn parse_idents(ts: &Vec<Tok>) -> (r: Option<Vec<String>>)
    ensures
        match r {
            Some(ids) => spec_parse_idents(toks_view(ts@)) == Some(ids.deep_view()),
            None => spec_parse_idents(toks_view(ts@)) is None,
        },
{
    let ghost tsv = toks_view(ts@);
    let mut out: Vec<String> = Vec::new();
    let mut p: usize = 0;
    proof {
        assert(tsv.skip(0) =~= tsv);
    }
    while p < ts.len()
        invariant
            p <= ts@.len(),
            tsv == toks_view(ts@),
            spec_parse_idents(tsv) == match spec_parse_idents(tsv.skip(p as int)) {
                Some(rest) => Some(out.deep_view() + rest),
                None => None::<Seq<Seq<char>>>,
            },
        decreases ts@.len() - p,
    {
        let ghost tail = tsv.skip(p as int);
        proof {
            assert(tail[0] == ts@[p as int]@);
        }
        let name = match &ts[p] {
            Tok::Ident(s) => s.clone(),
            _ => {
                return None;
            },
        };
        if p + 1 == ts.len() {
            let ghost out0 = out.deep_view();
            out.push(name);
            proof {
                assert(out.deep_view() =~= out0.push(name@));
                assert(spec_parse_idents(tail) == Some(seq![name@]));
                assert(out0 + seq![name@] =~= out.deep_view());
            }
            return Some(out);
        }
        proof {
            assert(tail[1] == ts@[p + 1]@);
        }
        let comma = match &ts[p + 1] {
            Tok::Punct(c) => *c == ',',
            _ => false,
        };
        if !comma {
            return None;
        }
        let ghost out0 = out.deep_view();
        out.push(name);
        proof {
            assert(out.deep_view() =~= out0.push(name@));
            assert(tail.skip(2) =~= tsv.skip(p + 2));
            assert forall|rest: Seq<Seq<char>>| out0 + (seq![name@] + rest) =~= out.deep_view()
                + rest by {}
        }
        p = p + 2;
    }
    proof {
        assert(tsv.skip(p as int).len() == 0);
        assert(spec_parse_idents(tsv.skip(p as int)) is None);
    }
    None
}

/// Parses a nonempty selection list of optional-visibility member names.
fn parse_sel_entries(ts: &Vec<Tok>) -> (r: Option<Vec<SelectedMember>>)
    ensures
        match r {
            Some(sel) => spec_parse_sel_entries(toks_view(ts@)) == Some(sel_view(sel@)),
            None => spec_parse_sel_entries(toks_view(ts@)) is None,
        },
{
    let ghost tsv = toks_view(ts@);
    let mut out: Vec<SelectedMember> = Vec::new();
    let mut p: usize = 0;
    proof {
        assert(tsv.skip(0) =~= tsv);
        assert(sel_view(out@) =~= Seq::<SelV>::empty());
    }
    while p < ts.len()
        invariant
            p <= ts@.len(),
            tsv == toks_view(ts@),
            spec_parse_sel_entries(tsv) == match spec_parse_sel_entries(tsv.skip(p as int)) {
                Some(rest) => Some(sel_view(out@) + rest),
                None => None::<Seq<SelV>>,
            },
        decreases ts@.len() - p,
    {
        let ghost tail = tsv.skip(p as int);
        let (vis, k) = parse_vis(ts, p);
        proof {
            assert(tsv.skip(p as int).skip(k as int) =~= tsv.skip(p + k));
            assert(spec_parse_vis(tail).1 == k as int);
        }
        if p + k == ts.len() {
            return None;
        }
        proof {
            assert(tail[k as int] == ts@[p + k]@);
        }
        let name = match &ts[p + k] {
            Tok::Ident(s) => s.clone(),
            _ => {
                return None;
            },
        };
        let entry = SelectedMember { name, vis };
        let ghost entryv = entry@;
        if p + k + 1 == ts.len() {
            let ghost out0 = sel_view(out@);
            out.push(entry);
            proof {
                assert(spec_parse_sel_entries(tail) == Some(seq![entryv]));
                assert(out0 + seq![entryv] =~= sel_view(out@));
            }
            return Some(out);
        }
        proof {
            assert(tail[k + 1] == ts@[p + k + 1]@);
        }
        let comma = match &ts[p + k + 1] {
            Tok::Punct(c) => *c == ',',
            _ => false,
        };
        if !comma {
            return None;
        }
        let ghost out0 = sel_view(out@);
        out.push(entry);
        proof {
            assert(tail.skip(k + 2) =~= tsv.skip(p + k + 2));
            assert forall|rest: Seq<SelV>| out0 + (seq![entryv] + rest) =~= sel_view(out@)
                + rest by {}
        }
        p = p + k + 2;
    }
    proof {
        assert(tsv.skip(p as int).len() == 0);
        assert(spec_parse_sel_entries(tsv.skip(p as int)) is None);
    }
    None
}

/// The parsed body of one pick/omit annotation, before kind and
/// capabilities are attached.
pub struct PartialAction {
    pub vis: Visibility,
    pub name: String,
    pub generics: Vec<Tok>,
    pub selection: Vec<SelectedMember>,
}

impl View for PartialAction {
    type V = ActionBodyV;

    open spec fn view(&self) -> ActionBodyV {
        ActionBodyV {
            vis: self.vis@,
            name: self.name@,
            generics: toks_view(self.generics@),
            selection: sel_view(self.selection@),
        }
    }
}

/// Parses the body of an action annotation.
fn parse_action_body(ts: &Vec<Tok>) -> (r: Option<PartialAction>)
    ensures
        match r {
            Some(pa) => spec_parse_action_body(toks_view(ts@)) == Some(pa@),
            None => spec_parse_action_body(toks_view(ts@)) is None,
        },
{
    let ghost tsv = toks_view(ts@);
    if ts.len() != 1 {
        return None;
    }
    proof {
        assert(tsv[0] == ts@[0]@);
    }
    match &ts[0] {
        Tok::Group(Delim::Paren, inner) => {
            let ghost innerv = toks_view(inner@);
            let (vis, k) = parse_vis(inner, 0);
            proof {
                assert(innerv.skip(0) =~= innerv);
            }
            if k == inner.len() {
                return None;
            }
            proof {
                assert(innerv[k as int] == inner@[k as int]@);
            }
            let name = match &inner[k] {
                Tok::Ident(s) => s.clone(),
                _ => {
                    return None;
                },
            };
            proof {
                assert(innerv[innerv.len() - 1] == inner@[inner@.len() - 1]@);
            }
            let selts = match &inner[inner.len() - 1] {
                Tok::Group(Delim::Brace, selts) => selts,
                _ => {
                    return None;
                },
            };
            let selection = match parse_sel_entries(selts) {
                Some(sel) => sel,
                None => {
                    return None;
                },
            };
            let mut generics: Vec<Tok> = Vec::new();
            let mut j: usize = k + 1;
            proof {
                assert(toks_view(generics@) =~= innerv.subrange(k + 1, k + 1));
            }
            while j < inner.len() - 1
                invariant
                    k + 1 <= j <= inner@.len() - 1,
                    innerv == toks_view(inner@),
                    toks_view(generics@) == innerv.subrange(k + 1, j as int),
                decreases inner@.len() - j,
            {
                let t = &inner[j];
                generics.push(t.clone());
                proof {
                    assert(innerv[j as int] == inner@[j as int]@);
                    assert(innerv.subrange(k + 1, j + 1) =~= innerv.subrange(k + 1, j as int).push(
                        innerv[j as int],
                    ));
                }
                j = j + 1;
            }
            Some(PartialAction { vis, name, generics, selection })
        },
        _ => None,
    }
}

/// The running state of the annotation scan.
pub struct ScanState {
    pub actions: Vec<Action>,
    pub passthrough: Vec<Attr>,
    pub pending: Vec<String>,
}

impl View for ScanState {
    type V = ScanV;

    open spec fn view(&self) -> ScanV {
        ScanV {
            actions: actions_view(self.actions@),
            passthrough: attrs_view(self.passthrough@),
            pending: self.pending.deep_view(),
        }
    }
}

/// An error on a prefix of the annotation list is the error of the whole
/// list.
proof fn lemma_spec_scan_err_prefix(attrs: Seq<AttrV>, n: int)
    requires
        0 <= n <= attrs.len(),
        spec_scan(attrs.take(n)) is Err,
    ensures
        spec_scan(attrs) == spec_scan(attrs.take(n)),
    decreases attrs.len(),
{
    if attrs.len() > n {
        assert(attrs.drop_last().take(n) =~= attrs.take(n));
        lemma_spec_scan_err_prefix(attrs.drop_last(), n);
    } else {
        assert(attrs.take(n) =~= attrs);
    }
}

/// Scans the annotation list once, in order.
fn scan(attrs: &Vec<Attr>) -> (r: Result<ScanState, TuError>)
    ensures
        match r {
            Ok(st) => spec_scan(attrs_view(attrs@)) == Ok::<ScanV, ErrV>(st@),
            Err(e) => spec_scan(attrs_view(attrs@)) == Err::<ScanV, ErrV>(e@),
        },
{
    let ghost av = attrs_view(attrs@);
    let mut st = ScanState { actions: Vec::new(), passthrough: Vec::new(), pending: Vec::new() };
    let mut i: usize = 0;
    proof {
        assert(av.take(0) =~= Seq::<AttrV>::empty());
        assert(st@.actions =~= scan_init().actions);
        assert(st@.passthrough =~= scan_init().passthrough);
        assert(st@.pending =~= scan_init().pending);
    }
    while i < attrs.len()
        invariant
            i <= attrs@.len(),
            av == attrs_view(attrs@),
            spec_scan(av.take(i as int)) == Ok::<ScanV, ErrV>(st@),
        decreases attrs@.len() - i,
    {
        let a = &attrs[i];
        let ghost st0 = st@;
        proof {
            assert(av.take(i + 1).drop_last() =~= av.take(i as int));
            assert(av.take(i + 1).last() == av[i as int]);
            assert(av[i as int] == attrs@[i as int]@);
        }
        let single = a.path.len() == 1;
        let is_caps = single && str_eq(&a.path[0], "tu_derive");
        let is_pick = single && str_eq(&a.path[0], "pick");
        let is_omit = single && str_eq(&a.path[0], "omit");
        proof {
            assert(a.path.deep_view().len() == a.path@.len());
            if single {
                assert(a.path.deep_view()[0] == a.path@[0]@);
            }
            assert(is_caps == path_is(a@.path, "tu_derive"@));
            assert(is_pick == path_is(a@.path, "pick"@));
            assert(is_omit == path_is(a@.path, "omit"@));
        }
        if is_caps {
            match parse_idents_of_group(&a.toks) {
                Some(mut ids) => {
                    let ghost pending0 = st.pending.deep_view();
                    let ghost idsv = ids.deep_view();
                    st.pending.append(&mut ids);
                    proof {
                        assert(st.pending.deep_view() =~= pending0 + idsv);
                    }
                },
                None => {
                    proof {
                        lemma_spec_scan_err_prefix(av, i + 1);
                    }
                    return Err(TuError::MalformedAnnotation { index: i });
                },
            }
        } else if is_pick || is_omit {
            match parse_action_body(&a.toks) {
                Some(pa) => {
                    let caps = st.pending;
                    st.pending = Vec::new();
                    let action = Action {
                        kind: if is_pick {
                            ActionKind::Pick
                        } else {
                            ActionKind::Omit
                        },
                        capabilities: caps,
                        name: pa.name,
                        vis: pa.vis,
                        generics: pa.generics,
                        selection: pa.selection,
                    };
                    st.actions.push(action);
                    proof {
                        assert(st.pending.deep_view() =~= Seq::<Seq<char>>::empty());
                    }
                },
                None => {
                    proof {
                        lemma_spec_scan_err_prefix(av, i + 1);
                    }
                    return Err(TuError::MalformedAnnotation { index: i });
                },
            }
        } else {
            st.passthrough.push(a.clone());
        }
        i = i + 1;
    }
    proof {
        assert(av.take(attrs@.len() as int) =~= av);
    }
    Ok(st)
}

/// Parses a capability-list body: one parenthesized identifier list.
fn parse_idents_of_group(ts: &Vec<Tok>) -> (r: Option<Vec<String>>)
    ensures
        match r {
            Some(ids) => spec_parse_caps(toks_view(ts@)) == Some(ids.deep_view()),
            None => spec_parse_caps(toks_view(ts@)) is None,
        },
{
    if ts.len() != 1 {
        return None;
    }
    proof {
        assert(toks_view(ts@)[0] == ts@[0]@);
    }
    match &ts[0] {
        Tok::Group(Delim::Paren, inner) => parse_idents(inner),
        _ => None,
    }
}

/// Classifies the original declaration, rejecting the kinds the model
/// does not describe.
pub fn classify_data(data: InputData) -> (r: Result<TypeShape, TuError>)
    ensures
        match r {
            Ok(shape) => spec_classify_data(data@) == Ok::<ShapeV, ErrV>(shape@),
            Err(e) => spec_classify_data(data@) == Err::<ShapeV, ErrV>(e@),
        },
{
    match data {
        InputData::Record(fs) => Ok(TypeShape::Record(fs)),
        InputData::Tuple(n) => Ok(TypeShape::Tuple(n)),
        InputData::Unit => Ok(TypeShape::Unit),
        InputData::Union => Err(TuError::UnsupportedDataKind),
        InputData::TaggedUnion(vs) => Ok(TypeShape::TaggedUnion(vs)),
    }
}

/// The view of a construction result.
pub open spec fn request_result_view(r: Result<TypeUtils, TuError>) -> Result<RequestV, ErrV> {
    match r {
        Ok(req) => Ok(req@),
        Err(e) => Err(e@),
    }
}

impl TypeUtils {
    /// Builds the request for one annotated original declaration: parses
    /// the annotations, rejects a trailing capability list and an empty
    /// action list, classifies the shape, and validates every action.
    pub fn build(ident: String, data: InputData, attrs: Vec<Attr>) -> (r: Result<
        TypeUtils,
        TuError,
    >)
        ensures
            request_result_view(r) == spec_build(ident@, data@, attrs_view(attrs@)),
            // a constructed request always carries at least one action
            r matches Ok(req) ==> req.actions@.len() > 0,
    {
        let st = match scan(&attrs) {
            Ok(st) => st,
            Err(e) => {
                return Err(e);
            },
        };
        if st.pending.len() > 0 {
            return Err(TuError::DanglingCapabilityList);
        }
        if st.actions.len() == 0 {
            return Err(TuError::NoActionsSpecified);
        }
        let shape = match classify_data(data) {
            Ok(s) => s,
            Err(e) => {
                return Err(e);
            },
        };
        match validate(&shape, &st.actions, &ident) {
            Ok(_) => {},
            Err(e) => {
                return Err(e);
            },
        }
        Ok(TypeUtils { ident, kind: shape, attrs: st.passthrough, actions: st.actions })
    }
}

} // verus!
