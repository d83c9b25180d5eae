//! Tests of the annotation grammar: what parses, what is rejected, and
//! which annotation the diagnostic points at.

use type_utils::expand;
use type_utils::model::Attr;
use type_utils::model::Delim;
use type_utils::model::Field;
use type_utils::model::InputData;
use type_utils::model::Tok;
use type_utils::model::TuError;
use type_utils::model::Visibility;

fn ident(s: &str) -> Tok {
    Tok::Ident(String::from(s))
}

fn comma() -> Tok {
    Tok::Punct(',')
}

fn paren(toks: Vec<Tok>) -> Tok {
    Tok::Group(Delim::Paren, toks)
}

fn brace(toks: Vec<Tok>) -> Tok {
    Tok::Group(Delim::Brace, toks)
}

fn attr(path: &str, toks: Vec<Tok>) -> Attr {
    Attr { path: vec![String::from(path)], toks }
}

fn record_a() -> InputData {
    InputData::Record(vec![Field {
        name: String::from("a"),
        vis: Visibility::Inherited,
        ty: String::from("i32"),
    }])
}

fn expand_one(a: Attr) -> Result<Vec<type_utils::model::TypeDecl>, TuError> {
    expand(String::from("S"), record_a(), vec![a])
}

#[test]
fn empty_selection_is_malformed() {
    let err = expand_one(attr("pick", vec![paren(vec![ident("S1"), brace(vec![])])]))
        .unwrap_err();
    assert_eq!(err, TuError::MalformedAnnotation { index: 0 });
}

#[test]
fn trailing_comma_in_selection_is_malformed() {
    let err = expand_one(attr(
        "pick",
        vec![paren(vec![ident("S1"), brace(vec![ident("a"), comma()])])],
    ))
    .unwrap_err();
    assert_eq!(err, TuError::MalformedAnnotation { index: 0 });
}

#[test]
fn missing_selection_is_malformed() {
    let err = expand_one(attr("pick", vec![paren(vec![ident("S1")])])).unwrap_err();
    assert_eq!(err, TuError::MalformedAnnotation { index: 0 });
}

#[test]
fn action_body_without_parentheses_is_malformed() {
    let err = expand_one(attr("omit", vec![ident("S1")])).unwrap_err();
    assert_eq!(err, TuError::MalformedAnnotation { index: 0 });
}

#[test]
fn tokens_after_the_selection_are_malformed() {
    let err = expand_one(attr(
        "pick",
        vec![paren(vec![ident("S1"), brace(vec![ident("a")]), ident("extra")])],
    ))
    .unwrap_err();
    assert_eq!(err, TuError::MalformedAnnotation { index: 0 });
}

#[test]
fn literal_selection_entry_is_malformed() {
    let err = expand_one(attr(
        "pick",
        vec![paren(vec![
            ident("S1"),
            brace(vec![Tok::Lit(String::from("0"))]),
        ])],
    ))
    .unwrap_err();
    assert_eq!(err, TuError::MalformedAnnotation { index: 0 });
}

#[test]
fn empty_capability_list_is_malformed() {
    let attrs = vec![
        attr("tu_derive", vec![paren(vec![])]),
        attr("pick", vec![paren(vec![ident("S1"), brace(vec![ident("a")])])]),
    ];
    let err = expand(String::from("S"), record_a(), attrs).unwrap_err();
    assert_eq!(err, TuError::MalformedAnnotation { index: 0 });
}

#[test]
fn malformed_index_points_at_the_offending_annotation() {
    let attrs = vec![
        attr("pick", vec![paren(vec![ident("S1"), brace(vec![ident("a")])])]),
        attr("omit", vec![paren(vec![])]),
    ];
    let err = expand(String::from("S"), record_a(), attrs).unwrap_err();
    assert_eq!(err, TuError::MalformedAnnotation { index: 1 });
}

#[test]
fn scan_errors_precede_shape_errors() {
    // a malformed action annotation is reported even on a union original
    let attrs = vec![attr("pick", vec![paren(vec![])])];
    let err = expand(String::from("U"), InputData::Union, attrs).unwrap_err();
    assert_eq!(err, TuError::MalformedAnnotation { index: 0 });
}

#[test]
fn plain_pub_output_visibility() {
    let decls = expand_one(attr(
        "pick",
        vec![paren(vec![ident("pub"), ident("S1"), brace(vec![ident("a")])])],
    ))
    .unwrap();
    assert_eq!(decls[0].vis, Visibility::Public);
}

#[test]
fn restricted_output_visibility() {
    let decls = expand_one(attr(
        "pick",
        vec![paren(vec![
            ident("pub"),
            paren(vec![ident("crate")]),
            ident("S1"),
            brace(vec![ident("a")]),
        ])],
    ))
    .unwrap();
    assert_eq!(decls[0].vis, Visibility::Restricted(vec![ident("crate")]));
}

#[test]
fn parens_after_pub_that_restrict_nothing_are_malformed() {
    // `pub (foo)` is not a restriction; the group then stands where the
    // output name belongs
    let err = expand_one(attr(
        "pick",
        vec![paren(vec![
            ident("pub"),
            paren(vec![ident("foo")]),
            ident("S1"),
            brace(vec![ident("a")]),
        ])],
    ))
    .unwrap_err();
    assert_eq!(err, TuError::MalformedAnnotation { index: 0 });
}

#[test]
fn multi_segment_paths_pass_through() {
    let passthrough = Attr {
        path: vec![String::from("serde"), String::from("rename")],
        toks: vec![],
    };
    let attrs = vec![
        passthrough.clone(),
        attr("pick", vec![paren(vec![ident("S1"), brace(vec![ident("a")])])]),
    ];
    let decls = expand(String::from("S"), record_a(), attrs).unwrap();
    assert_eq!(decls[0].attrs, vec![passthrough]);
}
