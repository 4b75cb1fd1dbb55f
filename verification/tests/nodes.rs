//! The syntax-tree nodes: fresh code blocks and scope chains.

use std::rc::Rc;

use sylan::common::multiphase::Identifier;
use sylan::parsing::nodes::{Code, Pattern, PatternItem, Scope};

#[test]
fn new_code_blocks_are_empty() {
    let code = Code::new();
    assert!(code.bindings.is_empty());
    assert!(code.expressions.is_empty());
}

#[test]
fn root_scopes_have_no_parent() {
    let root = Scope::new_root();
    assert!(root.parent.is_none());
    assert!(root.code.bindings.is_empty());
    assert!(root.code.expressions.is_empty());
}

#[test]
fn nested_scopes_share_their_parent() {
    let root = Scope::new_root();
    let child = Scope::within(&root);
    let parent = child.parent.as_ref().unwrap();
    assert!(Rc::ptr_eq(&root, parent));
    assert!(child.code.bindings.is_empty());
}

#[test]
fn patterns_compare_by_bound_name() {
    let ignored_as_x = Pattern {
        item: PatternItem::Ignored,
        bound_match: Some(Identifier::from("x")),
    };
    let named_as_x = Pattern {
        item: PatternItem::Identifier(Identifier::from("inner")),
        bound_match: Some(Identifier::from("x")),
    };
    let unnamed = Pattern { item: PatternItem::Ignored, bound_match: None };
    let also_unnamed = Pattern {
        item: PatternItem::Identifier(Identifier::from("y")),
        bound_match: None,
    };
    assert!(ignored_as_x == named_as_x);
    assert!(ignored_as_x != unnamed);
    assert!(unnamed == also_unnamed);
}
