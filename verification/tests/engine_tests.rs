use type_handler::ast::{
    AdapterSpec, Declaration, ExtractionRole, GenError, Pattern, RawFunction, RawParameter,
    TypeDescriptor, TypeShape,
};
use type_handler::engine::{body_handler, query_handler, type_handler as multi_role};

fn named_type(text: &str, head: &str, type_args: u64) -> TypeDescriptor {
    TypeDescriptor {
        text: text.to_string(),
        shape: TypeShape::Named { head: head.to_string(), type_args },
    }
}

fn plain_type(text: &str) -> TypeDescriptor {
    TypeDescriptor { text: text.to_string(), shape: TypeShape::Other }
}

fn param(name: &str, ty: TypeDescriptor) -> RawParameter {
    RawParameter { pattern: Pattern::Ident { name: name.to_string() }, ty }
}

fn result_type() -> TypeDescriptor {
    named_type("Result<Reply, ApiError>", "Result", 2)
}

fn handler(name: &str, params: Vec<RawParameter>) -> Declaration {
    Declaration::Function(RawFunction {
        name: name.to_string(),
        params,
        return_type: Some(result_type()),
    })
}

fn roles_of(a: &AdapterSpec) -> Vec<ExtractionRole> {
    a.bindings.iter().map(|b| b.role).collect()
}

#[test]
fn body_bound_data_binds_json_body() {
    let decl = handler(
        "create_user",
        vec![param("data", named_type("NewUser", "NewUser", 0)), param("state", plain_type("AppState"))],
    );
    let a = body_handler(decl).unwrap();
    assert_eq!(a.handler_name, "create_user");
    assert_eq!(a.adapter_name, "create_user_api");
    assert_eq!(roles_of(&a), vec![ExtractionRole::JsonBody, ExtractionRole::PassThrough]);
    assert_eq!(a.bindings[0].name, "data");
    assert_eq!(a.bindings[0].ty.text, "NewUser");
    assert_eq!(a.bindings[1].name, "state");
    assert_eq!(a.bindings[1].ty.text, "AppState");
}

#[test]
fn query_bound_data_binds_query_string() {
    let decl = handler(
        "create_user",
        vec![param("data", named_type("NewUser", "NewUser", 0)), param("state", plain_type("AppState"))],
    );
    let a = query_handler(decl).unwrap();
    assert_eq!(roles_of(&a), vec![ExtractionRole::QueryString, ExtractionRole::PassThrough]);
    assert_eq!(a.bindings[0].name, "data");
    assert_eq!(a.bindings[0].ty.text, "NewUser");
}

#[test]
fn body_bound_leaves_multi_role_names_alone() {
    let decl = handler(
        "list",
        vec![
            param("query", plain_type("Q")),
            param("body", plain_type("B")),
            param("path", plain_type("P")),
        ],
    );
    let a = body_handler(decl).unwrap();
    assert_eq!(
        roles_of(&a),
        vec![
            ExtractionRole::PassThrough,
            ExtractionRole::PassThrough,
            ExtractionRole::PassThrough
        ]
    );
}

#[test]
fn multi_role_binds_all_three_roles_in_order() {
    let decl = handler(
        "f",
        vec![
            param("query", plain_type("Q")),
            param("body", plain_type("B")),
            param("path", plain_type("P")),
            param("state", plain_type("S")),
        ],
    );
    let a = multi_role(decl).unwrap();
    assert_eq!(a.handler_name, "f");
    assert_eq!(a.adapter_name, "f_api");
    assert_eq!(
        roles_of(&a),
        vec![
            ExtractionRole::QueryString,
            ExtractionRole::JsonBody,
            ExtractionRole::PathSegment,
            ExtractionRole::PassThrough
        ]
    );
    let names: Vec<&str> = a.bindings.iter().map(|b| b.name.as_str()).collect();
    assert_eq!(names, vec!["query", "body", "path", "state"]);
    let tys: Vec<&str> = a.bindings.iter().map(|b| b.ty.text.as_str()).collect();
    assert_eq!(tys, vec!["Q", "B", "P", "S"]);
}

#[test]
fn multi_role_leaves_data_alone() {
    let decl = handler("g", vec![param("data", plain_type("D"))]);
    let a = multi_role(decl).unwrap();
    assert_eq!(roles_of(&a), vec![ExtractionRole::PassThrough]);
}

#[test]
fn non_function_rejected_by_every_profile() {
    assert_eq!(body_handler(Declaration::Other), Err(GenError::NotAFunction));
    assert_eq!(query_handler(Declaration::Other), Err(GenError::NotAFunction));
    assert_eq!(multi_role(Declaration::Other), Err(GenError::NotAFunction));
}

#[test]
fn plain_named_return_rejected() {
    let decl = Declaration::Function(RawFunction {
        name: "f".to_string(),
        params: vec![param("data", plain_type("D"))],
        return_type: Some(named_type("String", "String", 0)),
    });
    assert_eq!(body_handler(decl.clone()), Err(GenError::InvalidReturnShape));
    assert_eq!(query_handler(decl.clone()), Err(GenError::InvalidReturnShape));
    assert_eq!(multi_role(decl), Err(GenError::InvalidReturnShape));
}

#[test]
fn unnamed_return_rejected() {
    let decl = Declaration::Function(RawFunction {
        name: "f".to_string(),
        params: vec![],
        return_type: Some(plain_type("(A, B)")),
    });
    assert_eq!(multi_role(decl), Err(GenError::InvalidReturnShape));
}

#[test]
fn missing_return_rejected() {
    let decl = Declaration::Function(RawFunction {
        name: "f".to_string(),
        params: vec![],
        return_type: None,
    });
    assert_eq!(multi_role(decl), Err(GenError::InvalidReturnShape));
}

#[test]
fn generic_result_return_accepted() {
    let decl = Declaration::Function(RawFunction {
        name: "f".to_string(),
        params: vec![],
        return_type: Some(named_type("Result<R, E>", "Result", 2)),
    });
    let a = multi_role(decl).unwrap();
    assert_eq!(a.bindings.len(), 0);
}

#[test]
fn non_identifier_binding_is_skipped_silently() {
    let decl = handler(
        "f",
        vec![
            RawParameter { pattern: Pattern::Other, ty: plain_type("(A, B)") },
            param("state", plain_type("S")),
        ],
    );
    let a = multi_role(decl).unwrap();
    assert_eq!(a.bindings.len(), 1);
    assert_eq!(a.bindings[0].name, "state");
}

#[test]
fn duplicate_special_names_each_keep_their_own_type() {
    let decl = handler(
        "f",
        vec![param("body", plain_type("First")), param("body", plain_type("Second"))],
    );
    let a = multi_role(decl).unwrap();
    assert_eq!(roles_of(&a), vec![ExtractionRole::JsonBody, ExtractionRole::JsonBody]);
    assert_eq!(a.bindings[0].ty.text, "First");
    assert_eq!(a.bindings[1].ty.text, "Second");
}
