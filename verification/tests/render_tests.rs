use type_handler::ast::{
    Declaration, Pattern, RawFunction, RawParameter, TypeDescriptor, TypeShape,
};
use type_handler::engine::{body_handler, query_handler, type_handler as multi_role};
use type_handler::render::{render_adapter, render_expansion};

fn param(name: &str, text: &str) -> RawParameter {
    RawParameter {
        pattern: Pattern::Ident { name: name.to_string() },
        ty: TypeDescriptor { text: text.to_string(), shape: TypeShape::Other },
    }
}

fn handler(name: &str, params: Vec<RawParameter>) -> Declaration {
    Declaration::Function(RawFunction {
        name: name.to_string(),
        params,
        return_type: Some(TypeDescriptor {
            text: "Result<Reply, ApiError>".to_string(),
            shape: TypeShape::Named { head: "Result".to_string(), type_args: 2 },
        }),
    })
}

const OUTCOME_BODY: &str = ").await {\n        Ok(d) => {\n            let res = ApiResponse { message: \"\".to_string(), data: d };\n            actix_web::HttpResponse::Ok().json(res)\n        }\n        Err(e) => { e.error_response() }\n    }\n}\n";

#[test]
fn renders_multi_role_adapter_exactly() {
    let decl = handler(
        "f",
        vec![param("query", "Q"), param("body", "B"), param("path", "P"), param("state", "S")],
    );
    let a = multi_role(decl).unwrap();
    let expected = format!(
        "pub async fn f_api(\
         actix_web::web::Query(query): actix_web::web::Query<Q>, \
         body: actix_web::web::Json<B>, \
         path: actix_web::web::Path<P>, \
         state: S) -> impl actix_web::Responder {{\n    \
         match f(query, body.into_inner(), path.into_inner(), state{}",
        OUTCOME_BODY
    );
    assert_eq!(render_adapter(&a), expected);
}

#[test]
fn renders_body_bound_adapter_exactly() {
    let decl = handler("create", vec![param("data", "NewUser"), param("state", "AppState")]);
    let a = body_handler(decl).unwrap();
    let expected = format!(
        "pub async fn create_api(\
         data: actix_web::web::Json<NewUser>, \
         state: AppState) -> impl actix_web::Responder {{\n    \
         match create(data.into_inner(), state{}",
        OUTCOME_BODY
    );
    assert_eq!(render_adapter(&a), expected);
}

#[test]
fn renders_query_bound_adapter_exactly() {
    let decl = handler("search", vec![param("data", "Filter")]);
    let a = query_handler(decl).unwrap();
    let expected = format!(
        "pub async fn search_api(\
         actix_web::web::Query(data): actix_web::web::Query<Filter>) \
         -> impl actix_web::Responder {{\n    \
         match search(data{}",
        OUTCOME_BODY
    );
    assert_eq!(render_adapter(&a), expected);
}

#[test]
fn renders_adapter_with_no_parameters() {
    let decl = handler("ping", vec![]);
    let a = multi_role(decl).unwrap();
    let expected = format!(
        "pub async fn ping_api() -> impl actix_web::Responder {{\n    match ping({}",
        OUTCOME_BODY
    );
    assert_eq!(render_adapter(&a), expected);
}

#[test]
fn expansion_preserves_original_verbatim() {
    let source = "async fn ping() -> Result<Reply, ApiError> { todo() }";
    let decl = handler("ping", vec![]);
    let a = multi_role(decl).unwrap();
    let out = render_expansion(source, &a);
    assert!(out.starts_with(source));
    assert_eq!(out, format!("{}\n\n{}", source, render_adapter(&a)));
}
