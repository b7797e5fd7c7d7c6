//! The engine's governing laws, each proved once and for all inputs:
//! what each profile binds, what the synthesizer preserves, and exactly
//! when generation aborts.

use vstd::prelude::*;

use crate::ast::{
    AdapterModel, BindingModel, DeclModel, ExtractionRole, FnModel, GenError, Profile, RawFnModel,
};
use crate::engine::{
    generate_model, return_shape_ok, role_of, roles_model, synth_model,
};
use crate::render::{args_text, argument_text, joined, lemma_joined_push, wrapper_text};

verus! {

/// The synthesized adapter mirrors the handler's parameter list one for
/// one: same count, same order, same names, same verbatim types.
pub proof fn law_arguments_preserved(profile: Profile, fd: FnModel)
    ensures
        ({
            let a = synth_model(fd, roles_model(profile, fd));
            &&& a.bindings.len() == fd.parameters.len()
            &&& forall|i: int|
                0 <= i < fd.parameters.len() ==> (#[trigger] a.bindings[i]).name
                    == fd.parameters[i].name && a.bindings[i].ty == fd.parameters[i].ty
        }),
{
}

/// The adapter's name is the handler's with the fixed suffix appended,
/// so it never collides with the handler's own name.
pub proof fn law_adapter_name_never_collides(profile: Profile, fd: FnModel)
    ensures
        ({
            let a = synth_model(fd, roles_model(profile, fd));
            &&& a.adapter_name == fd.name + "_api"@
            &&& a.adapter_name != fd.name
            &&& a.handler_name == fd.name
        }),
{
    reveal_strlit("_api");
    assert((fd.name + "_api"@).len() == fd.name.len() + 4);
}

/// Under the body-bound profile, a parameter named `data` of declared
/// type `T` becomes a JSON-body binding: the adapter declares it as the
/// JSON container of `T` and forwards the unwrapped inner value as that
/// argument.
pub proof fn law_body_bound_data(fd: FnModel, i: int)
    requires
        0 <= i < fd.parameters.len(),
        fd.parameters[i].name == "data"@,
    ensures
        ({
            let b = synth_model(fd, roles_model(Profile::BodyBound, fd)).bindings[i];
            &&& b.role == ExtractionRole::JsonBody
            &&& b.name == fd.parameters[i].name
            &&& b.ty == fd.parameters[i].ty
            &&& wrapper_text(b) == b.name + ": actix_web::web::Json<"@ + fd.parameters[i].ty.text
                + ">"@
            &&& argument_text(b) == b.name + ".into_inner()"@
        }),
{
}

/// Under the query-bound profile, the same parameter named `data` is
/// instead bound to the query string: the adapter declares it as the
/// query container of `T` and forwards the destructured value itself.
pub proof fn law_query_bound_data(fd: FnModel, i: int)
    requires
        0 <= i < fd.parameters.len(),
        fd.parameters[i].name == "data"@,
    ensures
        ({
            let b = synth_model(fd, roles_model(Profile::QueryBound, fd)).bindings[i];
            &&& b.role == ExtractionRole::QueryString
            &&& b.name == fd.parameters[i].name
            &&& b.ty == fd.parameters[i].ty
            &&& wrapper_text(b) == "actix_web::web::Query("@ + b.name
                + "): actix_web::web::Query<"@ + fd.parameters[i].ty.text + ">"@
            &&& argument_text(b) == b.name
        }),
{
}

/// Under the multi-role profile, a handler
/// `f(query: Q, body: B, path: P, state: S)` yields an adapter that
/// binds `query` from the query string, `body` from the JSON body,
/// `path` from the path segments, forwards `state` unchanged, and calls
/// the handler with those four arguments in the original order.
pub proof fn law_multi_role_binding_order(fd: FnModel)
    requires
        fd.parameters.len() == 4,
        fd.parameters[0].name == "query"@,
        fd.parameters[1].name == "body"@,
        fd.parameters[2].name == "path"@,
        fd.parameters[3].name == "state"@,
    ensures
        ({
            let a = synth_model(fd, roles_model(Profile::MultiRole, fd));
            &&& a.bindings.len() == 4
            &&& a.bindings[0].role == ExtractionRole::QueryString
            &&& a.bindings[1].role == ExtractionRole::JsonBody
            &&& a.bindings[2].role == ExtractionRole::PathSegment
            &&& a.bindings[3].role == ExtractionRole::PassThrough
            &&& forall|i: int|
                0 <= i < 4 ==> (#[trigger] a.bindings[i]).name == fd.parameters[i].name
                    && a.bindings[i].ty == fd.parameters[i].ty
            &&& argument_text(a.bindings[0]) == "query"@
            &&& argument_text(a.bindings[1]) == "body"@ + ".into_inner()"@
            &&& argument_text(a.bindings[2]) == "path"@ + ".into_inner()"@
            &&& argument_text(a.bindings[3]) == "state"@
            &&& args_text(a.bindings) == "query"@ + ", "@ + ("body"@ + ".into_inner()"@) + ", "@
                + ("path"@ + ".into_inner()"@) + ", "@ + "state"@
        }),
{
    reveal_strlit("query");
    reveal_strlit("body");
    reveal_strlit("path");
    reveal_strlit("state");
    let roles = roles_model(Profile::MultiRole, fd);
    assert("state"@[0] == 's' && "query"@[0] == 'q' && "body"@[0] == 'b' && "path"@[0] == 'p');
    assert("state"@ != "query"@ && "state"@ != "body"@ && "state"@ != "path"@);
    assert(roles[0] == role_of(Profile::MultiRole, fd.parameters[0].name));
    assert(roles[1] == role_of(Profile::MultiRole, fd.parameters[1].name));
    assert(roles[2] == role_of(Profile::MultiRole, fd.parameters[2].name));
    assert(roles[3] == role_of(Profile::MultiRole, fd.parameters[3].name));
    assert(roles[3] == ExtractionRole::PassThrough);
    let a = synth_model(fd, roles);
    let sep = ", "@;
    let t0 = argument_text(a.bindings[0]);
    let t1 = argument_text(a.bindings[1]);
    let t2 = argument_text(a.bindings[2]);
    let t3 = argument_text(a.bindings[3]);
    let texts = a.bindings.map_values(|b: BindingModel| argument_text(b));
    assert(texts =~= seq![t0].push(t1).push(t2).push(t3));
    assert(joined(seq![t0], sep) == t0);
    lemma_joined_push(seq![t0], sep, t1);
    lemma_joined_push(seq![t0].push(t1), sep, t2);
    lemma_joined_push(seq![t0].push(t1).push(t2), sep, t3);
    assert(args_text(a.bindings) == t0 + sep + t1 + sep + t2 + sep + t3);
    assert(t0 + sep + t1 + sep + t2 + sep + t3 =~= "query"@ + ", "@ + ("body"@
        + ".into_inner()"@) + ", "@ + ("path"@ + ".into_inner()"@) + ", "@ + "state"@);
}

/// Applying any profile to a declaration that is not a function aborts
/// with `NotAFunction` and emits nothing.
pub proof fn law_non_function_rejected(profile: Profile)
    ensures
        generate_model(profile, DeclModel::Other) == Err::<AdapterModel, GenError>(
            GenError::NotAFunction,
        ),
{
}

/// Applying any profile to a function whose declared return type is
/// missing, unnamed, or named without a type argument aborts with
/// `InvalidReturnShape` and emits nothing.
pub proof fn law_invalid_return_rejected(profile: Profile, f: RawFnModel)
    requires
        !return_shape_ok(f.return_type),
    ensures
        generate_model(profile, DeclModel::Function(f)) == Err::<AdapterModel, GenError>(
            GenError::InvalidReturnShape,
        ),
{
}

/// Generation succeeds exactly when the declaration is a function whose
/// return type passes the shape check; no profile rejects any parameter
/// list.
pub proof fn law_success_condition(profile: Profile, d: DeclModel)
    ensures
        generate_model(profile, d) is Ok <==> (d matches DeclModel::Function(f)
            && return_shape_ok(f.return_type)),
{
}

/// A parameter not named by the active profile's convention always
/// passes through unchanged, whatever its type.
pub proof fn law_other_names_pass_through(profile: Profile, name: Seq<char>)
    requires
        name != "data"@,
        name != "query"@,
        name != "body"@,
        name != "path"@,
    ensures
        role_of(profile, name) == ExtractionRole::PassThrough,
{
}

} // verus!
