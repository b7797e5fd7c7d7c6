//! The transformation engine: signature ingestion, name-driven parameter
//! classification, return-shape validation, and adapter synthesis, with
//! the spec-level model of each step that every contract refers to.

use vstd::prelude::*;
use vstd::string::StringExecFns;

use crate::ast::{
    AdapterModel, AdapterSpec, BindingModel, DeclModel, Declaration, ExtractionBinding,
    ExtractionRole, FnModel, FunctionDescriptor, GenError, ParamModel, ParameterDescriptor,
    Pattern, PatternModel, Profile, RawFunction, RawParamModel, ShapeModel, TypeDescriptor,
    TypeModel, TypeShape,
};

verus! {

// ---------------------------------------------------------------------
// The spec-level model of generation.
// ---------------------------------------------------------------------

/// The extraction role a profile assigns to a parameter name: the whole
/// naming convention of the tool.
pub open spec fn role_of(profile: Profile, name: Seq<char>) -> ExtractionRole {
    match profile {
        Profile::BodyBound => if name == "data"@ {
            ExtractionRole::JsonBody
        } else {
            ExtractionRole::PassThrough
        },
        Profile::QueryBound => if name == "data"@ {
            ExtractionRole::QueryString
        } else {
            ExtractionRole::PassThrough
        },
        Profile::MultiRole => if name == "query"@ {
            ExtractionRole::QueryString
        } else if name == "body"@ {
            ExtractionRole::JsonBody
        } else if name == "path"@ {
            ExtractionRole::PathSegment
        } else {
            ExtractionRole::PassThrough
        },
    }
}

/// Whether a declared parameter survives ingestion: only plain
/// identifier bindings do; any other pattern is skipped silently.
pub open spec fn keeps_param(p: RawParamModel) -> bool {
    p.pattern is Ident
}

/// The identifier of an identifier binding.
pub open spec fn pattern_ident_name(p: PatternModel) -> Seq<char> {
    match p {
        PatternModel::Ident { name } => name,
        PatternModel::Other => Seq::empty(),
    }
}

/// The descriptor a kept parameter turns into.
pub open spec fn descriptor_of(p: RawParamModel) -> ParamModel
    recommends
        keeps_param(p),
{
    ParamModel { name: pattern_ident_name(p.pattern), ty: p.ty }
}

/// The parameter list the ingestor produces: identifier-bound parameters
/// in declaration order, every other binding pattern dropped.
pub open spec fn ingested_params(ps: Seq<RawParamModel>) -> Seq<ParamModel>
    decreases ps.len(),
{
    if ps.len() == 0 {
        Seq::<ParamModel>::empty()
    } else if keeps_param(ps[0]) {
        seq![descriptor_of(ps[0])] + ingested_params(ps.drop_first())
    } else {
        ingested_params(ps.drop_first())
    }
}

/// What the ingestor produces for a declaration: a descriptor for a
/// function definition, `NotAFunction` for anything else.
pub open spec fn ingest_model(d: DeclModel) -> Result<FnModel, GenError> {
    match d {
        DeclModel::Function(f) => Ok(
            FnModel {
                name: f.name,
                parameters: ingested_params(f.params),
                return_type: f.return_type,
            },
        ),
        DeclModel::Other => Err(GenError::NotAFunction),
    }
}

/// Whether the declared return type passes the shape check: present, a
/// single named type reference, and carrying at least one type argument.
pub open spec fn return_shape_ok(rt: Option<TypeModel>) -> bool {
    match rt {
        Some(t) => match t.shape {
            ShapeModel::Named { head: _, type_args } => type_args >= 1,
            ShapeModel::Other => false,
        },
        None => false,
    }
}

/// The roles the classifier assigns, one per parameter, left to right.
/// Classification is total: no parameter list is rejected. It is driven
/// by name alone, so several parameters sharing one special name all
/// receive extraction wrappers, each over its own declared type — the
/// naming convention leaves such signatures to the author.
pub open spec fn roles_model(profile: Profile, fd: FnModel) -> Seq<ExtractionRole> {
    fd.parameters.map_values(|p: ParamModel| role_of(profile, p.name))
}

/// The binding a classified parameter turns into: the original name and
/// verbatim type, tagged with the assigned role.
pub open spec fn binding_model(role: ExtractionRole, p: ParamModel) -> BindingModel {
    BindingModel { name: p.name, ty: p.ty, role: role }
}

/// One binding per parameter, in original order.
pub open spec fn bindings_model(params: Seq<ParamModel>, roles: Seq<ExtractionRole>) -> Seq<
    BindingModel,
>
    recommends
        roles.len() == params.len(),
{
    Seq::new(params.len(), |i: int| binding_model(roles[i], params[i]))
}

/// The synthesized adapter: the handler's name with the fixed suffix
/// appended, and the bindings in the handler's parameter order.
pub open spec fn synth_model(fd: FnModel, roles: Seq<ExtractionRole>) -> AdapterModel {
    AdapterModel {
        handler_name: fd.name,
        adapter_name: fd.name + "_api"@,
        bindings: bindings_model(fd.parameters, roles),
    }
}

/// The whole generation pass: ingest, classify, validate, synthesize.
/// Either every step succeeds and an adapter is produced, or generation
/// aborts with a diagnostic and produces nothing.
pub open spec fn generate_model(profile: Profile, d: DeclModel) -> Result<AdapterModel, GenError> {
    match ingest_model(d) {
        Ok(fd) => if return_shape_ok(fd.return_type) {
            Ok(synth_model(fd, roles_model(profile, fd)))
        } else {
            Err(GenError::InvalidReturnShape)
        },
        Err(e) => Err(e),
    }
}

/// How an executable generation result corresponds to its model.
pub open spec fn generation_models(
    r: Result<AdapterSpec, GenError>,
    m: Result<AdapterModel, GenError>,
) -> bool {
    match r {
        Ok(a) => m == Ok::<AdapterModel, GenError>(a.deep_view()),
        Err(e) => m == Err::<AdapterModel, GenError>(e),
    }
}

// ---------------------------------------------------------------------
// The executable engine.
// ---------------------------------------------------------------------

/// The Parameter Classifier's rule for one name under one profile.
pub fn classify_name(profile: Profile, name: &String) -> (r: ExtractionRole)
    ensures
        r == role_of(profile, name@),
{
    match profile {
        Profile::BodyBound => {
            if *name == String::from_str("data") {
                ExtractionRole::JsonBody
            } else {
                ExtractionRole::PassThrough
            }
        },
        Profile::QueryBound => {
            if *name == String::from_str("data") {
                ExtractionRole::QueryString
            } else {
                ExtractionRole::PassThrough
            }
        },
        Profile::MultiRole => {
            if *name == String::from_str("query") {
                ExtractionRole::QueryString
            } else if *name == String::from_str("body") {
                ExtractionRole::JsonBody
            } else if *name == String::from_str("path") {
                ExtractionRole::PathSegment
            } else {
                ExtractionRole::PassThrough
            }
        },
    }
}

/// The Signature Ingestor: turns the annotated declaration into a
/// function descriptor, failing on anything that is not a function and
/// silently dropping parameters bound by anything but an identifier.
pub fn ingest(decl: Declaration) -> (r: Result<FunctionDescriptor, GenError>)
    ensures
        match r {
            Ok(fd) => ingest_model(decl.deep_view()) == Ok::<FnModel, GenError>(fd.deep_view()),
            Err(e) => ingest_model(decl.deep_view()) == Err::<FnModel, GenError>(e),
        },
{
    match decl {
        Declaration::Other => Err(GenError::NotAFunction),
        Declaration::Function(f) => {
            let RawFunction { name, params, return_type } = f;
            let mut params = params;
            let ghost orig: Seq<RawParamModel> = params.deep_view();
            let mut parameters: Vec<ParameterDescriptor> = Vec::new();
            while params.len() > 0
                invariant
                    ingested_params(orig) == parameters.deep_view() + ingested_params(
                        params.deep_view(),
                    ),
                decreases params.len(),
            {
                let ghost pre: Seq<RawParamModel> = params.deep_view();
                let ghost out_pre: Seq<ParamModel> = parameters.deep_view();
                let p = params.remove(0);
                proof {
                    assert(params.deep_view() =~= pre.drop_first());
                    assert(p.deep_view() == pre[0]);
                }
                match p.pattern {
                    Pattern::Ident { name: pname } => {
                        parameters.push(ParameterDescriptor { name: pname, ty: p.ty });
                        proof {
                            assert(parameters.deep_view() =~= out_pre.push(descriptor_of(pre[0])));
                            assert(ingested_params(pre) == seq![descriptor_of(pre[0])]
                                + ingested_params(pre.drop_first()));
                            assert(ingested_params(orig) =~= parameters.deep_view()
                                + ingested_params(params.deep_view()));
                        }
                    },
                    Pattern::Other => {
                        proof {
                            assert(parameters.deep_view() =~= out_pre);
                        }
                    },
                }
            }
            proof {
                assert(ingested_params(params.deep_view()) == Seq::<ParamModel>::empty());
                assert(parameters.deep_view() =~= ingested_params(orig));
            }
            Ok(FunctionDescriptor { name, parameters, return_type })
        },
    }
}

/// The Parameter Classifier: one role per parameter, left to right.
pub fn classify(profile: Profile, fd: &FunctionDescriptor) -> (r: Vec<ExtractionRole>)
    ensures
        r@ == roles_model(profile, fd.deep_view()),
{
    let mut roles: Vec<ExtractionRole> = Vec::new();
    let n = fd.parameters.len();
    let mut i: usize = 0;
    while i < n
        invariant
            n == fd.parameters@.len(),
            i <= n,
            roles@ =~= roles_model(profile, fd.deep_view()).take(i as int),
        decreases n - i,
    {
        let role = classify_name(profile, &fd.parameters[i].name);
        roles.push(role);
        proof {
            assert(roles@ =~= roles_model(profile, fd.deep_view()).take(i as int + 1));
        }
        i += 1;
    }
    proof {
        assert(roles@ =~= roles_model(profile, fd.deep_view()));
    }
    roles
}

/// The Return-Shape Validator: accepts exactly a present, named return
/// type carrying at least one type argument.
pub fn validate_return(rt: &Option<TypeDescriptor>) -> (r: bool)
    ensures
        r == return_shape_ok(rt.deep_view()),
{
    match rt {
        Some(t) => match &t.shape {
            TypeShape::Named { head: _, type_args } => *type_args >= 1,
            TypeShape::Other => false,
        },
        None => false,
    }
}

/// The Adapter Synthesizer: one binding per parameter in original order,
/// and the adapter's name formed from the handler's with the fixed
/// suffix, so the two never collide.
pub fn synthesize(fd: FunctionDescriptor, roles: &Vec<ExtractionRole>) -> (r: AdapterSpec)
    requires
        roles@.len() == fd.parameters@.len(),
    ensures
        r.deep_view() == synth_model(fd.deep_view(), roles@),
{
    let FunctionDescriptor { name, parameters, return_type: _ } = fd;
    let adapter_name = name.clone().concat("_api");
    let mut params = parameters;
    let ghost orig: Seq<ParamModel> = params.deep_view();
    let mut bindings: Vec<ExtractionBinding> = Vec::new();
    while params.len() > 0
        invariant
            roles@.len() == orig.len(),
            bindings@.len() + params@.len() == orig.len(),
            params.deep_view() =~= orig.skip(bindings@.len() as int),
            bindings.deep_view() =~= bindings_model(orig, roles@).take(bindings@.len() as int),
        decreases params.len(),
    {
        let ghost pre: Seq<ParamModel> = params.deep_view();
        let ghost out_pre: Seq<BindingModel> = bindings.deep_view();
        let ghost i: int = bindings@.len() as int;
        let idx = bindings.len();
        let p = params.remove(0);
        let role = roles[idx];
        proof {
            assert(params.deep_view() =~= pre.drop_first());
            assert(p.deep_view() == pre[0]);
            assert(pre[0] == orig[i]);
        }
        bindings.push(ExtractionBinding { name: p.name, ty: p.ty, role });
        proof {
            assert(bindings.deep_view() =~= out_pre.push(binding_model(roles@[i], orig[i])));
            assert(params.deep_view() =~= orig.skip(i + 1));
            assert(bindings.deep_view() =~= bindings_model(orig, roles@).take(i + 1));
        }
    }
    proof {
        assert(bindings.deep_view() =~= bindings_model(orig, roles@));
    }
    AdapterSpec { handler_name: name, adapter_name, bindings }
}

/// The whole generation pass under one profile. Succeeds, producing the
/// adapter specification, exactly when the declaration is a function
/// whose return type passes the shape check; aborts with the matching
/// diagnostic otherwise, producing nothing.
pub fn generate(profile: Profile, decl: Declaration) -> (r: Result<AdapterSpec, GenError>)
    ensures
        generation_models(r, generate_model(profile, decl.deep_view())),
{
    match ingest(decl) {
        Err(e) => Err(e),
        Ok(fd) => {
            let roles = classify(profile, &fd);
            if validate_return(&fd.return_type) {
                Ok(synthesize(fd, &roles))
            } else {
                Err(GenError::InvalidReturnShape)
            }
        },
    }
}

/// The body-bound profile: a parameter named `data` is bound to the JSON
/// request body; every other parameter passes through.
pub fn body_handler(decl: Declaration) -> (r: Result<AdapterSpec, GenError>)
    ensures
        generation_models(r, generate_model(Profile::BodyBound, decl.deep_view())),
{
    generate(Profile::BodyBound, decl)
}

/// The query-bound profile: a parameter named `data` is bound to the URL
/// query string; every other parameter passes through.
pub fn query_handler(decl: Declaration) -> (r: Result<AdapterSpec, GenError>)
    ensures
        generation_models(r, generate_model(Profile::QueryBound, decl.deep_view())),
{
    generate(Profile::QueryBound, decl)
}

/// The multi-role profile: parameters named `query`, `body` and `path`
/// are bound to the query string, the JSON body and the path segments;
/// every other parameter passes through.
pub fn type_handler(decl: Declaration) -> (r: Result<AdapterSpec, GenError>)
    ensures
        generation_models(r, generate_model(Profile::MultiRole, decl.deep_view())),
{
    generate(Profile::MultiRole, decl)
}

} // verus!
