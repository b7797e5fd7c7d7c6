//! The data model: declarations as the engine receives them, function
//! descriptors as the ingestor produces them, and the adapter
//! specification the synthesizer emits, together with their
//! mathematical views.

use vstd::prelude::*;

verus! {

/// How a parameter's runtime value is obtained from an incoming request.
#[derive(Debug, Clone, Copy, PartialEq, Eq, Structural)]
pub enum ExtractionRole {
    /// Forwarded unchanged; its declared type must already match what the
    /// routing layer supplies.
    PassThrough,
    /// Deserialized from the full JSON request body.
    JsonBody,
    /// Deserialized from the URL query string.
    QueryString,
    /// Deserialized from the routed path segments.
    PathSegment,
}

/// One of the three supported annotation variants, each with its own
/// parameter-naming convention.
#[derive(Debug, Clone, Copy, PartialEq, Eq, Structural)]
pub enum Profile {
    /// A parameter named `data` is bound to the JSON body.
    BodyBound,
    /// A parameter named `data` is bound to the query string.
    QueryBound,
    /// Parameters named `query`, `body` and `path` are bound to the query
    /// string, the JSON body and the path segments respectively.
    MultiRole,
}

/// The two generation-time failures; both abort generation with no output.
#[derive(Debug, Clone, Copy, PartialEq, Eq, Structural)]
pub enum GenError {
    /// The annotated declaration is not a function.
    NotAFunction,
    /// The return type is missing or not a named generic type reference.
    InvalidReturnShape,
}

/// The shape of a type expression, to the one depth the engine inspects:
/// is it a single named path type, and how many type arguments does its
/// head carry?
#[derive(Debug, Clone, PartialEq, Eq)]
pub enum TypeShape {
    /// A named path type: the head identifier and the number of generic
    /// type arguments attached to it.
    Named { head: String, type_args: u64 },
    /// Any other type expression.
    Other,
}

/// An opaque reference to a type expression: its verbatim source text,
/// copied unchanged into the adapter, and its shape.
#[derive(Debug, Clone, PartialEq, Eq)]
pub struct TypeDescriptor {
    pub text: String,
    pub shape: TypeShape,
}

/// The binding pattern of one declared parameter.
#[derive(Debug, Clone, PartialEq, Eq)]
pub enum Pattern {
    /// A plain identifier binding.
    Ident { name: String },
    /// Any other binding pattern; such parameters are skipped silently.
    Other,
}

/// One parameter of the annotated declaration, as written.
#[derive(Debug, Clone, PartialEq, Eq)]
pub struct RawParameter {
    pub pattern: Pattern,
    pub ty: TypeDescriptor,
}

/// The annotated function declaration, as written.
#[derive(Debug, Clone, PartialEq, Eq)]
pub struct RawFunction {
    pub name: String,
    pub params: Vec<RawParameter>,
    pub return_type: Option<TypeDescriptor>,
}

/// The annotated top-level declaration handed to a profile entry point.
#[derive(Debug, Clone, PartialEq, Eq)]
pub enum Declaration {
    Function(RawFunction),
    /// Any declaration that is not a function definition.
    Other,
}

/// One parameter of the ingested function: an identifier and its type.
#[derive(Debug, Clone, PartialEq, Eq)]
pub struct ParameterDescriptor {
    pub name: String,
    pub ty: TypeDescriptor,
}

/// The ingested function: name, parameters in declaration order, and
/// declared return type, if any. Parameter names are expected to be
/// unique, but the engine never checks them against each other: they
/// are only matched against the fixed signal names.
#[derive(Debug, Clone, PartialEq, Eq)]
pub struct FunctionDescriptor {
    pub name: String,
    pub parameters: Vec<ParameterDescriptor>,
    pub return_type: Option<TypeDescriptor>,
}

/// One parameter of the synthesized adapter: the original parameter's
/// name and verbatim type, and the extraction role assigned to it.
#[derive(Debug, Clone, PartialEq, Eq)]
pub struct ExtractionBinding {
    pub name: String,
    pub ty: TypeDescriptor,
    pub role: ExtractionRole,
}

/// The synthesis result: the adapter's name, the handler it calls, and
/// one binding per original parameter, in original order.
#[derive(Debug, Clone, PartialEq, Eq)]
pub struct AdapterSpec {
    pub handler_name: String,
    pub adapter_name: String,
    pub bindings: Vec<ExtractionBinding>,
}

// ---------------------------------------------------------------------
// Mathematical views of the model, used by all contracts.
// ---------------------------------------------------------------------

/// View of `TypeShape`.
pub enum ShapeModel {
    Named { head: Seq<char>, type_args: u64 },
    Other,
}

/// View of `TypeDescriptor`.
pub struct TypeModel {
    pub text: Seq<char>,
    pub shape: ShapeModel,
}

/// View of `Pattern`.
pub enum PatternModel {
    Ident { name: Seq<char> },
    Other,
}

/// View of `RawParameter`.
pub struct RawParamModel {
    pub pattern: PatternModel,
    pub ty: TypeModel,
}

/// View of `RawFunction`.
pub struct RawFnModel {
    pub name: Seq<char>,
    pub params: Seq<RawParamModel>,
    pub return_type: Option<TypeModel>,
}

/// View of `Declaration`.
pub enum DeclModel {
    Function(RawFnModel),
    Other,
}

/// View of `ParameterDescriptor`.
pub struct ParamModel {
    pub name: Seq<char>,
    pub ty: TypeModel,
}

/// View of `FunctionDescriptor`.
pub struct FnModel {
    pub name: Seq<char>,
    pub parameters: Seq<ParamModel>,
    pub return_type: Option<TypeModel>,
}

/// View of `ExtractionBinding`.
pub struct BindingModel {
    pub name: Seq<char>,
    pub ty: TypeModel,
    pub role: ExtractionRole,
}

/// View of `AdapterSpec`.
pub struct AdapterModel {
    pub handler_name: Seq<char>,
    pub adapter_name: Seq<char>,
    pub bindings: Seq<BindingModel>,
}

impl DeepView for TypeShape {
    type V = ShapeModel;

    open spec fn deep_view(&self) -> ShapeModel {
        match self {
            TypeShape::Named { head, type_args } => (ShapeModel::Named {
                head: head.deep_view(),
                type_args: *type_args,
            }),
            TypeShape::Other => ShapeModel::Other,
        }
    }
}

impl DeepView for TypeDescriptor {
    type V = TypeModel;

    open spec fn deep_view(&self) -> TypeModel {
        TypeModel { text: self.text.deep_view(), shape: self.shape.deep_view() }
    }
}

impl DeepView for Pattern {
    type V = PatternModel;

    open spec fn deep_view(&self) -> PatternModel {
        match self {
            Pattern::Ident { name } => (PatternModel::Ident { name: name.deep_view() }),
            Pattern::Other => PatternModel::Other,
        }
    }
}

impl DeepView for RawParameter {
    type V = RawParamModel;

    open spec fn deep_view(&self) -> RawParamModel {
        RawParamModel { pattern: self.pattern.deep_view(), ty: self.ty.deep_view() }
    }
}

impl DeepView for RawFunction {
    type V = RawFnModel;

    open spec fn deep_view(&self) -> RawFnModel {
        RawFnModel {
            name: self.name.deep_view(),
            params: self.params.deep_view(),
            return_type: self.return_type.deep_view(),
        }
    }
}

impl DeepView for Declaration {
    type V = DeclModel;

    open spec fn deep_view(&self) -> DeclModel {
        match self {
            Declaration::Function(f) => DeclModel::Function(f.deep_view()),
            Declaration::Other => DeclModel::Other,
        }
    }
}

impl DeepView for ParameterDescriptor {
    type V = ParamModel;

    open spec fn deep_view(&self) -> ParamModel {
        ParamModel { name: self.name.deep_view(), ty: self.ty.deep_view() }
    }
}

impl DeepView for FunctionDescriptor {
    type V = FnModel;

    open spec fn deep_view(&self) -> FnModel {
        FnModel {
            name: self.name.deep_view(),
            parameters: self.parameters.deep_view(),
            return_type: self.return_type.deep_view(),
        }
    }
}

impl DeepView for ExtractionBinding {
    type V = BindingModel;

    open spec fn deep_view(&self) -> BindingModel {
        BindingModel {
            name: self.name.deep_view(),
            ty: self.ty.deep_view(),
            role: self.role,
        }
    }
}

impl DeepView for AdapterSpec {
    type V = AdapterModel;

    open spec fn deep_view(&self) -> AdapterModel {
        AdapterModel {
            handler_name: self.handler_name.deep_view(),
            adapter_name: self.adapter_name.deep_view(),
            bindings: self.bindings.deep_view(),
        }
    }
}

} // verus!
