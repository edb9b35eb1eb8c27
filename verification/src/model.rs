//! The resolved object model that code generation consumes: API objects,
//! their fields, the paths and operations that touch each object, and the
//! parameters each operation requires.

use vstd::prelude::*;

verus! {

// ------------------------------------------------------------------
// HTTP methods.
// ------------------------------------------------------------------

#[derive(Clone, Copy, Debug, PartialEq, Eq, Structural)]
pub enum HttpMethod {
    Get,
    Put,
    Post,
    Delete,
    Options,
    Head,
    Patch,
}

impl HttpMethod {
    /// The method's name as it appears in generated type names.
    pub open spec fn spec_token(self) -> Seq<char> {
        match self {
            HttpMethod::Get => "Get"@,
            HttpMethod::Put => "Put"@,
            HttpMethod::Post => "Post"@,
            HttpMethod::Delete => "Delete"@,
            HttpMethod::Options => "Options"@,
            HttpMethod::Head => "Head"@,
            HttpMethod::Patch => "Patch"@,
        }
    }

    /// The method's name in upper case, as used in request dispatch.
    pub open spec fn spec_upper_token(self) -> Seq<char> {
        match self {
            HttpMethod::Get => "GET"@,
            HttpMethod::Put => "PUT"@,
            HttpMethod::Post => "POST"@,
            HttpMethod::Delete => "DELETE"@,
            HttpMethod::Options => "OPTIONS"@,
            HttpMethod::Head => "HEAD"@,
            HttpMethod::Patch => "PATCH"@,
        }
    }

    /// The method's name in lower case, as used in constructor names.
    pub open spec fn spec_lower_token(self) -> Seq<char> {
        match self {
            HttpMethod::Get => "get"@,
            HttpMethod::Put => "put"@,
            HttpMethod::Post => "post"@,
            HttpMethod::Delete => "delete"@,
            HttpMethod::Options => "options"@,
            HttpMethod::Head => "head"@,
            HttpMethod::Patch => "patch"@,
        }
    }

    pub fn token(self) -> (r: &'static str)
        ensures
            r@ == self.spec_token(),
    {
        match self {
            HttpMethod::Get => "Get",
            HttpMethod::Put => "Put",
            HttpMethod::Post => "Post",
            HttpMethod::Delete => "Delete",
            HttpMethod::Options => "Options",
            HttpMethod::Head => "Head",
            HttpMethod::Patch => "Patch",
        }
    }

    pub fn upper_token(self) -> (r: &'static str)
        ensures
            r@ == self.spec_upper_token(),
    {
        match self {
            HttpMethod::Get => "GET",
            HttpMethod::Put => "PUT",
            HttpMethod::Post => "POST",
            HttpMethod::Delete => "DELETE",
            HttpMethod::Options => "OPTIONS",
            HttpMethod::Head => "HEAD",
            HttpMethod::Patch => "PATCH",
        }
    }

    pub fn lower_token(self) -> (r: &'static str)
        ensures
            r@ == self.spec_lower_token(),
    {
        match self {
            HttpMethod::Get => "get",
            HttpMethod::Put => "put",
            HttpMethod::Post => "post",
            HttpMethod::Delete => "delete",
            HttpMethod::Options => "options",
            HttpMethod::Head => "head",
            HttpMethod::Patch => "patch",
        }
    }
}

// ------------------------------------------------------------------
// Parameter locations.
// ------------------------------------------------------------------

/// Where a parameter lives: a closed set of out-of-band placements.
#[derive(Clone, Copy, Debug, PartialEq, Eq, Structural)]
pub enum ParameterIn {
    Path,
    Query,
    Header,
    Body,
    FormData,
}

// ------------------------------------------------------------------
// Declared types.
// ------------------------------------------------------------------

/// One container layer of a declared type.
#[derive(Clone, Copy, Debug, PartialEq, Eq, Structural)]
pub enum Wrap {
    /// A sequence of the inner type.
    Sequence,
    /// An ordered mapping from strings to the inner type.
    Mapping,
}

/// A declared type, decomposed structurally: zero or more container
/// layers (outermost first) around a leaf type name.
#[derive(Debug)]
pub struct TypeDesc {
    pub wraps: Vec<Wrap>,
    pub leaf: String,
}

#[verifier::ext_equal]
pub struct TypeDescV {
    pub wraps: Seq<Wrap>,
    pub leaf: Seq<char>,
}

impl View for TypeDesc {
    type V = TypeDescV;

    open spec fn view(&self) -> TypeDescV {
        TypeDescV { wraps: self.wraps@, leaf: self.leaf@ }
    }
}

pub(crate) fn clone_wraps(v: &Vec<Wrap>) -> (r: Vec<Wrap>)
    ensures
        r@ == v@,
{
    let mut r: Vec<Wrap> = Vec::new();
    let mut i: usize = 0;
    while i < v.len()
        invariant
            i <= v.len(),
            r@ == v@.take(i as int),
        decreases v.len() - i,
    {
        r.push(v[i]);
        assert(r@ =~= v@.take(i + 1));
        i = i + 1;
    }
    assert(r@ =~= v@);
    r
}

impl Clone for TypeDesc {
    fn clone(&self) -> (r: Self)
        ensures
            r@ == self@,
    {
        TypeDesc { wraps: clone_wraps(&self.wraps), leaf: self.leaf.clone() }
    }
}

// ------------------------------------------------------------------
// Helper views.
// ------------------------------------------------------------------

pub open spec fn opt_str_view(o: Option<String>) -> Option<Seq<char>> {
    match o {
        Some(s) => Some(s@),
        None => None,
    }
}

pub open spec fn strings_view(v: Seq<String>) -> Seq<Seq<char>> {
    v.map_values(|s: String| s@)
}

pub(crate) fn clone_opt_str(o: &Option<String>) -> (r: Option<String>)
    ensures
        opt_str_view(r) == opt_str_view(*o),
{
    match o {
        Some(s) => Some(s.clone()),
        None => None,
    }
}

pub(crate) fn clone_strings(v: &Vec<String>) -> (r: Vec<String>)
    ensures
        strings_view(r@) == strings_view(v@),
{
    let mut r: Vec<String> = Vec::new();
    let mut i: usize = 0;
    while i < v.len()
        invariant
            i <= v.len(),
            strings_view(r@) == strings_view(v@.take(i as int)),
        decreases v.len() - i,
    {
        r.push(v[i].clone());
        proof {
            assert(v@.take(i + 1) =~= v@.take(i as int).push(v@[i as int]));
            assert(strings_view(v@.take(i as int).push(v@[i as int]))
                =~= strings_view(v@.take(i as int)).push(v@[i as int]@));
            assert(strings_view(r@) =~= strings_view(v@.take(i as int)).push(v@[i as int]@));
        }
        i = i + 1;
    }
    assert(v@.take(v@.len() as int) =~= v@);
    r
}

// ------------------------------------------------------------------
// Parameters.
// ------------------------------------------------------------------


/// Represents some parameter somewhere (header, path, query, etc.).
#[derive(Debug)]
pub struct Parameter {
    /// Name of the parameter.
    pub name: String,
    /// Description of this parameter (if any), to be used for docs.
    pub description: Option<String>,
    /// Declared type of the parameter.
    pub ty: TypeDesc,
    /// Whether this parameter is required.
    pub required: bool,
    /// Where the parameter lives.
    pub presence: ParameterIn,
}

#[verifier::ext_equal]
pub struct ParameterV {
    pub name: Seq<char>,
    pub description: Option<Seq<char>>,
    pub ty: TypeDescV,
    pub required: bool,
    pub presence: ParameterIn,
}

impl View for Parameter {
    type V = ParameterV;

    open spec fn view(&self) -> ParameterV {
        ParameterV {
            name: self.name@,
            description: opt_str_view(self.description),
            ty: self.ty@,
            required: self.required,
            presence: self.presence,
        }
    }
}

pub open spec fn params_view(s: Seq<Parameter>) -> Seq<ParameterV> {
    s.map_values(|p: Parameter| p@)
}

// ------------------------------------------------------------------
// Object fields.
// ------------------------------------------------------------------

/// Represents a field of an API object.
#[derive(Debug)]
pub struct ObjectField {
    /// Name of the field.
    pub name: String,
    /// Declared type of the field.
    pub ty: TypeDesc,
    /// Description of this field (if any), to be used for docs.
    pub description: Option<String>,
    /// Whether this field is required (i.e., not optional).
    pub is_required: bool,
    /// Whether this field should be heap-indirected in the emitted record.
    pub boxed: bool,
    /// Names of the required fields of the deepest element type of this
    /// field, when that element type is itself a generated object. A field
    /// with a non-empty list can only be set from an already-finalized
    /// builder of that object.
    pub children_req: Vec<String>,
}

#[verifier::ext_equal]
pub struct ObjectFieldV {
    pub name: Seq<char>,
    pub ty: TypeDescV,
    pub description: Option<Seq<char>>,
    pub is_required: bool,
    pub boxed: bool,
    pub children_req: Seq<Seq<char>>,
}

impl View for ObjectField {
    type V = ObjectFieldV;

    open spec fn view(&self) -> ObjectFieldV {
        ObjectFieldV {
            name: self.name@,
            ty: self.ty@,
            description: opt_str_view(self.description),
            is_required: self.is_required,
            boxed: self.boxed,
            children_req: strings_view(self.children_req@),
        }
    }
}

pub open spec fn fields_view(s: Seq<ObjectField>) -> Seq<ObjectFieldV> {
    s.map_values(|f: ObjectField| f@)
}

// ------------------------------------------------------------------
// Operations.
// ------------------------------------------------------------------

/// Requirement for an object corresponding to some operation.
#[derive(Debug)]
pub struct OpRequirement {
    /// Operation identifier, if the description provides one.
    pub id: Option<String>,
    /// Description of this operation (if any), to be used for docs.
    pub description: Option<String>,
    /// Parameters required for this operation.
    pub params: Vec<Parameter>,
    /// Whether the object itself is required (in body) for this operation.
    pub body_required: bool,
    /// Type path for this operation's response.
    pub response_ty_path: Option<String>,
}

#[verifier::ext_equal]
pub struct OpRequirementV {
    pub id: Option<Seq<char>>,
    pub description: Option<Seq<char>>,
    pub params: Seq<ParameterV>,
    pub body_required: bool,
    pub response_ty_path: Option<Seq<char>>,
}

impl View for OpRequirement {
    type V = OpRequirementV;

    open spec fn view(&self) -> OpRequirementV {
        OpRequirementV {
            id: opt_str_view(self.id),
            description: opt_str_view(self.description),
            params: params_view(self.params@),
            body_required: self.body_required,
            response_ty_path: opt_str_view(self.response_ty_path),
        }
    }
}

// ------------------------------------------------------------------
// Paths.
// ------------------------------------------------------------------

/// Operations in a path.
#[derive(Debug)]
pub struct PathOps {
    /// Operations for this object and their associated requirements,
    /// keyed by distinct HTTP methods.
    pub req: Vec<(HttpMethod, OpRequirement)>,
    /// Parameters required for all operations in this path.
    pub params: Vec<Parameter>,
}

#[verifier::ext_equal]
pub struct PathOpsV {
    pub req: Seq<(HttpMethod, OpRequirementV)>,
    pub params: Seq<ParameterV>,
}

impl View for PathOps {
    type V = PathOpsV;

    open spec fn view(&self) -> PathOpsV {
        PathOpsV {
            req: self.req@.map_values(|kv: (HttpMethod, OpRequirement)| (kv.0, kv.1@)),
            params: params_view(self.params@),
        }
    }
}

impl Default for PathOps {
    fn default() -> (r: Self)
        ensures
            r@.req.len() == 0,
            r@.params.len() == 0,
    {
        PathOps { req: Vec::new(), params: Vec::new() }
    }
}

impl PathOps {
    /// Well-formed when no two operations share an HTTP method.
    pub open spec fn wf(self) -> bool {
        forall|i: int, j: int|
            0 <= i < j < self@.req.len() ==> self@.req[i].0 != self@.req[j].0
    }
}

// ------------------------------------------------------------------
// API objects.
// ------------------------------------------------------------------

/// Represents one (simplified) generated record type.
#[derive(Debug)]
pub struct ApiObject {
    /// Name of the object (camel-cased).
    pub name: String,
    /// Description for this object (if any), to be used for docs.
    pub description: Option<String>,
    /// Path to this object from the generated root module.
    pub path: String,
    /// List of fields.
    pub fields: Vec<ObjectField>,
    /// Paths with operations which address this object, keyed by
    /// distinct path templates.
    pub paths: Vec<(String, PathOps)>,
}

#[verifier::ext_equal]
pub struct ApiObjectV {
    pub name: Seq<char>,
    pub description: Option<Seq<char>>,
    pub path: Seq<char>,
    pub fields: Seq<ObjectFieldV>,
    pub paths: Seq<(Seq<char>, PathOpsV)>,
}

impl View for ApiObject {
    type V = ApiObjectV;

    open spec fn view(&self) -> ApiObjectV {
        ApiObjectV {
            name: self.name@,
            description: opt_str_view(self.description),
            path: self.path@,
            fields: fields_view(self.fields@),
            paths: self.paths@.map_values(|kv: (String, PathOps)| (kv.0@, kv.1@)),
        }
    }
}

impl ApiObject {
    /// Create an object with the given name.
    pub fn with_name(name: String) -> (r: Self)
        ensures
            r@.name == name@,
            r@.description == Option::<Seq<char>>::None,
            r@.path == Seq::<char>::empty(),
            r@.fields =~= Seq::<ObjectFieldV>::empty(),
            r@.paths =~= Seq::<(Seq<char>, PathOpsV)>::empty(),
    {
        let r = ApiObject {
            // Even though it's empty, it'll be replaced by the emitter.
            path: String::new(),
            description: None,
            name,
            fields: Vec::new(),
            paths: Vec::new(),
        };
        assert(r@.path =~= Seq::<char>::empty());
        r
    }

    /// Well-formed when field names are distinct, path templates are
    /// distinct, and each path's operations use distinct methods.
    pub open spec fn wf(self) -> bool {
        &&& forall|i: int, j: int|
            0 <= i < j < self@.fields.len() ==> self@.fields[i].name != self@.fields[j].name
        &&& forall|i: int, j: int|
            0 <= i < j < self@.paths.len() ==> self@.paths[i].0 != self@.paths[j].0
        &&& forall|i: int|
            0 <= i < self.paths@.len() ==> #[trigger] self.paths@[i].1.wf()
    }
}

pub(crate) fn clone_param(p: &Parameter) -> (r: Parameter)
    ensures
        r@ == p@,
{
    let r = Parameter {
        name: p.name.clone(),
        description: clone_opt_str(&p.description),
        ty: p.ty.clone(),
        required: p.required,
        presence: p.presence,
    };
    assert(r@ =~= p@);
    r
}

pub(crate) fn clone_params(v: &Vec<Parameter>) -> (r: Vec<Parameter>)
    ensures
        params_view(r@) == params_view(v@),
{
    let mut r: Vec<Parameter> = Vec::new();
    let mut i: usize = 0;
    while i < v.len()
        invariant
            i <= v@.len(),
            params_view(r@) == params_view(v@.take(i as int)),
        decreases v@.len() - i,
    {
        r.push(clone_param(&v[i]));
        proof {
            assert(v@.take(i + 1) =~= v@.take(i as int).push(v@[i as int]));
            assert(params_view(v@.take(i as int).push(v@[i as int])) =~= params_view(
                v@.take(i as int),
            ).push(v@[i as int]@));
            assert(params_view(r@) =~= params_view(v@.take(i as int)).push(v@[i as int]@));
        }
        i = i + 1;
    }
    assert(v@.take(v@.len() as int) =~= v@);
    r
}

pub(crate) fn clone_object_field(f: &ObjectField) -> (r: ObjectField)
    ensures
        r@ == f@,
{
    let r = ObjectField {
        name: f.name.clone(),
        ty: f.ty.clone(),
        description: clone_opt_str(&f.description),
        is_required: f.is_required,
        boxed: f.boxed,
        children_req: clone_strings(&f.children_req),
    };
    assert(r@ =~= f@);
    r
}

pub(crate) fn clone_fields(v: &Vec<ObjectField>) -> (r: Vec<ObjectField>)
    ensures
        fields_view(r@) == fields_view(v@),
{
    let mut r: Vec<ObjectField> = Vec::new();
    let mut i: usize = 0;
    while i < v.len()
        invariant
            i <= v@.len(),
            fields_view(r@) == fields_view(v@.take(i as int)),
        decreases v@.len() - i,
    {
        r.push(clone_object_field(&v[i]));
        proof {
            assert(v@.take(i + 1) =~= v@.take(i as int).push(v@[i as int]));
            assert(fields_view(v@.take(i as int).push(v@[i as int])) =~= fields_view(
                v@.take(i as int),
            ).push(v@[i as int]@));
            assert(fields_view(r@) =~= fields_view(v@.take(i as int)).push(v@[i as int]@));
        }
        i = i + 1;
    }
    assert(v@.take(v@.len() as int) =~= v@);
    r
}

} // verus!
