//! Builders: one unconditional bare builder per object plus one builder
//! per (path, method) pair touching the object, together with the pieces
//! of their generated text that name types and typestate generics.

use vstd::prelude::*;
use vstd::string::*;
use crate::model::{
    clone_fields, clone_opt_str, clone_params, fields_view, opt_str_view, params_view,
    ApiObject, ApiObjectV, HttpMethod, ObjectField, ObjectFieldV, OpRequirementV, Parameter,
    ParameterV, PathOpsV,
};
use crate::fields::{
    names_unique, sfs_view, spec_unified, unify, StructField, StructFieldV,
};
use crate::text::{camel_of, push_decimal, spec_decimal, to_camel_case};

verus! {

// ------------------------------------------------------------------
// The builder and its view.
// ------------------------------------------------------------------

/// Represents a builder struct for some API object, either bare (no
/// operation bound) or bound to one (path, method) pair.
#[derive(Debug)]
pub struct ApiObjectBuilder {
    /// Position of this builder's path among the object's paths.
    pub idx: usize,
    /// Whether more than one of the object's builders is bound to this
    /// builder's method.
    pub multiple_builders_exist: bool,
    /// Base URL prefix prepended to every path template.
    pub base_path: String,
    /// The bound path template, if any.
    pub rel_path: Option<String>,
    /// Module prefix qualifying generated helper types.
    pub helper_module_prefix: String,
    /// The bound operation's identifier, if any.
    pub op_id: Option<String>,
    /// The bound HTTP method, if any.
    pub method: Option<HttpMethod>,
    /// Description of the bound operation, for docs.
    pub description: Option<String>,
    /// Name of the object this builder builds.
    pub object: String,
    /// Whether the object itself is required as the request body.
    pub body_required: bool,
    /// The object's fields.
    pub fields: Vec<ObjectField>,
    /// Parameters shared by every operation on the bound path.
    pub global_params: Vec<Parameter>,
    /// Parameters specific to the bound operation.
    pub local_params: Vec<Parameter>,
    /// Type path of the operation's response, if declared.
    pub response: Option<String>,
}

#[verifier::ext_equal]
pub struct ApiObjectBuilderV {
    pub idx: int,
    pub multiple_builders_exist: bool,
    pub base_path: Seq<char>,
    pub rel_path: Option<Seq<char>>,
    pub helper_module_prefix: Seq<char>,
    pub op_id: Option<Seq<char>>,
    pub method: Option<HttpMethod>,
    pub description: Option<Seq<char>>,
    pub object: Seq<char>,
    pub body_required: bool,
    pub fields: Seq<ObjectFieldV>,
    pub global_params: Seq<ParameterV>,
    pub local_params: Seq<ParameterV>,
    pub response: Option<Seq<char>>,
}

impl View for ApiObjectBuilder {
    type V = ApiObjectBuilderV;

    open spec fn view(&self) -> ApiObjectBuilderV {
        ApiObjectBuilderV {
            idx: self.idx as int,
            multiple_builders_exist: self.multiple_builders_exist,
            base_path: self.base_path@,
            rel_path: opt_str_view(self.rel_path),
            helper_module_prefix: self.helper_module_prefix@,
            op_id: opt_str_view(self.op_id),
            method: self.method,
            description: opt_str_view(self.description),
            object: self.object@,
            body_required: self.body_required,
            fields: fields_view(self.fields@),
            global_params: params_view(self.global_params@),
            local_params: params_view(self.local_params@),
            response: opt_str_view(self.response),
        }
    }
}

// ------------------------------------------------------------------
// Unified fields of one builder.
// ------------------------------------------------------------------

/// The unified field list this builder is generated from.
pub open spec fn spec_struct_fields(b: ApiObjectBuilderV) -> Seq<StructFieldV> {
    spec_unified(b.fields, b.global_params, b.local_params, b.body_required)
}

/// The required entries of a unified list, in order.
pub open spec fn spec_required(sfs: Seq<StructFieldV>) -> Seq<StructFieldV>
    decreases sfs.len(),
{
    if sfs.len() == 0 {
        Seq::empty()
    } else if sfs.last().prop.spec_is_required() {
        spec_required(sfs.drop_last()).push(sfs.last())
    } else {
        spec_required(sfs.drop_last())
    }
}

/// Whether the builder needs a separate container for its runtime data:
/// at least one required parameter exists, or the body is required and at
/// least one object field is required.
pub open spec fn spec_needs_container(b: ApiObjectBuilderV) -> bool {
    ||| (exists|i: int| 0 <= i < b.local_params.len() && b.local_params[i].required)
    ||| (exists|i: int| 0 <= i < b.global_params.len() && b.global_params[i].required)
    ||| (b.body_required && exists|i: int| 0 <= i < b.fields.len() && b.fields[i].is_required)
}

/// Whether the generated builder struct has at least one member.
pub open spec fn spec_has_field(b: ApiObjectBuilderV) -> bool {
    exists|i: int|
        0 <= i < spec_struct_fields(b).len() && (#[trigger] spec_struct_fields(
            b,
        )[i].prop.spec_is_parameter() || spec_struct_fields(b)[i].prop.spec_is_required())
}

// ------------------------------------------------------------------
// Generated names.
// ------------------------------------------------------------------

/// The generated builder type's name: object name, bound method (if any),
/// the word `Builder`, and the path ordinal when it is not zero.
pub open spec fn spec_builder_name(b: ApiObjectBuilderV) -> Seq<char> {
    b.object + (match b.method {
        Some(m) => m.spec_token(),
        None => Seq::<char>::empty(),
    }) + "Builder"@ + (if b.idx > 0 {
        spec_decimal(b.idx as nat)
    } else {
        Seq::<char>::empty()
    })
}

/// The generated container type's name.
pub open spec fn spec_container_name(b: ApiObjectBuilderV) -> Seq<char> {
    spec_builder_name(b) + "Container"@
}

/// The constructor name for this builder, when one is derivable: the
/// lower-cased method when it is the method's only builder for the
/// object, else the operation identifier in snake case, else the
/// lower-cased method with the path ordinal appended when it is not zero.
pub open spec fn spec_con_fn_name(b: ApiObjectBuilderV) -> Option<Seq<char>> {
    match b.method {
        Some(m) => {
            if !b.multiple_builders_exist {
                Some(m.spec_lower_token())
            } else {
                match b.op_id {
                    Some(id) => Some(crate::text::snek_of(id)),
                    None => Some(
                        m.spec_lower_token() + (if b.idx > 0 {
                            "_"@ + spec_decimal(b.idx as nat)
                        } else {
                            Seq::<char>::empty()
                        }),
                    ),
                }
            }
        },
        None => {
            match b.op_id {
                Some(id) => Some(crate::text::snek_of(id)),
                None => None,
            }
        },
    }
}

// ------------------------------------------------------------------
// Typestate generics as text.
// ------------------------------------------------------------------

/// Which instantiation of the typestate generics a piece of generated
/// text names.
#[derive(Debug)]
pub enum TypeParameters<'a> {
    /// The bare generic variables.
    Generic,
    /// The variable of the named field replaced by its `Exists` marker.
    ChangeOne(&'a str),
    /// Every variable replaced by its `Missing` marker.
    ReplaceAll,
    /// Every variable replaced by its `Exists` marker.
    ChangeAll,
}

/// The instantiation a `TypeParameters` value names, with the field name
/// as a character sequence.
pub enum GenericsMode {
    Generic,
    ChangeOneName(Seq<char>),
    ReplaceAll,
    ChangeAll,
}

pub open spec fn mode_of(params: TypeParameters<'_>) -> GenericsMode {
    match params {
        TypeParameters::Generic => GenericsMode::Generic,
        TypeParameters::ChangeOne(n) => GenericsMode::ChangeOneName(n@),
        TypeParameters::ReplaceAll => GenericsMode::ReplaceAll,
        TypeParameters::ChangeAll => GenericsMode::ChangeAll,
    }
}

/// The token written for one required entry under the given instantiation.
pub open spec fn spec_generic_token(
    prefix: Seq<char>,
    sf: StructFieldV,
    mode: GenericsMode,
) -> Seq<char> {
    match mode {
        GenericsMode::ChangeOneName(n) => {
            if sf.name == n {
                prefix + "generics::"@ + camel_of(sf.name) + "Exists"@
            } else {
                camel_of(sf.name)
            }
        },
        GenericsMode::ChangeAll => prefix + "generics::"@ + camel_of(sf.name) + "Exists"@,
        GenericsMode::ReplaceAll => prefix + "generics::"@ + "Missing"@ + camel_of(sf.name),
        GenericsMode::Generic => camel_of(sf.name),
    }
}

/// The comma-separated generic list, with its opening bracket.
pub open spec fn spec_generics_list(
    prefix: Seq<char>,
    reqs: Seq<StructFieldV>,
    mode: GenericsMode,
) -> Seq<char>
    decreases reqs.len(),
{
    if reqs.len() == 0 {
        Seq::empty()
    } else {
        spec_generics_list(prefix, reqs.drop_last(), mode) + (if reqs.len() == 1 {
            "<"@
        } else {
            ", "@
        }) + spec_generic_token(prefix, reqs.last(), mode)
    }
}

/// The full generic-parameter text of a builder under the given
/// instantiation: empty when the builder has no required entry.
pub open spec fn spec_generics(b: ApiObjectBuilderV, mode: GenericsMode) -> Seq<char> {
    let reqs = spec_required(spec_struct_fields(b));
    if reqs.len() == 0 {
        Seq::empty()
    } else {
        spec_generics_list(b.helper_module_prefix, reqs, mode) + ">"@
    }
}

// ------------------------------------------------------------------
// Exec items.
// ------------------------------------------------------------------

impl ApiObjectBuilder {
    /// Returns the unified fields and parameters of the generated builder
    /// struct. The names in the result are unique: collisions are
    /// resolved, never left duplicated.
    pub fn struct_fields_iter(&self) -> (r: Vec<StructField>)
        ensures
            sfs_view(r@) == spec_struct_fields(self@),
            names_unique(sfs_view(r@)),
    {
        unify(&self.fields, &self.global_params, &self.local_params, self.body_required)
    }

    /// Name of the constructor function which creates this builder, when
    /// one is derivable.
    pub fn con_fn_name(&self) -> (r: Option<String>)
        ensures
            opt_str_view(r) == spec_con_fn_name(self@),
    {
        match self.method {
            Some(m) => {
                if !self.multiple_builders_exist {
                    Some(m.lower_token().to_owned())
                } else {
                    match &self.op_id {
                        Some(id) => Some(crate::text::to_snek_case(id.as_str())),
                        None => {
                            let mut name = m.lower_token().to_owned();
                            if self.idx > 0 {
                                name.append("_");
                                push_decimal(&mut name, self.idx as u64);
                                assert(name@ =~= m.spec_lower_token() + ("_"@ + spec_decimal(
                                    self.idx as nat,
                                )));
                            } else {
                                assert(name@ =~= m.spec_lower_token() + Seq::<char>::empty());
                            }
                            Some(name)
                        },
                    }
                }
            },
            None => {
                match &self.op_id {
                    Some(id) => Some(crate::text::to_snek_case(id.as_str())),
                    None => None,
                }
            },
        }
    }

    /// Returns whether a separate container is needed for the builder
    /// struct's runtime data.
    pub fn needs_container(&self) -> (r: bool)
        ensures
            r == spec_needs_container(self@),
    {
        let lp = any_param_required(&self.local_params);
        let gp = any_param_required(&self.global_params);
        if lp || gp {
            return true;
        }
        if !self.body_required {
            return false;
        }
        let bf = any_field_required(&self.fields);
        bf
    }

    /// Returns whether the generated builder struct will have at least
    /// one member.
    pub fn has_atleast_one_field(&self) -> (r: bool)
        ensures
            r == spec_has_field(self@),
    {
        let sfs = self.struct_fields_iter();
        let mut i: usize = 0;
        while i < sfs.len()
            invariant
                i <= sfs@.len(),
                sfs_view(sfs@) == spec_struct_fields(self@),
                forall|j: int|
                    0 <= j < i ==> !((#[trigger] sfs_view(sfs@)[j].prop).spec_is_parameter()
                        || sfs_view(sfs@)[j].prop.spec_is_required()),
            decreases sfs@.len() - i,
        {
            proof {
                assert(sfs_view(sfs@)[i as int] == sfs@[i as int]@);
            }
            let is_hit = sfs[i].prop.is_parameter() || sfs[i].prop.is_required();
            if is_hit {
                assert(spec_struct_fields(self@)[i as int].prop.spec_is_parameter()
                    || spec_struct_fields(self@)[i as int].prop.spec_is_required());
                return true;
            }
            proof {
                assert(!((sfs_view(sfs@)[i as int].prop).spec_is_parameter()
                    || sfs_view(sfs@)[i as int].prop.spec_is_required()));
            }
            i = i + 1;
        }
        false
    }

    /// Appends this builder's type name.
    pub fn write_name(&self, f: &mut String)
        ensures
            final(f)@ == old(f)@ + spec_builder_name(self@),
    {
        f.append(self.object.as_str());
        match self.method {
            Some(m) => f.append(m.token()),
            None => (),
        }
        f.append("Builder");
        if self.idx > 0 {
            push_decimal(f, self.idx as u64);
        }
        assert(f@ =~= old(f)@ + spec_builder_name(self@));
    }

    /// Appends this builder's container type name.
    pub fn write_container_name(&self, f: &mut String)
        ensures
            final(f)@ == old(f)@ + spec_container_name(self@),
    {
        self.write_name(f);
        f.append("Container");
        assert(f@ =~= old(f)@ + spec_container_name(self@));
    }

    /// Appends the builder's generic parameters under the given
    /// instantiation, and returns how many there are.
    pub fn write_generics_if_necessary(&self, f: &mut String, params: TypeParameters<'_>) -> (n:
        usize)
        ensures
            final(f)@ == old(f)@ + spec_generics(self@, mode_of(params)),
            n == spec_required(spec_struct_fields(self@)).len(),
    {
        let sfs = self.struct_fields_iter();
        let mut num: usize = 0;
        let mut i: usize = 0;
        while i < sfs.len()
            invariant
                i <= sfs@.len(),
                sfs_view(sfs@) == spec_struct_fields(self@),
                num == spec_required(sfs_view(sfs@).take(i as int)).len(),
                num <= i,
                f@ == old(f)@ + spec_generics_list(
                    self@.helper_module_prefix,
                    spec_required(sfs_view(sfs@).take(i as int)),
                    mode_of(params),
                ),
            decreases sfs@.len() - i,
        {
            let ghost pre_req = spec_required(sfs_view(sfs@).take(i as int));
            proof {
                assert(sfs_view(sfs@).take(i + 1).drop_last() =~= sfs_view(sfs@).take(i as int));
                assert(sfs_view(sfs@).take(i + 1).last() == sfs_view(sfs@)[i as int]);
                assert(sfs_view(sfs@)[i as int] == sfs@[i as int]@);
            }
            if sfs[i].prop.is_required() {
                if num == 0 {
                    f.append("<");
                } else {
                    f.append(", ");
                }
                match params {
                    TypeParameters::ChangeOne(n) => {
                        if crate::text::str_eq(sfs[i].name.as_str(), n) {
                            f.append(self.helper_module_prefix.as_str());
                            f.append("generics::");
                            let cc = to_camel_case(sfs[i].name.as_str());
                            f.append(cc.as_str());
                            f.append("Exists");
                        } else {
                            let cc = to_camel_case(sfs[i].name.as_str());
                            f.append(cc.as_str());
                        }
                    },
                    TypeParameters::ChangeAll => {
                        f.append(self.helper_module_prefix.as_str());
                        f.append("generics::");
                        let cc = to_camel_case(sfs[i].name.as_str());
                        f.append(cc.as_str());
                        f.append("Exists");
                    },
                    TypeParameters::ReplaceAll => {
                        f.append(self.helper_module_prefix.as_str());
                        f.append("generics::");
                        f.append("Missing");
                        let cc = to_camel_case(sfs[i].name.as_str());
                        f.append(cc.as_str());
                    },
                    TypeParameters::Generic => {
                        let cc = to_camel_case(sfs[i].name.as_str());
                        f.append(cc.as_str());
                    },
                }
                num = num + 1;
                proof {
                    assert(spec_required(sfs_view(sfs@).take(i + 1)) =~= pre_req.push(
                        sfs_view(sfs@)[i as int],
                    ));
                    let reqs1 = spec_required(sfs_view(sfs@).take(i + 1));
                    assert(reqs1.drop_last() =~= pre_req);
                    assert(reqs1.last() == sfs_view(sfs@)[i as int]);
                    assert(reqs1.len() == pre_req.len() + 1);
                    assert(f@ =~= old(f)@ + spec_generics_list(
                        self@.helper_module_prefix,
                        reqs1,
                        mode_of(params),
                    ));
                }
            } else {
                proof {
                    assert(spec_required(sfs_view(sfs@).take(i + 1)) =~= pre_req);
                }
            }
            i = i + 1;
        }
        proof {
            assert(sfs_view(sfs@).take(sfs@.len() as int) =~= sfs_view(sfs@));
        }
        if num > 0 {
            f.append(">");
        }
        assert(f@ =~= old(f)@ + spec_generics(self@, mode_of(params)));
        num
    }
}

// ------------------------------------------------------------------
// Enumerating an object's builders.
// ------------------------------------------------------------------

pub open spec fn bvs_view(v: Seq<ApiObjectBuilder>) -> Seq<ApiObjectBuilderV> {
    v.map_values(|b: ApiObjectBuilder| b@)
}

/// How many of a path's operations are bound to the given method.
pub open spec fn spec_req_method_count(req: Seq<(HttpMethod, OpRequirementV)>, m: HttpMethod) -> int
    decreases req.len(),
{
    if req.len() == 0 {
        0
    } else {
        spec_req_method_count(req.drop_last(), m) + (if req.last().0 == m {
            1int
        } else {
            0int
        })
    }
}

/// How many builders the first `k` paths bind to the given method.
pub open spec fn spec_method_count_upto(
    paths: Seq<(Seq<char>, PathOpsV)>,
    m: HttpMethod,
    k: int,
) -> int
    decreases k,
{
    if k <= 0 {
        0
    } else {
        spec_method_count_upto(paths, m, k - 1) + spec_req_method_count(paths[k - 1].1.req, m)
    }
}

/// How many of the object's builders are bound to the given method,
/// across all of its paths.
pub open spec fn spec_method_count(o: ApiObjectV, m: HttpMethod) -> int {
    spec_method_count_upto(o.paths, m, o.paths.len() as int)
}

/// The bare builder: bound to no operation, it only tracks the fields.
pub open spec fn spec_main_builder(o: ApiObjectV, prefix: Seq<char>, base: Seq<char>) -> ApiObjectBuilderV {
    ApiObjectBuilderV {
        idx: 0,
        multiple_builders_exist: false,
        base_path: base,
        rel_path: None,
        helper_module_prefix: prefix,
        op_id: None,
        method: None,
        description: None,
        object: o.name,
        body_required: true,
        fields: o.fields,
        global_params: Seq::empty(),
        local_params: Seq::empty(),
        response: None,
    }
}

/// The builder bound to method `j` of path `i`. It records whether its
/// own method has more than one builder across the object.
pub open spec fn spec_op_builder(
    o: ApiObjectV,
    prefix: Seq<char>,
    base: Seq<char>,
    i: int,
    j: int,
) -> ApiObjectBuilderV {
    ApiObjectBuilderV {
        idx: i,
        multiple_builders_exist: spec_method_count(o, o.paths[i].1.req[j].0) > 1,
        base_path: base,
        rel_path: Some(o.paths[i].0),
        helper_module_prefix: prefix,
        op_id: o.paths[i].1.req[j].1.id,
        method: Some(o.paths[i].1.req[j].0),
        description: o.paths[i].1.req[j].1.description,
        object: o.name,
        body_required: o.paths[i].1.req[j].1.body_required,
        fields: o.fields,
        global_params: o.paths[i].1.params,
        local_params: o.paths[i].1.req[j].1.params,
        response: o.paths[i].1.req[j].1.response_ty_path,
    }
}

/// The builders of path `i`, one per method, in order.
pub open spec fn spec_path_builders(
    o: ApiObjectV,
    prefix: Seq<char>,
    base: Seq<char>,
    i: int,
) -> Seq<ApiObjectBuilderV> {
    Seq::new(o.paths[i].1.req.len(), |j: int| spec_op_builder(o, prefix, base, i, j))
}

/// The operation-bound builders of the first `k` paths, in order.
pub open spec fn spec_op_builders(
    o: ApiObjectV,
    prefix: Seq<char>,
    base: Seq<char>,
    k: int,
) -> Seq<ApiObjectBuilderV>
    decreases k,
{
    if k <= 0 {
        Seq::empty()
    } else {
        spec_op_builders(o, prefix, base, k - 1) + spec_path_builders(o, prefix, base, k - 1)
    }
}

/// All builders of an object: the bare builder first, then one builder
/// per (path, method) pair, paths in order, each path's methods in order.
/// Each builder records its path's ordinal and whether its own method has
/// more than one builder across the object.
pub open spec fn spec_builders(o: ApiObjectV, prefix: Seq<char>, base: Seq<char>) -> Seq<ApiObjectBuilderV> {
    seq![spec_main_builder(o, prefix, base)] + spec_op_builders(o, prefix, base, o.paths.len() as int)
}

impl ApiObject {
    /// Whether more than one of this object's builders is bound to the
    /// given HTTP method.
    fn method_has_siblings(&self, m: HttpMethod) -> (r: bool)
        ensures
            r == (spec_method_count(self@, m) > 1),
    {
        let ghost o = self@;
        let mut tally: Vec<bool> = Vec::new();
        let mut i: usize = 0;
        while i < self.paths.len()
            invariant
                i <= self.paths@.len(),
                o == self@,
                tally@.len() == spec_method_count_upto(o.paths, m, i as int),
            decreases self.paths@.len() - i,
        {
            let mut j: usize = 0;
            proof {
                assert(o.paths[i as int].1 == self.paths@[i as int].1@);
            }
            while j < self.paths[i].1.req.len()
                invariant
                    i < self.paths@.len(),
                    j <= self.paths@[i as int].1.req@.len(),
                    o == self@,
                    o.paths[i as int].1 == self.paths@[i as int].1@,
                    tally@.len() == spec_method_count_upto(o.paths, m, i as int)
                        + spec_req_method_count(o.paths[i as int].1.req.take(j as int), m),
                decreases self.paths@[i as int].1.req@.len() - j,
            {
                proof {
                    let reqs = o.paths[i as int].1.req;
                    assert(reqs.take(j + 1).drop_last() =~= reqs.take(j as int));
                    assert(reqs.take(j + 1).last() == reqs[j as int]);
                    assert(o.paths[i as int].1.req[j as int]
                        == (self.paths@[i as int].1.req@[j as int].0,
                            self.paths@[i as int].1.req@[j as int].1@));
                }
                if self.paths[i].1.req[j].0 == m {
                    tally.push(true);
                }
                j = j + 1;
            }
            proof {
                let reqs = o.paths[i as int].1.req;
                assert(reqs.take(reqs.len() as int) =~= reqs);
            }
            i = i + 1;
        }
        tally.len() > 1
    }

    /// Returns the builders for this object: the bare builder, then one
    /// builder per operation in each path.
    pub fn builders(&self, helper_module_prefix: &str, base_path: &str) -> (r: Vec<
        ApiObjectBuilder,
    >)
        ensures
            bvs_view(r@) == spec_builders(self@, helper_module_prefix@, base_path@),
    {
        let ghost o = self@;
        let ghost prefix = helper_module_prefix@;
        let ghost base = base_path@;
        let main = ApiObjectBuilder {
            idx: 0,
            multiple_builders_exist: false,
            base_path: base_path.to_owned(),
            rel_path: None,
            helper_module_prefix: helper_module_prefix.to_owned(),
            op_id: None,
            method: None,
            description: None,
            object: self.name.clone(),
            body_required: true,
            fields: clone_fields(&self.fields),
            global_params: Vec::new(),
            local_params: Vec::new(),
            response: None,
        };
        assert(main@ =~= spec_main_builder(o, prefix, base));
        let mut r: Vec<ApiObjectBuilder> = Vec::new();
        r.push(main);
        assert(bvs_view(r@) =~= seq![spec_main_builder(o, prefix, base)] + spec_op_builders(
            o,
            prefix,
            base,
            0,
        ));
        let mut i: usize = 0;
        while i < self.paths.len()
            invariant
                i <= self.paths@.len(),
                o == self@,
                prefix == helper_module_prefix@,
                base == base_path@,
                bvs_view(r@) == seq![spec_main_builder(o, prefix, base)] + spec_op_builders(
                    o,
                    prefix,
                    base,
                    i as int,
                ),
            decreases self.paths@.len() - i,
        {
            let mut j: usize = 0;
            proof {
                assert(o.paths[i as int].1 == self.paths@[i as int].1@);
            }
            while j < self.paths[i].1.req.len()
                invariant
                    i < self.paths@.len(),
                    j <= self.paths@[i as int].1.req@.len(),
                    o == self@,
                    prefix == helper_module_prefix@,
                    base == base_path@,
                    o.paths[i as int].1 == self.paths@[i as int].1@,
                    bvs_view(r@) == seq![spec_main_builder(o, prefix, base)] + spec_op_builders(
                        o,
                        prefix,
                        base,
                        i as int,
                    ) + spec_path_builders(o, prefix, base, i as int).take(j as int),
                decreases self.paths@[i as int].1.req@.len() - j,
            {
                let path_ops = &self.paths[i].1;
                let method = path_ops.req[j].0;
                let req = &path_ops.req[j].1;
                proof {
                    assert(o.paths[i as int].1.req[j as int]
                        == (self.paths@[i as int].1.req@[j as int].0,
                            self.paths@[i as int].1.req@[j as int].1@));
                    assert(o.paths[i as int].0 == self.paths@[i as int].0@);
                }
                let multi = self.method_has_siblings(method);
                let b = ApiObjectBuilder {
                    idx: i,
                    multiple_builders_exist: multi,
                    base_path: base_path.to_owned(),
                    rel_path: Some(self.paths[i].0.clone()),
                    helper_module_prefix: helper_module_prefix.to_owned(),
                    op_id: clone_opt_str(&req.id),
                    method: Some(method),
                    description: clone_opt_str(&req.description),
                    object: self.name.clone(),
                    body_required: req.body_required,
                    fields: clone_fields(&self.fields),
                    global_params: clone_params(&path_ops.params),
                    local_params: clone_params(&req.params),
                    response: clone_opt_str(&req.response_ty_path),
                };
                proof {
                    let sb = spec_op_builder(o, prefix, base, i as int, j as int);
                    assert(b@.idx == sb.idx);
                    assert(b@.multiple_builders_exist == sb.multiple_builders_exist);
                    assert(b@.base_path == sb.base_path);
                    assert(b@.rel_path == sb.rel_path);
                    assert(b@.helper_module_prefix == sb.helper_module_prefix);
                    assert(b@.op_id == sb.op_id);
                    assert(b@.method == sb.method);
                    assert(b@.description == sb.description);
                    assert(b@.object == sb.object);
                    assert(b@.body_required == sb.body_required);
                    assert(b@.fields == sb.fields);
                    assert(b@.global_params == sb.global_params);
                    assert(b@.local_params == sb.local_params);
                    assert(b@.response == sb.response);
                    assert(b@ =~= sb);
                }
                let ghost pre_r = bvs_view(r@);
                let ghost bv = b@;
                r.push(b);
                proof {
                    assert(bvs_view(r@) =~= pre_r.push(bv));
                    assert(spec_path_builders(o, prefix, base, i as int).take(j + 1)
                        =~= spec_path_builders(o, prefix, base, i as int).take(
                        j as int,
                    ).push(spec_op_builder(o, prefix, base, i as int, j as int)));
                    assert(bvs_view(r@) =~= seq![spec_main_builder(o, prefix, base)]
                        + spec_op_builders(o, prefix, base, i as int)
                        + spec_path_builders(o, prefix, base, i as int).take(j + 1));
                }
                j = j + 1;
            }
            proof {
                assert(spec_path_builders(o, prefix, base, i as int).take(
                    self.paths@[i as int].1.req@.len() as int,
                ) =~= spec_path_builders(o, prefix, base, i as int));
                assert(bvs_view(r@) =~= seq![spec_main_builder(o, prefix, base)]
                    + spec_op_builders(o, prefix, base, i + 1));
            }
            i = i + 1;
        }
        proof {
            assert(bvs_view(r@) =~= spec_builders(o, prefix, base));
        }
        r
    }
}

pub(crate) fn any_param_required(v: &Vec<Parameter>) -> (r: bool)
    ensures
        r == (exists|i: int| 0 <= i < params_view(v@).len() && params_view(v@)[i].required),
{
    let mut i: usize = 0;
    while i < v.len()
        invariant
            i <= v@.len(),
            forall|j: int| 0 <= j < i ==> !(#[trigger] params_view(v@)[j].required),
        decreases v@.len() - i,
    {
        proof {
            assert(params_view(v@)[i as int] == v@[i as int]@);
        }
        if v[i].required {
            return true;
        }
        i = i + 1;
    }
    false
}

pub(crate) fn any_field_required(v: &Vec<ObjectField>) -> (r: bool)
    ensures
        r == (exists|i: int| 0 <= i < fields_view(v@).len() && fields_view(v@)[i].is_required),
{
    let mut i: usize = 0;
    while i < v.len()
        invariant
            i <= v@.len(),
            forall|j: int| 0 <= j < i ==> !(#[trigger] fields_view(v@)[j].is_required),
        decreases v@.len() - i,
    {
        proof {
            assert(fields_view(v@)[i as int] == v@[i as int]@);
        }
        if v[i].is_required {
            return true;
        }
        i = i + 1;
    }
    false
}

} // verus!
