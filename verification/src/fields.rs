//! Field/parameter unification: merging an object's fields with the
//! path-level and operation-level parameters relevant to one builder into
//! a single deduplicated, precedence-resolved list.

use vstd::prelude::*;
use crate::model::{
    clone_opt_str, clone_strings, opt_str_view, strings_view, fields_view, params_view,
    ObjectField, ObjectFieldV, Parameter, ParameterV, ParameterIn, TypeDesc, TypeDescV,
};

verus! {

// ------------------------------------------------------------------
// What a unified entry represents.
// ------------------------------------------------------------------

#[derive(Clone, Copy, Debug, PartialEq, Eq, Structural)]
pub enum Property {
    RequiredField,
    OptionalField,
    RequiredParam,
    OptionalParam,
}

impl Property {
    pub open spec fn spec_is_required(self) -> bool {
        self == Property::RequiredField || self == Property::RequiredParam
    }

    pub open spec fn spec_is_parameter(self) -> bool {
        self == Property::RequiredParam || self == Property::OptionalParam
    }

    pub open spec fn spec_is_field(self) -> bool {
        self == Property::RequiredField || self == Property::OptionalField
    }

    /// Whether this property is required.
    pub fn is_required(self) -> (r: bool)
        ensures
            r == self.spec_is_required(),
    {
        match self {
            Property::RequiredField | Property::RequiredParam => true,
            _ => false,
        }
    }

    /// Whether this property is a parameter.
    pub fn is_parameter(self) -> (r: bool)
        ensures
            r == self.spec_is_parameter(),
    {
        match self {
            Property::RequiredParam | Property::OptionalParam => true,
            _ => false,
        }
    }

    /// Whether this property is an object field.
    pub fn is_field(self) -> (r: bool)
        ensures
            r == self.spec_is_field(),
    {
        match self {
            Property::RequiredField | Property::OptionalField => true,
            _ => false,
        }
    }
}

// ------------------------------------------------------------------
// Unified entries.
// ------------------------------------------------------------------

/// One unified entry of a builder: an object field or a parameter.
#[derive(Debug)]
pub struct StructField {
    /// Name of this entry (case unspecified).
    pub name: String,
    /// Declared type of this entry.
    pub ty: TypeDesc,
    /// What this entry represents.
    pub prop: Property,
    /// Description for this entry (if any), for docs.
    pub desc: Option<String>,
    /// Whether this entry had a collision between a parameter and an
    /// object field of the same name and type. Writing through its setter
    /// then also updates the body field of the same name.
    pub overridden: bool,
    /// Names of required children of the nested element type. When
    /// non-empty, setting this entry requires a finalized sub-builder.
    pub strict_children: Vec<String>,
    /// Location of the parameter (if this entry is a parameter).
    pub param_loc: Option<ParameterIn>,
}

#[verifier::ext_equal]
pub struct StructFieldV {
    pub name: Seq<char>,
    pub ty: TypeDescV,
    pub prop: Property,
    pub desc: Option<Seq<char>>,
    pub overridden: bool,
    pub strict_children: Seq<Seq<char>>,
    pub param_loc: Option<ParameterIn>,
}

impl View for StructField {
    type V = StructFieldV;

    open spec fn view(&self) -> StructFieldV {
        StructFieldV {
            name: self.name@,
            ty: self.ty@,
            prop: self.prop,
            desc: opt_str_view(self.desc),
            overridden: self.overridden,
            strict_children: strings_view(self.strict_children@),
            param_loc: self.param_loc,
        }
    }
}

pub open spec fn sfs_view(v: Seq<StructField>) -> Seq<StructFieldV> {
    v.map_values(|sf: StructField| sf@)
}

// ------------------------------------------------------------------
// The unification algorithm, stated.
// ------------------------------------------------------------------

/// The unified entry derived from a parameter.
pub open spec fn param_entry(p: ParameterV) -> StructFieldV {
    StructFieldV {
        name: p.name,
        ty: p.ty,
        prop: if p.required {
            Property::RequiredParam
        } else {
            Property::OptionalParam
        },
        desc: p.description,
        overridden: false,
        strict_children: Seq::empty(),
        param_loc: Some(p.presence),
    }
}

/// The unified entry derived from an object field. The field is only
/// required when the enclosing body itself is: an optional body can never
/// force a sub-field.
pub open spec fn field_entry(f: ObjectFieldV, body_required: bool) -> StructFieldV {
    StructFieldV {
        name: f.name,
        ty: f.ty,
        prop: if body_required && f.is_required {
            Property::RequiredField
        } else {
            Property::OptionalField
        },
        desc: f.description,
        overridden: false,
        strict_children: f.children_req,
        param_loc: None,
    }
}

pub open spec fn has_name(acc: Seq<StructFieldV>, name: Seq<char>) -> bool {
    exists|i: int| 0 <= i < acc.len() && acc[i].name == name
}

/// Marks the entry of the given name `overridden` when its declared type
/// matches; a type mismatch leaves the list unchanged (the colliding
/// field is dropped without diagnostic).
pub open spec fn mark_overridden(acc: Seq<StructFieldV>, name: Seq<char>, ty: TypeDescV) -> Seq<
    StructFieldV,
> {
    Seq::new(
        acc.len(),
        |i: int|
            if acc[i].name == name && acc[i].ty == ty {
                StructFieldV {
                    name: acc[i].name,
                    ty: acc[i].ty,
                    prop: acc[i].prop,
                    desc: acc[i].desc,
                    overridden: true,
                    strict_children: acc[i].strict_children,
                    param_loc: acc[i].param_loc,
                }
            } else {
                acc[i]
            },
    )
}

/// Inserts parameters in order; a second parameter with an already-used
/// name is dropped silently (the earlier entry wins).
pub open spec fn insert_params(acc: Seq<StructFieldV>, ps: Seq<ParameterV>) -> Seq<StructFieldV>
    decreases ps.len(),
{
    if ps.len() == 0 {
        acc
    } else {
        let prev = insert_params(acc, ps.drop_last());
        let p = ps.last();
        if has_name(prev, p.name) {
            prev
        } else {
            prev.push(param_entry(p))
        }
    }
}

/// Inserts object fields in order; a field colliding with a parameter of
/// the same name marks that parameter `overridden` when the types match
/// and is otherwise dropped.
pub open spec fn insert_fields(
    acc: Seq<StructFieldV>,
    fs: Seq<ObjectFieldV>,
    body_required: bool,
) -> Seq<StructFieldV>
    decreases fs.len(),
{
    if fs.len() == 0 {
        acc
    } else {
        let prev = insert_fields(acc, fs.drop_last(), body_required);
        let f = fs.last();
        if has_name(prev, f.name) {
            mark_overridden(prev, f.name, f.ty)
        } else {
            prev.push(field_entry(f, body_required))
        }
    }
}

/// The unified list of one builder: operation-specific parameters first,
/// then path-shared parameters, then object fields, deduplicated by name.
pub open spec fn spec_unified(
    fields: Seq<ObjectFieldV>,
    globals: Seq<ParameterV>,
    locals: Seq<ParameterV>,
    body_required: bool,
) -> Seq<StructFieldV> {
    insert_fields(
        insert_params(insert_params(Seq::empty(), locals), globals),
        fields,
        body_required,
    )
}

pub open spec fn names_unique(acc: Seq<StructFieldV>) -> bool {
    forall|i: int, j: int| 0 <= i < j < acc.len() ==> acc[i].name != acc[j].name
}

// ------------------------------------------------------------------
// The unification algorithm, executed.
// ------------------------------------------------------------------

pub(crate) fn ty_eq(a: &TypeDesc, b: &TypeDesc) -> (r: bool)
    ensures
        r == (a@ == b@),
{
    if a.wraps.len() != b.wraps.len() {
        return false;
    }
    let mut i: usize = 0;
    while i < a.wraps.len()
        invariant
            i <= a.wraps@.len(),
            a.wraps@.len() == b.wraps@.len(),
            forall|j: int| 0 <= j < i ==> a.wraps@[j] == b.wraps@[j],
        decreases a.wraps@.len() - i,
    {
        if a.wraps[i] != b.wraps[i] {
            return false;
        }
        i = i + 1;
    }
    assert(a.wraps@ =~= b.wraps@);
    let r = crate::text::str_eq(a.leaf.as_str(), b.leaf.as_str());
    if r {
        assert(a@ =~= b@);
    }
    r
}

fn param_struct_field(p: &Parameter) -> (r: StructField)
    ensures
        r@ == param_entry(p@),
{
    let r = StructField {
        name: p.name.clone(),
        ty: p.ty.clone(),
        prop: if p.required {
            Property::RequiredParam
        } else {
            Property::OptionalParam
        },
        desc: clone_opt_str(&p.description),
        overridden: false,
        strict_children: Vec::new(),
        param_loc: Some(p.presence),
    };
    assert(strings_view(r.strict_children@) =~= Seq::<Seq<char>>::empty());
    assert(r@ =~= param_entry(p@));
    r
}

fn field_struct_field(f: &ObjectField, body_required: bool) -> (r: StructField)
    ensures
        r@ == field_entry(f@, body_required),
{
    let r = StructField {
        name: f.name.clone(),
        ty: f.ty.clone(),
        prop: if body_required && f.is_required {
            Property::RequiredField
        } else {
            Property::OptionalField
        },
        desc: clone_opt_str(&f.description),
        overridden: false,
        strict_children: clone_strings(&f.children_req),
        param_loc: None,
    };
    assert(r@ =~= field_entry(f@, body_required));
    r
}

/// The index of the entry with the given name, if one exists.
fn find_name(acc: &Vec<StructField>, name: &String) -> (r: Option<usize>)
    ensures
        match r {
            Some(i) => i < acc@.len() && acc@[i as int]@.name == name@,
            None => !has_name(sfs_view(acc@), name@),
        },
{
    let mut i: usize = 0;
    while i < acc.len()
        invariant
            i <= acc@.len(),
            forall|j: int| 0 <= j < i ==> #[trigger] acc@[j]@.name != name@,
        decreases acc@.len() - i,
    {
        if crate::text::str_eq(acc[i].name.as_str(), name.as_str()) {
            return Some(i);
        }
        i = i + 1;
    }
    assert(forall|j: int|
        0 <= j < acc@.len() ==> #[trigger] sfs_view(acc@)[j].name != name@);
    None
}

/// Inserts one parameter into the accumulator as the stated algorithm does.
fn push_param(acc: &mut Vec<StructField>, p: &Parameter)
    ensures
        sfs_view(final(acc)@) == insert_params(sfs_view(old(acc)@), seq![p@]),
{
    let found = find_name(acc, &p.name);
    proof {
        lemma_insert_params_one(sfs_view(acc@), p@);
    }
    match found {
        Some(i) => {
            assert(sfs_view(acc@)[i as int] == acc@[i as int]@);
            assert(has_name(sfs_view(acc@), p@.name));
        }
        None => {
            acc.push(param_struct_field(p));
            proof {
                assert(sfs_view(acc@) =~= sfs_view(old(acc)@).push(param_entry(p@)));
            }
        }
    }
}

/// Inserts one object field into the accumulator as the stated algorithm
/// does, resolving a collision with an earlier parameter.
fn push_field(acc: &mut Vec<StructField>, f: &ObjectField, body_required: bool)
    requires
        names_unique(sfs_view(old(acc)@)),
    ensures
        sfs_view(final(acc)@) == insert_fields(sfs_view(old(acc)@), seq![f@], body_required),
        names_unique(sfs_view(final(acc)@)),
{
    let found = find_name(acc, &f.name);
    proof {
        lemma_insert_fields_one(sfs_view(acc@), f@, body_required);
    }
    match found {
        Some(i) => {
            assert(sfs_view(acc@)[i as int] == acc@[i as int]@);
            assert(has_name(sfs_view(acc@), f@.name));
            let same_ty = ty_eq(&acc[i].ty, &f.ty);
            if same_ty {
                acc[i].overridden = true;
            }
            proof {
                let prev = sfs_view(old(acc)@);
                assert forall|k: int| 0 <= k < prev.len() implies
                    sfs_view(acc@)[k] == mark_overridden(prev, f@.name, f@.ty)[k] by {
                    if k == i {
                        assert(sfs_view(acc@)[k] =~= mark_overridden(prev, f@.name, f@.ty)[k]);
                    } else {
                        assert(prev[k].name != prev[i as int].name);
                        assert(sfs_view(acc@)[k] == prev[k]);
                    }
                }
                assert(sfs_view(acc@) =~= mark_overridden(prev, f@.name, f@.ty));
                assert(names_unique(sfs_view(acc@)));
            }
        }
        None => {
            acc.push(field_struct_field(f, body_required));
            proof {
                assert(sfs_view(acc@) =~= sfs_view(old(acc)@).push(
                    field_entry(f@, body_required),
                ));
            }
        }
    }
}

/// Merges an object's fields with a path's shared parameters and an
/// operation's own parameters into a single deduplicated list: the
/// operation's parameters first, then the path's, then the fields.
/// The names in the result are unique.
pub fn unify(
    fields: &Vec<ObjectField>,
    globals: &Vec<Parameter>,
    locals: &Vec<Parameter>,
    body_required: bool,
) -> (r: Vec<StructField>)
    ensures
        sfs_view(r@) == spec_unified(
            fields_view(fields@),
            params_view(globals@),
            params_view(locals@),
            body_required,
        ),
        names_unique(sfs_view(r@)),
{
    let mut acc: Vec<StructField> = Vec::new();
    assert(sfs_view(acc@) =~= Seq::<StructFieldV>::empty());
    let mut i: usize = 0;
    while i < locals.len()
        invariant
            i <= locals@.len(),
            sfs_view(acc@) == insert_params(
                Seq::empty(),
                params_view(locals@).take(i as int),
            ),
            names_unique(sfs_view(acc@)),
        decreases locals@.len() - i,
    {
        let ghost pre = sfs_view(acc@);
        let ghost taken = params_view(locals@).take(i as int);
        push_param(&mut acc, &locals[i]);
        proof {
            lemma_insert_params_one(pre, locals@[i as int]@);
            assert(params_view(locals@).take(i + 1).drop_last() =~= taken);
            assert(params_view(locals@).take(i + 1).last() == locals@[i as int]@);
            lemma_insert_params_unique(Seq::empty(), params_view(locals@).take(i + 1));
        }
        i = i + 1;
    }
    proof {
        assert(params_view(locals@).take(locals@.len() as int) =~= params_view(locals@));
    }
    let ghost after_locals = sfs_view(acc@);
    let mut i: usize = 0;
    while i < globals.len()
        invariant
            i <= globals@.len(),
            sfs_view(acc@) == insert_params(after_locals, params_view(globals@).take(i as int)),
            names_unique(after_locals),
            names_unique(sfs_view(acc@)),
        decreases globals@.len() - i,
    {
        let ghost pre = sfs_view(acc@);
        push_param(&mut acc, &globals[i]);
        proof {
            lemma_insert_params_one(pre, globals@[i as int]@);
            assert(params_view(globals@).take(i + 1).drop_last() =~= params_view(
                globals@,
            ).take(i as int));
            assert(params_view(globals@).take(i + 1).last() == globals@[i as int]@);
            lemma_insert_params_unique(after_locals, params_view(globals@).take(i + 1));
        }
        i = i + 1;
    }
    proof {
        assert(params_view(globals@).take(globals@.len() as int) =~= params_view(globals@));
    }
    let ghost after_globals = sfs_view(acc@);
    let mut i: usize = 0;
    while i < fields.len()
        invariant
            i <= fields@.len(),
            sfs_view(acc@) == insert_fields(
                after_globals,
                fields_view(fields@).take(i as int),
                body_required,
            ),
            names_unique(sfs_view(acc@)),
        decreases fields@.len() - i,
    {
        let ghost pre = sfs_view(acc@);
        push_field(&mut acc, &fields[i], body_required);
        proof {
            lemma_insert_fields_one(pre, fields@[i as int]@, body_required);
            assert(fields_view(fields@).take(i + 1).drop_last() =~= fields_view(
                fields@,
            ).take(i as int));
            assert(fields_view(fields@).take(i + 1).last() == fields@[i as int]@);
        }
        i = i + 1;
    }
    proof {
        assert(fields_view(fields@).take(fields@.len() as int) =~= fields_view(fields@));
    }
    acc
}

/// Inserting a single parameter equals one step of the stated recursion.
proof fn lemma_insert_params_one(acc: Seq<StructFieldV>, p: ParameterV)
    ensures
        insert_params(acc, seq![p]) == (if has_name(acc, p.name) {
            acc
        } else {
            acc.push(param_entry(p))
        }),
{
    assert(seq![p].drop_last() =~= Seq::<ParameterV>::empty());
    assert(insert_params(acc, Seq::<ParameterV>::empty()) == acc);
    assert(seq![p].last() == p);
}

/// Inserting a single field equals one step of the stated recursion.
proof fn lemma_insert_fields_one(acc: Seq<StructFieldV>, f: ObjectFieldV, body_required: bool)
    ensures
        insert_fields(acc, seq![f], body_required) == (if has_name(acc, f.name) {
            mark_overridden(acc, f.name, f.ty)
        } else {
            acc.push(field_entry(f, body_required))
        }),
{
    assert(seq![f].drop_last() =~= Seq::<ObjectFieldV>::empty());
    assert(insert_fields(acc, Seq::<ObjectFieldV>::empty(), body_required) == acc);
    assert(seq![f].last() == f);
}

/// Inserting parameters never introduces a duplicate name.
pub proof fn lemma_insert_params_unique(acc: Seq<StructFieldV>, ps: Seq<ParameterV>)
    requires
        names_unique(acc),
    ensures
        names_unique(insert_params(acc, ps)),
    decreases ps.len(),
{
    if ps.len() > 0 {
        lemma_insert_params_unique(acc, ps.drop_last());
    }
}

// ------------------------------------------------------------------
// Laws of unification.
// ------------------------------------------------------------------

/// The names present in a unified list.
pub open spec fn entry_names(acc: Seq<StructFieldV>) -> Set<Seq<char>> {
    Set::new(|n: Seq<char>| has_name(acc, n))
}

/// The names of a parameter list.
pub open spec fn param_names(ps: Seq<ParameterV>) -> Set<Seq<char>> {
    Set::new(|n: Seq<char>| exists|i: int| 0 <= i < ps.len() && (#[trigger] ps[i]).name == n)
}

/// The names of an object's field list.
pub open spec fn field_names(fs: Seq<ObjectFieldV>) -> Set<Seq<char>> {
    Set::new(|n: Seq<char>| exists|i: int| 0 <= i < fs.len() && (#[trigger] fs[i]).name == n)
}

proof fn lemma_param_names_snoc(ps: Seq<ParameterV>)
    requires
        ps.len() > 0,
    ensures
        param_names(ps) == param_names(ps.drop_last()).insert(ps.last().name),
{
    assert forall|n: Seq<char>| param_names(ps).contains(n) implies param_names(
        ps.drop_last(),
    ).insert(ps.last().name).contains(n) by {
        let i = choose|i: int| 0 <= i < ps.len() && (#[trigger] ps[i]).name == n;
        if i < ps.len() - 1 {
            assert(ps.drop_last()[i] == ps[i]);
            assert(param_names(ps.drop_last()).contains(n));
        }
    }
    assert forall|n: Seq<char>|
        param_names(ps.drop_last()).insert(ps.last().name).contains(n) implies param_names(
        ps,
    ).contains(n) by {
        if param_names(ps.drop_last()).contains(n) {
            let i = choose|i: int|
                0 <= i < ps.drop_last().len() && (#[trigger] ps.drop_last()[i]).name == n;
            assert(ps[i].name == n);
        } else {
            assert(ps[ps.len() - 1].name == n);
        }
    }
    assert(param_names(ps) =~= param_names(ps.drop_last()).insert(ps.last().name));
}

proof fn lemma_field_names_snoc(fs: Seq<ObjectFieldV>)
    requires
        fs.len() > 0,
    ensures
        field_names(fs) == field_names(fs.drop_last()).insert(fs.last().name),
{
    assert forall|n: Seq<char>| field_names(fs).contains(n) implies field_names(
        fs.drop_last(),
    ).insert(fs.last().name).contains(n) by {
        let i = choose|i: int| 0 <= i < fs.len() && (#[trigger] fs[i]).name == n;
        if i < fs.len() - 1 {
            assert(fs.drop_last()[i] == fs[i]);
            assert(field_names(fs.drop_last()).contains(n));
        }
    }
    assert forall|n: Seq<char>|
        field_names(fs.drop_last()).insert(fs.last().name).contains(n) implies field_names(
        fs,
    ).contains(n) by {
        if field_names(fs.drop_last()).contains(n) {
            let i = choose|i: int|
                0 <= i < fs.drop_last().len() && (#[trigger] fs.drop_last()[i]).name == n;
            assert(fs[i].name == n);
        } else {
            assert(fs[fs.len() - 1].name == n);
        }
    }
    assert(field_names(fs) =~= field_names(fs.drop_last()).insert(fs.last().name));
}

proof fn lemma_entry_names_push(acc: Seq<StructFieldV>, e: StructFieldV)
    ensures
        entry_names(acc.push(e)) == entry_names(acc).insert(e.name),
{
    assert forall|n: Seq<char>| entry_names(acc.push(e)).contains(n) implies entry_names(
        acc,
    ).insert(e.name).contains(n) by {
        let i = choose|i: int| 0 <= i < acc.push(e).len() && acc.push(e)[i].name == n;
        if i < acc.len() {
            assert(acc[i].name == n);
        }
    }
    assert forall|n: Seq<char>| entry_names(acc).insert(e.name).contains(n) implies entry_names(
        acc.push(e),
    ).contains(n) by {
        if entry_names(acc).contains(n) {
            let i = choose|i: int| 0 <= i < acc.len() && acc[i].name == n;
            assert(acc.push(e)[i].name == n);
        } else {
            assert(acc.push(e)[acc.len() as int].name == n);
        }
    }
    assert(entry_names(acc.push(e)) =~= entry_names(acc).insert(e.name));
}

proof fn lemma_mark_names(acc: Seq<StructFieldV>, name: Seq<char>, ty: TypeDescV)
    ensures
        entry_names(mark_overridden(acc, name, ty)) == entry_names(acc),
{
    let m = mark_overridden(acc, name, ty);
    assert forall|i: int| 0 <= i < acc.len() implies #[trigger] m[i].name == acc[i].name by {}
    assert forall|n: Seq<char>| entry_names(m).contains(n) implies entry_names(acc).contains(
        n,
    ) by {
        let i = choose|i: int| 0 <= i < m.len() && m[i].name == n;
        assert(acc[i].name == n);
    }
    assert forall|n: Seq<char>| entry_names(acc).contains(n) implies entry_names(m).contains(
        n,
    ) by {
        let i = choose|i: int| 0 <= i < acc.len() && acc[i].name == n;
        assert(m[i].name == n);
    }
    assert(entry_names(m) =~= entry_names(acc));
}

proof fn lemma_insert_params_names(acc: Seq<StructFieldV>, ps: Seq<ParameterV>)
    ensures
        entry_names(insert_params(acc, ps)) == entry_names(acc).union(param_names(ps)),
    decreases ps.len(),
{
    if ps.len() == 0 {
        assert(entry_names(insert_params(acc, ps)) =~= entry_names(acc).union(param_names(ps)));
    } else {
        lemma_insert_params_names(acc, ps.drop_last());
        lemma_param_names_snoc(ps);
        let prev = insert_params(acc, ps.drop_last());
        let p = ps.last();
        if has_name(prev, p.name) {
            assert(entry_names(prev).contains(p.name));
            assert(entry_names(insert_params(acc, ps)) =~= entry_names(acc).union(
                param_names(ps),
            ));
        } else {
            lemma_entry_names_push(prev, param_entry(p));
            assert(entry_names(insert_params(acc, ps)) =~= entry_names(acc).union(
                param_names(ps),
            ));
        }
    }
}

proof fn lemma_insert_fields_names(acc: Seq<StructFieldV>, fs: Seq<ObjectFieldV>, br: bool)
    ensures
        entry_names(insert_fields(acc, fs, br)) == entry_names(acc).union(field_names(fs)),
    decreases fs.len(),
{
    if fs.len() == 0 {
        assert(entry_names(insert_fields(acc, fs, br)) =~= entry_names(acc).union(
            field_names(fs),
        ));
    } else {
        lemma_insert_fields_names(acc, fs.drop_last(), br);
        lemma_field_names_snoc(fs);
        let prev = insert_fields(acc, fs.drop_last(), br);
        let f = fs.last();
        if has_name(prev, f.name) {
            lemma_mark_names(prev, f.name, f.ty);
            assert(entry_names(prev).contains(f.name));
            assert(entry_names(insert_fields(acc, fs, br)) =~= entry_names(acc).union(
                field_names(fs),
            ));
        } else {
            lemma_entry_names_push(prev, field_entry(f, br));
            assert(entry_names(insert_fields(acc, fs, br)) =~= entry_names(acc).union(
                field_names(fs),
            ));
        }
    }
}

/// Unification is idempotent and order-independent with respect to final
/// membership: the unified list's named set is exactly the union of the
/// three inputs' name sets. Being a pure function of that tuple,
/// re-unifying the same inputs always yields the same named set, and any
/// reordering of the inputs that keeps their names yields it too (see
/// `lemma_unified_membership_order_independent`).
pub proof fn lemma_unified_membership(
    fields: Seq<ObjectFieldV>,
    globals: Seq<ParameterV>,
    locals: Seq<ParameterV>,
    body_required: bool,
)
    ensures
        entry_names(spec_unified(fields, globals, locals, body_required)) == field_names(
            fields,
        ).union(param_names(globals)).union(param_names(locals)),
{
    let s1 = insert_params(Seq::empty(), locals);
    let s2 = insert_params(s1, globals);
    lemma_insert_params_names(Seq::empty(), locals);
    lemma_insert_params_names(s1, globals);
    lemma_insert_fields_names(s2, fields, body_required);
    assert(entry_names(Seq::<StructFieldV>::empty()) =~= Set::<Seq<char>>::empty());
    assert(entry_names(spec_unified(fields, globals, locals, body_required)) =~= field_names(
        fields,
    ).union(param_names(globals)).union(param_names(locals)));
}

/// Re-unifying inputs that hold the same names — in any order — yields
/// the same named set.
pub proof fn lemma_unified_membership_order_independent(
    f1: Seq<ObjectFieldV>,
    g1: Seq<ParameterV>,
    l1: Seq<ParameterV>,
    br1: bool,
    f2: Seq<ObjectFieldV>,
    g2: Seq<ParameterV>,
    l2: Seq<ParameterV>,
    br2: bool,
)
    requires
        field_names(f1) == field_names(f2),
        param_names(g1) == param_names(g2),
        param_names(l1) == param_names(l2),
    ensures
        entry_names(spec_unified(f1, g1, l1, br1)) == entry_names(spec_unified(f2, g2, l2, br2)),
{
    lemma_unified_membership(f1, g1, l1, br1);
    lemma_unified_membership(f2, g2, l2, br2);
}

/// Whether two unified entries agree on everything but the `overridden`
/// flag (which a later field collision may set on a parameter entry).
pub open spec fn same_except_overridden(a: StructFieldV, b: StructFieldV) -> bool {
    &&& a.name == b.name
    &&& a.ty == b.ty
    &&& a.prop == b.prop
    &&& a.desc == b.desc
    &&& a.strict_children == b.strict_children
    &&& a.param_loc == b.param_loc
}

proof fn lemma_insert_params_preserves(acc: Seq<StructFieldV>, ps: Seq<ParameterV>)
    ensures
        insert_params(acc, ps).len() >= acc.len(),
        forall|i: int| 0 <= i < acc.len() ==> #[trigger] insert_params(acc, ps)[i] == acc[i],
    decreases ps.len(),
{
    if ps.len() > 0 {
        lemma_insert_params_preserves(acc, ps.drop_last());
    }
}

proof fn lemma_insert_fields_preserves(acc: Seq<StructFieldV>, fs: Seq<ObjectFieldV>, br: bool)
    ensures
        insert_fields(acc, fs, br).len() >= acc.len(),
        forall|i: int|
            0 <= i < acc.len() ==> same_except_overridden(
                #[trigger] insert_fields(acc, fs, br)[i],
                acc[i],
            ),
    decreases fs.len(),
{
    if fs.len() > 0 {
        lemma_insert_fields_preserves(acc, fs.drop_last(), br);
        let prev = insert_fields(acc, fs.drop_last(), br);
        let f = fs.last();
        if has_name(prev, f.name) {
            assert forall|i: int| 0 <= i < acc.len() implies same_except_overridden(
                #[trigger] insert_fields(acc, fs, br)[i],
                acc[i],
            ) by {
                assert(same_except_overridden(prev[i], acc[i]));
            }
        }
    }
}

proof fn lemma_insert_params_carries(acc: Seq<StructFieldV>, ps: Seq<ParameterV>, k: int)
    requires
        0 <= k < ps.len(),
        !has_name(acc, ps[k].name),
        forall|j: int| 0 <= j < k ==> ps[j].name != ps[k].name,
    ensures
        exists|i: int|
            0 <= i < insert_params(acc, ps).len() && #[trigger] insert_params(acc, ps)[i]
                == param_entry(ps[k]),
    decreases ps.len(),
{
    let prev = insert_params(acc, ps.drop_last());
    let p = ps.last();
    if k == ps.len() - 1 {
        lemma_insert_params_names(acc, ps.drop_last());
        if has_name(prev, p.name) {
            assert(entry_names(prev).contains(p.name));
            if param_names(ps.drop_last()).contains(p.name) {
                let j = choose|j: int|
                    0 <= j < ps.drop_last().len() && (#[trigger] ps.drop_last()[j]).name == p.name;
                assert(ps[j].name == ps[k].name);
                assert(false);
            }
            assert(entry_names(acc).contains(p.name));
            assert(false);
        }
        assert(insert_params(acc, ps)[prev.len() as int] == param_entry(p));
    } else {
        assert(ps.drop_last()[k] == ps[k]);
        assert forall|j: int| 0 <= j < k implies ps.drop_last()[j].name != ps.drop_last()[k].name by {
            assert(ps.drop_last()[j] == ps[j]);
        }
        lemma_insert_params_carries(acc, ps.drop_last(), k);
        let i = choose|i: int|
            0 <= i < prev.len() && #[trigger] prev[i] == param_entry(ps.drop_last()[k]);
        if has_name(prev, p.name) {
            assert(insert_params(acc, ps)[i] == param_entry(ps[k]));
        } else {
            assert(prev.push(param_entry(p))[i] == prev[i]);
            assert(insert_params(acc, ps)[i] == param_entry(ps[k]));
        }
    }
}

/// Operation-specific parameters always shadow path-shared ones of the
/// same name: the unified entry of a name some operation-specific
/// parameter carries is derived from the first such parameter — same
/// declared type, kind, docs and location — whatever the path-shared
/// parameters or object fields hold under that name. Only its
/// `overridden` flag may differ, set when an object field of the same
/// name and type collides with it.
pub proof fn lemma_local_shadows_global(
    fields: Seq<ObjectFieldV>,
    globals: Seq<ParameterV>,
    locals: Seq<ParameterV>,
    body_required: bool,
    k: int,
)
    requires
        0 <= k < locals.len(),
        forall|j: int| 0 <= j < k ==> locals[j].name != locals[k].name,
    ensures
        exists|i: int|
            0 <= i < spec_unified(fields, globals, locals, body_required).len()
                && same_except_overridden(
                #[trigger] spec_unified(fields, globals, locals, body_required)[i],
                param_entry(locals[k]),
            ),
{
    let s1 = insert_params(Seq::empty(), locals);
    let s2 = insert_params(s1, globals);
    let s3 = insert_fields(s2, fields, body_required);
    assert(!has_name(Seq::<StructFieldV>::empty(), locals[k].name));
    lemma_insert_params_carries(Seq::empty(), locals, k);
    let i = choose|i: int| 0 <= i < s1.len() && #[trigger] s1[i] == param_entry(locals[k]);
    lemma_insert_params_preserves(s1, globals);
    assert(s2[i] == param_entry(locals[k]));
    lemma_insert_fields_preserves(s2, fields, body_required);
    assert(same_except_overridden(s3[i], param_entry(locals[k])));
    assert(spec_unified(fields, globals, locals, body_required) == s3);
    assert(0 <= i < s3.len());
    assert(same_except_overridden(
        spec_unified(fields, globals, locals, body_required)[i],
        param_entry(locals[k]),
    ));
}

proof fn lemma_insert_fields_unique(acc: Seq<StructFieldV>, fs: Seq<ObjectFieldV>, br: bool)
    requires
        names_unique(acc),
    ensures
        names_unique(insert_fields(acc, fs, br)),
    decreases fs.len(),
{
    if fs.len() > 0 {
        lemma_insert_fields_unique(acc, fs.drop_last(), br);
        let prev = insert_fields(acc, fs.drop_last(), br);
        let f = fs.last();
        if has_name(prev, f.name) {
            let m = mark_overridden(prev, f.name, f.ty);
            assert forall|i: int, j: int| 0 <= i < j < m.len() implies m[i].name != m[j].name by {
                assert(m[i].name == prev[i].name);
                assert(m[j].name == prev[j].name);
            }
        }
    }
}

/// The names in a unified list are unique: collisions are resolved, never
/// left duplicated.
pub proof fn lemma_unified_names_unique(
    fields: Seq<ObjectFieldV>,
    globals: Seq<ParameterV>,
    locals: Seq<ParameterV>,
    body_required: bool,
)
    ensures
        names_unique(spec_unified(fields, globals, locals, body_required)),
{
    lemma_insert_params_unique(Seq::empty(), locals);
    lemma_insert_params_unique(insert_params(Seq::empty(), locals), globals);
    lemma_insert_fields_unique(
        insert_params(insert_params(Seq::empty(), locals), globals),
        fields,
        body_required,
    );
}

} // verus!
