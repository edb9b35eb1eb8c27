//! The emitter: renders objects, builders, their impls and dispatch
//! descriptors into target-language source text. A pure projection of
//! the unified model with no decision-making of its own.

use vstd::prelude::*;
use vstd::string::*;
use crate::builder::{
    bvs_view, spec_builder_name, spec_con_fn_name, spec_container_name, spec_generics,
    spec_has_field, spec_needs_container, spec_required, spec_struct_fields, ApiObjectBuilder,
    ApiObjectBuilderV, GenericsMode, TypeParameters,
};
use crate::fields::{sfs_view, Property, StructField, StructFieldV};
use crate::model::{opt_str_view, ApiObject, ApiObjectV, HttpMethod, ObjectFieldV, ParameterIn, TypeDesc, TypeDescV};
use crate::text::{
    escape_brackets, is_keyword, push_indent, spec_escape_brackets,
    spec_indent, spec_is_keyword, spec_trim_end, to_snek_case, trim_end_spaces,
};
use crate::walker::{push_builder_ty, push_ty_decl, push_value_map, spec_builder_ty, spec_ty_decl, spec_value_map};

verus! {

// ------------------------------------------------------------------
// Documentation blocks.
// ------------------------------------------------------------------

/// The index of the first newline in `s`, or its length when it has none.
pub open spec fn first_nl(s: Seq<char>) -> nat
    decreases s.len(),
{
    if s.len() == 0 {
        0
    } else if s[0] == '\n' {
        0
    } else {
        1 + first_nl(s.drop_first())
    }
}

proof fn lemma_first_nl_char(s: Seq<char>, k: int)
    requires
        0 <= k <= s.len(),
        forall|j: int| 0 <= j < k ==> s[j] != '\n',
        k < s.len() ==> s[k] == '\n',
    ensures
        first_nl(s) == k,
    decreases s.len(),
{
    if s.len() == 0 {
    } else if s[0] == '\n' {
        assert(k == 0);
    } else {
        assert(s[0] != '\n');
        assert(k >= 1);
        let t = s.drop_first();
        assert forall|j: int| 0 <= j < k - 1 implies t[j] != '\n' by {
            assert(t[j] == s[j + 1]);
        }
        assert(k - 1 < t.len() ==> t[k - 1] == s[k]);
        lemma_first_nl_char(t, k - 1);
    }
}

fn find_nl(s: &str) -> (r: usize)
    ensures
        r as nat == first_nl(s@),
        r <= s@.len(),
{
    let n = s.unicode_len();
    let mut i: usize = 0;
    while i < n
        invariant
            n == s@.len(),
            i <= n,
            forall|j: int| 0 <= j < i ==> s@[j] != '\n',
        decreases n - i,
    {
        let c = s.get_char(i);
        if c == '\n' {
            proof {
                lemma_first_nl_char(s@, i as int);
            }
            return i;
        }
        i = i + 1;
    }
    proof {
        lemma_first_nl_char(s@, n as int);
    }
    n
}

/// One rendered documentation line: a newline, the indent, the comment
/// marker, and the escaped, end-trimmed text when the line is not empty.
pub open spec fn spec_doc_line(line: Seq<char>, levels: nat) -> Seq<char> {
    "\n"@ + spec_indent(levels) + "///"@ + (if line.len() == 0 {
        Seq::<char>::empty()
    } else {
        " "@ + spec_trim_end(spec_escape_brackets(line))
    })
}

/// A rendered documentation body: one doc line per input line.
pub open spec fn spec_doc_body(s: Seq<char>, levels: nat) -> Seq<char>
    decreases s.len(),
{
    let i = first_nl(s);
    if i >= s.len() {
        spec_doc_line(s, levels)
    } else {
        spec_doc_line(s.take(i as int), levels) + spec_doc_body(
            s.subrange(i + 1 as int, s.len() as int),
            levels,
        )
    }
}

/// A full documentation block: nothing when there is no text, else the
/// rendered body followed by a final newline.
pub open spec fn spec_docs(stuff: Option<Seq<char>>, levels: nat) -> Seq<char> {
    match stuff {
        None => Seq::<char>::empty(),
        Some(d) => spec_doc_body(d, levels) + "\n"@,
    }
}

fn push_doc_line(f: &mut String, line: &str, levels: usize)
    ensures
        final(f)@ == old(f)@ + spec_doc_line(line@, levels as nat),
{
    f.append("\n");
    push_indent(f, levels);
    f.append("///");
    let n = line.unicode_len();
    if n == 0 {
        assert(f@ =~= old(f)@ + spec_doc_line(line@, levels as nat));
    } else {
        f.append(" ");
        let esc = escape_brackets(line);
        let trimmed = trim_end_spaces(esc.as_str());
        f.append(trimmed.as_str());
        assert(f@ =~= old(f)@ + spec_doc_line(line@, levels as nat));
    }
}

fn push_doc_body(f: &mut String, s: &str, levels: usize)
    ensures
        final(f)@ == old(f)@ + spec_doc_body(s@, levels as nat),
    decreases s@.len(),
{
    let n = s.unicode_len();
    let k = find_nl(s);
    if k >= n {
        push_doc_line(f, s, levels);
    } else {
        let line = s.substring_char(0, k);
        assert(line@ =~= s@.take(k as int));
        push_doc_line(f, line, levels);
        let rest = s.substring_char(k + 1, n);
        push_doc_body(f, rest, levels);
        assert(f@ =~= old(f)@ + spec_doc_body(s@, levels as nat));
    }
}

pub open spec fn opt_sref_view(o: Option<&str>) -> Option<Seq<char>> {
    match o {
        Some(s) => Some(s@),
        None => None,
    }
}

impl ApiObject {
    /// Writes the given text (if any) as documentation lines at the given
    /// nesting level.
    pub fn write_docs(stuff: Option<&str>, f: &mut String, levels: usize)
        ensures
            final(f)@ == old(f)@ + spec_docs(opt_sref_view(stuff), levels as nat),
    {
        match stuff {
            None => {},
            Some(d) => {
                push_doc_body(f, d, levels);
                f.append("\n");
                assert(f@ =~= old(f)@ + spec_docs(opt_sref_view(stuff), levels as nat));
            },
        }
    }
}

// ------------------------------------------------------------------
// Builder struct members.
// ------------------------------------------------------------------

/// The body field's declaration, present exactly when the body is
/// required.
pub open spec fn spec_body_field(b: ApiObjectBuilderV) -> Seq<char> {
    if b.body_required {
        "\n    body: "@ + b.object + ","@
    } else {
        Seq::<char>::empty()
    }
}

/// A parameter slot's declaration: an optional value of the declared
/// type, present exactly when the entry is a parameter.
pub open spec fn spec_param_decl(prop: Property, name: Seq<char>, ty: TypeDescV) -> Seq<char> {
    if prop.spec_is_parameter() {
        "\n    param_"@ + name + ": Option<"@ + spec_ty_decl(ty) + ">,"@
    } else {
        Seq::<char>::empty()
    }
}

impl ApiObjectBuilder {
    /// Writes the body field into the formatter if required.
    pub fn write_body_field_if_required(&self, f: &mut String)
        ensures
            final(f)@ == old(f)@ + spec_body_field(self@),
    {
        if self.body_required {
            f.append("\n    body: ");
            f.append(self.object.as_str());
            f.append(",");
            assert(f@ =~= old(f)@ + spec_body_field(self@));
        }
    }

    /// Writes the parameter slot into the formatter if required.
    pub fn write_parameter_if_required(
        &self,
        prop: Property,
        name: &str,
        ty: &TypeDesc,
        f: &mut String,
    )
        ensures
            final(f)@ == old(f)@ + spec_param_decl(prop, name@, ty@),
    {
        if prop.is_parameter() {
            f.append("\n    param_");
            f.append(name);
            f.append(": Option<");
            push_ty_decl(f, ty);
            f.append(">,");
            assert(f@ =~= old(f)@ + spec_param_decl(prop, name@, ty@));
        }
    }
}

// ------------------------------------------------------------------
// Property methods.
// ------------------------------------------------------------------

pub(crate) fn opt_deref(o: &Option<String>) -> (r: Option<&str>)
    ensures
        opt_sref_view(r) == opt_str_view(*o),
{
    match o {
        Some(s) => Some(s.as_str()),
        None => None,
    }
}

/// The head of a setter: its docs, attribute, name (escaped when it is a
/// reserved word), parameter type, and return type — the same builder
/// with this field's generic advanced to `Exists` for a mandatory entry,
/// `Self` for an optional one.
pub open spec fn spec_pm_head(b: ApiObjectBuilderV, sf: StructFieldV) -> Seq<char> {
    let fname = crate::text::snek_of(sf.name);
    spec_docs(sf.desc, 1) + "    #[inline]
    pub fn "@ + (if spec_is_keyword(fname) {
        "r#"@
    } else {
        Seq::<char>::empty()
    }) + fname + "(mut self, value: "@ + spec_builder_ty(
        b.helper_module_prefix,
        sf.ty,
        sf.strict_children,
    ) + ") -> "@ + (if sf.prop.spec_is_required() {
        spec_builder_name(b) + spec_generics(b, GenericsMode::ChangeOneName(sf.name))
    } else {
        "Self"@
    })
}

/// The written value: the converted input, and, when the entry is an
/// `overridden` parameter of a required body, a block that also
/// propagates a converted copy into the body field of the same name.
pub open spec fn spec_pm_value(b: ApiObjectBuilderV, sf: StructFieldV) -> Seq<char> {
    let fname = crate::text::snek_of(sf.name);
    let dash = sf.prop.spec_is_field() && spec_is_keyword(fname);
    if sf.overridden && b.body_required {
        "{
            let val = "@ + spec_value_map(sf.ty) + ";
            self."@
            + (if spec_needs_container(b) {
            "inner."@
        } else {
            Seq::<char>::empty()
        }) + "body."@ + fname + (if dash {
            "_"@
        } else {
            Seq::<char>::empty()
        }) + " = val.clone().into();"@ + "
            val
        }"@
    } else {
        spec_value_map(sf.ty)
    }
}

/// The route of a setter's write: to the container's parameter slot or
/// to the body field, with an optional wrapper for entries stored as
/// options.
pub open spec fn spec_pm_route(b: ApiObjectBuilderV, sf: StructFieldV) -> Seq<char> {
    let fname = crate::text::snek_of(sf.name);
    let dash = sf.prop.spec_is_field() && spec_is_keyword(fname);
    let wrapped = sf.prop.spec_is_parameter() || !sf.prop.spec_is_required();
    " {\n        self."@ + (if spec_needs_container(b) {
        "inner."@
    } else {
        Seq::<char>::empty()
    }) + (if sf.prop.spec_is_parameter() {
        "param_"@
    } else if b.body_required {
        "body."@
    } else {
        Seq::<char>::empty()
    }) + fname + (if dash {
        "_"@
    } else {
        Seq::<char>::empty()
    }) + " = "@ + (if wrapped {
        "Some("@
    } else {
        Seq::<char>::empty()
    })
}

/// The tail of a setter: for a mandatory entry, the builder value is
/// reinterpreted at the advanced typestate — sound because the phantom
/// markers carry no data and the layout does not depend on them.
pub open spec fn spec_pm_close(sf: StructFieldV) -> Seq<char> {
    let wrapped = sf.prop.spec_is_parameter() || !sf.prop.spec_is_required();
    (if wrapped {
        ")"@
    } else {
        Seq::<char>::empty()
    }) + ";\n        "@ + (if sf.prop.spec_is_required() {
        "unsafe { std::mem::transmute(self) }"@
    } else {
        "self"@
    }) + "\n    }\n"@
}

/// The body of a setter.
pub open spec fn spec_pm_body(b: ApiObjectBuilderV, sf: StructFieldV) -> Seq<char> {
    spec_pm_route(b, sf) + spec_pm_value(b, sf) + spec_pm_close(sf)
}

/// One full setter method.
pub open spec fn spec_property_method(b: ApiObjectBuilderV, sf: StructFieldV) -> Seq<char> {
    spec_pm_head(b, sf) + spec_pm_body(b, sf)
}

/// Represents the API object builder impl.
pub struct ApiObjectBuilderImpl<'a>(pub &'a ApiObjectBuilder);

impl ApiObjectBuilder {
    /// Returns a struct representing the impl for this builder.
    pub fn impl_repr(&self) -> (r: ApiObjectBuilderImpl<'_>)
        ensures
            r.0 == self,
    {
        ApiObjectBuilderImpl(self)
    }
}

impl<'a> ApiObjectBuilderImpl<'a> {
    /// Builds the method parameter type using the actual field type.
    pub fn write_builder_ty(&self, ty: &TypeDesc, req: &Vec<String>, f: &mut String)
        ensures
            final(f)@ == old(f)@ + spec_builder_ty(
                self.0@.helper_module_prefix,
                ty@,
                crate::model::strings_view(req@),
            ),
    {
        push_builder_ty(f, self.0.helper_module_prefix.as_str(), ty, req);
    }

    /// Builds the value conversion block using the actual field type.
    pub fn write_value_map(ty: &TypeDesc, f: &mut String)
        ensures
            final(f)@ == old(f)@ + spec_value_map(ty@),
    {
        push_value_map(f, ty);
    }

    /// Writes one unified entry's setter method.
    #[verifier::spinoff_prover]
    pub fn write_property_method(&self, field: &StructField, f: &mut String)
        ensures
            final(f)@ == old(f)@ + spec_property_method(self.0@, field@),
    {
        self.pm_head(field, f);
        let ghost mid = f@;
        self.pm_route(field, f);
        self.pm_value(field, f);
        pm_close(field, f);
        assert(f@ =~= mid + spec_pm_body(self.0@, field@));
        assert(f@ =~= old(f)@ + spec_property_method(self.0@, field@));
    }

    #[verifier::rlimit(60)]
    #[verifier::spinoff_prover]
    fn pm_head(&self, field: &StructField, f: &mut String)
        ensures
            final(f)@ == old(f)@ + spec_pm_head(self.0@, field@),
    {
        let field_name = to_snek_case(field.name.as_str());
        let kw = is_keyword(field_name.as_str());
        let prop_is_required = field.prop.is_required();
        ApiObject::write_docs(opt_deref(&field.desc), f, 1);
        f.append("    #[inline]\n    pub fn ");
        if kw {
            f.append("r#");
        }
        f.append(field_name.as_str());
        f.append("(mut self, value: ");
        self.write_builder_ty(&field.ty, &field.strict_children, f);
        f.append(") -> ");
        if prop_is_required {
            self.0.write_name(f);
            let _n: usize = self.0.write_generics_if_necessary(
                f,
                TypeParameters::ChangeOne(field.name.as_str()),
            );
        } else {
            f.append("Self");
        }
        assert(f@ =~= old(f)@ + spec_pm_head(self.0@, field@));
    }

    #[verifier::rlimit(60)]
    #[verifier::spinoff_prover]
    fn pm_route(&self, field: &StructField, f: &mut String)
        ensures
            final(f)@ == old(f)@ + spec_pm_route(self.0@, field@),
    {
        let field_name = to_snek_case(field.name.as_str());
        let kw = is_keyword(field_name.as_str());
        let prop_is_parameter = field.prop.is_parameter();
        let prop_is_required = field.prop.is_required();
        let needs_container = self.0.needs_container();
        let needs_trailing_dash = field.prop.is_field() && kw;
        f.append(" {\n        self.");
        if needs_container {
            f.append("inner.");
        }
        if prop_is_parameter {
            f.append("param_");
        } else if self.0.body_required {
            f.append("body.");
        }
        f.append(field_name.as_str());
        if needs_trailing_dash {
            f.append("_");
        }
        f.append(" = ");
        if prop_is_parameter || !prop_is_required {
            f.append("Some(");
        }
        assert(f@ =~= old(f)@ + spec_pm_route(self.0@, field@));
    }

    #[verifier::rlimit(60)]
    #[verifier::spinoff_prover]
    fn pm_value(&self, field: &StructField, f: &mut String)
        ensures
            final(f)@ == old(f)@ + spec_pm_value(self.0@, field@),
    {
        let field_name = to_snek_case(field.name.as_str());
        let kw = is_keyword(field_name.as_str());
        let needs_container = self.0.needs_container();
        let needs_trailing_dash = field.prop.is_field() && kw;
        if field.overridden && self.0.body_required {
            f.append("{\n            let val = ");
            Self::write_value_map(&field.ty, f);
            f.append(";\n            self.");
            if needs_container {
                f.append("inner.");
            }
            f.append("body.");
            f.append(field_name.as_str());
            if needs_trailing_dash {
                f.append("_");
            }
            f.append(" = val.clone().into();");
            f.append("\n            val\n        }");
            assert(f@ =~= old(f)@ + spec_pm_value(self.0@, field@));
        } else {
            Self::write_value_map(&field.ty, f);
            assert(f@ =~= old(f)@ + spec_pm_value(self.0@, field@));
        }
    }
}

fn pm_close(field: &StructField, f: &mut String)
    ensures
        final(f)@ == old(f)@ + spec_pm_close(field@),
{
    let prop_is_parameter = field.prop.is_parameter();
    let prop_is_required = field.prop.is_required();
    if prop_is_parameter || !prop_is_required {
        f.append(")");
    }
    f.append(";\n        ");
    if prop_is_required {
        f.append("unsafe { std::mem::transmute(self) }");
    } else {
        f.append("self");
    }
    f.append("\n    }\n");
    assert(f@ =~= old(f)@ + spec_pm_close(field@));
}

// ------------------------------------------------------------------
// Dispatch descriptors.
// ------------------------------------------------------------------

/// The head of a dispatch-descriptor impl: the output type (the declared
/// response, or the object itself when none is declared), the HTTP
/// method, and the opening of the URL template evaluation.
pub open spec fn spec_sendable_head(b: ApiObjectBuilderV, p: Seq<char>, m: HttpMethod) -> Seq<char> {
    "\nimpl "@ + b.helper_module_prefix + "client::Sendable for "@ + spec_builder_name(b)
        + spec_generics(b, GenericsMode::ChangeAll) + " {\n    type Output = "@ + (match b.response {
        Some(r) => r,
        None => b.object,
    }) + ";\n\n    const METHOD: reqwest::Method = reqwest::Method::"@ + m.spec_upper_token()
        + ";\n\n    fn path_url(&self) -> String {\n        format!(\""@ + b.base_path + p + "\""@
}

/// One path-parameter substitution in the URL template. Substitution
/// fails loudly at assembly when a non-mandatory path parameter was never
/// set: a URL cannot be partially formed.
pub open spec fn spec_path_sub_entry(b: ApiObjectBuilderV, sf: StructFieldV) -> Seq<char> {
    ", "@ + crate::text::snek_of(sf.name) + "=self."@ + (if spec_needs_container(b) {
        "inner."@
    } else {
        Seq::<char>::empty()
    }) + "param_"@ + crate::text::snek_of(sf.name) + ".as_ref().expect(\"missing parameter "@
        + crate::text::snek_of(sf.name) + "?\")"@
}

/// The substitutions for every path-location parameter, in order.
pub open spec fn spec_path_subs(b: ApiObjectBuilderV, sfs: Seq<StructFieldV>) -> Seq<char>
    decreases sfs.len(),
{
    if sfs.len() == 0 {
        Seq::empty()
    } else {
        spec_path_subs(b, sfs.drop_last()) + (if sfs.last().param_loc == Some(ParameterIn::Path) {
            spec_path_sub_entry(b, sfs.last())
        } else {
            Seq::<char>::empty()
        })
    }
}

/// The opening of the request-modification body: the body value is
/// carried as the serialized payload when it is required.
pub open spec fn spec_modify_head(b: ApiObjectBuilderV) -> Seq<char> {
    "\n\n    fn modify(&self, req: reqwest::r#async::RequestBuilder) -> reqwest::r#async::RequestBuilder {"@
        + "\n        req"@ + (if b.body_required {
        "\n        .json(&self."@ + (if spec_needs_container(b) {
            "inner."@
        } else {
            Seq::<char>::empty()
        }) + "body)"@
    } else {
        Seq::<char>::empty()
    })
}

/// One query pair: the parameter's name and its optionally stringified
/// value, omitted when unset.
pub open spec fn spec_query_entry(b: ApiObjectBuilderV, sf: StructFieldV) -> Seq<char> {
    "\n            (\""@ + sf.name + "\", self."@ + (if spec_needs_container(b) {
        "inner."@
    } else {
        Seq::<char>::empty()
    }) + "param_"@ + crate::text::snek_of(sf.name)
        + ".as_ref().map(std::string::ToString::to_string))"@
}

/// The joined query pairs of every query-location parameter, in order.
pub open spec fn spec_query(b: ApiObjectBuilderV, sfs: Seq<StructFieldV>) -> Seq<char>
    decreases sfs.len(),
{
    if sfs.len() == 0 {
        Seq::empty()
    } else {
        let prev = spec_query(b, sfs.drop_last());
        if sfs.last().param_loc == Some(ParameterIn::Query) {
            prev + (if prev.len() > 0 {
                ", "@
            } else {
                Seq::<char>::empty()
            }) + spec_query_entry(b, sfs.last())
        } else {
            prev
        }
    }
}

pub open spec fn spec_has_param(sfs: Seq<StructFieldV>) -> bool {
    exists|i: int| 0 <= i < sfs.len() && (#[trigger] sfs[i].param_loc) is Some
}

/// The full dispatch-descriptor impl of a builder bound to a concrete
/// (path, method); empty for the bare builder. The request-modification
/// body is present whenever the body is required — the finalized body
/// always rides along as the serialized payload — or any parameter
/// exists.
pub open spec fn spec_sendable(b: ApiObjectBuilderV) -> Seq<char> {
    match (b.rel_path, b.method) {
        (Some(p), Some(m)) => {
            let sfs = spec_struct_fields(b);
            spec_sendable_head(b, p, m) + spec_path_subs(b, sfs) + ")\n    }"@ + (if b.body_required
                || spec_has_param(sfs) {
                spec_modify_head(b)
            } else {
                Seq::<char>::empty()
            }) + (if spec_query(b, sfs).len() > 0 {
                "\n        .query(&["@ + spec_query(b, sfs) + "\n        ])\n    }"@
            } else {
                Seq::<char>::empty()
            }) + "\n}\n"@
        },
        _ => Seq::empty(),
    }
}

impl<'a> ApiObjectBuilderImpl<'a> {
    #[verifier::rlimit(60)]
    #[verifier::spinoff_prover]
    fn sendable_head(&self, p: &str, m: HttpMethod, f: &mut String)
        requires
            self.0@.rel_path == Some(p@),
            self.0@.method == Some(m),
        ensures
            final(f)@ == old(f)@ + spec_sendable_head(self.0@, p@, m),
    {
        f.append("\nimpl ");
        f.append(self.0.helper_module_prefix.as_str());
        f.append("client::Sendable for ");
        self.0.write_name(f);
        let _n: usize = self.0.write_generics_if_necessary(f, TypeParameters::ChangeAll);
        f.append(" {\n    type Output = ");
        match &self.0.response {
            Some(r) => f.append(r.as_str()),
            None => f.append(self.0.object.as_str()),
        }
        f.append(";\n\n    const METHOD: reqwest::Method = reqwest::Method::");
        f.append(m.upper_token());
        f.append(";\n\n    fn path_url(&self) -> String {\n        format!(\"");
        f.append(self.0.base_path.as_str());
        f.append(p);
        f.append("\"");
        assert(f@ =~= old(f)@ + spec_sendable_head(self.0@, p@, m));
    }

    fn path_sub_entry(&self, field: &StructField, f: &mut String)
        ensures
            final(f)@ == old(f)@ + spec_path_sub_entry(self.0@, field@),
    {
        let name = to_snek_case(field.name.as_str());
        let needs_container = self.0.needs_container();
        f.append(", ");
        f.append(name.as_str());
        f.append("=self.");
        if needs_container {
            f.append("inner.");
        }
        f.append("param_");
        f.append(name.as_str());
        f.append(".as_ref().expect(\"missing parameter ");
        f.append(name.as_str());
        f.append("?\")");
        assert(f@ =~= old(f)@ + spec_path_sub_entry(self.0@, field@));
    }

    fn modify_head(&self, f: &mut String)
        ensures
            final(f)@ == old(f)@ + spec_modify_head(self.0@),
    {
        let needs_container = self.0.needs_container();
        f.append("\n\n    fn modify(&self, req: reqwest::r#async::RequestBuilder) -> reqwest::r#async::RequestBuilder {");
        f.append("\n        req");
        if self.0.body_required {
            f.append("\n        .json(&self.");
            if needs_container {
                f.append("inner.");
            }
            f.append("body)");
        }
        assert(f@ =~= old(f)@ + spec_modify_head(self.0@));
    }

    fn query_entry(&self, field: &StructField, q: &mut String)
        ensures
            final(q)@ == old(q)@ + spec_query_entry(self.0@, field@),
    {
        let name = to_snek_case(field.name.as_str());
        let needs_container = self.0.needs_container();
        q.append("\n            (\"");
        q.append(field.name.as_str());
        q.append("\", self.");
        if needs_container {
            q.append("inner.");
        }
        q.append("param_");
        q.append(name.as_str());
        q.append(".as_ref().map(std::string::ToString::to_string))");
        assert(q@ =~= old(q)@ + spec_query_entry(self.0@, field@));
    }

    /// Writes the dispatch-descriptor impl for this builder (if needed).
    #[verifier::rlimit(60)]
    #[verifier::spinoff_prover]
    pub fn write_sendable_impl_if_needed(&self, f: &mut String)
        ensures
            final(f)@ == old(f)@ + spec_sendable(self.0@),
    {
        let m = match self.0.method {
            Some(m) => m,
            None => {
                return;
            },
        };
        let has_path = match &self.0.rel_path {
            Some(_) => true,
            None => false,
        };
        if !has_path {
            return;
        }
        let ghost b = self.0@;
        let sfs = self.0.struct_fields_iter();
        let ghost sfsv = sfs_view(sfs@);
        match &self.0.rel_path {
            None => {},
            Some(rp) => {
                self.sendable_head(rp.as_str(), m, f);
                let ghost after_head = f@;
                let mut i: usize = 0;
                while i < sfs.len()
                    invariant
                        i <= sfs@.len(),
                        sfsv == sfs_view(sfs@),
                        b == self.0@,
                        f@ == after_head + spec_path_subs(b, sfsv.take(i as int)),
                    decreases sfs@.len() - i,
                {
                    proof {
                        assert(sfsv.take(i + 1).drop_last() =~= sfsv.take(i as int));
                        assert(sfsv.take(i + 1).last() == sfsv[i as int]);
                        assert(sfsv[i as int] == sfs@[i as int]@);
                    }
                    let is_path = match sfs[i].param_loc {
                        Some(ParameterIn::Path) => true,
                        _ => false,
                    };
                    if is_path {
                        self.path_sub_entry(&sfs[i], f);
                    }
                    assert(f@ =~= after_head + spec_path_subs(b, sfsv.take(i + 1)));
                    i = i + 1;
                }
                proof {
                    assert(sfsv.take(sfs@.len() as int) =~= sfsv);
                }
                f.append(")\n    }");
                let ghost after_subs = f@;
                let mut query = String::new();
                let mut seen = false;
                if self.0.body_required {
                    seen = true;
                    self.modify_head(f);
                }
                let mut i: usize = 0;
                while i < sfs.len()
                    invariant
                        i <= sfs@.len(),
                        sfsv == sfs_view(sfs@),
                        b == self.0@,
                        seen == (b.body_required || spec_has_param(sfsv.take(i as int))),
                        query@ == spec_query(b, sfsv.take(i as int)),
                        f@ == after_subs + (if seen {
                            spec_modify_head(b)
                        } else {
                            Seq::<char>::empty()
                        }),
                    decreases sfs@.len() - i,
                {
                    proof {
                        assert(sfsv.take(i + 1).drop_last() =~= sfsv.take(i as int));
                        assert(sfsv.take(i + 1).last() == sfsv[i as int]);
                        assert(sfsv[i as int] == sfs@[i as int]@);
                    }
                    let has_loc = match sfs[i].param_loc {
                        Some(_) => true,
                        None => false,
                    };
                    if has_loc {
                        if !seen {
                            seen = true;
                            self.modify_head(f);
                        }
                        assert(spec_has_param(sfsv.take(i + 1)));
                    }
                    let is_query = match sfs[i].param_loc {
                        Some(ParameterIn::Query) => true,
                        _ => false,
                    };
                    if is_query {
                        if !query.as_str().is_empty() {
                            query.append(", ");
                        }
                        self.query_entry(&sfs[i], &mut query);
                        assert(query@ =~= spec_query(b, sfsv.take(i + 1)));
                    } else {
                        assert(query@ =~= spec_query(b, sfsv.take(i + 1)));
                    }
                    i = i + 1;
                }
                proof {
                    assert(sfsv.take(sfs@.len() as int) =~= sfsv);
                }
                let ghost after_modify = f@;
                if !query.as_str().is_empty() {
                    f.append("\n        .query(&[");
                    f.append(query.as_str());
                    f.append("\n        ])\n    }");
                }
                f.append("\n}\n");
                proof {
                    assert(f@ =~= old(f)@ + spec_sendable(b));
                }
            },
        }
    }
}

// ------------------------------------------------------------------
// The builder struct's text.
// ------------------------------------------------------------------

/// The builder's doc comment: it names the constructor method and the
/// operation when the builder is bound to one.
pub open spec fn spec_builder_doc(b: ApiObjectBuilderV) -> Seq<char> {
    "/// Builder "@ + (match (spec_con_fn_name(b), b.method) {
        (Some(name), Some(m)) => "created by [`"@ + b.object + "::"@ + name + "`](./struct."@
            + b.object + ".html#method."@ + name + ") method for a `"@ + m.spec_upper_token()
            + "` operation associated with `"@ + b.object + "`.\n"@,
        _ => "for [`"@ + b.object + "`](./struct."@ + b.object + ".html) object.\n"@,
    })
}

/// The phantom-marker member of one mandatory entry: a zero-sized field
/// that carries the entry's typestate and no data.
pub open spec fn spec_sf_phantom(sf: StructFieldV) -> Seq<char> {
    if sf.prop.spec_is_required() {
        "\n    "@ + (if sf.prop.spec_is_parameter() {
            "_param"@
        } else {
            Seq::<char>::empty()
        }) + "_"@ + crate::text::snek_of(sf.name) + ": core::marker::PhantomData<"@
            + crate::text::camel_of(sf.name) + ">,"@
    } else {
        Seq::<char>::empty()
    }
}

/// The members the builder struct itself declares for the unified
/// entries: parameter slots only when no container holds them, and one
/// phantom marker per mandatory entry.
pub open spec fn spec_sf_decls_main(sfs: Seq<StructFieldV>, nc: bool) -> Seq<char>
    decreases sfs.len(),
{
    if sfs.len() == 0 {
        Seq::empty()
    } else {
        spec_sf_decls_main(sfs.drop_last(), nc) + (if !nc {
            spec_param_decl(sfs.last().prop, crate::text::snek_of(sfs.last().name), sfs.last().ty)
        } else {
            Seq::<char>::empty()
        }) + spec_sf_phantom(sfs.last())
    }
}

/// The container's parameter slots.
pub open spec fn spec_sf_decls_container(sfs: Seq<StructFieldV>) -> Seq<char>
    decreases sfs.len(),
{
    if sfs.len() == 0 {
        Seq::empty()
    } else {
        spec_sf_decls_container(sfs.drop_last()) + spec_param_decl(
            sfs.last().prop,
            crate::text::snek_of(sfs.last().name),
            sfs.last().ty,
        )
    }
}

/// The container struct holding the builder's real runtime data: the body
/// and the parameter slots, independent of the phantom markers, so that a
/// state transition never alters the builder's memory shape.
pub open spec fn spec_container_text(b: ApiObjectBuilderV) -> Seq<char> {
    "#[derive(Debug, Default, Clone)]\nstruct "@ + spec_container_name(b) + " {"@
        + spec_body_field(b) + spec_sf_decls_container(spec_struct_fields(b))
}

/// The head of the builder struct's text: docs, layout attribute when a
/// container makes the struct a transparent wrapper, derives, name and
/// generic variables, and the opening brace when there is any member.
pub open spec fn spec_bs_head(b: ApiObjectBuilderV) -> Seq<char> {
    spec_builder_doc(b) + (if spec_needs_container(b) {
        "#[repr(transparent)]\n"@
    } else {
        Seq::<char>::empty()
    }) + "#[derive(Debug, Clone)]\npub struct "@ + spec_builder_name(b) + spec_generics(
        b,
        GenericsMode::Generic,
    ) + (if spec_has_field(b) || b.body_required || spec_needs_container(b) {
        " {"@
    } else {
        Seq::<char>::empty()
    })
}

/// The builder struct's members: the container member alone, or the body
/// field, followed by the unified entries' members.
pub open spec fn spec_bs_members(b: ApiObjectBuilderV) -> Seq<char> {
    (if spec_needs_container(b) {
        "\n    inner: "@ + spec_container_name(b) + ","@
    } else {
        spec_body_field(b)
    }) + spec_sf_decls_main(spec_struct_fields(b), spec_needs_container(b))
}

/// The tail of the builder struct's text: the closing brace (or the unit
/// struct's semicolon), and the container struct when one is needed.
pub open spec fn spec_bs_tail(b: ApiObjectBuilderV, container: Seq<char>) -> Seq<char> {
    (if spec_has_field(b) || b.body_required {
        "\n}\n"@
    } else {
        ";\n"@
    }) + (if spec_needs_container(b) {
        "\n"@ + container + "\n}\n"@
    } else {
        Seq::<char>::empty()
    })
}

/// The builder struct's full text.
pub open spec fn spec_builder_struct(b: ApiObjectBuilderV) -> Seq<char> {
    spec_bs_head(b) + spec_bs_members(b) + spec_bs_tail(b, spec_container_text(b))
}

impl ApiObjectBuilder {
    #[verifier::rlimit(60)]
    #[verifier::spinoff_prover]
    fn render_doc(&self, f: &mut String)
        ensures
            final(f)@ == old(f)@ + spec_builder_doc(self@),
    {
        f.append("/// Builder ");
        let con = self.con_fn_name();
        let has_m = match self.method {
            Some(_) => true,
            None => false,
        };
        match (&con, self.method) {
            (Some(name), Some(m)) => {
                f.append("created by [`");
                f.append(self.object.as_str());
                f.append("::");
                f.append(name.as_str());
                f.append("`](./struct.");
                f.append(self.object.as_str());
                f.append(".html#method.");
                f.append(name.as_str());
                f.append(") method for a `");
                f.append(m.upper_token());
                f.append("` operation associated with `");
                f.append(self.object.as_str());
                f.append("`.\n");
            },
            _ => {
                f.append("for [`");
                f.append(self.object.as_str());
                f.append("`](./struct.");
                f.append(self.object.as_str());
                f.append(".html) object.\n");
            },
        }
        assert(f@ =~= old(f)@ + spec_builder_doc(self@));
    }

    #[verifier::rlimit(60)]
    #[verifier::spinoff_prover]
    fn render_head(&self, f: &mut String)
        ensures
            final(f)@ == old(f)@ + spec_bs_head(self@),
    {
        self.render_doc(f);
        let nc = self.needs_container();
        let hf = self.has_atleast_one_field();
        if nc {
            f.append("#[repr(transparent)]\n");
        }
        f.append("#[derive(Debug, Clone)]\npub struct ");
        self.write_name(f);
        let _n: usize = self.write_generics_if_necessary(f, TypeParameters::Generic);
        if hf || self.body_required || nc {
            f.append(" {");
        }
        assert(f@ =~= old(f)@ + spec_bs_head(self@));
    }

    #[verifier::rlimit(60)]
    #[verifier::spinoff_prover]
    fn render_phantom(&self, field: &StructField, f: &mut String)
        ensures
            final(f)@ == old(f)@ + spec_sf_phantom(field@),
    {
        if field.prop.is_required() {
            let sk = to_snek_case(field.name.as_str());
            let cc = crate::text::to_camel_case(field.name.as_str());
            f.append("\n    ");
            if field.prop.is_parameter() {
                f.append("_param");
            }
            f.append("_");
            f.append(sk.as_str());
            f.append(": core::marker::PhantomData<");
            f.append(cc.as_str());
            f.append(">,");
            assert(f@ =~= old(f)@ + spec_sf_phantom(field@));
        }
    }

    #[verifier::rlimit(100)]
    #[verifier::spinoff_prover]
    fn render_members(&self, f: &mut String, container: &mut String)
        requires
            old(container)@.len() == 0,
        ensures
            final(f)@ == old(f)@ + spec_bs_members(self@),
            final(container)@ == (if spec_needs_container(self@) {
                spec_container_text(self@)
            } else {
                Seq::<char>::empty()
            }),
    {
        let nc = self.needs_container();
        if nc {
            container.append("#[derive(Debug, Default, Clone)]\nstruct ");
            self.write_container_name(container);
            container.append(" {");
            self.write_body_field_if_required(container);
            f.append("\n    inner: ");
            self.write_container_name(f);
            f.append(",");
        } else {
            self.write_body_field_if_required(f);
        }
        let ghost base_f = f@;
        let ghost base_c = container@;
        let sfs = self.struct_fields_iter();
        let ghost sfsv = sfs_view(sfs@);
        let mut i: usize = 0;
        while i < sfs.len()
            invariant
                i <= sfs@.len(),
                sfsv == sfs_view(sfs@),
                nc == spec_needs_container(self@),
                f@ == base_f + spec_sf_decls_main(sfsv.take(i as int), nc),
                container@ == base_c + (if nc {
                    spec_sf_decls_container(sfsv.take(i as int))
                } else {
                    Seq::<char>::empty()
                }),
            decreases sfs@.len() - i,
        {
            proof {
                assert(sfsv.take(i + 1).drop_last() =~= sfsv.take(i as int));
                assert(sfsv.take(i + 1).last() == sfsv[i as int]);
                assert(sfsv[i as int] == sfs@[i as int]@);
            }
            let sk = to_snek_case(sfs[i].name.as_str());
            if nc {
                self.write_parameter_if_required(sfs[i].prop, sk.as_str(), &sfs[i].ty, container);
            } else {
                self.write_parameter_if_required(sfs[i].prop, sk.as_str(), &sfs[i].ty, f);
            }
            self.render_phantom(&sfs[i], f);
            proof {
                assert(f@ =~= base_f + spec_sf_decls_main(sfsv.take(i + 1), nc));
                if nc {
                    assert(container@ =~= base_c + spec_sf_decls_container(sfsv.take(i + 1)));
                }
            }
            i = i + 1;
        }
        proof {
            assert(sfsv.take(sfs@.len() as int) =~= sfsv);
            assert(f@ =~= old(f)@ + spec_bs_members(self@));
            if nc {
                assert(container@ =~= spec_container_text(self@));
            }
        }
    }

    /// Renders the builder struct's declaration, with its container
    /// struct when one is needed.
    #[verifier::rlimit(60)]
    #[verifier::spinoff_prover]
    pub fn render(&self) -> (r: String)
        ensures
            r@ == spec_builder_struct(self@),
    {
        let mut out = String::new();
        self.render_head(&mut out);
        let ghost after_head = out@;
        let mut container = String::new();
        self.render_members(&mut out, &mut container);
        let ghost after_members = out@;
        let nc = self.needs_container();
        let hf = self.has_atleast_one_field();
        if hf || self.body_required {
            out.append("\n}\n");
        } else {
            out.append(";\n");
        }
        if nc {
            out.append("\n");
            out.append(container.as_str());
            out.append("\n}\n");
        }
        proof {
            assert(out@ =~= after_members + spec_bs_tail(self@, spec_container_text(self@)));
            assert(out@ =~= spec_builder_struct(self@));
        }
        out
    }
}

// ------------------------------------------------------------------
// The object's impl: builder constructors and finalize conversions.
// ------------------------------------------------------------------

/// One constructor's member initializer for one unified entry: a phantom
/// marker for a mandatory entry (initially `Missing`), a `None` slot for
/// an optional parameter the builder itself holds.
pub open spec fn spec_ctor_field(sf: StructFieldV, nc: bool) -> Seq<char> {
    if sf.prop.spec_is_required() {
        "\n            "@ + (if sf.prop.spec_is_parameter() {
            "_param"@
        } else {
            Seq::<char>::empty()
        }) + "_"@ + crate::text::snek_of(sf.name) + ": core::marker::PhantomData,"@
    } else if sf.prop.spec_is_parameter() && !nc {
        "\n            param_"@ + crate::text::snek_of(sf.name) + ": None,"@
    } else {
        Seq::<char>::empty()
    }
}

pub open spec fn spec_ctor_fields(sfs: Seq<StructFieldV>, nc: bool) -> Seq<char>
    decreases sfs.len(),
{
    if sfs.len() == 0 {
        Seq::empty()
    } else {
        spec_ctor_fields(sfs.drop_last(), nc) + spec_ctor_field(sfs.last(), nc)
    }
}

/// A constructor's docs and signature opening: the derived constructor
/// name, or the fixed fallback name for the bare builder.
pub open spec fn spec_method_head(b: ApiObjectBuilderV) -> Seq<char> {
    let tempbase = (if b.description is None {
        "\n"@
    } else {
        Seq::<char>::empty()
    }) + "    #[inline]\n    pub fn "@;
    match spec_con_fn_name(b) {
        Some(name) => spec_docs(b.description, 1) + tempbase + name,
        None => "\n    /// Create a builder for this object."@ + tempbase + "builder"@,
    }
}

/// One constructor: it returns the builder at the all-`Missing`
/// instantiation, with defaulted data and every phantom marker fresh.
pub open spec fn spec_builder_method(b: ApiObjectBuilderV) -> Seq<char> {
    let nc = spec_needs_container(b);
    let hf = spec_has_field(b);
    spec_method_head(b) + "() -> "@ + spec_builder_name(b) + spec_generics(
        b,
        GenericsMode::ReplaceAll,
    ) + " {\n        "@ + spec_builder_name(b) + (if hf || b.body_required {
        " {"@
    } else {
        Seq::<char>::empty()
    }) + (if nc {
        "\n            inner: Default::default(),"@
    } else if b.body_required {
        "\n            body: Default::default(),"@
    } else {
        Seq::<char>::empty()
    }) + spec_ctor_fields(spec_struct_fields(b), nc) + (if hf || b.body_required {
        "\n        }"@
    } else {
        Seq::<char>::empty()
    }) + "\n    }\n"@
}

pub open spec fn spec_builder_methods(bs: Seq<ApiObjectBuilderV>) -> Seq<char>
    decreases bs.len(),
{
    if bs.len() == 0 {
        Seq::empty()
    } else {
        spec_builder_methods(bs.drop_last()) + spec_builder_method(bs.last())
    }
}

/// The finalize conversion of one builder, emitted only when its body is
/// required, and only available at the all-`Exists` instantiation: the
/// compile-time guarantee that every mandatory field has been set.
pub open spec fn spec_into_impl(oname: Seq<char>, b: ApiObjectBuilderV) -> Seq<char> {
    if !b.body_required {
        Seq::empty()
    } else {
        "\nimpl Into<"@ + oname + "> for "@ + spec_builder_name(b) + spec_generics(
            b,
            GenericsMode::ChangeAll,
        ) + " {\n    fn into(self) -> "@ + oname + " {\n        self."@ + (if spec_needs_container(
            b,
        ) {
            "inner."@
        } else {
            Seq::<char>::empty()
        }) + "body\n    }\n}\n"@
    }
}

pub open spec fn spec_into_impls(oname: Seq<char>, bs: Seq<ApiObjectBuilderV>) -> Seq<char>
    decreases bs.len(),
{
    if bs.len() == 0 {
        Seq::empty()
    } else {
        spec_into_impls(oname, bs.drop_last()) + spec_into_impl(oname, bs.last())
    }
}

/// The object's whole impl text: constructors for every builder, then the
/// finalize conversions.
pub open spec fn spec_impl_text(oname: Seq<char>, bs: Seq<ApiObjectBuilderV>) -> Seq<char> {
    if bs.len() == 0 {
        Seq::empty()
    } else {
        "impl "@ + oname + " {"@ + spec_builder_methods(bs) + "}\n"@ + spec_into_impls(oname, bs)
    }
}

/// Represents the API object impl.
pub struct ApiObjectImpl<'a> {
    pub inner: &'a ApiObject,
    pub builders: Vec<ApiObjectBuilder>,
}

impl ApiObject {
    /// Returns a struct representing the impl for this object, with no
    /// builders attached yet.
    pub fn impl_repr(&self) -> (r: ApiObjectImpl<'_>)
        ensures
            r.inner == self,
            r.builders@.len() == 0,
    {
        ApiObjectImpl { inner: self, builders: Vec::new() }
    }
}

#[verifier::rlimit(60)]
#[verifier::spinoff_prover]
fn ctor_field(field: &StructField, nc: bool, f: &mut String)
    ensures
        final(f)@ == old(f)@ + spec_ctor_field(field@, nc),
{
    if field.prop.is_required() {
        let sk = to_snek_case(field.name.as_str());
        f.append("\n            ");
        if field.prop.is_parameter() {
            f.append("_param");
        }
        f.append("_");
        f.append(sk.as_str());
        f.append(": core::marker::PhantomData,");
        assert(f@ =~= old(f)@ + spec_ctor_field(field@, nc));
    } else if field.prop.is_parameter() && !nc {
        let sk = to_snek_case(field.name.as_str());
        f.append("\n            param_");
        f.append(sk.as_str());
        f.append(": None,");
        assert(f@ =~= old(f)@ + spec_ctor_field(field@, nc));
    }
}

#[verifier::rlimit(60)]
#[verifier::spinoff_prover]
fn builder_method_head(b: &ApiObjectBuilder, f: &mut String)
    ensures
        final(f)@ == old(f)@ + spec_method_head(b@),
{
    let con = b.con_fn_name();
    match &con {
        Some(name) => {
            ApiObject::write_docs(opt_deref(&b.description), f, 1);
            if b.description.is_none() {
                f.append("\n");
            }
            f.append("    #[inline]\n    pub fn ");
            f.append(name.as_str());
        },
        None => {
            f.append("\n    /// Create a builder for this object.");
            if b.description.is_none() {
                f.append("\n");
            }
            f.append("    #[inline]\n    pub fn ");
            f.append("builder");
        },
    }
    assert(f@ =~= old(f)@ + spec_method_head(b@));
}

#[verifier::rlimit(100)]
#[verifier::spinoff_prover]
fn builder_method(b: &ApiObjectBuilder, f: &mut String)
    ensures
        final(f)@ == old(f)@ + spec_builder_method(b@),
{
    let has_fields = b.has_atleast_one_field();
    let nc = b.needs_container();
    builder_method_head(b, f);
    f.append("() -> ");
    b.write_name(f);
    let _n: usize = b.write_generics_if_necessary(f, TypeParameters::ReplaceAll);
    f.append(" {\n        ");
    b.write_name(f);
    if has_fields || b.body_required {
        f.append(" {");
    }
    if nc {
        f.append("\n            inner: Default::default(),");
    } else if b.body_required {
        f.append("\n            body: Default::default(),");
    }
    let ghost mid = f@;
    let sfs = b.struct_fields_iter();
    let ghost sfsv = sfs_view(sfs@);
    let mut i: usize = 0;
    while i < sfs.len()
        invariant
            i <= sfs@.len(),
            sfsv == sfs_view(sfs@),
            f@ == mid + spec_ctor_fields(sfsv.take(i as int), nc),
        decreases sfs@.len() - i,
    {
        proof {
            assert(sfsv.take(i + 1).drop_last() =~= sfsv.take(i as int));
            assert(sfsv.take(i + 1).last() == sfsv[i as int]);
            assert(sfsv[i as int] == sfs@[i as int]@);
        }
        ctor_field(&sfs[i], nc, f);
        assert(f@ =~= mid + spec_ctor_fields(sfsv.take(i + 1), nc));
        i = i + 1;
    }
    proof {
        assert(sfsv.take(sfs@.len() as int) =~= sfsv);
    }
    if has_fields || b.body_required {
        f.append("\n        }");
    }
    f.append("\n    }\n");
    assert(f@ =~= old(f)@ + spec_builder_method(b@));
}

impl<'a> ApiObjectImpl<'a> {
    /// Writes the associated functions that instantiate this object's
    /// builders.
    pub fn write_builder_methods(&self, f: &mut String)
        ensures
            final(f)@ == old(f)@ + spec_builder_methods(bvs_view(self.builders@)),
    {
        let ghost bsv = bvs_view(self.builders@);
        let mut i: usize = 0;
        while i < self.builders.len()
            invariant
                i <= self.builders@.len(),
                bsv == bvs_view(self.builders@),
                f@ == old(f)@ + spec_builder_methods(bsv.take(i as int)),
            decreases self.builders@.len() - i,
        {
            proof {
                assert(bsv.take(i + 1).drop_last() =~= bsv.take(i as int));
                assert(bsv.take(i + 1).last() == bsv[i as int]);
                assert(bsv[i as int] == self.builders@[i as int]@);
            }
            builder_method(&self.builders[i], f);
            assert(f@ =~= old(f)@ + spec_builder_methods(bsv.take(i + 1)));
            i = i + 1;
        }
        proof {
            assert(bsv.take(self.builders@.len() as int) =~= bsv);
        }
    }

    /// Writes the finalize conversion for a fulfilled builder (if it has
    /// a body).
    #[verifier::rlimit(60)]
    #[verifier::spinoff_prover]
    pub fn write_into_impl(&self, builder: &ApiObjectBuilder, f: &mut String)
        ensures
            final(f)@ == old(f)@ + spec_into_impl(self.inner@.name, builder@),
    {
        if !builder.body_required {
            return;
        }
        let nc = builder.needs_container();
        f.append("\nimpl Into<");
        f.append(self.inner.name.as_str());
        f.append("> for ");
        builder.write_name(f);
        let _n: usize = builder.write_generics_if_necessary(f, TypeParameters::ChangeAll);
        f.append(" {\n    fn into(self) -> ");
        f.append(self.inner.name.as_str());
        f.append(" {\n        self.");
        if nc {
            f.append("inner.");
        }
        f.append("body\n    }\n}\n");
        assert(f@ =~= old(f)@ + spec_into_impl(self.inner@.name, builder@));
    }

    /// Renders the object's impl text.
    pub fn render(&self) -> (r: String)
        ensures
            r@ == spec_impl_text(self.inner@.name, bvs_view(self.builders@)),
    {
        let mut out = String::new();
        if self.builders.len() == 0 {
            return out;
        }
        let ghost bsv = bvs_view(self.builders@);
        out.append("impl ");
        out.append(self.inner.name.as_str());
        out.append(" {");
        self.write_builder_methods(&mut out);
        out.append("}\n");
        let ghost mid = out@;
        let mut i: usize = 0;
        while i < self.builders.len()
            invariant
                i <= self.builders@.len(),
                bsv == bvs_view(self.builders@),
                out@ == mid + spec_into_impls(self.inner@.name, bsv.take(i as int)),
            decreases self.builders@.len() - i,
        {
            proof {
                assert(bsv.take(i + 1).drop_last() =~= bsv.take(i as int));
                assert(bsv.take(i + 1).last() == bsv[i as int]);
                assert(bsv[i as int] == self.builders@[i as int]@);
            }
            self.write_into_impl(&self.builders[i], &mut out);
            assert(out@ =~= mid + spec_into_impls(self.inner@.name, bsv.take(i + 1)));
            i = i + 1;
        }
        proof {
            assert(bsv.take(self.builders@.len() as int) =~= bsv);
            assert(out@ =~= spec_impl_text(self.inner@.name, bsv));
        }
        out
    }
}

// ------------------------------------------------------------------
// The builder impl's text.
// ------------------------------------------------------------------

/// Whether one unified entry gets a setter: body fields only when the
/// body is required, and every parameter.
pub open spec fn spec_qual(b: ApiObjectBuilderV, sf: StructFieldV) -> bool {
    (b.body_required && sf.prop.spec_is_field()) || sf.prop.spec_is_parameter()
}

pub open spec fn spec_has_qual(b: ApiObjectBuilderV, sfs: Seq<StructFieldV>) -> bool {
    exists|i: int| 0 <= i < sfs.len() && spec_qual(b, #[trigger] sfs[i])
}

pub open spec fn spec_prop_methods(b: ApiObjectBuilderV, sfs: Seq<StructFieldV>) -> Seq<char>
    decreases sfs.len(),
{
    if sfs.len() == 0 {
        Seq::empty()
    } else {
        spec_prop_methods(b, sfs.drop_last()) + (if spec_qual(b, sfs.last()) {
            spec_property_method(b, sfs.last())
        } else {
            Seq::<char>::empty()
        })
    }
}

/// A list with no entry that gets a setter renders no setter text.
proof fn lemma_prop_methods_empty(b: ApiObjectBuilderV, sfs: Seq<StructFieldV>)
    requires
        !spec_has_qual(b, sfs),
    ensures
        spec_prop_methods(b, sfs) == Seq::<char>::empty(),
    decreases sfs.len(),
{
    if sfs.len() > 0 {
        assert(!spec_qual(b, sfs.last()));
        assert forall|i: int| 0 <= i < sfs.drop_last().len() implies !spec_qual(
            b,
            #[trigger] sfs.drop_last()[i],
        ) by {
            assert(sfs.drop_last()[i] == sfs[i]);
        }
        lemma_prop_methods_empty(b, sfs.drop_last());
        assert(spec_prop_methods(b, sfs) =~= Seq::<char>::empty());
    }
}

/// The full builder impl: the setters (when any entry gets one), then the
/// dispatch descriptor for path/method-bound builders.
pub open spec fn spec_builder_impl_text(b: ApiObjectBuilderV) -> Seq<char> {
    let g = spec_generics(b, GenericsMode::Generic);
    let sfs = spec_struct_fields(b);
    (if spec_has_qual(b, sfs) {
        "impl"@ + g + " "@ + spec_builder_name(b) + g + " {"@ + spec_prop_methods(b, sfs) + "}\n"@
    } else {
        Seq::<char>::empty()
    }) + spec_sendable(b)
}

impl<'a> ApiObjectBuilderImpl<'a> {
    /// Renders the builder's impl text.
    #[verifier::rlimit(100)]
    #[verifier::spinoff_prover]
    pub fn render(&self) -> (r: String)
        ensures
            r@ == spec_builder_impl_text(self.0@),
    {
        let ghost b = self.0@;
        let mut out = String::new();
        let mut generics = String::new();
        let _n: usize = self.0.write_generics_if_necessary(&mut generics, TypeParameters::Generic);
        let sfs = self.0.struct_fields_iter();
        let ghost sfsv = sfs_view(sfs@);
        let mut seen = false;
        let mut i: usize = 0;
        while i < sfs.len()
            invariant
                i <= sfs@.len(),
                sfsv == sfs_view(sfs@),
                b == self.0@,
                generics@ == spec_generics(b, GenericsMode::Generic),
                seen == spec_has_qual(b, sfsv.take(i as int)),
                out@ == (if seen {
                    "impl"@ + generics@ + " "@ + spec_builder_name(b) + generics@ + " {"@
                        + spec_prop_methods(b, sfsv.take(i as int))
                } else {
                    Seq::<char>::empty()
                }),
            decreases sfs@.len() - i,
        {
            proof {
                assert(sfsv.take(i + 1).drop_last() =~= sfsv.take(i as int));
                assert(sfsv.take(i + 1).last() == sfsv[i as int]);
                assert(sfsv[i as int] == sfs@[i as int]@);
            }
            let qual = (self.0.body_required && sfs[i].prop.is_field())
                || sfs[i].prop.is_parameter();
            if qual {
                if !seen {
                    seen = true;
                    proof {
                        lemma_prop_methods_empty(b, sfsv.take(i as int));
                    }
                    out.append("impl");
                    out.append(generics.as_str());
                    out.append(" ");
                    self.0.write_name(&mut out);
                    out.append(generics.as_str());
                    out.append(" {");
                }
                self.write_property_method(&sfs[i], &mut out);
                assert(spec_has_qual(b, sfsv.take(i + 1)));
                assert(out@ =~= "impl"@ + generics@ + " "@ + spec_builder_name(b) + generics@
                    + " {"@ + spec_prop_methods(b, sfsv.take(i + 1)));
            } else {
                assert(spec_prop_methods(b, sfsv.take(i + 1)) =~= spec_prop_methods(
                    b,
                    sfsv.take(i as int),
                ));
            }
            i = i + 1;
        }
        proof {
            assert(sfsv.take(sfs@.len() as int) =~= sfsv);
        }
        if seen {
            out.append("}\n");
        }
        self.write_sendable_impl_if_needed(&mut out);
        assert(out@ =~= spec_builder_impl_text(b));
        out
    }
}

// ------------------------------------------------------------------
// The object record's text.
// ------------------------------------------------------------------

/// The emitted record field's name: the field name in snake case, with a
/// trailing underscore when that collides with a reserved word.
pub open spec fn spec_record_field_name(name: Seq<char>) -> Seq<char> {
    if spec_is_keyword(crate::text::snek_of(name)) {
        crate::text::snek_of(name) + "_"@
    } else {
        crate::text::snek_of(name)
    }
}

/// A record field's docs, and a wire-name remap whenever the emitted
/// name differs from the declared one.
pub open spec fn spec_rf_head(fv: ObjectFieldV) -> Seq<char> {
    spec_docs(fv.description, 1) + (if fv.description is None {
        "\n"@
    } else {
        Seq::<char>::empty()
    }) + "    "@ + (if spec_record_field_name(fv.name) != fv.name {
        "#[serde(rename = \""@ + fv.name + "\")]\n    "@
    } else {
        Seq::<char>::empty()
    })
}

/// A record field's declaration: optional wrapping for a non-required
/// field and heap indirection for a boxed one.
pub open spec fn spec_rf_decl(fv: ObjectFieldV) -> Seq<char> {
    "pub "@ + spec_record_field_name(fv.name) + ": "@ + (if !fv.is_required {
        "Option<"@
    } else {
        Seq::<char>::empty()
    }) + (if fv.boxed {
        "Box<"@
    } else {
        Seq::<char>::empty()
    }) + spec_ty_decl(fv.ty) + (if fv.boxed {
        ">"@
    } else {
        Seq::<char>::empty()
    }) + (if !fv.is_required {
        ">"@
    } else {
        Seq::<char>::empty()
    }) + ","@
}

/// One record field.
pub open spec fn spec_record_field(fv: ObjectFieldV) -> Seq<char> {
    spec_rf_head(fv) + spec_rf_decl(fv)
}

pub open spec fn spec_record_fields(fs: Seq<ObjectFieldV>) -> Seq<char>
    decreases fs.len(),
{
    if fs.len() == 0 {
        Seq::empty()
    } else {
        spec_record_fields(fs.drop_last()) + spec_record_field(fs.last())
    }
}

/// The plain data record's text: one field per object field.
pub open spec fn spec_object_text(o: ApiObjectV) -> Seq<char> {
    spec_docs(o.description, 0) + "#[derive(Debug, Default, Clone, Deserialize, Serialize)]"@
        + "\npub struct "@ + o.name + " {"@ + spec_record_fields(o.fields) + (if o.fields.len()
        > 0 {
        "\n"@
    } else {
        Seq::<char>::empty()
    }) + "}\n"@
}

#[verifier::rlimit(60)]
#[verifier::spinoff_prover]
fn record_field_head(fld: &crate::model::ObjectField, nn: &String, f: &mut String)
    requires
        nn@ == spec_record_field_name(fld@.name),
    ensures
        final(f)@ == old(f)@ + spec_rf_head(fld@),
{
    ApiObject::write_docs(opt_deref(&fld.description), f, 1);
    if fld.description.is_none() {
        f.append("\n");
    }
    f.append("    ");
    if !crate::text::str_eq(nn.as_str(), fld.name.as_str()) {
        f.append("#[serde(rename = \"");
        f.append(fld.name.as_str());
        f.append("\")]\n    ");
    }
    assert(f@ =~= old(f)@ + spec_rf_head(fld@));
}

#[verifier::rlimit(60)]
#[verifier::spinoff_prover]
fn record_field_decl(fld: &crate::model::ObjectField, nn: &String, f: &mut String)
    requires
        nn@ == spec_record_field_name(fld@.name),
    ensures
        final(f)@ == old(f)@ + spec_rf_decl(fld@),
{
    f.append("pub ");
    f.append(nn.as_str());
    f.append(": ");
    if !fld.is_required {
        f.append("Option<");
    }
    if fld.boxed {
        f.append("Box<");
    }
    push_ty_decl(f, &fld.ty);
    if fld.boxed {
        f.append(">");
    }
    if !fld.is_required {
        f.append(">");
    }
    f.append(",");
    assert(f@ =~= old(f)@ + spec_rf_decl(fld@));
}

fn record_field(fld: &crate::model::ObjectField, f: &mut String)
    ensures
        final(f)@ == old(f)@ + spec_record_field(fld@),
{
    let mut nn = to_snek_case(fld.name.as_str());
    if is_keyword(nn.as_str()) {
        nn.append("_");
    }
    assert(nn@ == spec_record_field_name(fld@.name));
    record_field_head(fld, &nn, f);
    record_field_decl(fld, &nn, f);
    assert(f@ =~= old(f)@ + spec_record_field(fld@));
}

impl ApiObject {
    /// Renders the plain data record's text.
    #[verifier::rlimit(60)]
    #[verifier::spinoff_prover]
    pub fn render(&self) -> (r: String)
        ensures
            r@ == spec_object_text(self@),
    {
        let mut out = String::new();
        ApiObject::write_docs(opt_deref(&self.description), &mut out, 0);
        out.append("#[derive(Debug, Default, Clone, Deserialize, Serialize)]");
        out.append("\npub struct ");
        out.append(self.name.as_str());
        out.append(" {");
        let ghost mid = out@;
        let ghost fsv = crate::model::fields_view(self.fields@);
        let mut i: usize = 0;
        while i < self.fields.len()
            invariant
                i <= self.fields@.len(),
                fsv == crate::model::fields_view(self.fields@),
                out@ == mid + spec_record_fields(fsv.take(i as int)),
            decreases self.fields@.len() - i,
        {
            proof {
                assert(fsv.take(i + 1).drop_last() =~= fsv.take(i as int));
                assert(fsv.take(i + 1).last() == fsv[i as int]);
                assert(fsv[i as int] == self.fields@[i as int]@);
            }
            record_field(&self.fields[i], &mut out);
            assert(out@ =~= mid + spec_record_fields(fsv.take(i + 1)));
            i = i + 1;
        }
        proof {
            assert(fsv.take(self.fields@.len() as int) =~= fsv);
        }
        if self.fields.len() > 0 {
            out.append("\n");
        }
        out.append("}\n");
        assert(out@ =~= spec_object_text(self@));
        out
    }
}

} // verus!