use openapi_codegen::builder::ApiObjectBuilder;
use openapi_codegen::fields::Property;
use openapi_codegen::model::{
    ApiObject, HttpMethod, ObjectField, OpRequirement, Parameter, ParameterIn, PathOps, TypeDesc,
    Wrap,
};
use openapi_codegen::typestate::{BuilderState, FieldState};

fn plain(leaf: &str) -> TypeDesc {
    TypeDesc { wraps: Vec::new(), leaf: leaf.to_string() }
}

fn field(name: &str, ty: TypeDesc, required: bool) -> ObjectField {
    ObjectField {
        name: name.to_string(),
        ty,
        description: None,
        is_required: required,
        boxed: false,
        children_req: Vec::new(),
    }
}

fn param(name: &str, ty: TypeDesc, required: bool, presence: ParameterIn) -> Parameter {
    Parameter { name: name.to_string(), description: None, ty, required, presence }
}

fn op(params: Vec<Parameter>, body_required: bool) -> OpRequirement {
    OpRequirement { id: None, description: None, params, body_required, response_ty_path: None }
}

fn widget() -> ApiObject {
    let mut o = ApiObject::with_name("Widget".to_string());
    o.fields.push(field("id", plain("String"), true));
    o
}

// Scenario: a single required field yields exactly one phantom parameter,
// a constructor at the all-Missing instantiation, and a finalize
// conversion only at the all-Exists instantiation.
#[test]
fn single_required_field_builder_struct() {
    let o = widget();
    let builders = o.builders("crate::", "");
    assert_eq!(builders.len(), 1);
    let text = builders[0].render();
    assert_eq!(
        text,
        "/// Builder for [`Widget`](./struct.Widget.html) object.\n\
         #[repr(transparent)]\n\
         #[derive(Debug, Clone)]\n\
         pub struct WidgetBuilder<Id> {\n    inner: WidgetBuilderContainer,\n    _id: core::marker::PhantomData<Id>,\n}\n\n\
         #[derive(Debug, Default, Clone)]\n\
         struct WidgetBuilderContainer {\n    body: Widget,\n}\n"
    );
}

#[test]
fn single_required_field_impl_text() {
    let o = widget();
    let builders = o.builders("crate::", "");
    let mut im = o.impl_repr();
    im.builders = builders;
    let text = im.render();
    assert_eq!(
        text,
        "impl Widget {\n    /// Create a builder for this object.\n    #[inline]\n    pub fn builder() -> WidgetBuilder<crate::generics::MissingId> {\n        WidgetBuilder {\n            inner: Default::default(),\n            _id: core::marker::PhantomData,\n        }\n    }\n}\n\nimpl Into<Widget> for WidgetBuilder<crate::generics::IdExists> {\n    fn into(self) -> Widget {\n        self.inner.body\n    }\n}\n"
    );
}

#[test]
fn single_required_field_setter_advances_typestate() {
    let o = widget();
    let builders = o.builders("crate::", "");
    let text = builders[0].impl_repr().render();
    assert_eq!(
        text,
        "impl<Id> WidgetBuilder<Id> {    #[inline]\n    pub fn id(mut self, value: impl Into<String>) -> WidgetBuilder<crate::generics::IdExists> {\n        self.inner.body.id = value.into();\n        unsafe { std::mem::transmute(self) }\n    }\n}\n"
    );
}

// An object with zero mandatory fields gets a builder with no phantom
// parameters, finalizable immediately after construction.
#[test]
fn zero_mandatory_fields_builder() {
    let mut o = ApiObject::with_name("Empty".to_string());
    o.fields.push(field("note", plain("String"), false));
    let builders = o.builders("crate::", "");
    assert_eq!(builders.len(), 1);
    let text = builders[0].render();
    assert!(text.contains("pub struct EmptyBuilder {"));
    assert!(!text.contains("PhantomData"));
    let mut im = o.impl_repr();
    im.builders = builders;
    let impl_text = im.render();
    assert!(impl_text.contains("pub fn builder() -> EmptyBuilder {"));
    assert!(impl_text.contains("\nimpl Into<Empty> for EmptyBuilder {"));
    assert!(BuilderState::initial(0).finalizable());
}

// The product state machine: a setter advances exactly one field from
// Missing to Exists; finalize is available if and only if all are Exists.
#[test]
fn typestate_machine_transitions() {
    let s0 = BuilderState::initial(2);
    assert_eq!(s0.states, vec![FieldState::Missing, FieldState::Missing]);
    assert!(!s0.finalizable());
    let s1 = s0.advance(0);
    assert_eq!(s1.states, vec![FieldState::Exists, FieldState::Missing]);
    assert!(!s1.finalizable());
    let s2 = s1.advance(1);
    assert_eq!(s2.states, vec![FieldState::Exists, FieldState::Exists]);
    assert!(s2.finalizable());
    // advancing an already-set field loses no progress
    assert!(s2.advance(0).finalizable());
}

// Unification is deterministic and operation-specific parameters shadow
// path-shared ones of the same name.
#[test]
fn unification_is_deterministic_and_local_shadows_global() {
    let b = ApiObjectBuilder {
        idx: 0,
        multiple_builders_exist: false,
        base_path: String::new(),
        rel_path: None,
        helper_module_prefix: String::new(),
        op_id: None,
        method: None,
        description: None,
        object: "T".to_string(),
        body_required: true,
        fields: vec![field("a", plain("String"), true)],
        global_params: vec![param("x", plain("i64"), true, ParameterIn::Path)],
        local_params: vec![param("x", plain("String"), false, ParameterIn::Query)],
        response: None,
    };
    let u1 = b.struct_fields_iter();
    let u2 = b.struct_fields_iter();
    let names1: Vec<&str> = u1.iter().map(|sf| sf.name.as_str()).collect();
    let names2: Vec<&str> = u2.iter().map(|sf| sf.name.as_str()).collect();
    assert_eq!(names1, names2);
    assert_eq!(names1, vec!["x", "a"]);
    // the entry for "x" comes from the operation-specific parameter
    assert_eq!(u1[0].prop, Property::OptionalParam);
    assert_eq!(u1[0].param_loc, Some(ParameterIn::Query));
    assert_eq!(u1[0].ty.leaf, "String");
}

// A field is only mandatory when the body itself is required.
#[test]
fn optional_body_never_forces_a_field() {
    let b = ApiObjectBuilder {
        idx: 0,
        multiple_builders_exist: false,
        base_path: String::new(),
        rel_path: None,
        helper_module_prefix: String::new(),
        op_id: None,
        method: Some(HttpMethod::Get),
        description: None,
        object: "T".to_string(),
        body_required: false,
        fields: vec![field("a", plain("String"), true)],
        global_params: Vec::new(),
        local_params: Vec::new(),
        response: None,
    };
    let u = b.struct_fields_iter();
    assert_eq!(u[0].prop, Property::OptionalField);
    assert!(!b.needs_container());
}

// Scenario: path + query parameters produce a dispatch descriptor with
// the substituted URL template and one query pair per query parameter.
#[test]
fn path_and_query_dispatch_descriptor() {
    let mut o = ApiObject::with_name("Item".to_string());
    o.paths.push((
        "/items/{id}".to_string(),
        PathOps {
            req: vec![(
                HttpMethod::Get,
                op(vec![param("limit", plain("i64"), false, ParameterIn::Query)], false),
            )],
            params: vec![param("id", plain("String"), true, ParameterIn::Path)],
        },
    ));
    let builders = o.builders("crate::", "http://x");
    assert_eq!(builders.len(), 2);
    let b = &builders[1];
    assert_eq!(b.con_fn_name(), Some("get".to_string()));
    let text = b.impl_repr().render();
    assert!(text.contains("impl crate::client::Sendable for ItemGetBuilder<crate::generics::IdExists> {"));
    assert!(text.contains("const METHOD: reqwest::Method = reqwest::Method::GET;"));
    assert!(text.contains(
        "format!(\"http://x/items/{id}\", id=self.inner.param_id.as_ref().expect(\"missing parameter id?\"))"
    ));
    assert!(text.contains(
        "(\"limit\", self.inner.param_limit.as_ref().map(std::string::ToString::to_string))"
    ));
    assert!(text.contains(".query(&["));
}

// Scenario: a field and a query parameter of the same name and type
// collapse into one overridden entry whose setter updates both.
#[test]
fn field_parameter_collision_is_overridden() {
    let mut o = ApiObject::with_name("Thing".to_string());
    o.fields.push(field("name", plain("String"), false));
    o.paths.push((
        "/things".to_string(),
        PathOps {
            req: vec![(
                HttpMethod::Post,
                op(vec![param("name", plain("String"), false, ParameterIn::Query)], true),
            )],
            params: Vec::new(),
        },
    ));
    let builders = o.builders("crate::", "");
    let b = &builders[1];
    let u = b.struct_fields_iter();
    assert_eq!(u.len(), 1);
    assert!(u[0].overridden);
    assert_eq!(u[0].prop, Property::OptionalParam);
    let text = b.impl_repr().render();
    assert!(text.contains("self.param_name = Some({\n            let val = value.into();"));
    assert!(text.contains("self.body.name = val.clone().into();"));
    assert!(text.contains("\n            val\n        })"));
}

// A colliding field of a different type is dropped without a diagnostic,
// and the parameter entry stays unmarked.
#[test]
fn field_parameter_type_mismatch_drops_field() {
    let b = ApiObjectBuilder {
        idx: 0,
        multiple_builders_exist: false,
        base_path: String::new(),
        rel_path: None,
        helper_module_prefix: String::new(),
        op_id: None,
        method: None,
        description: None,
        object: "T".to_string(),
        body_required: true,
        fields: vec![field("name", plain("i64"), false)],
        global_params: Vec::new(),
        local_params: vec![param("name", plain("String"), false, ParameterIn::Query)],
        response: None,
    };
    let u = b.struct_fields_iter();
    assert_eq!(u.len(), 1);
    assert!(!u[0].overridden);
    assert_eq!(u[0].ty.leaf, "String");
}

// Scenario: a sequence-of-string field accepts a finite iterator and its
// setter collects it element-wise into the declared sequence type.
#[test]
fn nested_sequence_setter() {
    let mut o = ApiObject::with_name("Tagged".to_string());
    o.fields.push(field(
        "tags",
        TypeDesc { wraps: vec![Wrap::Sequence], leaf: "String".to_string() },
        false,
    ));
    let builders = o.builders("crate::", "");
    let text = builders[0].impl_repr().render();
    assert!(text.contains("pub fn tags(mut self, value: impl Iterator<Item = impl Into<String>>) -> Self {"));
    assert!(text.contains("self.body.tags = Some(value.map(|value| value.into()).collect::<Vec<_>>());"));
}

// Arbitrary nesting: mapping-of-sequence-of string.
#[test]
fn nested_mapping_of_sequence_setter() {
    let mut o = ApiObject::with_name("Deep".to_string());
    o.fields.push(field(
        "index",
        TypeDesc { wraps: vec![Wrap::Mapping, Wrap::Sequence], leaf: "String".to_string() },
        false,
    ));
    let builders = o.builders("crate::", "");
    let text = builders[0].impl_repr().render();
    assert!(text.contains(
        "value: impl Iterator<Item = (String, impl Iterator<Item = impl Into<String>>)>"
    ));
    assert!(text.contains(
        "value.map(|(key, value)| (key, value.map(|value| value.into()).collect::<Vec<_>>())).collect::<std::collections::BTreeMap<_, _>>()"
    ));
}

// A nested object with required children demands a finalized sub-builder.
#[test]
fn nested_object_requires_satisfied_builder() {
    let mut o = ApiObject::with_name("Parent".to_string());
    o.fields.push(ObjectField {
        name: "widget".to_string(),
        ty: plain("crate::Widget"),
        description: None,
        is_required: false,
        boxed: false,
        children_req: vec!["id".to_string()],
    });
    let builders = o.builders("crate::", "");
    let text = builders[0].impl_repr().render();
    assert!(text.contains(
        "pub fn widget(mut self, value: crate::WidgetBuilder<crate::generics::IdExists>) -> Self {"
    ));
}

// Constructor naming: a unique method gets the method's name; several
// builders without identifiers get ordinal suffixes after the first.
#[test]
fn constructor_names_by_method_and_ordinal() {
    let mut o = ApiObject::with_name("Multi".to_string());
    o.paths.push((
        "/a".to_string(),
        PathOps { req: vec![(HttpMethod::Get, op(Vec::new(), false))], params: Vec::new() },
    ));
    o.paths.push((
        "/b".to_string(),
        PathOps { req: vec![(HttpMethod::Get, op(Vec::new(), false))], params: Vec::new() },
    ));
    let builders = o.builders("crate::", "");
    assert_eq!(builders.len(), 3);
    assert_eq!(builders[0].con_fn_name(), None);
    assert_eq!(builders[1].con_fn_name(), Some("get".to_string()));
    assert_eq!(builders[2].con_fn_name(), Some("get_1".to_string()));
}

// Constructor naming is per HTTP method: a method with a single builder
// is named after the method, even when another method also touches the
// object.
#[test]
fn constructor_named_per_method() {
    let mut o = ApiObject::with_name("Mixed".to_string());
    o.paths.push((
        "/a".to_string(),
        PathOps { req: vec![(HttpMethod::Get, op(Vec::new(), false))], params: Vec::new() },
    ));
    o.paths.push((
        "/b".to_string(),
        PathOps { req: vec![(HttpMethod::Post, op(Vec::new(), true))], params: Vec::new() },
    ));
    let builders = o.builders("crate::", "");
    assert_eq!(builders.len(), 3);
    assert_eq!(builders[1].con_fn_name(), Some("get".to_string()));
    assert_eq!(builders[2].con_fn_name(), Some("post".to_string()));
}

// The method rule has priority over the operation identifier: a method
// with a single builder is named after the method even when the
// operation declares an identifier.
#[test]
fn unique_method_outranks_operation_id() {
    let mut o = ApiObject::with_name("Solo".to_string());
    let mut get_op = op(Vec::new(), false);
    get_op.id = Some("listSolo".to_string());
    o.paths.push((
        "/solo".to_string(),
        PathOps { req: vec![(HttpMethod::Get, get_op)], params: Vec::new() },
    ));
    let builders = o.builders("crate::", "");
    assert_eq!(builders[1].con_fn_name(), Some("get".to_string()));
}

// Constructor naming: an explicit operation identifier wins when the
// method has several builders.
#[test]
fn constructor_names_by_operation_id() {
    let mut o = ApiObject::with_name("Pets".to_string());
    let mut list_op = op(Vec::new(), false);
    list_op.id = Some("listPets".to_string());
    let mut find_op = op(Vec::new(), false);
    find_op.id = Some("findPet".to_string());
    o.paths.push((
        "/pets".to_string(),
        PathOps { req: vec![(HttpMethod::Get, list_op)], params: Vec::new() },
    ));
    o.paths.push((
        "/pets/{id}".to_string(),
        PathOps { req: vec![(HttpMethod::Get, find_op)], params: Vec::new() },
    ));
    let builders = o.builders("crate::", "");
    assert_eq!(builders[1].con_fn_name(), Some("list_pets".to_string()));
    assert_eq!(builders[2].con_fn_name(), Some("find_pet".to_string()));
}

// The ordinal suffix renders in decimal in the builder type's name.
#[test]
fn builder_name_carries_decimal_ordinal() {
    let b = ApiObjectBuilder {
        idx: 12,
        multiple_builders_exist: true,
        base_path: String::new(),
        rel_path: None,
        helper_module_prefix: String::new(),
        op_id: None,
        method: Some(HttpMethod::Get),
        description: None,
        object: "Thing".to_string(),
        body_required: false,
        fields: Vec::new(),
        global_params: Vec::new(),
        local_params: Vec::new(),
        response: None,
    };
    let mut s = String::new();
    b.write_name(&mut s);
    assert_eq!(s, "ThingGetBuilder12");
    assert_eq!(b.con_fn_name(), Some("get_12".to_string()));
}

// Documentation rendering escapes brackets, trims line ends and indents.
#[test]
fn docs_escape_and_trim() {
    let mut s = String::new();
    ApiObject::write_docs(Some("Hello [World]  \n\nnext"), &mut s, 1);
    assert_eq!(s, "\n    /// Hello \\[World\\]\n    ///\n    /// next\n");
}

// The record render remaps reserved and case-converted names to their
// wire names, and wraps optional and boxed fields.
#[test]
fn record_render_remaps_names() {
    let mut o = ApiObject::with_name("Gadget".to_string());
    o.fields.push(field("id", plain("String"), true));
    o.fields.push(field("type", plain("String"), false));
    o.fields.push(ObjectField {
        name: "innerGadget".to_string(),
        ty: plain("Gadget"),
        description: None,
        is_required: false,
        boxed: true,
        children_req: Vec::new(),
    });
    let text = o.render();
    assert_eq!(
        text,
        "#[derive(Debug, Default, Clone, Deserialize, Serialize)]\npub struct Gadget {\n    pub id: String,\n    #[serde(rename = \"type\")]\n    pub type_: Option<String>,\n    #[serde(rename = \"innerGadget\")]\n    pub inner_gadget: Option<Box<Gadget>>,\n}\n"
    );
}

// A reserved-word field name keeps a raw-identifier setter that writes
// the underscore-suffixed record field.
#[test]
fn keyword_field_setter_is_escaped() {
    let mut o = ApiObject::with_name("Kw".to_string());
    o.fields.push(field("type", plain("String"), false));
    let builders = o.builders("crate::", "");
    let text = builders[0].impl_repr().render();
    assert!(text.contains("pub fn r#type(mut self, value: impl Into<String>) -> Self {"));
    assert!(text.contains("self.body.type_ = Some(value.into());"));
}

// Case conversion feeds both the snake-case setter name and the
// camel-case phantom marker name.
#[test]
fn case_conversion_in_generated_names() {
    let mut o = ApiObject::with_name("Cased".to_string());
    o.fields.push(field("someField", plain("String"), true));
    let builders = o.builders("crate::", "");
    let text = builders[0].render();
    assert!(text.contains("pub struct CasedBuilder<SomeField>"));
    assert!(text.contains("_some_field: core::marker::PhantomData<SomeField>,"));
    let impl_text = builders[0].impl_repr().render();
    assert!(impl_text.contains(
        "pub fn some_field(mut self, value: impl Into<String>) -> CasedBuilder<crate::generics::SomeFieldExists> {"
    ));
}

// The body value rides along as the serialized payload when required.
#[test]
fn body_required_is_serialized_in_dispatch() {
    let mut o = ApiObject::with_name("Doc".to_string());
    o.fields.push(field("id", plain("String"), false));
    o.paths.push((
        "/docs".to_string(),
        PathOps {
            req: vec![(
                HttpMethod::Put,
                op(vec![param("v", plain("i64"), false, ParameterIn::Query)], true),
            )],
            params: Vec::new(),
        },
    ));
    let builders = o.builders("crate::", "");
    let text = builders[1].impl_repr().render();
    assert!(text.contains("\n        req\n        .json(&self.body)"));
    assert!(text.contains("const METHOD: reqwest::Method = reqwest::Method::PUT;"));
}

// A body-required operation carries the finalized body as the serialized
// payload even when it has no parameters at all.
#[test]
fn body_without_parameters_is_still_serialized() {
    let mut o = ApiObject::with_name("Note".to_string());
    o.fields.push(field("text", plain("String"), false));
    o.paths.push((
        "/notes".to_string(),
        PathOps { req: vec![(HttpMethod::Post, op(Vec::new(), true))], params: Vec::new() },
    ));
    let builders = o.builders("crate::", "");
    let text = builders[1].impl_repr().render();
    assert!(text.contains(
        "fn modify(&self, req: reqwest::r#async::RequestBuilder) -> reqwest::r#async::RequestBuilder {"
    ));
    assert!(text.contains("\n        req\n        .json(&self.body)"));
}

// The dispatch descriptor's output type is the declared response type, or
// the object itself when none is declared.
#[test]
fn response_type_overrides_output() {
    let mut o = ApiObject::with_name("Job".to_string());
    let mut get_op = op(Vec::new(), false);
    get_op.response_ty_path = Some("JobStatus".to_string());
    o.paths.push((
        "/jobs".to_string(),
        PathOps { req: vec![(HttpMethod::Get, get_op)], params: Vec::new() },
    ));
    let builders = o.builders("crate::", "");
    let text = builders[1].impl_repr().render();
    assert!(text.contains("type Output = JobStatus;"));
}
