//! The nested-type walker: classifies a declared type as plain,
//! sequence-of or mapping-of, recursively, to decide the declared type
//! text, the setter's parameter type and the value-conversion expression.

use vstd::prelude::*;
use vstd::string::*;
use crate::model::{TypeDesc, TypeDescV, Wrap};
use crate::text::camel_of;

verus! {

// ------------------------------------------------------------------
// Declared type text.
// ------------------------------------------------------------------

/// The declared type's text from container layer `i` inward.
pub open spec fn spec_ty_decl_from(t: TypeDescV, i: int) -> Seq<char>
    decreases t.wraps.len() - i,
{
    if i < 0 || i >= t.wraps.len() {
        t.leaf
    } else {
        match t.wraps[i] {
            Wrap::Sequence => "Vec<"@ + spec_ty_decl_from(t, i + 1) + ">"@,
            Wrap::Mapping => "std::collections::BTreeMap<String, "@ + spec_ty_decl_from(t, i + 1)
                + ">"@,
        }
    }
}

/// The declared type's full text.
pub open spec fn spec_ty_decl(t: TypeDescV) -> Seq<char> {
    spec_ty_decl_from(t, 0)
}

fn push_ty_decl_from(f: &mut String, t: &TypeDesc, i: usize)
    ensures
        final(f)@ == old(f)@ + spec_ty_decl_from(t@, i as int),
    decreases t.wraps@.len() - i@,
{
    if i >= t.wraps.len() {
        f.append(t.leaf.as_str());
    } else {
        match t.wraps[i] {
            Wrap::Sequence => {
                f.append("Vec<");
                push_ty_decl_from(f, t, i + 1);
                f.append(">");
                assert(f@ =~= old(f)@ + spec_ty_decl_from(t@, i as int));
            },
            Wrap::Mapping => {
                f.append("std::collections::BTreeMap<String, ");
                push_ty_decl_from(f, t, i + 1);
                f.append(">");
                assert(f@ =~= old(f)@ + spec_ty_decl_from(t@, i as int));
            },
        }
    }
}

/// Appends the declared type's text.
pub fn push_ty_decl(f: &mut String, t: &TypeDesc)
    ensures
        final(f)@ == old(f)@ + spec_ty_decl(t@),
{
    push_ty_decl_from(f, t, 0);
}

// ------------------------------------------------------------------
// Simple vs. qualified leaf types.
// ------------------------------------------------------------------

/// Whether a leaf type name is module-qualified. An unqualified name is a
/// simple (primitive or opaque) type, set through a generic conversion; a
/// qualified one names a generated object.
pub open spec fn spec_has_qualifier(s: Seq<char>) -> bool {
    exists|i: int| 0 <= i && i + 1 < s.len() && #[trigger] s[i] == ':' && s[i + 1] == ':'
}

pub fn has_qualifier(s: &str) -> (r: bool)
    ensures
        r == spec_has_qualifier(s@),
{
    let n = s.unicode_len();
    if n < 2 {
        return false;
    }
    let mut i: usize = 0;
    while i + 1 < n
        invariant
            n == s@.len(),
            i + 1 <= n,
            forall|j: int| 0 <= j && j < i ==> !(#[trigger] s@[j] == ':' && s@[j + 1] == ':'),
        decreases n - i,
    {
        let a = s.get_char(i);
        let b = s.get_char(i + 1);
        if a == ':' && b == ':' {
            return true;
        }
        i = i + 1;
    }
    assert(forall|j: int| 0 <= j && j + 1 < s@.len() ==> !(#[trigger] s@[j] == ':' && s@[j + 1] == ':'));
    false
}

// ------------------------------------------------------------------
// Setter parameter types.
// ------------------------------------------------------------------

/// The `Exists`-instantiated generic list of a required sub-builder, one
/// entry per required child, with separators.
pub open spec fn spec_child_generics(prefix: Seq<char>, req: Seq<Seq<char>>) -> Seq<char>
    decreases req.len(),
{
    if req.len() == 0 {
        Seq::empty()
    } else {
        spec_child_generics(prefix, req.drop_last()) + (if req.len() == 1 {
            Seq::<char>::empty()
        } else {
            ", "@
        }) + prefix + "generics::"@ + camel_of(req.last()) + "Exists"@
    }
}

/// The setter's parameter type for a leaf: a generic conversion for a
/// simple type; for a generated object, the object itself or, when it has
/// required children, its own builder with every required generic
/// satisfied — a nested object cannot be attached until it is complete.
pub open spec fn spec_builder_ty_leaf(prefix: Seq<char>, leaf: Seq<char>, req: Seq<Seq<char>>) -> Seq<char> {
    if !spec_has_qualifier(leaf) {
        "impl Into<"@ + leaf + ">"@
    } else {
        leaf + (if req.len() > 0 {
            "Builder<"@ + spec_child_generics(prefix, req) + ">"@
        } else {
            Seq::<char>::empty()
        })
    }
}

/// The setter's parameter type from container layer `i` inward: sequences
/// accept a finite iterator of element values, mappings a finite iterator
/// of (key, value) pairs.
pub open spec fn spec_builder_ty_from(
    prefix: Seq<char>,
    t: TypeDescV,
    req: Seq<Seq<char>>,
    i: int,
) -> Seq<char>
    decreases t.wraps.len() - i,
{
    if i < 0 || i >= t.wraps.len() {
        spec_builder_ty_leaf(prefix, t.leaf, req)
    } else {
        match t.wraps[i] {
            Wrap::Sequence => "impl Iterator<Item = "@ + spec_builder_ty_from(prefix, t, req, i + 1)
                + ">"@,
            Wrap::Mapping => "impl Iterator<Item = (String, "@ + spec_builder_ty_from(
                prefix,
                t,
                req,
                i + 1,
            ) + ")>"@,
        }
    }
}

/// The setter's full parameter type.
pub open spec fn spec_builder_ty(prefix: Seq<char>, t: TypeDescV, req: Seq<Seq<char>>) -> Seq<char> {
    spec_builder_ty_from(prefix, t, req, 0)
}

fn push_builder_ty_from(f: &mut String, prefix: &str, t: &TypeDesc, req: &Vec<String>, i: usize)
    ensures
        final(f)@ == old(f)@ + spec_builder_ty_from(
            prefix@,
            t@,
            crate::model::strings_view(req@),
            i as int,
        ),
    decreases t.wraps@.len() - i@,
{
    let ghost reqv = crate::model::strings_view(req@);
    if i >= t.wraps.len() {
        if !has_qualifier(t.leaf.as_str()) {
            f.append("impl Into<");
            f.append(t.leaf.as_str());
            f.append(">");
            assert(f@ =~= old(f)@ + spec_builder_ty_leaf(prefix@, t@.leaf, reqv));
        } else {
            f.append(t.leaf.as_str());
            if req.len() > 0 {
                f.append("Builder<");
                let mut k: usize = 0;
                while k < req.len()
                    invariant
                        k <= req@.len(),
                        reqv == crate::model::strings_view(req@),
                        reqv.len() == req@.len(),
                        f@ == old(f)@ + t@.leaf + "Builder<"@ + spec_child_generics(
                            prefix@,
                            reqv.take(k as int),
                        ),
                    decreases req@.len() - k,
                {
                    proof {
                        assert(reqv.take(k + 1).drop_last() =~= reqv.take(k as int));
                        assert(reqv[k as int] == req@[k as int]@);
                        assert(reqv.take(k + 1).last() == reqv[k as int]);
                    }
                    if k > 0 {
                        f.append(", ");
                    }
                    f.append(prefix);
                    f.append("generics::");
                    let cc = crate::text::to_camel_case(req[k].as_str());
                    f.append(cc.as_str());
                    f.append("Exists");
                    proof {
                        assert(f@ =~= old(f)@ + t@.leaf + "Builder<"@ + spec_child_generics(
                            prefix@,
                            reqv.take(k + 1),
                        ));
                    }
                    k = k + 1;
                }
                proof {
                    assert(reqv.take(reqv.len() as int) =~= reqv);
                }
                f.append(">");
                assert(f@ =~= old(f)@ + spec_builder_ty_leaf(prefix@, t@.leaf, reqv));
            } else {
                assert(f@ =~= old(f)@ + spec_builder_ty_leaf(prefix@, t@.leaf, reqv));
            }
        }
    } else {
        match t.wraps[i] {
            Wrap::Sequence => {
                f.append("impl Iterator<Item = ");
                push_builder_ty_from(f, prefix, t, req, i + 1);
                f.append(">");
                assert(f@ =~= old(f)@ + spec_builder_ty_from(prefix@, t@, reqv, i as int));
            },
            Wrap::Mapping => {
                f.append("impl Iterator<Item = (String, ");
                push_builder_ty_from(f, prefix, t, req, i + 1);
                f.append(")>");
                assert(f@ =~= old(f)@ + spec_builder_ty_from(prefix@, t@, reqv, i as int));
            },
        }
    }
}

/// Appends the setter's parameter type for the given declared type and
/// required-children list.
pub fn push_builder_ty(f: &mut String, prefix: &str, t: &TypeDesc, req: &Vec<String>)
    ensures
        final(f)@ == old(f)@ + spec_builder_ty(prefix@, t@, crate::model::strings_view(req@)),
{
    push_builder_ty_from(f, prefix, t, req, 0);
}

// ------------------------------------------------------------------
// Value conversion expressions.
// ------------------------------------------------------------------

/// The value-conversion text from container layer `i` inward: sequences
/// convert element-wise and collect eagerly; mappings convert each value
/// and collect into an ordered mapping by key; a leaf converts generically.
pub open spec fn spec_value_map_from(t: TypeDescV, i: int) -> Seq<char>
    decreases t.wraps.len() - i,
{
    if i < 0 || i >= t.wraps.len() {
        "value.into()"@
    } else {
        match t.wraps[i] {
            Wrap::Sequence => "value.map(|value| "@ + spec_value_map_from(t, i + 1)
                + ").collect::<Vec<_>>()"@,
            Wrap::Mapping => "value.map(|(key, value)| (key, "@ + spec_value_map_from(t, i + 1)
                + ")).collect::<std::collections::BTreeMap<_, _>>()"@,
        }
    }
}

/// The full value-conversion text.
pub open spec fn spec_value_map(t: TypeDescV) -> Seq<char> {
    spec_value_map_from(t, 0)
}

fn push_value_map_from(f: &mut String, t: &TypeDesc, i: usize)
    ensures
        final(f)@ == old(f)@ + spec_value_map_from(t@, i as int),
    decreases t.wraps@.len() - i@,
{
    if i >= t.wraps.len() {
        f.append("value.into()");
    } else {
        match t.wraps[i] {
            Wrap::Sequence => {
                f.append("value.map(|value| ");
                push_value_map_from(f, t, i + 1);
                f.append(").collect::<Vec<_>>()");
                assert(f@ =~= old(f)@ + spec_value_map_from(t@, i as int));
            },
            Wrap::Mapping => {
                f.append("value.map(|(key, value)| (key, ");
                push_value_map_from(f, t, i + 1);
                f.append(")).collect::<std::collections::BTreeMap<_, _>>()");
                assert(f@ =~= old(f)@ + spec_value_map_from(t@, i as int));
            },
        }
    }
}

/// Appends the value-conversion text for the given declared type.
pub fn push_value_map(f: &mut String, t: &TypeDesc)
    ensures
        final(f)@ == old(f)@ + spec_value_map(t@),
{
    push_value_map_from(f, t, 0);
}

} // verus!
