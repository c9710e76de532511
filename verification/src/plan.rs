//! The naming and shape planner: from an `InputRecord` to a `BuilderPlan`.

use vstd::prelude::*;
use vstd::string::*;
use crate::model::{
    BuilderPlan, FieldPlan, FieldPlanModel, GenericsText, InputRecord, PlanModel, RecordModel,
};
use crate::syntax::{has_xid_continue, xid_continue};

verus! {

/// A character that continues an identifier: a letter, a digit or `_` in the
/// ASCII range; beyond it, a character that Unicode lets continue one.
pub open spec fn is_ident_char(c: char) -> bool {
    if c <= '\u{7f}' {
        ('a' <= c && c <= 'z') || ('A' <= c && c <= 'Z') || ('0' <= c && c <= '9') || c == '_'
    } else {
        xid_continue(c)
    }
}

/// The name of the option wrapper.
pub open spec fn option_name() -> Seq<char> {
    seq!['O', 'p', 't', 'i', 'o', 'n']
}

/// Whether the text of a type begins with the identifier `Option`, which ends
/// with the text or before a character that continues no identifier: the type is
/// then taken for an option wrapper. The test is on the text alone, so an alias
/// of the wrapper, or a path that leads to it, is not taken for one.
pub open spec fn names_option(ty: Seq<char>) -> bool {
    &&& ty.len() >= 6
    &&& ty.subrange(0, 6) == option_name()
    &&& (ty.len() > 6 ==> !is_ident_char(ty[6]))
}

/// The builder's name: the record's name with the suffix `Builder`.
pub open spec fn builder_name_of(name: Seq<char>) -> Seq<char> {
    name + "Builder"@
}

/// The plan for a record: the builder's name, the record's visibility and
/// generics unchanged, and one field plan per field, in the same order.
pub open spec fn plan_of(r: RecordModel) -> PlanModel {
    PlanModel {
        record_name: r.name,
        builder_name: builder_name_of(r.name),
        vis: r.vis,
        generics: r.generics,
        fields: Seq::new(
            r.fields.len(),
            |i: int|
                FieldPlanModel {
                    name: r.fields[i].name,
                    ty: r.fields[i].ty,
                    is_option: names_option(r.fields[i].ty),
                },
        ),
    }
}

/// The plan follows the record: the builder is named after it, has its
/// visibility and its generics, and has one field per field of the record, of
/// the same name and declared type, in the same order.
pub proof fn lemma_plan_follows_record(r: RecordModel)
    ensures
        plan_of(r).record_name == r.name,
        plan_of(r).builder_name == r.name + "Builder"@,
        plan_of(r).vis == r.vis,
        plan_of(r).generics == r.generics,
        plan_of(r).fields.len() == r.fields.len(),
        forall|i: int|
            0 <= i < r.fields.len() ==> {
                &&& (#[trigger] plan_of(r).fields[i]).name == r.fields[i].name
                &&& plan_of(r).fields[i].ty == r.fields[i].ty
                &&& plan_of(r).fields[i].is_option == names_option(r.fields[i].ty)
            },
{
}

/// Tells whether a character continues an identifier.
pub fn is_ident_continue(c: char) -> (r: bool)
    ensures
        r == is_ident_char(c),
{
    if c <= '\u{7f}' {
        ('a' <= c && c <= 'z') || ('A' <= c && c <= 'Z') || ('0' <= c && c <= '9') || c == '_'
    } else {
        has_xid_continue(c)
    }
}

/// Tells whether the text of a type names the option wrapper at its head.
pub fn is_option_type(ty: &str) -> (r: bool)
    ensures
        r == names_option(ty@),
{
    let n = ty.unicode_len();
    if n < 6 {
        return false;
    }
    let head = ty.get_char(0) == 'O' && ty.get_char(1) == 'p' && ty.get_char(2) == 't'
        && ty.get_char(3) == 'i' && ty.get_char(4) == 'o' && ty.get_char(5) == 'n';
    proof {
        if head {
            assert(ty@.subrange(0, 6) =~= option_name());
        } else {
            let s = ty@.subrange(0, 6);
            assert(s[0] == ty@[0] && s[1] == ty@[1] && s[2] == ty@[2] && s[3] == ty@[3] && s[4]
                == ty@[4] && s[5] == ty@[5]);
        }
    }
    if !head {
        return false;
    }
    if n == 6 {
        return true;
    }
    !is_ident_continue(ty.get_char(6))
}

fn copy_generics(g: &GenericsText) -> (r: GenericsText)
    ensures
        r@ == g@,
{
    GenericsText {
        decl: g.decl.clone(),
        for_impl: g.for_impl.clone(),
        for_type: g.for_type.clone(),
        where_clause: g.where_clause.clone(),
    }
}

/// Plans what is emitted for a record.
pub fn plan(record: &InputRecord) -> (p: BuilderPlan)
    ensures
        p@ == plan_of(record@),
{
    let mut builder_name = record.name.clone();
    builder_name.append("Builder");
    let mut fields: Vec<FieldPlan> = Vec::new();
    let mut i: usize = 0;
    while i < record.fields.len()
        invariant
            i <= record.fields.len(),
            fields@.len() == i,
            forall|k: int|
                0 <= k < i ==> (#[trigger] fields@[k])@ == (FieldPlanModel {
                    name: record.fields@[k].name@,
                    ty: record.fields@[k].ty@,
                    is_option: names_option(record.fields@[k].ty@),
                }),
        decreases record.fields.len() - i,
    {
        let field = &record.fields[i];
        let is_option = is_option_type(field.ty.as_str());
        fields.push(FieldPlan { name: field.name.clone(), ty: field.ty.clone(), is_option });
        i += 1;
    }
    let p = BuilderPlan {
        record_name: record.name.clone(),
        builder_name,
        vis: record.vis.clone(),
        generics: copy_generics(&record.generics),
        fields,
    };
    proof {
        assert(p@.fields =~= plan_of(record@).fields);
    }
    p
}

} // verus!
