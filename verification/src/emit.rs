//! The emitter: the text of the declarations that a plan stands for.

use vstd::prelude::*;
use vstd::string::*;
use crate::model::{BuilderPlan, FieldPlanModel, PlanModel};

verus! {

/// The four groups of text that are emitted once per field.
#[derive(Debug, Clone, Copy, PartialEq, Eq, Structural)]
pub enum Part {
    /// A field of the builder record.
    Slot,
    /// A field of the default-constructed builder.
    Empty,
    /// A field of the record that the finalizer returns.
    Final,
    /// A setter.
    Setter,
}

/// Text of a builder field: the name, and the declared type handed to `make_option`.
pub open spec fn slot_text(name: Seq<char>, ty: Seq<char>) -> Seq<char> {
    name + ": derive_default_builder::make_option!("@ + ty + ")"@
}

/// Text of a field of the default-constructed builder.
pub open spec fn empty_text(name: Seq<char>) -> Seq<char> {
    name + ": Default::default()"@
}

/// Text of a field of the finalizer's result: by `value_maybe_as_option`, the slot
/// unwrapped or defaulted for a plain type, the slot itself for an option type.
pub open spec fn final_text(name: Seq<char>, ty: Seq<char>) -> Seq<char> {
    name + ": derive_default_builder::value_maybe_as_option!("@ + ty + ", self."@ + name
        + ".unwrap_or_default(), self."@ + name + ")"@
}

/// Whether a field's name is written as a raw identifier, with `r#` before it.
pub open spec fn is_raw(name: Seq<char>) -> bool {
    name.len() >= 2 && name[0] == 'r' && name[1] == '#'
}

/// A field's name without the `r#` of a raw identifier.
pub open spec fn bare_name(name: Seq<char>) -> Seq<char> {
    if is_raw(name) {
        name.subrange(2, name.len() as int)
    } else {
        name
    }
}

/// The name of a field's setter: `set_` and the field's bare name, so that the
/// setter of a field `r#type` is `set_type`.
pub open spec fn setter_name(name: Seq<char>) -> Seq<char> {
    "set_"@ + bare_name(name)
}

/// Text of the setter of a field: it consumes the builder, converts its argument
/// into the declared type, stores it by `value_as_option` and returns the builder.
pub open spec fn setter_text(
    name: Seq<char>,
    ty: Seq<char>,
    builder: Seq<char>,
    for_type: Seq<char>,
) -> Seq<char> {
    "pub fn "@ + setter_name(name) + "(mut self, "@ + name + ": impl Into<"@ + ty + ">) -> "@
        + builder + " "@ + for_type + " {\nself."@ + name
        + " = derive_default_builder::value_as_option!("@ + ty + ", "@ + name
        + ".into());\nself\n}"@
}

/// Text of one part for one field.
pub open spec fn part_text(
    part: Part,
    field: FieldPlanModel,
    builder: Seq<char>,
    for_type: Seq<char>,
) -> Seq<char> {
    match part {
        Part::Slot => slot_text(field.name, field.ty),
        Part::Empty => empty_text(field.name),
        Part::Final => final_text(field.name, field.ty),
        Part::Setter => setter_text(field.name, field.ty, builder, for_type),
    }
}

/// What stands between the texts of two fields: a comma between fields of a
/// record, nothing but a line break between setters.
pub open spec fn separator(part: Part) -> Seq<char> {
    match part {
        Part::Setter => "\n"@,
        _ => ",\n"@,
    }
}

/// Text of one part for every field, in the order of the fields, with the
/// separator between each two.
pub open spec fn parts_text(
    part: Part,
    fields: Seq<FieldPlanModel>,
    builder: Seq<char>,
    for_type: Seq<char>,
) -> Seq<char>
    decreases fields.len(),
{
    if fields.len() == 0 {
        Seq::empty()
    } else if fields.len() == 1 {
        part_text(part, fields.last(), builder, for_type)
    } else {
        parts_text(part, fields.drop_last(), builder, for_type) + separator(part) + part_text(
            part,
            fields.last(),
            builder,
            for_type,
        )
    }
}

/// Text of the builder record's declaration.
pub open spec fn record_text(p: PlanModel) -> Seq<char> {
    "#[automatically_derived]\n"@ + p.vis + " struct "@ + p.builder_name + " "@ + p.generics.decl
        + " {\n"@ + parts_text(Part::Slot, p.fields, p.builder_name, p.generics.for_type)
        + "\n}\n"@
}

/// Text of the builder's default construction.
pub open spec fn default_text(p: PlanModel) -> Seq<char> {
    "#[automatically_derived]\nimpl "@ + p.generics.for_impl + " Default for "@ + p.builder_name
        + " "@ + p.generics.for_type + " {\nfn default() -> "@ + p.builder_name + " "@
        + p.generics.for_type + " {\n"@ + p.builder_name + " {\n"@ + parts_text(
        Part::Empty,
        p.fields,
        p.builder_name,
        p.generics.for_type,
    ) + "\n}\n}\n}\n"@
}

/// Text of the impl that carries the finalizer and the setters.
pub open spec fn methods_text(p: PlanModel) -> Seq<char> {
    "#[automatically_derived]\nimpl "@ + p.generics.for_impl + " "@ + p.builder_name + " "@
        + p.generics.for_type + " "@ + p.generics.where_clause + " {\npub fn build(self) -> "@
        + p.record_name + " "@ + p.generics.for_type + " {\n"@ + p.record_name + " {\n"@
        + parts_text(Part::Final, p.fields, p.builder_name, p.generics.for_type) + "\n}\n}\n"@
        + parts_text(Part::Setter, p.fields, p.builder_name, p.generics.for_type) + "\n}\n"@
}

/// Text of everything emitted for a plan: the record, its default construction,
/// then the finalizer and the setters.
pub open spec fn plan_text(p: PlanModel) -> Seq<char> {
    record_text(p) + default_text(p) + methods_text(p)
}

/// The text of a part for two runs of fields, one after the other, is the text
/// for the first, the separator, and the text for the second: fields are
/// emitted in their order, each once.
pub proof fn lemma_parts_concat(
    part: Part,
    a: Seq<FieldPlanModel>,
    b: Seq<FieldPlanModel>,
    builder: Seq<char>,
    for_type: Seq<char>,
)
    requires
        a.len() > 0,
        b.len() > 0,
    ensures
        parts_text(part, a + b, builder, for_type) == parts_text(part, a, builder, for_type)
            + separator(part) + parts_text(part, b, builder, for_type),
    decreases b.len(),
{
    assert((a + b).drop_last() =~= a + b.drop_last());
    assert((a + b).last() == b.last());
    if b.len() == 1 {
        assert(a + b.drop_last() =~= a);
    } else {
        lemma_parts_concat(part, a, b.drop_last(), builder, for_type);
        let x = parts_text(part, a, builder, for_type);
        let y = parts_text(part, b.drop_last(), builder, for_type);
        let z = part_text(part, b.last(), builder, for_type);
        let sep = separator(part);
        assert(((x + sep + y) + sep) + z =~= (x + sep) + ((y + sep) + z));
    }
}

/// What stands before the text of field `i` in a part: nothing for the first
/// field, else the text of the fields before it and a separator.
pub open spec fn text_before(
    part: Part,
    fields: Seq<FieldPlanModel>,
    i: int,
    builder: Seq<char>,
    for_type: Seq<char>,
) -> Seq<char> {
    if i == 0 {
        Seq::empty()
    } else {
        parts_text(part, fields.take(i), builder, for_type) + separator(part)
    }
}

/// What stands after the text of field `i` in a part: nothing for the last
/// field, else a separator and the text of the fields after it.
pub open spec fn text_after(
    part: Part,
    fields: Seq<FieldPlanModel>,
    i: int,
    builder: Seq<char>,
    for_type: Seq<char>,
) -> Seq<char> {
    if i + 1 == fields.len() {
        Seq::empty()
    } else {
        separator(part) + parts_text(part, fields.skip(i + 1), builder, for_type)
    }
}

/// Every field has its text in every part, between the text of the fields
/// before it and the text of those after it. So the builder record has a field,
/// and the builder a setter, for each field of the plan, in the plan's order.
pub proof fn lemma_part_of_each_field(
    part: Part,
    fields: Seq<FieldPlanModel>,
    i: int,
    builder: Seq<char>,
    for_type: Seq<char>,
)
    requires
        0 <= i < fields.len(),
    ensures
        parts_text(part, fields, builder, for_type) == text_before(
            part,
            fields,
            i,
            builder,
            for_type,
        ) + part_text(part, fields[i], builder, for_type) + text_after(
            part,
            fields,
            i,
            builder,
            for_type,
        ),
{
    let upto = fields.take(i + 1);
    let rest = fields.skip(i + 1);
    let own = part_text(part, fields[i], builder, for_type);
    let sep = separator(part);
    assert(upto.drop_last() =~= fields.take(i));
    assert(upto.last() == fields[i]);
    assert(parts_text(part, upto, builder, for_type) == text_before(
        part,
        fields,
        i,
        builder,
        for_type,
    ) + own) by {
        if i == 0 {
            assert(Seq::<char>::empty() + own =~= own);
        }
    }
    if i + 1 == fields.len() {
        assert(upto =~= fields);
        let whole = parts_text(part, fields, builder, for_type);
        assert(whole + Seq::<char>::empty() =~= whole);
    } else {
        assert(upto + rest =~= fields);
        lemma_parts_concat(part, upto, rest, builder, for_type);
        let before = text_before(part, fields, i, builder, for_type);
        let after = parts_text(part, rest, builder, for_type);
        assert(((before + own) + sep) + after =~= (before + own) + (sep + after));
    }
}

/// A plan without fields has no text in any part: its builder record and the
/// record it builds are empty, and it has no setter.
pub proof fn lemma_no_fields_no_parts(part: Part, builder: Seq<char>, for_type: Seq<char>)
    ensures
        parts_text(part, Seq::empty(), builder, for_type) == Seq::<char>::empty(),
{
}

/// Emits a field of the builder record.
pub fn builder_struct_field(ident: &str, ty: &str) -> (out: String)
    ensures
        out@ == slot_text(ident@, ty@),
{
    let mut out = String::new();
    out.append(ident);
    out.append(": derive_default_builder::make_option!(");
    out.append(ty);
    out.append(")");
    assert(out@ =~= slot_text(ident@, ty@));
    out
}

/// Emits a field of the default-constructed builder.
pub fn builder_default_field(ident: &str) -> (out: String)
    ensures
        out@ == empty_text(ident@),
{
    let mut out = String::new();
    out.append(ident);
    out.append(": Default::default()");
    assert(out@ =~= empty_text(ident@));
    out
}

/// Emits a field of the record that the finalizer returns.
pub fn fn_build_field(ident: &str, ty: &str) -> (out: String)
    ensures
        out@ == final_text(ident@, ty@),
{
    let mut out = String::new();
    out.append(ident);
    out.append(": derive_default_builder::value_maybe_as_option!(");
    out.append(ty);
    out.append(", self.");
    out.append(ident);
    out.append(".unwrap_or_default(), self.");
    out.append(ident);
    out.append(")");
    assert(out@ =~= final_text(ident@, ty@));
    out
}

/// The name of a field without the `r#` of a raw identifier.
pub fn bare_ident(ident: &str) -> (bare: &str)
    ensures
        bare@ == bare_name(ident@),
{
    let n = ident.unicode_len();
    if n >= 2 && ident.get_char(0) == 'r' && ident.get_char(1) == '#' {
        ident.substring_char(2, n)
    } else {
        ident
    }
}

/// Emits the setter of a field.
pub fn field_set_fn(ident: &str, ty: &str, builder_ident: &str, ty_generics: &str) -> (out: String)
    ensures
        out@ == setter_text(ident@, ty@, builder_ident@, ty_generics@),
{
    let mut out = String::new();
    out.append("pub fn ");
    out.append("set_");
    out.append(bare_ident(ident));
    assert(out@ =~= "pub fn "@ + setter_name(ident@));
    out.append("(mut self, ");
    out.append(ident);
    out.append(": impl Into<");
    out.append(ty);
    out.append(">) -> ");
    out.append(builder_ident);
    out.append(" ");
    out.append(ty_generics);
    out.append(" {\nself.");
    out.append(ident);
    out.append(" = derive_default_builder::value_as_option!(");
    out.append(ty);
    out.append(", ");
    out.append(ident);
    out.append(".into());\nself\n}");
    assert(out@ =~= setter_text(ident@, ty@, builder_ident@, ty_generics@));
    out
}

/// Emits one part for every field of the plan, in the order of the fields, with
/// the separator between each two.
pub fn emit_parts(plan: &BuilderPlan, part: Part) -> (out: String)
    ensures
        out@ == parts_text(part, plan@.fields, plan@.builder_name, plan@.generics.for_type),
{
    let mut out = String::new();
    let mut i: usize = 0;
    while i < plan.fields.len()
        invariant
            i <= plan.fields.len(),
            out@ == parts_text(
                part,
                plan@.fields.take(i as int),
                plan@.builder_name,
                plan@.generics.for_type,
            ),
        decreases plan.fields.len() - i,
    {
        let field = &plan.fields[i];
        let name = field.name.as_str();
        let ty = field.ty.as_str();
        let piece = match part {
            Part::Slot => builder_struct_field(name, ty),
            Part::Empty => builder_default_field(name),
            Part::Final => fn_build_field(name, ty),
            Part::Setter => field_set_fn(
                name,
                ty,
                plan.builder_name.as_str(),
                plan.generics.for_type.as_str(),
            ),
        };
        let ghost before = out@;
        if i > 0 {
            match part {
                Part::Setter => out.append("\n"),
                _ => out.append(",\n"),
            }
        }
        out.append(piece.as_str());
        proof {
            let next = plan@.fields.take(i + 1);
            assert(next.drop_last() =~= plan@.fields.take(i as int));
            assert(next.last() == plan.fields@[i as int]@);
            if i == 0 {
                assert(before =~= Seq::<char>::empty());
                assert(out@ =~= piece@);
            }
        }
        i += 1;
    }
    proof {
        assert(plan@.fields.take(i as int) =~= plan@.fields);
    }
    out
}

/// Emits the declarations that the plan stands for.
pub fn emit(plan: &BuilderPlan) -> (out: String)
    ensures
        out@ == plan_text(plan@),
{
    let builder = plan.builder_name.as_str();
    let for_impl = plan.generics.for_impl.as_str();
    let for_type = plan.generics.for_type.as_str();
    let slots = emit_parts(plan, Part::Slot);
    let empties = emit_parts(plan, Part::Empty);
    let finals = emit_parts(plan, Part::Final);
    let setters = emit_parts(plan, Part::Setter);

    let mut out = String::new();
    out.append("#[automatically_derived]\n");
    out.append(plan.vis.as_str());
    out.append(" struct ");
    out.append(builder);
    out.append(" ");
    out.append(plan.generics.decl.as_str());
    out.append(" {\n");
    out.append(slots.as_str());
    out.append("\n}\n");
    assert(out@ =~= record_text(plan@));

    let mut dflt = String::new();
    dflt.append("#[automatically_derived]\nimpl ");
    dflt.append(for_impl);
    dflt.append(" Default for ");
    dflt.append(builder);
    dflt.append(" ");
    dflt.append(for_type);
    dflt.append(" {\nfn default() -> ");
    dflt.append(builder);
    dflt.append(" ");
    dflt.append(for_type);
    dflt.append(" {\n");
    dflt.append(builder);
    dflt.append(" {\n");
    dflt.append(empties.as_str());
    dflt.append("\n}\n}\n}\n");
    assert(dflt@ =~= default_text(plan@));

    let mut methods = String::new();
    methods.append("#[automatically_derived]\nimpl ");
    methods.append(for_impl);
    methods.append(" ");
    methods.append(builder);
    methods.append(" ");
    methods.append(for_type);
    methods.append(" ");
    methods.append(plan.generics.where_clause.as_str());
    methods.append(" {\npub fn build(self) -> ");
    methods.append(plan.record_name.as_str());
    methods.append(" ");
    methods.append(for_type);
    methods.append(" {\n");
    methods.append(plan.record_name.as_str());
    methods.append(" {\n");
    methods.append(finals.as_str());
    methods.append("\n}\n}\n");
    methods.append(setters.as_str());
    methods.append("\n}\n");
    assert(methods@ =~= methods_text(plan@));

    out.append(dflt.as_str());
    out.append(methods.as_str());
    out
}

} // verus!
