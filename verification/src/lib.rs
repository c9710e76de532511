//! Generator of companion builder declarations for record types.
//!
//! Given the text of a record declaration, the library produces the text of a
//! builder record, its default construction, a finalizer and one setter per
//! named field. The pipeline is `analyze` → `plan` → `emit`; `derive_builder`
//! runs all three.

use vstd::prelude::*;

pub mod model;
pub mod syntax;
pub mod analyze;
pub mod plan;
pub mod emit;
pub mod semantics;

verus! {

/// The text emitted for the text of a declaration: the declarations of the plan
/// of the record that it stands for.
pub open spec fn derived_text(input: Seq<char>) -> Seq<char> {
    emit::plan_text(plan::plan_of(analyze::parsed_record(input)))
}

/// What is emitted for a record, written out over the record's own parts. The
/// builder record is named after the record, with the suffix `Builder`, and has
/// the record's visibility and its generics as declared. The default
/// construction and the impl of the finalizer and the setters introduce the
/// generics as an impl does and name both types with the generics as a type
/// does; the where-clause stands on the latter impl alone. The finalizer is
/// named `build` and returns the record.
pub proof fn lemma_text_of_record(r: model::RecordModel)
    ensures
        emit::plan_text(plan::plan_of(r)) == emit::record_text(plan::plan_of(r))
            + emit::default_text(plan::plan_of(r)) + emit::methods_text(plan::plan_of(r)),
        emit::record_text(plan::plan_of(r)) == "#[automatically_derived]\n"@ + r.vis
            + " struct "@ + (r.name + "Builder"@) + " "@ + r.generics.decl + " {\n"@
            + emit::parts_text(
            emit::Part::Slot,
            plan::plan_of(r).fields,
            r.name + "Builder"@,
            r.generics.for_type,
        ) + "\n}\n"@,
        emit::default_text(plan::plan_of(r)) == "#[automatically_derived]\nimpl "@
            + r.generics.for_impl + " Default for "@ + (r.name + "Builder"@) + " "@
            + r.generics.for_type + " {\nfn default() -> "@ + (r.name + "Builder"@) + " "@
            + r.generics.for_type + " {\n"@ + (r.name + "Builder"@) + " {\n"@ + emit::parts_text(
            emit::Part::Empty,
            plan::plan_of(r).fields,
            r.name + "Builder"@,
            r.generics.for_type,
        ) + "\n}\n}\n}\n"@,
        emit::methods_text(plan::plan_of(r)) == "#[automatically_derived]\nimpl "@
            + r.generics.for_impl + " "@ + (r.name + "Builder"@) + " "@ + r.generics.for_type
            + " "@ + r.generics.where_clause + " {\npub fn build(self) -> "@ + r.name + " "@
            + r.generics.for_type + " {\n"@ + r.name + " {\n"@ + emit::parts_text(
            emit::Part::Final,
            plan::plan_of(r).fields,
            r.name + "Builder"@,
            r.generics.for_type,
        ) + "\n}\n}\n"@ + emit::parts_text(
            emit::Part::Setter,
            plan::plan_of(r).fields,
            r.name + "Builder"@,
            r.generics.for_type,
        ) + "\n}\n"@,
{
}

/// Expands the text of a record declaration into the text of its builder: the
/// builder record, its default construction, the finalizer and the setters. The
/// text of anything but a record is rejected.
pub fn derive_builder(input: &str) -> (r: Result<String, model::DeriveError>)
    ensures
        r is Ok <==> syntax::is_record(input@),
        r matches Ok(text) ==> text@ == derived_text(input@),
        r matches Err(e) ==> e@ == analyze::rejection(input@),
{
    match analyze::analyze(input) {
        Ok(record) => {
            let plan = plan::plan(&record);
            Ok(emit::emit(&plan))
        },
        Err(e) => Err(e),
    }
}

} // verus!
