//! The input analyzer: from the text of a declaration to an `InputRecord`.

use vstd::prelude::*;
use crate::model::{
    DeriveError, ErrorModel, FieldModel, GenericsModel, InputField, InputRecord, RawField, RawFieldModel,
    RecordModel,
};
use crate::syntax::{
    declared_failure, declared_field, declared_field_count, declared_generics, declared_kind,
    declared_name, declared_vis, is_record, parsed_failure, parsed_field, parsed_field_count,
    parsed_generics, parsed_name, parsed_vis, parses,
};

verus! {

/// The models of a sequence of field positions.
pub open spec fn raw_models(raw: Seq<RawField>) -> Seq<RawFieldModel> {
    Seq::new(raw.len(), |i: int| raw[i]@)
}

/// The models of a sequence of named fields.
pub open spec fn field_models(fields: Seq<InputField>) -> Seq<FieldModel> {
    Seq::new(fields.len(), |i: int| fields[i]@)
}

/// The named fields among the positions, in their order: a position without a
/// name is passed over.
pub open spec fn named_only(raw: Seq<RawFieldModel>) -> Seq<FieldModel>
    decreases raw.len(),
{
    if raw.len() == 0 {
        Seq::empty()
    } else {
        let before = named_only(raw.drop_last());
        match raw.last().name {
            Some(name) => before.push(FieldModel { name, ty: raw.last().ty }),
            None => before,
        }
    }
}

/// The field positions that the parser reads out of the text of a record.
pub open spec fn parsed_fields(src: Seq<char>) -> Seq<RawFieldModel> {
    Seq::new(
        parsed_field_count(src),
        |i: int| RawFieldModel { name: parsed_field(src, i).0, ty: parsed_field(src, i).1 },
    )
}

/// The record that the text of a declaration stands for.
pub open spec fn parsed_record(src: Seq<char>) -> RecordModel {
    RecordModel {
        name: parsed_name(src),
        vis: parsed_vis(src),
        generics: GenericsModel {
            decl: parsed_generics(src).0,
            for_impl: parsed_generics(src).1,
            for_type: parsed_generics(src).2,
            where_clause: parsed_generics(src).3,
        },
        fields: named_only(parsed_fields(src)),
    }
}

/// The error for a text that is not the declaration of a record: that it is
/// none, where the text declares something else; else the parser's message.
pub open spec fn rejection(src: Seq<char>) -> ErrorModel {
    if parses(src) {
        ErrorModel::NotRecord
    } else {
        ErrorModel::Syntax(parsed_failure(src))
    }
}

/// The error for a text that the parser refuses, given what the parser said. The
/// message is empty where it said nothing.
pub fn syntax_error(failure: Option<String>) -> (e: DeriveError)
    ensures
        e@ == ErrorModel::Syntax(
            match failure {
                Some(message) => message@,
                None => Seq::empty(),
            },
        ),
{
    match failure {
        Some(message) => DeriveError::Syntax(message),
        None => DeriveError::Syntax(String::new()),
    }
}

/// Where every position has a name, every position is a field: as many, in the
/// same order.
pub proof fn lemma_all_named_all_kept(raw: Seq<RawFieldModel>)
    requires
        forall|i: int| 0 <= i < raw.len() ==> (#[trigger] raw[i]).name is Some,
    ensures
        named_only(raw).len() == raw.len(),
        forall|i: int|
            0 <= i < raw.len() ==> #[trigger] named_only(raw)[i] == (FieldModel {
                name: raw[i].name->Some_0,
                ty: raw[i].ty,
            }),
    decreases raw.len(),
{
    if raw.len() > 0 {
        lemma_all_named_all_kept(raw.drop_last());
    }
}

/// Where no position has a name, the record has no field.
pub proof fn lemma_none_named_none_kept(raw: Seq<RawFieldModel>)
    requires
        forall|i: int| 0 <= i < raw.len() ==> (#[trigger] raw[i]).name is None,
    ensures
        named_only(raw).len() == 0,
    decreases raw.len(),
{
    if raw.len() > 0 {
        lemma_none_named_none_kept(raw.drop_last());
    }
}

/// No more fields are kept than there are positions.
pub proof fn lemma_named_at_most_all(raw: Seq<RawFieldModel>)
    ensures
        named_only(raw).len() <= raw.len(),
    decreases raw.len(),
{
    if raw.len() > 0 {
        lemma_named_at_most_all(raw.drop_last());
    }
}

/// Keeps the named fields of the positions, in their order.
pub fn select_named(raw: &Vec<RawField>) -> (fields: Vec<InputField>)
    ensures
        field_models(fields@) == named_only(raw_models(raw@)),
{
    let mut fields: Vec<InputField> = Vec::new();
    let mut i: usize = 0;
    while i < raw.len()
        invariant
            i <= raw.len(),
            field_models(fields@) == named_only(raw_models(raw@).take(i as int)),
        decreases raw.len() - i,
    {
        let ghost before = field_models(fields@);
        let position = &raw[i];
        proof {
            let next = raw_models(raw@).take(i + 1);
            assert(next.drop_last() =~= raw_models(raw@).take(i as int));
            assert(next.last() == position@);
        }
        match &position.name {
            Some(name) => {
                fields.push(InputField { name: name.clone(), ty: position.ty.clone() });
                assert(field_models(fields@) =~= before.push(
                    FieldModel { name: name@, ty: position.ty@ },
                ));
            },
            None => {},
        }
        i += 1;
    }
    proof {
        assert(raw_models(raw@).take(i as int) =~= raw_models(raw@));
    }
    fields
}

/// Reads the field positions of a record out of its text, in their order.
fn read_fields(src: &str, count: usize) -> (raw: Vec<RawField>)
    requires
        is_record(src@),
        count == parsed_field_count(src@),
    ensures
        raw_models(raw@) == parsed_fields(src@),
{
    let mut raw: Vec<RawField> = Vec::new();
    let mut i: usize = 0;
    while i < count
        invariant
            is_record(src@),
            count == parsed_field_count(src@),
            i <= count,
            raw@.len() == i,
            forall|k: int| 0 <= k < i ==> (#[trigger] raw@[k])@ == parsed_fields(src@)[k],
        decreases count - i,
    {
        match declared_field(src, i) {
            Some(position) => {
                assert(position@.name == parsed_field(src@, i as int).0);
                assert(position@.ty == parsed_field(src@, i as int).1);
                raw.push(position);
            },
            None => {
                assert(false);
            },
        }
        i += 1;
    }
    proof {
        assert(raw_models(raw@) =~= parsed_fields(src@));
    }
    raw
}

/// Analyzes the text of a declaration: its name, visibility and generics, and its
/// named fields in their order. A text that declares something other than a
/// record is rejected, and so is one that is no type declaration.
pub fn analyze(src: &str) -> (r: Result<InputRecord, DeriveError>)
    ensures
        r is Ok <==> is_record(src@),
        r matches Ok(record) ==> record@ == parsed_record(src@),
        r matches Err(e) ==> e@ == rejection(src@),
{
    match declared_kind(src) {
        Some(true) => {},
        Some(false) => {
            return Err(DeriveError::NotRecord);
        },
        None => {
            return Err(syntax_error(declared_failure(src)));
        },
    }
    match (
        declared_name(src),
        declared_vis(src),
        declared_generics(src),
        declared_field_count(src),
    ) {
        (Some(name), Some(vis), Some(generics), Some(count)) => {
            let raw = read_fields(src, count);
            let fields = select_named(&raw);
            let record = InputRecord { name, vis, generics, fields };
            assert(record@.fields =~= named_only(parsed_fields(src@)));
            Ok(record)
        },
        _ => {
            assert(false);
            Err(DeriveError::NotRecord)
        },
    }
}

} // verus!
