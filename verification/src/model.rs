//! The data that one expansion works on, and its mathematical model.

use vstd::prelude::*;

verus! {

/// Model of a named field: its name and the text of its declared type.
pub struct FieldModel {
    pub name: Seq<char>,
    pub ty: Seq<char>,
}

/// Model of a field position as declared: the name is absent for a tuple position.
pub struct RawFieldModel {
    pub name: Option<Seq<char>>,
    pub ty: Seq<char>,
}

/// Model of a generic parameter list in the three forms in which it is emitted,
/// and of the where-clause.
pub struct GenericsModel {
    pub decl: Seq<char>,
    pub for_impl: Seq<char>,
    pub for_type: Seq<char>,
    pub where_clause: Seq<char>,
}

/// Model of an analyzed record declaration.
pub struct RecordModel {
    pub name: Seq<char>,
    pub vis: Seq<char>,
    pub generics: GenericsModel,
    pub fields: Seq<FieldModel>,
}

/// Model of the plan of one emitted field.
pub struct FieldPlanModel {
    pub name: Seq<char>,
    pub ty: Seq<char>,
    pub is_option: bool,
}

/// Model of the plan of the emitted declarations.
pub struct PlanModel {
    pub record_name: Seq<char>,
    pub builder_name: Seq<char>,
    pub vis: Seq<char>,
    pub generics: GenericsModel,
    pub fields: Seq<FieldPlanModel>,
}

/// A field position of the declaration, named or not.
pub struct RawField {
    pub name: Option<String>,
    pub ty: String,
}

impl View for RawField {
    type V = RawFieldModel;

    open spec fn view(&self) -> RawFieldModel {
        RawFieldModel {
            name: match self.name {
                Some(n) => Some(n@),
                None => None,
            },
            ty: self.ty@,
        }
    }
}

/// One named field of the input record.
pub struct InputField {
    pub name: String,
    pub ty: String,
}

impl View for InputField {
    type V = FieldModel;

    open spec fn view(&self) -> FieldModel {
        FieldModel { name: self.name@, ty: self.ty@ }
    }
}

/// The generic parameters of the input record: as declared (with bounds and
/// defaults), as an impl introduces them (with bounds), as a type names them
/// (names only); and the where-clause. Each is empty where the record has none.
pub struct GenericsText {
    pub decl: String,
    pub for_impl: String,
    pub for_type: String,
    pub where_clause: String,
}

impl View for GenericsText {
    type V = GenericsModel;

    open spec fn view(&self) -> GenericsModel {
        GenericsModel {
            decl: self.decl@,
            for_impl: self.for_impl@,
            for_type: self.for_type@,
            where_clause: self.where_clause@,
        }
    }
}

/// The record whose declaration is expanded.
pub struct InputRecord {
    pub name: String,
    pub vis: String,
    pub generics: GenericsText,
    pub fields: Vec<InputField>,
}

impl View for InputRecord {
    type V = RecordModel;

    open spec fn view(&self) -> RecordModel {
        RecordModel {
            name: self.name@,
            vis: self.vis@,
            generics: self.generics@,
            fields: Seq::new(self.fields@.len(), |i: int| self.fields@[i]@),
        }
    }
}

/// The plan of one emitted field.
pub struct FieldPlan {
    pub name: String,
    pub ty: String,
    pub is_option: bool,
}

impl View for FieldPlan {
    type V = FieldPlanModel;

    open spec fn view(&self) -> FieldPlanModel {
        FieldPlanModel { name: self.name@, ty: self.ty@, is_option: self.is_option }
    }
}

/// The shape of what is emitted for one record.
pub struct BuilderPlan {
    pub record_name: String,
    pub builder_name: String,
    pub vis: String,
    pub generics: GenericsText,
    pub fields: Vec<FieldPlan>,
}

impl View for BuilderPlan {
    type V = PlanModel;

    open spec fn view(&self) -> PlanModel {
        PlanModel {
            record_name: self.record_name@,
            builder_name: self.builder_name@,
            vis: self.vis@,
            generics: self.generics@,
            fields: Seq::new(self.fields@.len(), |i: int| self.fields@[i]@),
        }
    }
}

/// Model of why an expansion fails.
pub enum ErrorModel {
    Syntax(Seq<char>),
    NotRecord,
}

impl ErrorModel {
    /// The text of the message that goes with the error: the parser's own for a
    /// text that it refuses, a fixed one for what is no record.
    pub open spec fn message_text(self) -> Seq<char> {
        match self {
            ErrorModel::Syntax(message) => message,
            ErrorModel::NotRecord => "must derive on struct"@,
        }
    }
}

/// Why an expansion fails.
#[derive(Debug, PartialEq, Eq)]
pub enum DeriveError {
    /// The input is not the text of a type declaration; with the parser's message.
    Syntax(String),
    /// The input declares something other than a record.
    NotRecord,
}

impl View for DeriveError {
    type V = ErrorModel;

    open spec fn view(&self) -> ErrorModel {
        match self {
            DeriveError::Syntax(message) => ErrorModel::Syntax(message@),
            DeriveError::NotRecord => ErrorModel::NotRecord,
        }
    }
}

impl DeriveError {
    /// The human-readable message of the error.
    pub fn message(&self) -> (out: String)
        ensures
            out@ == self@.message_text(),
    {
        match self {
            DeriveError::Syntax(message) => message.clone(),
            DeriveError::NotRecord => "must derive on struct".to_owned(),
        }
    }
}

} // verus!
