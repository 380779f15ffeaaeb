//! Setting up the validator that makes the checks of a run.
//!
//! The checks are the work of `cjval::CJValidator`. It is built from the
//! dataset, and each Extension schema is then attached to it under a name.
//! A run names the schemas by their position in the order in which they were
//! given, so that none takes the place of another.

use vstd::prelude::*;
use crate::json::{json_complaint, parsed_json, read_json, Json};
use crate::pipeline::{syntax_messages, Pipeline, Record};
use crate::report::{decimal, decimal_text, lemma_decimal_injective};
use crate::stage::Stage;

verus! {

/// `cjval::CJValidator`. It is carried through as it is; what contracts say
/// of it, they say through [`dataset_of`] and [`attached`].
#[verifier::external_type_specification]
#[verifier::external_body]
pub struct ExValidator(cjval::CJValidator);

/// The dataset that a validator holds: the JSON value it was built from.
pub uninterp spec fn dataset_of(validator: cjval::CJValidator) -> Json;

/// The Extension schemas attached to a validator, each under its name: what
/// `CJValidator::get_extensions` hands out.
pub uninterp spec fn attached(validator: cjval::CJValidator) -> Map<Seq<char>, Json>;

/// A validator to which no schema is attached.
pub open spec fn nothing_attached() -> Map<Seq<char>, Json> {
    Map::empty()
}

/// Calls `CJValidator::from_str`. It reads the dataset with
/// `serde_json::from_str` and fails, with what that error says, exactly when
/// that fails; the validator it returns holds the value read and has no
/// schema attached.
#[verifier::external_body]
fn read_dataset(document: &str) -> (read: Result<cjval::CJValidator, String>)
    ensures
        read is Ok <==> read_json(document@) is Ok,
        read matches Ok(validator) ==> dataset_of(validator) == read_json(document@)->Ok_0
            && attached(validator) == nothing_attached(),
        read matches Err(complaint) ==> complaint@ == read_json(document@)->Err_0,
{
    cjval::CJValidator::from_str(document)
}

/// Calls `CJValidator::add_one_extension_from_str`. It reads the schema with
/// `serde_json::from_str` and fails, with what that error says, exactly when
/// that fails, leaving the validator as it was; else it puts the value read
/// under `name`, in place of what was there under that name, and leaves the
/// dataset alone.
#[verifier::external_body]
fn attach(validator: &mut cjval::CJValidator, name: &str, schema: &str) -> (done: Result<
    (),
    String,
>)
    ensures
        done is Ok <==> read_json(schema@) is Ok,
        done is Ok ==> attached(*final(validator)) == attached(*old(validator)).insert(
            name@,
            read_json(schema@)->Ok_0,
        ),
        done matches Err(complaint) ==> complaint@ == read_json(schema@)->Err_0 && attached(
            *final(validator),
        ) == attached(*old(validator)),
        dataset_of(*final(validator)) == dataset_of(*old(validator)),
{
    match validator.add_one_extension_from_str(name, schema) {
        Ok(()) => Ok(()),
        Err(error) => Err(error.to_string()),
    }
}

/// The position of the first of the texts from `from` on that is not JSON.
pub open spec fn first_unreadable(texts: Seq<Seq<char>>, from: int) -> Option<int>
    decreases texts.len() - from,
{
    if from < 0 || from >= texts.len() {
        None
    } else if parsed_json(texts[from]) is None {
        Some(from)
    } else {
        first_unreadable(texts, from + 1)
    }
}

/// Why no validator can be built: the complaint about the dataset if it is
/// not JSON, else the complaint about the first schema that is not. `None`
/// when all of them can be read.
pub open spec fn construction_failure(document: Seq<char>, schemas: Seq<Seq<char>>) -> Option<
    Seq<char>,
> {
    if parsed_json(document) is None {
        Some(json_complaint(document))
    } else {
        match first_unreadable(schemas, 0) {
            Some(i) => Some(json_complaint(schemas[i])),
            None => None,
        }
    }
}

/// The first `count` schemas, each under its position written in decimal.
pub open spec fn attached_upto(schemas: Seq<Seq<char>>, count: int) -> Map<Seq<char>, Json>
    decreases count,
{
    if count <= 0 {
        Map::empty()
    } else {
        attached_upto(schemas, count - 1).insert(
            decimal((count - 1) as nat),
            parsed_json(schemas[count - 1])->0,
        )
    }
}

/// Builds the validator of a run: the dataset first, then every schema in
/// the order given. The first text that is not JSON ends the attempt.
pub fn construct(document: &str, schemas: &Vec<String>) -> (built: Result<
    cjval::CJValidator,
    String,
>)
    ensures
        built is Err <==> construction_failure(document@, schemas.deep_view()) is Some,
        built matches Err(complaint) ==> Some(complaint@) == construction_failure(
            document@,
            schemas.deep_view(),
        ),
        built matches Ok(validator) ==> dataset_of(validator) == parsed_json(document@)->0
            && attached(validator) == attached_upto(
            schemas.deep_view(),
            schemas.deep_view().len() as int,
        ),
{
    let ghost texts = schemas.deep_view();
    let mut validator = match read_dataset(document) {
        Err(complaint) => {
            return Err(complaint);
        },
        Ok(validator) => validator,
    };
    let mut i: usize = 0;
    while i < schemas.len()
        invariant
            i <= schemas.len(),
            texts == schemas.deep_view(),
            parsed_json(document@) is Some,
            dataset_of(validator) == parsed_json(document@)->0,
            attached(validator) == attached_upto(texts, i as int),
            first_unreadable(texts, 0) == first_unreadable(texts, i as int),
        decreases schemas.len() - i,
    {
        let name = decimal_text(i);
        assert(texts[i as int] == schemas@[i as int]@);
        match attach(&mut validator, name.as_str(), schemas[i].as_str()) {
            Err(complaint) => {
                return Err(complaint);
            },
            Ok(()) => {},
        }
        i = i + 1;
    }
    Ok(validator)
}

/// Every schema of a run is attached, under its own position: a later one
/// never takes the place of an earlier one.
pub proof fn law_every_schema_attached(schemas: Seq<Seq<char>>, count: int, i: int)
    requires
        0 <= i < count <= schemas.len(),
    ensures
        attached_upto(schemas, count).dom().contains(decimal(i as nat)),
        attached_upto(schemas, count)[decimal(i as nat)] == parsed_json(schemas[i])->0,
    decreases count,
{
    if i < count - 1 {
        law_every_schema_attached(schemas, count - 1, i);
        lemma_decimal_injective(i as nat, (count - 1) as nat);
    }
}

/// Starts a run: builds the validator and records the first stage. The
/// validator is handed out exactly when the stage reported nothing, so that
/// no later check can be made on a dataset that could not be read.
pub fn open(document: &str, schemas: &Vec<String>) -> (opened: (Pipeline, Option<cjval::CJValidator>))
    ensures
        opened.0@ == seq![
            Record {
                stage: Stage::JsonSyntax,
                messages: syntax_messages(construction_failure(document@, schemas.deep_view())),
            },
        ],
        opened.1 is Some <==> construction_failure(document@, schemas.deep_view()) is None,
        opened.1 matches Some(validator) ==> dataset_of(validator) == parsed_json(document@)->0
            && attached(validator) == attached_upto(
            schemas.deep_view(),
            schemas.deep_view().len() as int,
        ),
{
    let mut pipeline = Pipeline::new();
    match construct(document, schemas) {
        Ok(validator) => {
            pipeline.parsed(None);
            assert(pipeline@ =~= seq![
                Record {
                    stage: Stage::JsonSyntax,
                    messages: syntax_messages(
                        construction_failure(document@, schemas.deep_view()),
                    ),
                },
            ]);
            (pipeline, Some(validator))
        },
        Err(complaint) => {
            let ghost failure = Some(complaint@);
            pipeline.parsed(Some(complaint));
            assert(pipeline@ =~= seq![
                Record { stage: Stage::JsonSyntax, messages: syntax_messages(failure) },
            ]);
            (pipeline, None)
        },
    }
}

} // verus!
