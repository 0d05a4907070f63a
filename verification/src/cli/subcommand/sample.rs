//! Reading a sample of environment variables from JSON text.

use crate::cli::subcommand::export::{variable, Variable, VariableView};
use std::collections::BTreeMap;
use vstd::prelude::*;
use vstd::string::StringSliceAdditionalSpecFns;
use vstd::utf8::encode_utf8;

verus! {

/// What `serde_json::from_slice` makes of `bytes` when it is asked for a map
/// from strings to strings: the entries of the map in the order of their
/// names, or nothing when it refuses the text.
pub uninterp spec fn json_string_map(bytes: Seq<u8>) -> Option<Seq<(Seq<char>, Seq<char>)>>;

/// Calls `serde_json::from_slice` to read `bytes` as a JSON object whose
/// values are all strings, into a map that is ordered by name, and hands out
/// the entries of that map in its order; where the reader refuses the text,
/// hands out what it says of the refusal. The contract claims only that what
/// was read depends on nothing but the bytes; it claims nothing of the text
/// of a refusal.
#[verifier::external_body]
fn parse_string_map(bytes: &Vec<u8>) -> (parsed: Result<Vec<(String, String)>, String>)
    ensures
        match parsed {
            Ok(entries) => json_string_map(bytes@) == Some(entries.deep_view()),
            Err(_) => json_string_map(bytes@) is None,
        },
{
    match serde_json::from_slice::<BTreeMap<String, String>>(bytes.as_slice()) {
        Ok(map) => Ok(map.into_iter().collect()),
        Err(refusal) => Err(refusal.to_string()),
    }
}

/// Why a sample of environment variables could not be read.
#[derive(Debug)]
pub struct SampleError {
    /// What the JSON reader said.
    pub message: String,
}

/// The variables that the entries of a sample stand for: each entry gives a
/// name and, as the bytes of its text, a value.
pub open spec fn sample_of(entries: Seq<(Seq<char>, Seq<char>)>) -> Seq<VariableView> {
    Seq::new(entries.len(), |i: int| variable(entries[i].0, encode_utf8(entries[i].1)))
}

/// Turns the entries of a sample into variables, in their order.
pub fn sample_variables(entries: &Vec<(String, String)>) -> (variables: Vec<Variable>)
    ensures
        variables.deep_view() == sample_of(entries.deep_view()),
{
    let mut variables: Vec<Variable> = Vec::new();
    let mut i: usize = 0;
    while i < entries.len()
        invariant
            i <= entries.len(),
            variables.deep_view() == sample_of(entries.deep_view()).subrange(0, i as int),
        decreases entries.len() - i,
    {
        let ghost before = variables.deep_view();
        let name = entries[i].0.clone();
        let value = entries[i].1.as_str().as_bytes_vec();
        let added = Variable { name, value };
        proof {
            let entry = entries.deep_view()[i as int];
            assert(entry == entries@[i as int].deep_view());
            assert(added@ == variable(entry.0, encode_utf8(entry.1)));
        }
        variables.push(added);
        i += 1;
        assert(variables.deep_view() =~= before.push(added@));
        assert(variables.deep_view() =~= sample_of(entries.deep_view()).subrange(0, i as int));
    }
    assert(variables.deep_view() =~= sample_of(entries.deep_view()));
    variables
}

/// Reads a sample of environment variables from the bytes of a JSON object
/// whose values are all strings. The sample is refused exactly when the JSON
/// reader refuses the text.
pub fn parse_sample(bytes: &Vec<u8>) -> (parsed: Result<Vec<Variable>, SampleError>)
    ensures
        match json_string_map(bytes@) {
            Some(entries) => parsed is Ok && parsed->Ok_0.deep_view() == sample_of(entries),
            None => parsed is Err,
        },
{
    match parse_string_map(bytes) {
        Ok(entries) => Ok(sample_variables(&entries)),
        Err(message) => Err(SampleError { message }),
    }
}

} // verus!
