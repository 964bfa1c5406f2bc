use vstd::prelude::*;
use crate::data::strings_view;
use crate::errors::CustomErrors;

verus! {

#[verifier::external_type_specification]
#[verifier::external_body]
pub struct ExJsonError(serde_json::Error);

/// The JSON text that serde_json writes for a list of strings.
pub uninterp spec fn json_of_strings(v: Seq<Seq<char>>) -> Seq<char>;

/// The list of strings that serde_json reads from a text, or `None` where the
/// text is not a JSON array of strings.
pub uninterp spec fn strings_of_json(text: Seq<char>) -> Option<Seq<Seq<char>>>;

/// Relies on serde_json::to_string: the JSON text of a list of strings, which
/// depends on the strings alone. Serializing strings into a sequence cannot
/// fail, and serde_json::from_str reads the text back as the same strings.
#[verifier::external_body]
fn json_write_strings(entries: &Vec<String>) -> (r: Result<String, serde_json::Error>)
    ensures
        r matches Ok(text) ==> text@ == json_of_strings(strings_view(entries@)),
        r matches Ok(text) ==> strings_of_json(text@) == Some(strings_view(entries@)),
        r is Ok,
{
    serde_json::to_string(entries)
}

/// Relies on serde_json::from_str: reads a JSON array of strings, and fails
/// on any other text.
#[verifier::external_body]
fn json_read_strings(text: &str) -> (r: Result<Vec<String>, serde_json::Error>)
    ensures
        match r {
            Ok(v) => strings_of_json(text@) == Some(strings_view(v@)),
            Err(_) => strings_of_json(text@) is None,
        },
{
    serde_json::from_str(text)
}

/// `text` is the encoding of the vault `entries`, and reads back as them.
pub open spec fn encodes(entries: Seq<Seq<char>>, text: Seq<char>) -> bool {
    &&& text == json_of_strings(entries)
    &&& strings_of_json(text) == Some(entries)
}

/// Encodes the ordered entries of a vault as one text value.
pub fn encode_vault(entries: &Vec<String>) -> (r: Result<String, CustomErrors>)
    ensures
        match r {
            Ok(text) => encodes(strings_view(entries@), text@),
            Err(e) => e == CustomErrors::VaultEncodeError,
        },
        r is Ok,
{
    match json_write_strings(entries) {
        Ok(text) => Ok(text),
        Err(_) => Err(CustomErrors::VaultEncodeError),
    }
}

/// Decodes a vault text into its ordered entries; a text that is not a
/// well-formed list of strings is reported as corrupt.
pub fn decode_vault(text: &str) -> (r: Result<Vec<String>, CustomErrors>)
    ensures
        match r {
            Ok(v) => strings_of_json(text@) == Some(strings_view(v@)),
            Err(e) => e == CustomErrors::VaultDecodeError && strings_of_json(text@) is None,
        },
{
    match json_read_strings(text) {
        Ok(v) => Ok(v),
        Err(_) => Err(CustomErrors::VaultDecodeError),
    }
}

/// The text stored as the vault of a newly registered user: the encoding of
/// the empty list.
pub fn empty_vault_text() -> (r: Result<String, CustomErrors>)
    ensures
        match r {
            Ok(text) => encodes(Seq::empty(), text@),
            Err(e) => e == CustomErrors::VaultEncodeError,
        },
        r is Ok,
{
    let entries: Vec<String> = Vec::new();
    let r = encode_vault(&entries);
    proof {
        assert(strings_view(entries@) =~= Seq::<Seq<char>>::empty());
    }
    r
}

/// Decoding gives back what was encoded: whatever text `encode_vault`
/// returns for a list of entries, `decode_vault` reads as those entries, in
/// order, empty and repeated entries included.
pub proof fn lemma_vault_round_trip(entries: Seq<Seq<char>>, text: Seq<char>)
    requires
        encodes(entries, text),
    ensures
        strings_of_json(text) == Some(entries),
{
}

} // verus!
