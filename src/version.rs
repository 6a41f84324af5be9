use vstd::prelude::*;
use vstd::utf8::{decode_utf8, encode_utf8, valid_utf8};

use crate::error::{DecodeStep, ManifestField, PromoteError};

verus! {

#[verifier::external_type_specification]
#[verifier::external_body]
pub struct ExBase64DecodeError(base64::DecodeError);

#[verifier::external_type_specification]
#[verifier::external_body]
pub struct ExFromUtf8Error(std::string::FromUtf8Error);

#[verifier::external_type_specification]
#[verifier::external_body]
pub struct ExTomlError(toml::de::Error);

/// What standard base64 decoding gives for some bytes, `None` where they are
/// not valid base64.
pub uninterp spec fn base64_decoded(b: Seq<u8>) -> Option<Seq<u8>>;

/// Whether a text is a valid TOML document.
pub uninterp spec fn toml_accepts(s: Seq<char>) -> bool;

/// In a TOML document, the string stored under `key` in the table `table`,
/// or `None` where there is no such table, key or string.
pub uninterp spec fn toml_table_string(s: Seq<char>, table: Seq<char>, key: Seq<char>) -> Option<
    Seq<char>,
>;

/// Relies on base64::decode (the standard alphabet, with padding).
#[verifier::external_body]
fn decode_base64(b: &[u8]) -> (r: Result<Vec<u8>, base64::DecodeError>)
    ensures
        match r {
            Ok(v) => base64_decoded(b@) == Some(v@),
            Err(_) => base64_decoded(b@) is None,
        },
{
    #[allow(deprecated)]
    base64::decode(b)
}

/// Relies on String::from_utf8: it fails exactly on bytes that are not UTF-8.
#[verifier::external_body]
fn utf8_string(b: Vec<u8>) -> (r: Result<String, std::string::FromUtf8Error>)
    ensures
        match r {
            Ok(s) => valid_utf8(b@) && s@ == decode_utf8(b@),
            Err(_) => !valid_utf8(b@),
        },
{
    String::from_utf8(b)
}

/// Relies on toml::from_str into a toml::Table, then Table::get, Value::get and
/// Value::as_str to read one string of one table.
#[verifier::external_body]
fn toml_string_in_table(doc: &str, table: &str, key: &str) -> (r: Result<
    Option<String>,
    toml::de::Error,
>)
    ensures
        match r {
            Ok(Some(v)) => toml_accepts(doc@) && toml_table_string(doc@, table@, key@) == Some(v@),
            Ok(None) => toml_accepts(doc@) && toml_table_string(doc@, table@, key@) is None,
            Err(_) => !toml_accepts(doc@),
        },
{
    let t: toml::Table = toml::from_str(doc)?;
    let v = t.get(table).and_then(|p| p.get(key)).and_then(toml::Value::as_str);
    Ok(v.map(String::from))
}

/// The bytes with every line feed taken out.
pub open spec fn strip_newlines(b: Seq<u8>) -> Seq<u8>
    decreases b.len(),
{
    if b.len() == 0 {
        b
    } else {
        let rest = strip_newlines(b.drop_last());
        if b.last() == 10u8 {
            rest
        } else {
            rest.push(b.last())
        }
    }
}

/// The version that the base64 encoding `encoded` of a source manifest
/// declares under `package.version`, or the error of the step that fails.
pub open spec fn version_from_encoded(encoded: Seq<u8>) -> Result<Seq<char>, PromoteError> {
    match base64_decoded(strip_newlines(encoded)) {
        None => Err(PromoteError::Decode(DecodeStep::Base64)),
        Some(bytes) => if !valid_utf8(bytes) {
            Err(PromoteError::Decode(DecodeStep::Utf8))
        } else if !toml_accepts(decode_utf8(bytes)) {
            Err(PromoteError::Decode(DecodeStep::Toml))
        } else {
            match toml_table_string(decode_utf8(bytes), "package"@, "version"@) {
                None => Err(PromoteError::ManifestShape(ManifestField::PackageVersion)),
                Some(v) => Ok(v),
            }
        },
    }
}

/// The version declared by the source manifest whose base64 encoding is the
/// text `content`.
pub open spec fn version_from_content(content: Seq<char>) -> Result<Seq<char>, PromoteError> {
    version_from_encoded(encode_utf8(content))
}

/// Takes every line feed out of `b`.
pub fn remove_newlines(b: &[u8]) -> (r: Vec<u8>)
    ensures
        r@ == strip_newlines(b@),
{
    let mut r: Vec<u8> = Vec::new();
    let mut i: usize = 0;
    while i < b.len()
        invariant
            i <= b@.len(),
            r@ == strip_newlines(b@.subrange(0, i as int)),
        decreases b@.len() - i,
    {
        assert(b@.subrange(0, i as int + 1).drop_last() =~= b@.subrange(0, i as int));
        if b[i] != 10u8 {
            r.push(b[i]);
        }
        i = i + 1;
    }
    assert(b@.subrange(0, b@.len() as int) =~= b@);
    r
}

/// Reads the version from the `content` field of the repository's answer for
/// the source manifest: base64 with line feeds anywhere in it.
pub fn version_from_manifest_content(content: &str) -> (r: Result<String, PromoteError>)
    ensures
        match r {
            Ok(v) => version_from_content(content@) == Ok::<Seq<char>, PromoteError>(v@),
            Err(e) => version_from_content(content@) == Err::<Seq<char>, PromoteError>(e),
        },
{
    let encoded = remove_newlines(content.as_bytes());
    let bytes = match decode_base64(encoded.as_slice()) {
        Ok(bytes) => bytes,
        Err(_) => {
            return Err(PromoteError::Decode(DecodeStep::Base64));
        },
    };
    let text = match utf8_string(bytes) {
        Ok(text) => text,
        Err(_) => {
            return Err(PromoteError::Decode(DecodeStep::Utf8));
        },
    };
    match toml_string_in_table(text.as_str(), "package", "version") {
        Ok(Some(v)) => Ok(v),
        Ok(None) => Err(PromoteError::ManifestShape(ManifestField::PackageVersion)),
        Err(_) => Err(PromoteError::Decode(DecodeStep::Toml)),
    }
}

} // verus!
