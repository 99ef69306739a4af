//! Profiles that are stored on disk and recorded in the database.

use crate::digits::{digits_of, lemma_padded_hex_length, render, zero_padded};
use crate::text::{extend, prefixed, string_of, texts};
use rand::Rng;
use vstd::prelude::*;

verus! {

/// A profile as the user interface hands it over.
pub struct ProfileData {
    pub continent: String,
    pub country: String,
    pub icao_code: String,
    pub airport_developer: Option<String>,
    pub profile_version: Option<String>,
    pub file_name: String,
    /// The file's bytes in base64.
    pub file_content: String,
}

/// The error with which the `base64` crate refuses a text.
#[verifier::external_type_specification]
#[verifier::external_body]
pub struct ExDecodeError(base64::DecodeError);

/// The bytes that `base64::decode` gives for a text in standard base64, or
/// `None` where it refuses the text.
pub uninterp spec fn base64_decoded(text: Seq<char>) -> Option<Seq<u8>>;

/// Calls `base64::decode`, which decodes with the crate's standard engine
/// (standard alphabet, canonical padding). The result is only given its name
/// here.
#[verifier::external_body]
#[allow(deprecated)]
pub(crate) fn decode_base64(text: &str) -> (r: Result<Vec<u8>, base64::DecodeError>)
    ensures
        match base64_decoded(text@) {
            Some(bytes) => r is Ok && r->Ok_0@ == bytes,
            None => r is Err,
        },
{
    base64::decode(text)
}

/// The message of a decoding error, as its `Display` impl writes it. Nothing
/// is claimed of the text.
#[verifier::external_body]
pub(crate) fn decode_error_text(e: &base64::DecodeError) -> (r: String) {
    e.to_string()
}

/// Draws a number from the thread's random generator (`rand::thread_rng`,
/// `Rng::gen`). Nothing is claimed of the number.
#[verifier::external_body]
pub(crate) fn random_number() -> (r: u64) {
    rand::thread_rng().gen()
}

/// The given text, or `fallback` where there is none.
pub open spec fn or_text(s: Option<String>, fallback: Seq<char>) -> Seq<char> {
    match s {
        Some(t) => t@,
        None => fallback,
    }
}

/// The directory names that lead from the application's data directory to a
/// profile's folder: continent, country, ICAO code, developer and version
/// below `gsx-profiles`, with `unknown` and `1.0` where the last two are not
/// given.
pub open spec fn profile_directory_of(profile: ProfileData) -> Seq<Seq<char>> {
    seq![
        "gsx-profiles"@,
        profile.continent@,
        profile.country@,
        profile.icao_code@,
        or_text(profile.airport_developer, "unknown"@),
        or_text(profile.profile_version, "1.0"@),
    ]
}

/// The directory names that lead to a profile's folder.
pub fn profile_directory(profile: &ProfileData) -> (r: Vec<String>)
    ensures
        texts(r@) == profile_directory_of(*profile),
{
    let mut path: Vec<String> = Vec::new();
    path.push(String::from_str("gsx-profiles"));
    path.push(profile.continent.clone());
    path.push(profile.country.clone());
    path.push(profile.icao_code.clone());
    match &profile.airport_developer {
        Some(dev) => path.push(dev.clone()),
        None => path.push(String::from_str("unknown")),
    }
    match &profile.profile_version {
        Some(ver) => path.push(ver.clone()),
        None => path.push(String::from_str("1.0")),
    }
    assert(texts(path@) =~= profile_directory_of(*profile));
    path
}

/// The bytes of a profile's file: its content decoded from base64. Fails
/// where the content is no base64.
pub fn decode_file_content(profile: &ProfileData) -> (r: Result<Vec<u8>, String>)
    ensures
        match base64_decoded(profile.file_content@) {
            Some(bytes) => r is Ok && r->Ok_0@ == bytes,
            None => r is Err && "Failed to decode file content: "@.is_prefix_of(r->Err_0@),
        },
{
    match decode_base64(profile.file_content.as_str()) {
        Ok(bytes) => Ok(bytes),
        Err(e) => {
            let detail = decode_error_text(&e);
            Err(prefixed("Failed to decode file content: ", detail.as_str()))
        },
    }
}

/// The identifier that stands for a number: its sixteen hexadecimal digits,
/// in lower case, with leading zeros.
pub open spec fn profile_id(n: u64) -> Seq<char> {
    zero_padded(digits_of(n as nat, 16), 16)
}

/// Writes a number as a profile identifier.
pub fn format_profile_id(n: u64) -> (r: String)
    ensures
        r@ == profile_id(n),
        r@.len() == 16,
{
    proof {
        lemma_padded_hex_length(n);
    }
    let hex = render(n, 16);
    let mut out: Vec<char> = Vec::new();
    if hex.len() < 16 {
        let missing: usize = 16 - hex.len();
        let mut i: usize = 0;
        while i < missing
            invariant
                i <= missing,
                out@ == Seq::new(i as nat, |k: int| '0'),
            decreases missing - i,
        {
            out.push('0');
            i = i + 1;
            assert(out@ =~= Seq::new(i as nat, |k: int| '0'));
        }
    }
    extend(&mut out, &hex);
    string_of(&out)
}

/// A fresh identifier for a stored profile, drawn at random.
pub fn generate_random_id() -> (r: String)
    ensures
        exists|n: u64| r@ == profile_id(n),
        r@.len() == 16,
{
    let n = random_number();
    format_profile_id(n)
}

/// The file of a profile that is to be written and recorded.
pub struct StoredFile {
    /// The file's name within the profile's folder.
    pub file_name: String,
    /// The file's bytes.
    pub content: Vec<u8>,
    /// The identifier under which the database records the profile.
    pub id: String,
}

/// What storing a profile does: the folder is created first; then the file
/// is written and recorded, unless its content could not be decoded.
pub struct StorePlan {
    /// The directory names that lead to the profile's folder.
    pub directory: Vec<String>,
    /// The file, or the message with which storing fails after the folder
    /// was created.
    pub file: Result<StoredFile, String>,
}

/// Plans the storing of a profile.
pub fn store_profile(profile: &ProfileData) -> (r: StorePlan)
    ensures
        texts(r.directory@) == profile_directory_of(*profile),
        match base64_decoded(profile.file_content@) {
            Some(bytes) => {
                &&& r.file is Ok
                &&& r.file->Ok_0.file_name@ == profile.file_name@
                &&& r.file->Ok_0.content@ == bytes
                &&& exists|n: u64| r.file->Ok_0.id@ == profile_id(n)
            },
            None => r.file is Err && "Failed to decode file content: "@.is_prefix_of(
                r.file->Err_0@,
            ),
        },
{
    let directory = profile_directory(profile);
    let file = match decode_file_content(profile) {
        Err(e) => Err(e),
        Ok(content) => Ok(
            StoredFile { file_name: profile.file_name.clone(), content, id: generate_random_id() },
        ),
    };
    StorePlan { directory, file }
}

/// An operation that can fail while a profile is stored.
#[derive(Clone, Copy, Debug, PartialEq, Eq, Structural)]
pub enum StoreFailure {
    CreateDirectories,
    CreateFile,
    WriteFile,
    InsertProfile,
}

/// The words with which the message of a failed operation begins; the
/// system's description of the failure follows.
pub open spec fn store_failure_prefix(failure: StoreFailure) -> Seq<char> {
    match failure {
        StoreFailure::CreateDirectories => "Failed to create directory structure: "@,
        StoreFailure::CreateFile => "Failed to create file: "@,
        StoreFailure::WriteFile => "Failed to write file content: "@,
        StoreFailure::InsertProfile => "Failed to insert profile into database: "@,
    }
}

/// The message for a failed operation, given the system's description.
pub fn store_failure_message(failure: StoreFailure, detail: &str) -> (r: String)
    ensures
        r@ == store_failure_prefix(failure) + detail@,
{
    let prefix = match failure {
        StoreFailure::CreateDirectories => "Failed to create directory structure: ",
        StoreFailure::CreateFile => "Failed to create file: ",
        StoreFailure::WriteFile => "Failed to write file content: ",
        StoreFailure::InsertProfile => "Failed to insert profile into database: ",
    };
    prefixed(prefix, detail)
}

} // verus!
