//! Reading the version that the installed binary reports of itself.

use crate::text::{last_token, last_token_of};
use crate::version::{parsed_version, SemanticVersion, VersionData};
use vstd::prelude::*;
use vstd::utf8::{decode_utf8, valid_utf8};

verus! {

/// The flag with which the installed binary is asked for its version.
pub const VERSION_FLAG: &'static str = "--version";

/// The text that `String::from_utf8_lossy` makes of `bytes`.
pub uninterp spec fn lossy_text(bytes: Seq<u8>) -> Seq<char>;

/// Reads `bytes` as text with `String::from_utf8_lossy`, which keeps valid
/// UTF-8 as it is and puts a replacement character for what is not.
#[verifier::external_body]
fn decode_lossy(bytes: &[u8]) -> (r: String)
    ensures
        r@ == lossy_text(bytes@),
        valid_utf8(bytes@) ==> r@ == decode_utf8(bytes@),
{
    String::from_utf8_lossy(bytes).into_owned()
}

/// Why the installed binary's output gave no version.
#[derive(Debug)]
pub enum LocalVersionError {
    /// The output held nothing but whitespace.
    NoToken,
    /// The last token of the output is no version.
    Syntax(semver::Error),
}

/// The version that an output reports: what its last whitespace-delimited
/// token reads as.
pub open spec fn local_version_of(output: Seq<char>) -> Option<VersionData> {
    match last_token_of(output) {
        Some(token) => parsed_version(token),
        None => None,
    }
}

/// Reads the version from what the installed binary printed when asked for
/// it: the last whitespace-delimited token, parsed as a version.
pub fn read_local_version(output: &str) -> (r: Result<SemanticVersion, LocalVersionError>)
    ensures
        match r {
            Ok(v) => local_version_of(output@) == Some(v@),
            Err(LocalVersionError::NoToken) => last_token_of(output@) is None,
            Err(LocalVersionError::Syntax(_)) => last_token_of(output@) is Some
                && local_version_of(output@) is None,
        },
{
    match last_token(output) {
        None => Err(LocalVersionError::NoToken),
        Some(token) => match SemanticVersion::parse(token.as_str()) {
            Ok(v) => Ok(v),
            Err(e) => Err(LocalVersionError::Syntax(e)),
        },
    }
}

/// Get the installed binary's version from the bytes that it wrote to its
/// standard output when run with [`VERSION_FLAG`]. The bytes are read as
/// text: as the text that they encode where they are valid UTF-8.
pub fn get_local_version(stdout: &[u8]) -> (r: Result<SemanticVersion, LocalVersionError>)
    ensures
        match r {
            Ok(v) => local_version_of(lossy_text(stdout@)) == Some(v@),
            Err(LocalVersionError::NoToken) => last_token_of(lossy_text(stdout@)) is None,
            Err(LocalVersionError::Syntax(_)) => last_token_of(lossy_text(stdout@)) is Some
                && local_version_of(lossy_text(stdout@)) is None,
        },
        valid_utf8(stdout@) ==> lossy_text(stdout@) == decode_utf8(stdout@),
{
    let output = decode_lossy(stdout);
    read_local_version(output.as_str())
}

} // verus!
