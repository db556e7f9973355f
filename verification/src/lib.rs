//! Checks that a file is a well-formed Windows Icon (ICO) resource by its
//! leading magic bytes, and turns the verdict into a reporting decision.
//!
//! The ICO container begins with a two-octet reserved field (always zero)
//! followed by a two-octet little-endian type discriminator with value 1;
//! value 2 at the same offset denotes a cursor (CUR) file and is rejected.
//! Only these first four octets are inspected.

use vstd::prelude::*;

verus! {

/// The four magic octets that open every ICO file.
pub open spec fn ico_magic() -> Seq<u8> {
    seq![0u8, 0u8, 1u8, 0u8]
}

/// A byte sequence opens like an ICO file: it has at least four octets and
/// the first four are exactly the ICO magic.
pub open spec fn header_matches(bytes: Seq<u8>) -> bool {
    bytes.len() >= 4 && bytes.subrange(0, 4) == ico_magic()
}

/// Decides whether a four-octet header is the ICO magic.
pub fn is_ico_header(header: &[u8; 4]) -> (r: bool)
    ensures
        r == (header@ == ico_magic()),
{
    let r = header[0] == 0 && header[1] == 0 && header[2] == 1 && header[3] == 0;
    proof {
        if r {
            assert(header@ =~= ico_magic());
        }
    }
    r
}

/// Outcome of validating one file.
///
/// `IoFailure` carries the description of the underlying fault; an I/O
/// fault is never downgraded to `Invalid`.
pub enum Verdict {
    Valid,
    Invalid,
    IoFailure(String),
}

/// Classifies a fully read four-octet header: `Valid` exactly when it is
/// the ICO magic, `Invalid` otherwise. Never an `IoFailure`.
pub fn classify_header(header: &[u8; 4]) -> (v: Verdict)
    ensures
        v is Valid <==> header@ == ico_magic(),
        v is Invalid <==> header@ != ico_magic(),
{
    if is_ico_header(header) {
        Verdict::Valid
    } else {
        Verdict::Invalid
    }
}

/// Judges the outcome of reading a file's first four octets. A
/// successful read is judged by the magic alone, and a read fault
/// becomes an `IoFailure` carrying the fault's description unchanged.
pub fn validate_read(outcome: Result<[u8; 4], String>) -> (v: Verdict)
    ensures
        outcome matches Ok(header) ==> (v is Valid <==> header@ == ico_magic()),
        outcome matches Ok(header) ==> (v is Invalid <==> header@ != ico_magic()),
        outcome matches Err(cause) ==> v == Verdict::IoFailure(cause),
        v is IoFailure <==> outcome is Err,
{
    match outcome {
        Ok(header) => classify_header(&header),
        Err(cause) => Verdict::IoFailure(cause),
    }
}

/// Validates a file given as its full byte content, mirroring a reader
/// that takes exactly four octets from the start: fewer than four octets
/// is an unexpected end of file, an `IoFailure`, never `Invalid`.
pub fn validate_content(bytes: &Vec<u8>) -> (v: Verdict)
    ensures
        v is Valid <==> header_matches(bytes@),
        v is Invalid <==> bytes@.len() >= 4 && !header_matches(bytes@),
        v is IoFailure <==> bytes@.len() < 4,
        v matches Verdict::IoFailure(cause) ==> cause@ == "unexpected end of file"@,
{
    if bytes.len() < 4 {
        Verdict::IoFailure(String::from_str("unexpected end of file"))
    } else {
        let header: [u8; 4] = [bytes[0], bytes[1], bytes[2], bytes[3]];
        proof {
            assert(header@ =~= bytes@.subrange(0, 4));
        }
        classify_header(&header)
    }
}

/// The process exit code a verdict maps to: 0 exactly on `Valid`, 1 on
/// `Invalid` and on `IoFailure` alike, so a caller treats any non-zero
/// status as "do not proceed".
pub fn exit_code(v: &Verdict) -> (code: i32)
    ensures
        code == 0 <==> v is Valid,
        v !is Valid ==> code == 1,
{
    match v {
        Verdict::Valid => 0,
        _ => 1,
    }
}

/// The diagnostic stream a verdict's report line belongs on.
pub enum Stream {
    Stdout,
    Stderr,
}

/// Picks the stream the report line belongs on. Success goes to standard
/// output and nothing else does; both failure kinds go to standard error.
pub fn report_stream(v: &Verdict) -> (s: Stream)
    ensures
        s is Stdout <==> v is Valid,
{
    match v {
        Verdict::Valid => Stream::Stdout,
        _ => Stream::Stderr,
    }
}

/// Builds the one diagnostic line for a verdict on the given path,
/// character for character.
pub fn report_line(path: &str, v: &Verdict) -> (line: String)
    ensures
        v is Valid ==> line@ == "✓ "@ + path@ + " is a valid Windows ICO file"@,
        v is Invalid ==> line@ == "✗ "@ + path@ + " is not a valid ICO file!"@,
        v matches Verdict::IoFailure(cause) ==> line@ == "Error checking "@ + path@ + ": "@
            + cause@,
{
    match v {
        Verdict::Valid => {
            let mut line = String::from_str("✓ ");
            line.append(path);
            line.append(" is a valid Windows ICO file");
            line
        },
        Verdict::Invalid => {
            let mut line = String::from_str("✗ ");
            line.append(path);
            line.append(" is not a valid ICO file!");
            line
        },
        Verdict::IoFailure(cause) => {
            let mut line = String::from_str("Error checking ");
            line.append(path);
            line.append(": ");
            line.append(cause.as_str());
            line
        },
    }
}

/// Law: a file whose content starts with the four magic octets matches,
/// regardless of what follows them.
pub proof fn lemma_magic_prefix_accepted(rest: Seq<u8>)
    ensures
        header_matches(ico_magic() + rest),
{
    assert((ico_magic() + rest).subrange(0, 4) =~= ico_magic());
}

/// Law: a file whose first four octets differ from the magic at any one
/// position does not match, whatever the other positions hold.
pub proof fn lemma_differing_octet_rejected(bytes: Seq<u8>, i: int)
    requires
        0 <= i < 4,
        bytes.len() >= 4,
        bytes[i] != ico_magic()[i],
    ensures
        !header_matches(bytes),
{
    assert(bytes.subrange(0, 4)[i] == bytes[i]);
}

} // verus!
