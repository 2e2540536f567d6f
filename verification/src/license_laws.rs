//! What holds of making licenses: which arguments mean what, and when a license runs out.
use vstd::prelude::*;

use crate::license_tool;
use crate::license_tool::{RequestView, ToolError};
use crate::text;
use crate::text_laws;
use crate::trial;
use crate::trial::LicenseError;

verus! {

/// The options differ.
proof fn lemma_options()
    ensures
        "--hours"@ != "--until"@,
        "--hours"@ != "--out"@,
        "--until"@ != "--out"@,
{
    reveal_strlit("--hours");
    reveal_strlit("--until");
    reveal_strlit("--out");
    assert("--hours"@[2] == 'h' && "--until"@[2] == 'u' && "--out"@[2] == 'o');
}

/// `--hours` takes a number, `--until` a time and `--out` a file; what stands later counts, and the rest of what
/// was asked for stays.
pub proof fn options_take_what_follows(rest: Seq<Seq<char>>, value: Seq<char>, n: u64, so_far: RequestView)
    ensures
        license_tool::asked(seq!["--hours"@, text::digits(n as nat)] + rest, so_far) == license_tool::asked(
            rest,
            (RequestView { hours: Some(n), until: so_far.until, out: so_far.out }),
        ),
        license_tool::asked(seq!["--until"@, value] + rest, so_far) == license_tool::asked(
            rest,
            (RequestView { hours: so_far.hours, until: Some(value), out: so_far.out }),
        ),
        license_tool::asked(seq!["--out"@, value] + rest, so_far) == license_tool::asked(
            rest,
            (RequestView { hours: so_far.hours, until: so_far.until, out: Some(value) }),
        ),
        license_tool::asked(Seq::<Seq<char>>::empty(), so_far) == Ok::<RequestView, ToolError>(so_far),
{
    lemma_options();
    text_laws::whole_number_reads_back(n as nat, u64::MAX as int);
    assert((seq!["--hours"@, text::digits(n as nat)] + rest).skip(2) =~= rest);
    assert((seq!["--until"@, value] + rest).skip(2) =~= rest);
    assert((seq!["--out"@, value] + rest).skip(2) =~= rest);
}

/// An option that stands last, hours that are no number, and any other argument are refused.
pub proof fn other_arguments_are_refused(word: Seq<char>, value: Seq<char>, rest: Seq<Seq<char>>, so_far: RequestView)
    ensures
        license_tool::asked(seq!["--hours"@], so_far) == Err::<RequestView, ToolError>(ToolError::HoursMissing),
        license_tool::asked(seq!["--until"@], so_far) == Err::<RequestView, ToolError>(ToolError::UntilMissing),
        license_tool::asked(seq!["--out"@], so_far) == Err::<RequestView, ToolError>(ToolError::OutMissing),
        text::unsigned_number(value, u64::MAX as int) is None ==> license_tool::asked(
            seq!["--hours"@, value] + rest,
            so_far,
        ) == Err::<RequestView, ToolError>(ToolError::HoursInvalid),
        word != "--hours"@ && word != "--until"@ && word != "--out"@ ==> license_tool::asked(
            seq![word] + rest,
            so_far,
        ) == Err::<RequestView, ToolError>(ToolError::Usage),
{
    lemma_options();
    let args = seq!["--hours"@, value] + rest;
    assert(args[0] == "--hours"@ && args[1] == value);
    assert((seq![word] + rest)[0] == word);
}

/// A license for so many hours runs out so many hours from now, whatever else was asked for. One until a time
/// runs out then: the time is read by RFC 3339, and in the plain format where that fails.
pub proof fn license_runs_out_in_time(request: RequestView, now: u64, by_rfc: Option<int>, by_format: Option<int>)
    ensures
        ({
            let r = license_tool::expiry_of(request, now, by_rfc, by_format);
            let latest: int = 18_446_744_073_709_551_615;
            &&& request.hours matches Some(h) ==> {
                &&& now + 3600 * h <= latest ==> (r matches Ok(t) && t - now == 3600 * h)
                &&& now + 3600 * h > latest ==> r == Err::<u64, ToolError>(ToolError::OutOfRange)
            }
            &&& request.hours is None && request.until is None ==> r == Err::<u64, ToolError>(ToolError::Unspecified)
            &&& request.hours is None && request.until is Some ==> {
                &&& by_rfc is Some && 0 <= by_rfc->0 <= latest ==> (r matches Ok(e) && e == by_rfc->0)
                &&& by_rfc is None && by_format is Some && 0 <= by_format->0 <= latest ==> (r matches Ok(e) && e
                    == by_format->0)
                &&& by_rfc is None && by_format is None ==> r == Err::<u64, ToolError>(ToolError::UntilInvalid)
            }
        }),
{
}

/// A license is its nonce of twelve bytes and what is sealed, one behind the other; fewer bytes are none.
pub proof fn license_is_parted_behind_its_nonce(payload: Seq<u8>)
    ensures
        payload.len() >= 12 ==> (trial::parted(Some(payload)) matches Ok((nonce, rest)) && nonce.len() == 12 && nonce
            + rest == payload),
        payload.len() < 12 ==> trial::parted(Some(payload)) == Err::<(Seq<u8>, Seq<u8>), LicenseError>(
            LicenseError::TooShort,
        ),
        trial::parted(None) == Err::<(Seq<u8>, Seq<u8>), LicenseError>(LicenseError::BadFormat),
{
    if payload.len() >= 12 {
        assert(payload.take(12) + payload.skip(12) =~= payload);
    }
}

/// The time that was sealed is the time that is read, where what was sealed is opened.
pub proof fn sealed_time_is_read(nonce: Seq<u8>, expiry: u64, encoded: Seq<char>, payload: Seq<u8>)
    requires
        nonce.len() == 12,
        trial::license_payload(nonce, expiry) == Some(payload),
        trial::base64_bytes(text::trimmed(encoded)) == Some(payload),
        trial::opened(trial::license_key(), nonce, payload.skip(12)) == Some(vstd::bytes::spec_u64_to_le_bytes(expiry)),
    ensures
        trial::license_time(encoded) == Ok::<u64, LicenseError>(expiry),
        payload.take(12) == nonce,
{
    vstd::bytes::lemma_auto_spec_u64_to_from_le_bytes();
    assert(payload.take(12) =~= nonce);
}

/// What cannot be opened was tampered with, and what is opened but is not eight bytes is no time.
pub proof fn only_eight_bytes_are_a_time(plaintext: Seq<u8>)
    ensures
        trial::time_in(None) == Err::<u64, LicenseError>(LicenseError::Tampered),
        plaintext.len() != 8 ==> trial::time_in(Some(plaintext)) == Err::<u64, LicenseError>(LicenseError::BadContent),
        plaintext.len() == 8 ==> trial::time_in(Some(plaintext)) is Ok,
{
}

} // verus!
