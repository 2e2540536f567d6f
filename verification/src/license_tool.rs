//! The tool that makes licenses: its arguments, and the time of expiry that they ask for.
use vstd::prelude::*;

use crate::text;
use crate::text::{parse_u64, same_text};

verus! {

/// What the arguments ask for.
#[derive(Debug)]
pub struct Request {
    pub hours: Option<u64>,
    pub until: Option<String>,
    pub out: Option<String>,
}

/// What the arguments ask for, as texts.
pub struct RequestView {
    pub hours: Option<u64>,
    pub until: Option<Seq<char>>,
    pub out: Option<Seq<char>>,
}

/// An optional text.
pub open spec fn opt_text(s: Option<String>) -> Option<Seq<char>> {
    match s {
        Some(t) => Some(t@),
        None => None,
    }
}

impl View for Request {
    type V = RequestView;

    open spec fn view(&self) -> RequestView {
        RequestView { hours: self.hours, until: opt_text(self.until), out: opt_text(self.out) }
    }
}

/// Why no license is made.
#[derive(Clone, Copy, Debug, PartialEq, Eq, Structural)]
pub enum ToolError {
    /// `--hours` stands last.
    HoursMissing,
    /// What follows `--hours` is no number.
    HoursInvalid,
    /// `--until` stands last.
    UntilMissing,
    /// `--out` stands last.
    OutMissing,
    /// Another argument.
    Usage,
    /// What follows `--until` is no time.
    UntilInvalid,
    /// Neither `--hours` nor `--until`.
    Unspecified,
    /// The time of expiry is out of range.
    OutOfRange,
}

impl ToolError {
    /// The error in words.
    pub open spec fn words(self) -> Seq<char> {
        match self {
            ToolError::HoursMissing => "--hours requires argument"@,
            ToolError::HoursInvalid => "--hours must be a positive integer"@,
            ToolError::UntilMissing => "--until requires argument (e.g., 2025-02-03 00:00:00)"@,
            ToolError::OutMissing => "--out requires argument"@,
            ToolError::Usage => "Usage: gen_license --hours <N> | --until \"<datetime>\" [--out license.key]"@,
            ToolError::UntilInvalid => "Parse --until time failed, please use 2025-02-03 00:00:00 or RFC3339 format"@,
            ToolError::Unspecified => "Please specify --hours <N> or --until \"<datetime>\""@,
            ToolError::OutOfRange => "The time of expiry is out of range"@,
        }
    }

    /// The error in words.
    pub fn text(self) -> (r: &'static str)
        ensures
            r@ == self.words(),
    {
        match self {
            ToolError::HoursMissing => "--hours requires argument",
            ToolError::HoursInvalid => "--hours must be a positive integer",
            ToolError::UntilMissing => "--until requires argument (e.g., 2025-02-03 00:00:00)",
            ToolError::OutMissing => "--out requires argument",
            ToolError::Usage => "Usage: gen_license --hours <N> | --until \"<datetime>\" [--out license.key]",
            ToolError::UntilInvalid => "Parse --until time failed, please use 2025-02-03 00:00:00 or RFC3339 format",
            ToolError::Unspecified => "Please specify --hours <N> or --until \"<datetime>\"",
            ToolError::OutOfRange => "The time of expiry is out of range",
        }
    }
}

/// What the arguments ask for, behind what is known already: each option takes the argument behind it, and
/// the last of several counts.
pub open spec fn asked(args: Seq<Seq<char>>, so_far: RequestView) -> Result<RequestView, ToolError>
    decreases args.len(),
{
    if args.len() == 0 {
        Ok(so_far)
    } else if args[0] == "--hours"@ {
        if args.len() == 1 {
            Err(ToolError::HoursMissing)
        } else {
            match text::unsigned_number(args[1], u64::MAX as int) {
                Some(n) => asked(args.skip(2), RequestView { hours: Some(n as u64), ..so_far }),
                None => Err(ToolError::HoursInvalid),
            }
        }
    } else if args[0] == "--until"@ {
        if args.len() == 1 {
            Err(ToolError::UntilMissing)
        } else {
            asked(args.skip(2), RequestView { until: Some(args[1]), ..so_far })
        }
    } else if args[0] == "--out"@ {
        if args.len() == 1 {
            Err(ToolError::OutMissing)
        } else {
            asked(args.skip(2), RequestView { out: Some(args[1]), ..so_far })
        }
    } else {
        Err(ToolError::Usage)
    }
}

/// The arguments, as texts.
pub open spec fn arg_views(args: Seq<String>) -> Seq<Seq<char>> {
    args.map_values(|a: String| a@)
}

/// What the arguments ask for.
pub fn parse_args(args: &Vec<String>) -> (r: Result<Request, ToolError>)
    ensures
        (match r {
            Ok(request) => Ok(request@),
            Err(e) => Err(e),
        }) == asked(arg_views(args@), (RequestView { hours: None, until: None, out: None })),
{
    let ghost all = arg_views(args@);
    let ghost goal = asked(all, RequestView { hours: None, until: None, out: None });
    let mut request = Request { hours: None, until: None, out: None };
    let mut i: usize = 0;
    assert(all.skip(0) =~= all);
    while i < args.len()
        invariant
            i <= args@.len(),
            all == arg_views(args@),
            goal == asked(all, (RequestView { hours: None, until: None, out: None })),
            goal == asked(all.skip(i as int), request@),
        decreases args@.len() - i,
    {
        let ghost rest = all.skip(i as int);
        assert(rest[0] == args@[i as int]@);
        let last = args.len() - i == 1;
        if !last {
            assert(rest[1] == args@[i + 1]@);
            assert(rest.skip(2) =~= all.skip(i + 2));
        }
        let option = args[i].as_str();
        if same_text(option, "--hours") {
            if last {
                return Err(ToolError::HoursMissing);
            }
            match parse_u64(args[i + 1].as_str()) {
                Some(n) => {
                    request.hours = Some(n);
                },
                None => return Err(ToolError::HoursInvalid),
            }
        } else if same_text(option, "--until") {
            if last {
                return Err(ToolError::UntilMissing);
            }
            request.until = Some(args[i + 1].clone());
        } else if same_text(option, "--out") {
            if last {
                return Err(ToolError::OutMissing);
            }
            request.out = Some(args[i + 1].clone());
        } else {
            return Err(ToolError::Usage);
        }
        i += 2;
    }
    Ok(request)
}

/// The second, since the Unix epoch, that a text means by RFC 3339, where it means one.
pub uninterp spec fn rfc3339_second(s: Seq<char>) -> Option<int>;

/// The second, since the Unix epoch, that a text means in UTC by a format of `chrono`, where it means one.
pub uninterp spec fn formatted_second(s: Seq<char>, format: Seq<char>) -> Option<int>;

/// `chrono::DateTime::parse_from_rfc3339`, and the result's timestamp.
#[verifier::external_body]
fn read_rfc3339(s: &str) -> (r: Option<i64>)
    ensures
        (match r {
            Some(t) => Some(t as int),
            None => None,
        }) == rfc3339_second(s@),
{
    chrono::DateTime::parse_from_rfc3339(s).ok().map(|d| d.timestamp())
}

/// `chrono::NaiveDateTime::parse_from_str`, and the result's timestamp in UTC.
#[verifier::external_body]
fn read_formatted(s: &str, format: &str) -> (r: Option<i64>)
    ensures
        (match r {
            Some(t) => Some(t as int),
            None => None,
        }) == formatted_second(s@, format@),
{
    chrono::NaiveDateTime::parse_from_str(s, format).ok().map(|n| n.and_utc().timestamp())
}

/// The second of expiry for a time: itself, or the first second there is for a time before the Unix epoch,
/// so that the license is over as the time is.
pub open spec fn second_of(t: int) -> u64 {
    if t >= 0 {
        t as u64
    } else {
        0
    }
}

/// The second of expiry for a time.
fn expiry_second(t: i64) -> (r: u64)
    ensures
        r == second_of(t as int),
{
    if t >= 0 {
        t as u64
    } else {
        0
    }
}

/// The second of expiry: so many hours from now, or else the time that was read by RFC 3339 or, failing
/// that, in the plain format.
pub open spec fn expiry_of(
    request: RequestView,
    now: u64,
    by_rfc: Option<int>,
    by_format: Option<int>,
) -> Result<u64, ToolError> {
    match request.hours {
        Some(h) => if now + h * 3600 <= u64::MAX {
            Ok((now + h * 3600) as u64)
        } else {
            Err(ToolError::OutOfRange)
        },
        None => if request.until is None {
            Err(ToolError::Unspecified)
        } else {
            match (by_rfc, by_format) {
                (Some(t), _) => Ok(second_of(t)),
                (None, Some(t)) => Ok(second_of(t)),
                (None, None) => Err(ToolError::UntilInvalid),
            }
        },
    }
}

/// An optional number.
pub open spec fn opt_int(n: Option<i64>) -> Option<int> {
    match n {
        Some(t) => Some(t as int),
        None => None,
    }
}

/// The second of expiry, where the time of the request was read like this.
pub fn expiry_from(request: &Request, now: u64, by_rfc: Option<i64>, by_format: Option<i64>) -> (r: Result<
    u64,
    ToolError,
>)
    ensures
        r == expiry_of(request@, now, opt_int(by_rfc), opt_int(by_format)),
{
    match request.hours {
        Some(h) => {
            let span = match h.checked_mul(3600) {
                Some(span) => span,
                None => return Err(ToolError::OutOfRange),
            };
            match now.checked_add(span) {
                Some(t) => Ok(t),
                None => Err(ToolError::OutOfRange),
            }
        },
        None => {
            if request.until.is_none() {
                return Err(ToolError::Unspecified);
            }
            match (by_rfc, by_format) {
                (Some(t), _) => Ok(expiry_second(t)),
                (None, Some(t)) => Ok(expiry_second(t)),
                (None, None) => Err(ToolError::UntilInvalid),
            }
        },
    }
}

/// The second of expiry that a request asks for.
pub fn expiry_secs(request: &Request, now: u64) -> (r: Result<u64, ToolError>)
    ensures
        r == match request@.until {
            Some(s) => expiry_of(
                request@,
                now,
                rfc3339_second(s),
                formatted_second(s, "%Y-%m-%d %H:%M:%S"@),
            ),
            None => expiry_of(request@, now, None, None),
        },
{
    match &request.until {
        Some(s) => expiry_from(
            request,
            now,
            read_rfc3339(s.as_str()),
            read_formatted(s.as_str(), "%Y-%m-%d %H:%M:%S"),
        ),
        None => expiry_from(request, now, None, None),
    }
}

/// A time that `--until` gives is kept: at every second from the Unix epoch on, the license is over exactly
/// where that time is.
pub proof fn until_is_kept(t: int, now: u64)
    requires
        t <= u64::MAX,
    ensures
        now >= second_of(t) <==> now >= t,
{
}

} // verus!
