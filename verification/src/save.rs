//! The name under which the Save button stores a screenshot.

use vstd::prelude::*;
use vstd::string::StringExecFns;

verus! {

/// The text that chrono writes for the UTC time `secs` seconds after the Unix
/// epoch with the pattern `%Y_%m_%d-%H_%M_%S` (year, month, day, then hour,
/// minute, second).
pub uninterp spec fn spec_timestamp_stem(secs: i64) -> Seq<char>;

/// Calls chrono's `DateTime::<Utc>::from_timestamp(secs, 0)` and formats the
/// time with `%Y_%m_%d-%H_%M_%S`. Claimed of chrono: the text is a function of
/// `secs` alone, named `spec_timestamp_stem`; there is a time for every `secs`
/// within a million million seconds (about 31,700 years) of the epoch, since
/// `from_timestamp` fails only for days outside the years it can represent
/// (-262143 to 262142). Not stated: the digits of the text.
#[verifier::external_body]
fn timestamp_stem(secs: i64) -> (stem: Option<String>)
    ensures
        stem matches Some(s) ==> s@ == spec_timestamp_stem(secs),
        -1_000_000_000_000 <= secs <= 1_000_000_000_000 ==> stem is Some,
{
    match chrono::DateTime::<chrono::Utc>::from_timestamp(secs, 0) {
        Some(t) => Some(format!("{}", t.format("%Y_%m_%d-%H_%M_%S"))),
        None => None,
    }
}

/// A file name made of `stem` with the extension `format`: a dot and the
/// extension follow the stem, unless the extension is empty.
pub open spec fn file_name(stem: Seq<char>, format: Seq<char>) -> Seq<char> {
    if format.len() == 0 {
        stem
    } else {
        stem + seq!['.'] + format
    }
}

/// Gives the name `stem`, which has no extension, the extension `format`.
pub fn with_extension(stem: String, format: &str) -> (name: String)
    ensures
        name@ == file_name(stem@, format@),
{
    if format.is_empty() {
        stem
    } else {
        proof {
            reveal_strlit(".");
        }
        let dotted = stem.concat(".");
        dotted.concat(format)
    }
}

/// Name of the screenshot saved at the UTC time `secs` seconds after the Unix
/// epoch, in the image format `format`: the time as
/// `year_month_day-hour_minute_second`, with `format` as extension. `None` when
/// chrono cannot represent the time.
pub fn save_file_name(secs: i64, format: &str) -> (name: Option<String>)
    ensures
        name matches Some(n) ==> n@ == file_name(spec_timestamp_stem(secs), format@),
        -1_000_000_000_000 <= secs <= 1_000_000_000_000 ==> name is Some,
{
    match timestamp_stem(secs) {
        Some(stem) => Some(with_extension(stem, format)),
        None => None,
    }
}

/// A file name starts with its stem; with a non-empty extension, a single dot
/// follows the stem and the extension ends the name.
pub proof fn lemma_file_name_parts(stem: Seq<char>, format: Seq<char>)
    ensures
        file_name(stem, format).subrange(0, stem.len() as int) == stem,
        format.len() == 0 ==> file_name(stem, format) == stem,
        format.len() > 0 ==> file_name(stem, format).len() == stem.len() + 1 + format.len(),
        format.len() > 0 ==> file_name(stem, format)[stem.len() as int] == '.',
        format.len() > 0 ==> file_name(stem, format).subrange(
            stem.len() + 1int,
            file_name(stem, format).len() as int,
        ) == format,
{
    let n = file_name(stem, format);
    assert(n.subrange(0, stem.len() as int) =~= stem);
    if format.len() > 0 {
        assert(n.subrange(stem.len() + 1int, n.len() as int) =~= format);
    }
}

} // verus!
