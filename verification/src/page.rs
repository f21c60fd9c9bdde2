//! The status page: a headline percentage with one decimal place, the two
//! counts, and the time of the last update.

use crate::decimal::append_decimal;
use crate::decimal::decimal_digits;
use crate::decimal::digit_char;
use crate::decimal::digit_str;
use chrono::DateTime;
use chrono::Utc;
use vstd::prelude::*;
use vstd::string::StringExecFns;

verus! {

/// The page up to the headline percentage.
pub const PAGE_HEAD: &'static str =
    "<!DOCTYPE html>\n\
    \t\t<html>\n\
    \t\t<head>\n\
    \t\t<style>\n\
    \t\tbody {\n\
    \t\t\tbackground-color: #D3D3D3;\n\
    \t\t\tcolor: black;\n\
    \t\t\tfont-family: \"Gill Sans\", sans-serif;\n\
    \t\t\tfont-size: 14pt;\n\
    \t\t}\n\
    \t\t.center {\n\
    \t\t\ttext-align: center;\n\
    \t\t\tmargin: auto;\n\
    \t\t\twidth: 70%;\n\
    \t\t\tpadding: 10px;\n\
    \t\t}\n\
    \t\t.center-text {\n\
    \t\t\ttext-align: center;\n\
    \t\t\twidth: 70%;\n\
    \t\t\tmargin: auto;\n\
    \t\t\tpadding: 10px;\n\
    \t\t\tbackground-color: white;\n\
    \t\t}\n\
    \t\t.last-updated-footer {\n\
    \t\t\tposition: fixed;\n\
    \t\t\tleft: 0;\n\
    \t\t\tbottom: 0;\n\
    \t\t\twidth: 100%;\n\
    \t\t\ttext-align: center;\n\
    \t\t\tfont-size: 9pt;\n\
    \t\t}\n\
    \t\t</style>\n\
    \t\t\t</head>\n\
    \t\t\t<body>\n\
    \t\t\t<div class=\"center\">\n\
    \t\t\t<p>Lightning nodes supporting onion message forwarding:</p>\n\
    \t\t\t<p style=\"font-size: 48pt;\">";

/// From the percent sign of the headline to the bracket that opens the counts.
pub const PAGE_AFTER_SHARE: &'static str =
    "%</p>\n\
    \t\t\t<p style=\"font-size: 24pt;\">(";

/// Between the two counts.
pub const PAGE_BETWEEN_COUNTS: &'static str =
    "/";

/// From the counts to the label of the time of the last update.
pub const PAGE_AFTER_COUNTS: &'static str =
    " nodes)</p>\n\
    \t\t\t</div>\n\
    \t\t\t<div class=\"last-updated-footer\">\n\
    \t\t\tLast updated: ";

/// The page after the time of the last update.
pub const PAGE_TAIL: &'static str =
    "\n\
    \t\t</div>\n\
    \t\t\t</body>\n\
    \t\t\t</html>\n\
    \t\t\t</body>\n\
    \t\t\t</html>";

/// A share given in tenths of a percent, written with one decimal place.
pub open spec fn percent_text(tenths: nat) -> Seq<char> {
    decimal_digits(tenths / 10) + seq!['.'] + seq![digit_char(tenths % 10)]
}

/// The status page for a share in tenths of a percent, the two counts and the
/// text of the time of the last update.
pub open spec fn status_page(tenths: nat, support: nat, total: nat, last_update: Seq<char>) -> Seq<
    char,
> {
    PAGE_HEAD@ + percent_text(tenths) + PAGE_AFTER_SHARE@ + decimal_digits(support)
        + PAGE_BETWEEN_COUNTS@ + decimal_digits(total) + PAGE_AFTER_COUNTS@ + last_update
        + PAGE_TAIL@
}

/// Appends a share in tenths of a percent, with one decimal place.
pub fn append_percent(out: &mut String, tenths: u128)
    ensures
        final(out)@ == old(out)@ + percent_text(tenths as nat),
{
    append_decimal(out, tenths / 10);
    proof {
        reveal_strlit(".");
    }
    out.append(".");
    let d: u8 = (tenths % 10) as u8;
    out.append(digit_str(d));
    assert(final(out)@ =~= old(out)@ + percent_text(tenths as nat)) by {
        assert("."@ =~= seq!['.']);
    }
}

/// Renders the status page.
pub fn render_status_page(
    share_tenths: u128,
    num_om_support: usize,
    num_nodes: usize,
    last_update: &str,
) -> (html: String)
    ensures
        html@ == status_page(
            share_tenths as nat,
            num_om_support as nat,
            num_nodes as nat,
            last_update@,
        ),
{
    let mut html = String::from_str(PAGE_HEAD);
    append_percent(&mut html, share_tenths);
    html.append(PAGE_AFTER_SHARE);
    append_decimal(&mut html, num_om_support as u128);
    html.append(PAGE_BETWEEN_COUNTS);
    append_decimal(&mut html, num_nodes as u128);
    html.append(PAGE_AFTER_COUNTS);
    html.append(last_update);
    html.append(PAGE_TAIL);
    html
}

/// The text that chrono writes for the UTC time `secs` seconds and `nanos`
/// nanoseconds after the start of 1970, or `None` where chrono has no such
/// time.
pub uninterp spec fn utc_text(secs: int, nanos: int) -> Option<Seq<char>>;

/// The last second of the year 9999, in seconds after the start of 1970.
pub const LAST_PLAIN_SECOND: i64 = 253_402_300_799;

/// Times from 1970 to the end of the year 9999 with a nanosecond part below
/// one second: chrono has all of them.
pub open spec fn plain_time(secs: int, nanos: int) -> bool {
    0 <= secs <= LAST_PLAIN_SECOND && 0 <= nanos < 1_000_000_000
}

/// Calls `DateTime::<Utc>::from_timestamp` and writes the time it gives with
/// its `Display` impl, as `to_string` does. The text depends on the two
/// numbers alone, so it has a name, `utc_text`. `from_timestamp` gives no
/// time where the day is outside chrono's range of years or the nanoseconds
/// are not valid; every plain time is inside both.
#[verifier::external_body]
fn format_utc(secs: i64, nanos: u32) -> (text: Option<String>)
    ensures
        text is Some <==> utc_text(secs as int, nanos as int) is Some,
        text matches Some(t) ==> utc_text(secs as int, nanos as int) == Some(t@),
        plain_time(secs as int, nanos as int) ==> text is Some,
{
    match DateTime::<Utc>::from_timestamp(secs, nanos) {
        Some(time) => Some(time.to_string()),
        None => None,
    }
}

/// Renders the status page with the time of the last update given as
/// seconds and nanoseconds after the start of 1970, UTC.
///
/// The page is `None` exactly where chrono has no such time; for every plain
/// time there is a page.
pub fn get_html_template(
    share_tenths: u128,
    num_om_support: usize,
    num_nodes: usize,
    secs: i64,
    nanos: u32,
) -> (html: Option<String>)
    ensures
        match utc_text(secs as int, nanos as int) {
            Some(stamp) => html matches Some(page) && page@ == status_page(
                share_tenths as nat,
                num_om_support as nat,
                num_nodes as nat,
                stamp,
            ),
            None => html is None,
        },
        plain_time(secs as int, nanos as int) ==> html is Some,
{
    match format_utc(secs, nanos) {
        Some(stamp) => Some(
            render_status_page(share_tenths, num_om_support, num_nodes, stamp.as_str()),
        ),
        None => None,
    }
}

/// The console line that reports one sample.
pub open spec fn sample_line(tenths: nat, support: nat, total: nat) -> Seq<char> {
    "Nodes that announce OM support: "@ + decimal_digits(support) + "/"@ + decimal_digits(total)
        + " = "@ + percent_text(tenths) + "%"@
}

/// Writes the console line that reports one sample.
pub fn render_sample_line(share_tenths: u128, num_om_support: usize, num_nodes: usize) -> (line:
    String)
    ensures
        line@ == sample_line(share_tenths as nat, num_om_support as nat, num_nodes as nat),
{
    let mut line = String::from_str("Nodes that announce OM support: ");
    append_decimal(&mut line, num_om_support as u128);
    line.append("/");
    append_decimal(&mut line, num_nodes as u128);
    line.append(" = ");
    append_percent(&mut line, share_tenths);
    line.append("%");
    line
}

/// Two pages for the same share and counts differ in the time of the last
/// update only: both are the same text before it and the same text after it.
pub proof fn lemma_pages_differ_in_time_only(
    tenths: nat,
    support: nat,
    total: nat,
    first: Seq<char>,
    second: Seq<char>,
)
    ensures
        exists|before: Seq<char>, after: Seq<char>|
            status_page(tenths, support, total, first) == before + first + after && status_page(
                tenths,
                support,
                total,
                second,
            ) == before + second + after,
{
    let before = PAGE_HEAD@ + percent_text(tenths) + PAGE_AFTER_SHARE@ + decimal_digits(support)
        + PAGE_BETWEEN_COUNTS@ + decimal_digits(total) + PAGE_AFTER_COUNTS@;
    let after = PAGE_TAIL@;
    assert(status_page(tenths, support, total, first) == before + first + after);
    assert(status_page(tenths, support, total, second) == before + second + after);
}

} // verus!
