//! The text that presents a failure to the user.
//!
//! A report is `id: details`. `id` names the operation that failed and
//! always comes first. The details are the dump of the error; those of a
//! failure to connect start with a hint to look at the network.

use vstd::prelude::*;

verus! {

/// What the details of a failure to connect start with.
pub open spec fn connectivity_hint() -> Seq<char> {
    "Please check your internet connection - "@
}

/// What separates the operation's name from the details.
pub open spec fn separator() -> Seq<char> {
    ": "@
}

/// What every report of the operation `id` starts with.
pub open spec fn report_lead(id: Seq<char>) -> Seq<char> {
    id + separator()
}

/// The details as a report shows them: behind the hint for a failure to
/// connect, as they are for every other failure.
pub open spec fn shown_details(connect: bool, details: Seq<char>) -> Seq<char> {
    if connect {
        connectivity_hint() + details
    } else {
        details
    }
}

/// The whole report.
pub open spec fn report_text(id: Seq<char>, connect: bool, details: Seq<char>) -> Seq<char> {
    report_lead(id) + shown_details(connect, details)
}

/// What a text holds behind the lead of a report of `id`.
pub open spec fn behind_lead(text: Seq<char>, id: Seq<char>) -> Seq<char> {
    text.skip(report_lead(id).len() as int)
}

/// `text` reports a failure of the operation `id`: it starts with the name
/// and the separator, and for a failure to connect the hint comes next.
pub open spec fn is_report_of(text: Seq<char>, id: Seq<char>, connect: bool) -> bool {
    &&& report_lead(id).is_prefix_of(text)
    &&& connect ==> (report_lead(id) + connectivity_hint()).is_prefix_of(text)
}

/// Puts a report together from its three parts.
pub fn compose_report(id: &str, connect: bool, details: &str) -> (text: String)
    ensures
        text@ == report_text(id@, connect, details@),
        is_report_of(text@, id@, connect),
{
    let mut text = String::from_str(id);
    text.append(": ");
    if connect {
        text.append("Please check your internet connection - ");
    }
    text.append(details);
    proof {
        if connect {
            assert(text@ == report_text(id@, connect, details@));
        }
        lemma_report_is_report(id@, connect, details@);
    }
    text
}

/// A report is a report of its operation, whatever the details are.
pub proof fn lemma_report_is_report(id: Seq<char>, connect: bool, details: Seq<char>)
    ensures
        is_report_of(report_text(id, connect, details), id, connect),
{
    let text = report_text(id, connect, details);
    let lead = report_lead(id);
    assert(text.subrange(0, lead.len() as int) == lead);
    if connect {
        let led = lead + connectivity_hint();
        assert(text.subrange(0, led.len() as int) == led);
    }
}

/// A text is a report of `id` exactly when it is the report of some
/// details.
pub proof fn lemma_reports_have_details(id: Seq<char>, connect: bool, text: Seq<char>)
    ensures
        is_report_of(text, id, connect) <==> exists|details: Seq<char>|
            text == #[trigger] report_text(id, connect, details),
{
    let lead = report_lead(id);
    if is_report_of(text, id, connect) {
        let start = if connect {
            lead.len() + connectivity_hint().len()
        } else {
            lead.len()
        };
        let rest = text.skip(start as int);
        let led = if connect {
            lead + connectivity_hint()
        } else {
            lead
        };
        assert(text.subrange(0, led.len() as int) == led);
        assert(text == led + rest);
        assert(led + rest == report_text(id, connect, rest));
    }
    if exists|details: Seq<char>| text == #[trigger] report_text(id, connect, details) {
        let details = choose|details: Seq<char>| text == #[trigger] report_text(
            id,
            connect,
            details,
        );
        lemma_report_is_report(id, connect, details);
    }
}

/// The operation's name is the first thing in every report, and the
/// details as they are shown are all that follows the separator.
pub proof fn lemma_report_starts_with_name(id: Seq<char>, connect: bool, details: Seq<char>)
    ensures
        id.is_prefix_of(report_text(id, connect, details)),
        report_lead(id).is_prefix_of(report_text(id, connect, details)),
        behind_lead(report_text(id, connect, details), id) == shown_details(connect, details),
{
    let text = report_text(id, connect, details);
    assert(text.subrange(0, id.len() as int) == id);
    assert(text.subrange(0, report_lead(id).len() as int) == report_lead(id));
    assert(behind_lead(text, id) == shown_details(connect, details));
}

/// What follows the separator starts with the hint exactly when the report
/// is that of a failure to connect, unless the dump of the error starts
/// with the hint's words itself.
pub proof fn lemma_hint_iff_connect(id: Seq<char>, connect: bool, details: Seq<char>)
    requires
        !connectivity_hint().is_prefix_of(details),
    ensures
        connectivity_hint().is_prefix_of(behind_lead(report_text(id, connect, details), id))
            <==> connect,
{
    lemma_report_starts_with_name(id, connect, details);
    if connect {
        let shown = shown_details(true, details);
        assert(shown.subrange(0, connectivity_hint().len() as int) == connectivity_hint());
    }
}

} // verus!
