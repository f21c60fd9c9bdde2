//! The sampling cycle: sample the graph, publish the result, wait, and
//! sample again. A page that could not be written is reported and the cycle
//! goes on as after one that was.
//!
//! The caller reads the graph and the clock, writes the file and sleeps.
//! After each of these it hands what happened to [`sampler_step`], which says
//! what to do next.

use crate::page::get_html_template;
use crate::page::plain_time;
use crate::page::render_sample_line;
use crate::page::sample_line;
use crate::page::status_page;
use crate::page::utc_text;
use crate::share::share_tenths;
use crate::share::share_tenths_spec;
use vstd::prelude::*;

verus! {

/// The seconds between two samples.
pub const SAMPLE_INTERVAL_SECS: u64 = 10;

/// One reading of the graph, with the time at which it was taken.
#[derive(Clone, Copy, Debug, PartialEq, Eq, Structural)]
pub struct Sample {
    /// The nodes that advertise onion-message support.
    pub num_om_support: usize,
    /// The announced nodes.
    pub num_nodes: usize,
    /// The time of the reading: seconds after the start of 1970, UTC.
    pub secs: i64,
    /// The nanosecond part of the time of the reading.
    pub nanos: u32,
}

/// What the caller tells the sampler.
#[derive(Clone, Copy, Debug, PartialEq, Eq, Structural)]
pub enum SamplerEvent {
    /// The cycle begins.
    Started,
    /// The graph has been read.
    Sampled(Sample),
    /// The page has been written.
    PageWritten,
    /// The file of the page could not be opened for writing: a failed write.
    PageNotOpened,
    /// The file was opened and writing the page to it failed.
    PageWriteFailed,
    /// There was no page to write.
    PageSkipped,
    /// The wait between two samples is over.
    Slept,
}

/// What the caller does next.
#[derive(Clone, Debug, PartialEq, Eq)]
pub enum SamplerAction {
    /// Read the graph and the clock.
    Sample,
    /// Print the line, then write the page over the one before. Where the
    /// time of the sample has no text there is no page.
    Publish { line: String, page: Option<String> },
    /// Report the failure if the page could not be written, be it that the
    /// file could not be opened or that writing to it failed; then wait.
    Wait { report_write_failure: bool, seconds: u64 },
}

impl Sample {
    /// The supporting nodes are among the announced ones.
    pub open spec fn wf(self) -> bool {
        self.num_om_support <= self.num_nodes
    }

    /// The share of the sample, in tenths of a percent.
    pub open spec fn share(self) -> nat {
        share_tenths_spec(self.num_om_support as nat, self.num_nodes as nat)
    }
}

/// Whether an event ends the writing of a page, with or without success.
pub open spec fn ends_publishing(event: SamplerEvent) -> bool {
    event == SamplerEvent::PageWritten || event == SamplerEvent::PageNotOpened || event
        == SamplerEvent::PageWriteFailed || event == SamplerEvent::PageSkipped
}

/// Whether an event tells that the page could not be written: its file could
/// not be opened, or writing to it failed.
pub open spec fn write_failed(event: SamplerEvent) -> bool {
    event == SamplerEvent::PageNotOpened || event == SamplerEvent::PageWriteFailed
}

/// Whether `action` is what follows `event` in the cycle.
pub open spec fn follows(event: SamplerEvent, action: SamplerAction) -> bool {
    match event {
        SamplerEvent::Started | SamplerEvent::Slept => action == SamplerAction::Sample,
        SamplerEvent::Sampled(sample) => {
            &&& action matches SamplerAction::Publish { line, page }
            &&& line@ == sample_line(
                sample.share(),
                sample.num_om_support as nat,
                sample.num_nodes as nat,
            )
            &&& match utc_text(sample.secs as int, sample.nanos as int) {
                Some(stamp) => page matches Some(html) && html@ == status_page(
                    sample.share(),
                    sample.num_om_support as nat,
                    sample.num_nodes as nat,
                    stamp,
                ),
                None => page is None,
            }
        },
        _ => action == (SamplerAction::Wait {
            report_write_failure: write_failed(event),
            seconds: SAMPLE_INTERVAL_SECS,
        }),
    }
}

/// Takes an event and says what the caller does next.
///
/// A sample in which the supporting nodes exceed the announced ones does not
/// come from one reading of the graph, and is not accepted.
pub fn sampler_step(event: SamplerEvent) -> (action: SamplerAction)
    requires
        event matches SamplerEvent::Sampled(sample) ==> sample.wf(),
    ensures
        follows(event, action),
        (event matches SamplerEvent::Sampled(sample) && plain_time(
            sample.secs as int,
            sample.nanos as int,
        )) ==> (action matches SamplerAction::Publish { page, .. } && page is Some),
{
    match event {
        SamplerEvent::Started => SamplerAction::Sample,
        SamplerEvent::Slept => SamplerAction::Sample,
        SamplerEvent::Sampled(sample) => {
            let tenths = share_tenths(sample.num_om_support, sample.num_nodes);
            let line = render_sample_line(tenths, sample.num_om_support, sample.num_nodes);
            let page = get_html_template(
                tenths,
                sample.num_om_support,
                sample.num_nodes,
                sample.secs,
                sample.nanos,
            );
            SamplerAction::Publish { line, page }
        },
        SamplerEvent::PageWritten => SamplerAction::Wait {
            report_write_failure: false,
            seconds: SAMPLE_INTERVAL_SECS,
        },
        SamplerEvent::PageNotOpened => SamplerAction::Wait {
            report_write_failure: true,
            seconds: SAMPLE_INTERVAL_SECS,
        },
        SamplerEvent::PageSkipped => SamplerAction::Wait {
            report_write_failure: false,
            seconds: SAMPLE_INTERVAL_SECS,
        },
        SamplerEvent::PageWriteFailed => SamplerAction::Wait {
            report_write_failure: true,
            seconds: SAMPLE_INTERVAL_SECS,
        },
    }
}

/// A page that could not be written neither ends nor delays the cycle: after
/// every way in which publishing can end, the sampler waits the same interval,
/// and after the wait it samples again.
pub proof fn lemma_failed_write_keeps_the_cycle(
    event: SamplerEvent,
    wait: SamplerAction,
    then: SamplerAction,
)
    requires
        ends_publishing(event),
        follows(event, wait),
        follows(SamplerEvent::Slept, then),
    ensures
        (wait matches SamplerAction::Wait { seconds, .. } && seconds == SAMPLE_INTERVAL_SECS),
        then == SamplerAction::Sample,
{
}

/// A page that could not be written is reported before the next sample, and
/// nothing else is: the wait that follows the end of publishing asks for a
/// report exactly when the file could not be opened or writing to it failed.
pub proof fn lemma_failed_write_is_reported(event: SamplerEvent, wait: SamplerAction)
    requires
        ends_publishing(event),
        follows(event, wait),
    ensures
        (wait matches SamplerAction::Wait { report_write_failure, .. } && report_write_failure
            == write_failed(event)),
{
}

} // verus!
