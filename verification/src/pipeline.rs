//! One run of the relay, as the decisions between its two calls to the
//! outside. The caller fetches the statistics and hands the outcome to
//! `after_fetch`; where that asks for a delivery, the caller posts the
//! summary and hands the outcome to `conclude`.

use crate::config::{Notify, NotifyView, Settings, SettingsView};
use crate::envelope::{failure_view, success_view, Reply, ReplyView, ReturnValue};
use crate::stats::{format_summary, summary_html, ListStats};
use crate::text::{decimal, push_decimal};
use vstd::prelude::*;

verus! {

/// The first call of a run: which list to ask the provider about, and with
/// which credential.
#[derive(Debug)]
pub struct Fetch {
    pub api_key: String,
    pub list_id: String,
}

/// What to do once the provider has answered.
#[derive(Debug)]
pub enum Next {
    /// Post `content` to the webhook at `url`, then `conclude`.
    Deliver { url: String, content: String },
    /// Send nothing and answer with `reply`; `content` is what would have
    /// been sent.
    Withhold { content: String, reply: Reply },
    /// The provider failed: send nothing and answer with `reply`.
    Fail { reply: Reply },
}

/// A `Next` as plain data.
pub enum NextView {
    Deliver { url: Seq<char>, content: Seq<char> },
    Withhold { content: Seq<char>, reply: ReplyView },
    Fail { reply: ReplyView },
}

impl View for Next {
    type V = NextView;

    open spec fn view(&self) -> NextView {
        match self {
            Next::Deliver { url, content } => NextView::Deliver { url: url@, content: content@ },
            Next::Withhold { content, reply } => NextView::Withhold {
                content: content@,
                reply: reply@,
            },
            Next::Fail { reply } => NextView::Fail { reply: reply@ },
        }
    }
}

/// What the provider answered: the statistics, or a description of what
/// went wrong.
pub type Fetched = Result<ListStats, String>;

/// What became of the post to the webhook: the status code of the response,
/// or a description of why there was none.
pub type Delivered = Result<u16, String>;

/// A `Fetched` as plain data.
pub open spec fn fetched_view(fetched: Fetched) -> Result<ListStats, Seq<char>> {
    match fetched {
        Ok(stats) => Ok(stats),
        Err(description) => Err(description@),
    }
}

/// A `Delivered` as plain data.
pub open spec fn delivered_view(delivered: Delivered) -> Result<u16, Seq<char>> {
    match delivered {
        Ok(code) => Ok(code),
        Err(description) => Err(description@),
    }
}

/// Whether a status code tells of success: the codes from 200 to 299 do.
pub open spec fn is_success(code: u16) -> bool {
    200 <= code < 300
}

/// The log line of a run whose provider call failed.
pub open spec fn provider_failure_line(description: Seq<char>) -> Seq<char> {
    "Error getting Mailchimp list info: "@ + description
}

/// The log line of a run whose post to the webhook failed; `cause` is the
/// status code in decimal, or the description of the failed transport.
pub open spec fn webhook_failure_line(cause: Seq<char>) -> Seq<char> {
    "Error posting to Basecamp: "@ + cause
}

/// The step that follows the provider's answer. A failure ends the run
/// with its line in the log. Statistics are made into a summary, which is
/// delivered in production and withheld otherwise.
pub open spec fn next_step(settings: SettingsView, fetched: Result<ListStats, Seq<char>>) -> NextView {
    match fetched {
        Err(description) => NextView::Fail {
            reply: failure_view(provider_failure_line(description)),
        },
        Ok(stats) => match settings.notify {
            NotifyView::Live { url } => NextView::Deliver { url, content: summary_html(stats) },
            NotifyView::DryRun => NextView::Withhold {
                content: summary_html(stats),
                reply: success_view(),
            },
        },
    }
}

/// The answer of a run whose summary was posted: success for a response
/// with a status from 200 to 299, a failure with its line in the log for
/// any other response and for a post that got no response.
pub open spec fn conclusion(delivered: Result<u16, Seq<char>>) -> ReplyView {
    match delivered {
        Ok(code) => if is_success(code) {
            success_view()
        } else {
            failure_view(webhook_failure_line(decimal(code as nat)))
        },
        Err(description) => failure_view(webhook_failure_line(description)),
    }
}

/// The answer of a whole run: that of the step after the fetch where this
/// step ends the run, else that of the delivery.
pub open spec fn run_reply(
    settings: SettingsView,
    fetched: Result<ListStats, Seq<char>>,
    delivered: Result<u16, Seq<char>>,
) -> ReplyView {
    match next_step(settings, fetched) {
        NextView::Deliver { .. } => conclusion(delivered),
        NextView::Withhold { reply, .. } => reply,
        NextView::Fail { reply } => reply,
    }
}

/// The call that opens a run.
pub fn begin(settings: &Settings) -> (fetch: Fetch)
    ensures
        fetch.api_key@ == settings.api_key@,
        fetch.list_id@ == settings.list_id@,
{
    Fetch { api_key: settings.api_key.clone(), list_id: settings.list_id.clone() }
}

/// Decides what follows the provider's answer.
pub fn after_fetch(settings: &Settings, fetched: Fetched) -> (next: Next)
    ensures
        next@ == next_step(settings@, fetched_view(fetched)),
{
    match fetched {
        Err(description) => {
            let mut line = String::from_str("Error getting Mailchimp list info: ");
            line.append(description.as_str());
            Next::Fail { reply: Reply::failure(line) }
        },
        Ok(stats) => {
            let content = format_summary(&stats);
            match &settings.notify {
                Notify::Live { url } => Next::Deliver { url: url.clone(), content },
                Notify::DryRun => Next::Withhold { content, reply: Reply::success() },
            }
        },
    }
}

/// Tells whether a status code is one of success.
pub fn status_is_success(code: u16) -> (yes: bool)
    ensures
        yes == is_success(code),
{
    200 <= code && code < 300
}

/// Decides the answer of a run from what became of the post to the webhook.
pub fn conclude(delivered: Delivered) -> (reply: Reply)
    ensures
        reply@ == conclusion(delivered_view(delivered)),
{
    match delivered {
        Ok(code) => {
            if status_is_success(code) {
                Reply::success()
            } else {
                let mut line = String::from_str("Error posting to Basecamp: ");
                push_decimal(&mut line, code as u128);
                Reply::failure(line)
            }
        },
        Err(description) => {
            let mut line = String::from_str("Error posting to Basecamp: ");
            line.append(description.as_str());
            Reply::failure(line)
        },
    }
}

/// Outside production no run asks for a delivery, whatever the provider
/// answered, and a run whose provider answered with statistics reports
/// success: status 200, result `ok`, no log line.
pub proof fn dry_run_sends_nothing(
    settings: SettingsView,
    fetched: Result<ListStats, Seq<char>>,
    delivered: Result<u16, Seq<char>>,
)
    requires
        settings.notify is DryRun,
    ensures
        !(next_step(settings, fetched) is Deliver),
        fetched is Ok ==> next_step(settings, fetched) is Withhold,
        fetched is Ok ==> run_reply(settings, fetched, delivered) == success_view(),
        fetched is Ok ==> run_reply(settings, fetched, delivered).status.code_of() == 200,
{
}

/// In production the summary of the statistics is what is delivered, to the
/// webhook of the settings.
pub proof fn live_run_delivers_summary(settings: SettingsView, stats: ListStats)
    requires
        settings.notify is Live,
    ensures
        next_step(settings, Ok(stats)) == (NextView::Deliver {
            url: settings.notify->url,
            content: summary_html(stats),
        }),
{
}

/// In production, a webhook that responds with a status outside 200 to 299
/// makes the run report an error: status 500, result `error`, and one log
/// line, which names the webhook and the status.
pub proof fn rejected_delivery_is_reported(settings: SettingsView, stats: ListStats, code: u16)
    requires
        settings.notify is Live,
        !is_success(code),
    ensures
        run_reply(settings, Ok(stats), Ok(code)) == failure_view(
            webhook_failure_line(decimal(code as nat)),
        ),
        run_reply(settings, Ok(stats), Ok(code)).status.code_of() == 500,
        run_reply(settings, Ok(stats), Ok(code)).envelope.return_value == ReturnValue::Failed,
        run_reply(settings, Ok(stats), Ok(code)).envelope.logs.len() == 1,
{
}

/// In production, a webhook that responds with a status from 200 to 299
/// makes the run report success.
pub proof fn accepted_delivery_is_success(settings: SettingsView, stats: ListStats, code: u16)
    requires
        settings.notify is Live,
        is_success(code),
    ensures
        run_reply(settings, Ok(stats), Ok(code)) == success_view(),
{
}

/// When the provider fails, the run asks for no delivery and reports an
/// error: status 500, result `error`, and one log line, which names the
/// provider and carries the description of the failure.
pub proof fn provider_failure_is_reported(
    settings: SettingsView,
    description: Seq<char>,
    delivered: Result<u16, Seq<char>>,
)
    ensures
        next_step(settings, Err(description)) is Fail,
        run_reply(settings, Err(description), delivered) == failure_view(
            provider_failure_line(description),
        ),
        run_reply(settings, Err(description), delivered).status.code_of() == 500,
        run_reply(settings, Err(description), delivered).envelope.return_value
            == ReturnValue::Failed,
        run_reply(settings, Err(description), delivered).envelope.logs.len() == 1,
{
}

/// A run ends in one of two ways and nothing between: status 200 with
/// result `ok` and an empty log, or status 500 with result `error` and
/// exactly one log line.
pub proof fn run_is_all_or_nothing(
    settings: SettingsView,
    fetched: Result<ListStats, Seq<char>>,
    delivered: Result<u16, Seq<char>>,
)
    ensures
        ({
            let reply = run_reply(settings, fetched, delivered);
            ||| reply == success_view()
            ||| reply == failure_view(reply.envelope.logs[0]) && reply.envelope.logs.len() == 1
        }),
{
    let reply = run_reply(settings, fetched, delivered);
    if reply != success_view() {
        assert(reply.envelope.logs =~= seq![reply.envelope.logs[0]]);
    }
}

} // verus!
