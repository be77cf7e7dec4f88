//! The statistics of one mailing list and the HTML summary made of them.

use crate::text::{decimal, push_decimal};
use vstd::prelude::*;

verus! {

/// The figures that a summary can show, in the order in which it shows them.
#[derive(Clone, Copy, Debug, PartialEq, Eq, Structural)]
pub enum Figure {
    ActiveSubscribers,
    SubscribesSinceSend,
    UnsubscribesSinceSend,
    SubscribeRate,
    UnsubscribeRate,
    ClickRate,
}

impl Figure {
    /// The place of the figure in a summary, counted from zero.
    pub open spec fn rank(self) -> nat {
        match self {
            Figure::ActiveSubscribers => 0,
            Figure::SubscribesSinceSend => 1,
            Figure::UnsubscribesSinceSend => 2,
            Figure::SubscribeRate => 3,
            Figure::UnsubscribeRate => 4,
            Figure::ClickRate => 5,
        }
    }

    /// The words that introduce the figure.
    pub open spec fn label_text(self) -> Seq<char> {
        match self {
            Figure::ActiveSubscribers => "Active subscribers"@,
            Figure::SubscribesSinceSend => "Subscribes since last send"@,
            Figure::UnsubscribesSinceSend => "Unsubscribes since last send"@,
            Figure::SubscribeRate => "Subscribe rate"@,
            Figure::UnsubscribeRate => "Unsubscribe rate"@,
            Figure::ClickRate => "Click rate"@,
        }
    }

    /// The unit that follows the number: nothing for a count, `/m` for a
    /// monthly rate, `%` for a percentage.
    pub open spec fn suffix_text(self) -> Seq<char> {
        match self {
            Figure::ActiveSubscribers => ""@,
            Figure::SubscribesSinceSend => ""@,
            Figure::UnsubscribesSinceSend => ""@,
            Figure::SubscribeRate => "/m"@,
            Figure::UnsubscribeRate => "/m"@,
            Figure::ClickRate => "%"@,
        }
    }

    pub fn label(self) -> (t: &'static str)
        ensures
            t@ == self.label_text(),
    {
        match self {
            Figure::ActiveSubscribers => "Active subscribers",
            Figure::SubscribesSinceSend => "Subscribes since last send",
            Figure::UnsubscribesSinceSend => "Unsubscribes since last send",
            Figure::SubscribeRate => "Subscribe rate",
            Figure::UnsubscribeRate => "Unsubscribe rate",
            Figure::ClickRate => "Click rate",
        }
    }

    pub fn suffix(self) -> (t: &'static str)
        ensures
            t@ == self.suffix_text(),
    {
        match self {
            Figure::ActiveSubscribers => "",
            Figure::SubscribesSinceSend => "",
            Figure::UnsubscribesSinceSend => "",
            Figure::SubscribeRate => "/m",
            Figure::UnsubscribeRate => "/m",
            Figure::ClickRate => "%",
        }
    }
}

/// What the provider reports of one list. Each reading is a whole number, the
/// provider's figure rounded to the nearest unit, since a summary shows no
/// more than that; a figure that the provider left out is `None`.
#[derive(Clone, Copy, Debug)]
pub struct ListStats {
    /// Active members of the list.
    pub member_count: Option<u128>,
    /// Members who subscribed since the last campaign was sent.
    pub member_count_since_send: Option<u128>,
    /// Members who unsubscribed since the last campaign was sent.
    pub unsubscribe_count_since_send: Option<u128>,
    /// Average number of subscriptions per month.
    pub avg_sub_rate: Option<u128>,
    /// Average number of unsubscriptions per month.
    pub avg_unsub_rate: Option<u128>,
    /// Average click rate per campaign, in percent.
    pub click_rate: Option<u128>,
}

impl ListStats {
    /// The reading of one figure.
    pub open spec fn reading(self, figure: Figure) -> Option<u128> {
        match figure {
            Figure::ActiveSubscribers => self.member_count,
            Figure::SubscribesSinceSend => self.member_count_since_send,
            Figure::UnsubscribesSinceSend => self.unsubscribe_count_since_send,
            Figure::SubscribeRate => self.avg_sub_rate,
            Figure::UnsubscribeRate => self.avg_unsub_rate,
            Figure::ClickRate => self.click_rate,
        }
    }
}

/// One list item of a summary: a figure and the number shown for it.
pub struct Entry {
    pub figure: Figure,
    pub value: nat,
}

/// `entries`, followed by the entry of `figure` if there is a reading of it.
pub open spec fn with_reading(entries: Seq<Entry>, figure: Figure, reading: Option<u128>) -> Seq<
    Entry,
> {
    match reading {
        Some(v) => entries.push(Entry { figure, value: v as nat }),
        None => entries,
    }
}

/// The list items of the summary of `stats`: one for each figure that has a
/// reading, in the order of `Figure::rank`.
pub open spec fn entries(stats: ListStats) -> Seq<Entry> {
    let e0 = Seq::<Entry>::empty();
    let e1 = with_reading(e0, Figure::ActiveSubscribers, stats.member_count);
    let e2 = with_reading(e1, Figure::SubscribesSinceSend, stats.member_count_since_send);
    let e3 = with_reading(e2, Figure::UnsubscribesSinceSend, stats.unsubscribe_count_since_send);
    let e4 = with_reading(e3, Figure::SubscribeRate, stats.avg_sub_rate);
    let e5 = with_reading(e4, Figure::UnsubscribeRate, stats.avg_unsub_rate);
    with_reading(e5, Figure::ClickRate, stats.click_rate)
}

/// The HTML of one list item: the label in bold, a colon, the number in
/// decimal and its unit.
pub open spec fn entry_html(entry: Entry) -> Seq<char> {
    "<li><strong>"@ + entry.figure.label_text() + ":</strong> "@ + decimal(entry.value)
        + entry.figure.suffix_text() + "</li>"@
}

/// The HTML of a run of list items, one after the other with nothing between.
pub open spec fn entries_html(entries: Seq<Entry>) -> Seq<char>
    decreases entries.len(),
{
    if entries.len() == 0 {
        Seq::empty()
    } else {
        entries_html(entries.drop_last()) + entry_html(entries.last())
    }
}

/// The heading that opens every summary, and the list that it opens.
pub open spec fn heading_html() -> Seq<char> {
    "<strong>Mailchimp Stats (Rust)</strong><ul>"@
}

/// The whole summary of `stats`: the heading, then the list items.
pub open spec fn summary_html(stats: ListStats) -> Seq<char> {
    heading_html() + entries_html(entries(stats))
}

proof fn html_after_reading(done: Seq<Entry>, figure: Figure, reading: Option<u128>)
    ensures
        entries_html(with_reading(done, figure, reading)) == match reading {
            Some(v) => entries_html(done) + entry_html(Entry { figure, value: v as nat }),
            None => entries_html(done),
        },
{
    if let Some(v) = reading {
        let e = Entry { figure, value: v as nat };
        assert(done.push(e).drop_last() =~= done);
    }
}

/// Appends the list item of one figure to `out`.
fn push_entry(out: &mut String, figure: Figure, value: u128)
    ensures
        final(out)@ == old(out)@ + entry_html(Entry { figure, value: value as nat }),
{
    out.append("<li><strong>");
    out.append(figure.label());
    out.append(":</strong> ");
    push_decimal(out, value);
    out.append(figure.suffix());
    out.append("</li>");
    assert(out@ =~= old(out)@ + entry_html(Entry { figure, value: value as nat }));
}

/// Appends the list item of one figure to `out` if there is a reading of it.
fn push_reading(
    out: &mut String,
    Ghost(head): Ghost<Seq<char>>,
    Ghost(done): Ghost<Seq<Entry>>,
    figure: Figure,
    reading: Option<u128>,
)
    requires
        old(out)@ == head + entries_html(done),
    ensures
        final(out)@ == head + entries_html(with_reading(done, figure, reading)),
{
    proof {
        html_after_reading(done, figure, reading);
    }
    if let Some(v) = reading {
        push_entry(out, figure, v);
        assert(out@ =~= head + entries_html(with_reading(done, figure, reading)));
    }
}

/// Appends the list items of `stats` to `out`: one `<li>` for each figure that
/// has a reading, in the fixed order, and nothing for the others.
pub fn push_entries(out: &mut String, stats: &ListStats)
    ensures
        final(out)@ == old(out)@ + entries_html(entries(*stats)),
{
    let ghost head = out@;
    let ghost e0 = Seq::<Entry>::empty();
    assert(out@ =~= head + entries_html(e0));
    push_reading(out, Ghost(head), Ghost(e0), Figure::ActiveSubscribers, stats.member_count);
    let ghost e1 = with_reading(e0, Figure::ActiveSubscribers, stats.member_count);
    push_reading(
        out,
        Ghost(head),
        Ghost(e1),
        Figure::SubscribesSinceSend,
        stats.member_count_since_send,
    );
    let ghost e2 = with_reading(e1, Figure::SubscribesSinceSend, stats.member_count_since_send);
    push_reading(
        out,
        Ghost(head),
        Ghost(e2),
        Figure::UnsubscribesSinceSend,
        stats.unsubscribe_count_since_send,
    );
    let ghost e3 = with_reading(
        e2,
        Figure::UnsubscribesSinceSend,
        stats.unsubscribe_count_since_send,
    );
    push_reading(out, Ghost(head), Ghost(e3), Figure::SubscribeRate, stats.avg_sub_rate);
    let ghost e4 = with_reading(e3, Figure::SubscribeRate, stats.avg_sub_rate);
    push_reading(out, Ghost(head), Ghost(e4), Figure::UnsubscribeRate, stats.avg_unsub_rate);
    let ghost e5 = with_reading(e4, Figure::UnsubscribeRate, stats.avg_unsub_rate);
    push_reading(out, Ghost(head), Ghost(e5), Figure::ClickRate, stats.click_rate);
}

/// The summary of `stats` that goes to the chat: the heading, then one list
/// item for each figure that has a reading.
pub fn format_summary(stats: &ListStats) -> (content: String)
    ensures
        content@ == summary_html(*stats),
{
    let mut content = String::from_str("<strong>Mailchimp Stats (Rust)</strong><ul>");
    push_entries(&mut content, stats);
    content
}

/// How many figures of `stats` have a reading.
pub open spec fn readings_present(stats: ListStats) -> nat {
    let one = |r: Option<u128>| if r is Some { 1nat } else { 0nat };
    one(stats.member_count) + one(stats.member_count_since_send) + one(
        stats.unsubscribe_count_since_send,
    ) + one(stats.avg_sub_rate) + one(stats.avg_unsub_rate) + one(stats.click_rate)
}

/// A summary has exactly one list item for each figure that has a reading and
/// none for a figure without one; the items stand in the fixed order of the
/// figures, and each shows the reading of its figure.
pub proof fn entries_follow_readings(stats: ListStats)
    ensures
        entries(stats).len() == readings_present(stats),
        forall|i: int, j: int|
            0 <= i < j < entries(stats).len() ==> #[trigger] entries(stats)[i].figure.rank()
                < #[trigger] entries(stats)[j].figure.rank(),
        forall|i: int|
            0 <= i < entries(stats).len() ==> stats.reading(#[trigger] entries(stats)[i].figure)
                is Some && stats.reading(entries(stats)[i].figure)->0 == entries(stats)[i].value,
        forall|figure: Figure|
            #[trigger] stats.reading(figure) is Some ==> exists|i: int|
                0 <= i < entries(stats).len() && #[trigger] entries(stats)[i].figure == figure,
{
    let e0 = Seq::<Entry>::empty();
    let e1 = with_reading(e0, Figure::ActiveSubscribers, stats.member_count);
    let e2 = with_reading(e1, Figure::SubscribesSinceSend, stats.member_count_since_send);
    let e3 = with_reading(e2, Figure::UnsubscribesSinceSend, stats.unsubscribe_count_since_send);
    let e4 = with_reading(e3, Figure::SubscribeRate, stats.avg_sub_rate);
    let e5 = with_reading(e4, Figure::UnsubscribeRate, stats.avg_unsub_rate);
    let e6 = with_reading(e5, Figure::ClickRate, stats.click_rate);
    assert(e6 == entries(stats));
    assert(tracks(e0, stats, 0));
    tracks_after_reading(e0, stats, Figure::ActiveSubscribers);
    tracks_after_reading(e1, stats, Figure::SubscribesSinceSend);
    tracks_after_reading(e2, stats, Figure::UnsubscribesSinceSend);
    tracks_after_reading(e3, stats, Figure::SubscribeRate);
    tracks_after_reading(e4, stats, Figure::UnsubscribeRate);
    tracks_after_reading(e5, stats, Figure::ClickRate);
    assert(tracks(e6, stats, 6));
    assert forall|figure: Figure| #[trigger] stats.reading(figure) is Some implies exists|i: int|
        0 <= i < e6.len() && #[trigger] e6[i].figure == figure by {
        assert(figure.rank() < 6);
    }
}

/// `es` holds the items of the figures before rank `bound`: they stand in the
/// order of their figures, each shows the reading of its figure, and no
/// figure before `bound` that has a reading is missing.
spec fn tracks(es: Seq<Entry>, stats: ListStats, bound: nat) -> bool {
    &&& forall|i: int| 0 <= i < es.len() ==> (#[trigger] es[i]).figure.rank() < bound
    &&& forall|i: int, j: int|
        0 <= i < j < es.len() ==> (#[trigger] es[i]).figure.rank() < (#[trigger] es[j]).figure.rank()
    &&& forall|i: int|
        0 <= i < es.len() ==> stats.reading((#[trigger] es[i]).figure) is Some && stats.reading(
            es[i].figure,
        )->0 == es[i].value
    &&& forall|figure: Figure|
        figure.rank() < bound && #[trigger] stats.reading(figure) is Some ==> exists|i: int|
            0 <= i < es.len() && (#[trigger] es[i]).figure == figure
}

proof fn tracks_after_reading(es: Seq<Entry>, stats: ListStats, figure: Figure)
    requires
        tracks(es, stats, figure.rank()),
    ensures
        tracks(with_reading(es, figure, stats.reading(figure)), stats, figure.rank() + 1),
{
    let next = with_reading(es, figure, stats.reading(figure));
    assert forall|other: Figure|
        other.rank() < figure.rank() + 1 && #[trigger] stats.reading(other) is Some implies exists|
        i: int,
    | 0 <= i < next.len() && (#[trigger] next[i]).figure == other by {
        if other.rank() < figure.rank() {
            let i = choose|i: int| 0 <= i < es.len() && (#[trigger] es[i]).figure == other;
            assert(next[i].figure == other);
        } else {
            assert(other == figure);
            assert(next[next.len() - 1].figure == other);
        }
    }
}

/// With a reading of every figure the summary has six list items: active
/// subscribers, subscribes since the last send, unsubscribes since the last
/// send, subscribe rate, unsubscribe rate and click rate, in that order.
pub proof fn all_readings_give_six_entries(stats: ListStats)
    requires
        forall|figure: Figure| stats.reading(figure) is Some,
    ensures
        entries(stats).len() == 6,
        entries(stats) == seq![
            Entry { figure: Figure::ActiveSubscribers, value: stats.member_count->0 as nat },
            Entry {
                figure: Figure::SubscribesSinceSend,
                value: stats.member_count_since_send->0 as nat,
            },
            Entry {
                figure: Figure::UnsubscribesSinceSend,
                value: stats.unsubscribe_count_since_send->0 as nat,
            },
            Entry { figure: Figure::SubscribeRate, value: stats.avg_sub_rate->0 as nat },
            Entry { figure: Figure::UnsubscribeRate, value: stats.avg_unsub_rate->0 as nat },
            Entry { figure: Figure::ClickRate, value: stats.click_rate->0 as nat },
        ],
{
    assert(stats.reading(Figure::ActiveSubscribers) is Some);
    assert(stats.reading(Figure::SubscribesSinceSend) is Some);
    assert(stats.reading(Figure::UnsubscribesSinceSend) is Some);
    assert(stats.reading(Figure::SubscribeRate) is Some);
    assert(stats.reading(Figure::UnsubscribeRate) is Some);
    assert(stats.reading(Figure::ClickRate) is Some);
    assert(entries(stats) =~= seq![
        Entry { figure: Figure::ActiveSubscribers, value: stats.member_count->0 as nat },
        Entry {
            figure: Figure::SubscribesSinceSend,
            value: stats.member_count_since_send->0 as nat,
        },
        Entry {
            figure: Figure::UnsubscribesSinceSend,
            value: stats.unsubscribe_count_since_send->0 as nat,
        },
        Entry { figure: Figure::SubscribeRate, value: stats.avg_sub_rate->0 as nat },
        Entry { figure: Figure::UnsubscribeRate, value: stats.avg_unsub_rate->0 as nat },
        Entry { figure: Figure::ClickRate, value: stats.click_rate->0 as nat },
    ]);
}

/// With a reading of one figure only, the summary is the heading and the
/// list item of that figure, and nothing else.
pub proof fn lone_reading_gives_one_entry(stats: ListStats, figure: Figure)
    requires
        stats.reading(figure) is Some,
        forall|other: Figure| other != figure ==> stats.reading(other) is None,
    ensures
        entries(stats) == seq![Entry { figure, value: stats.reading(figure)->0 as nat }],
        summary_html(stats) == heading_html() + entry_html(
            Entry { figure, value: stats.reading(figure)->0 as nat },
        ),
{
    let only = Entry { figure, value: stats.reading(figure)->0 as nat };
    assert(stats.reading(Figure::ActiveSubscribers) is Some <==> figure
        == Figure::ActiveSubscribers);
    assert(stats.reading(Figure::SubscribesSinceSend) is Some <==> figure
        == Figure::SubscribesSinceSend);
    assert(stats.reading(Figure::UnsubscribesSinceSend) is Some <==> figure
        == Figure::UnsubscribesSinceSend);
    assert(stats.reading(Figure::SubscribeRate) is Some <==> figure == Figure::SubscribeRate);
    assert(stats.reading(Figure::UnsubscribeRate) is Some <==> figure == Figure::UnsubscribeRate);
    assert(stats.reading(Figure::ClickRate) is Some <==> figure == Figure::ClickRate);
    assert(entries(stats) =~= seq![only]);
    html_after_reading(Seq::empty(), figure, stats.reading(figure));
    assert(Seq::<Entry>::empty().push(only) =~= seq![only]);
    assert(entries_html(seq![only]) =~= entry_html(only));
}

/// Without any reading the summary is the bare heading.
pub proof fn no_reading_gives_bare_heading(stats: ListStats)
    requires
        forall|figure: Figure| stats.reading(figure) is None,
    ensures
        entries(stats).len() == 0,
        summary_html(stats) == heading_html(),
{
    assert(stats.reading(Figure::ActiveSubscribers) is None);
    assert(stats.reading(Figure::SubscribesSinceSend) is None);
    assert(stats.reading(Figure::UnsubscribesSinceSend) is None);
    assert(stats.reading(Figure::SubscribeRate) is None);
    assert(stats.reading(Figure::UnsubscribeRate) is None);
    assert(stats.reading(Figure::ClickRate) is None);
    assert(summary_html(stats) =~= heading_html());
}

} // verus!
