//! What holds of the registry as a whole: laws that relate several
//! operations, each proved from the operations' own specifications.

use crate::commands::{
    failures, start_concluded, start_refusal, stop_all_outcome, stop_concluded, Spawned,
};
use crate::forward::scan;
use crate::outcome::{FailureView, OutcomeView, StopFailureView, SuccessView};
use crate::registry::{distinct_ids, ids, is_tracked, position, without, Entries};
use crate::text::{ends_with_line_feed, is_line_terminator, normalized, stripped};
use vstd::prelude::*;

verus! {

/// A whole start: what is refused is refused, the rest goes by the spawn.
pub open spec fn start_result<H>(
    entries: Entries<H>,
    server_id: Seq<char>,
    command: Seq<Seq<char>>,
    spawned: Result<Spawned<H>, String>,
) -> (Entries<H>, OutcomeView) {
    match start_refusal(entries, server_id, command) {
        Some(outcome) => (entries, outcome),
        None => start_concluded(entries, server_id, spawned),
    }
}

/// A whole stop: nothing happens to what is not tracked, the rest goes by the kill.
pub open spec fn stop_result<H>(
    entries: Entries<H>,
    server_id: Seq<char>,
    killed: Result<(), (H, String)>,
) -> (Entries<H>, OutcomeView) {
    if is_tracked(entries, server_id) {
        stop_concluded(without(entries, server_id), server_id, killed)
    } else {
        (entries, Ok(SuccessView::WasNotRunning { server_id }))
    }
}

/// The text that lines make when each is written with a line feed after it.
pub open spec fn written(lines: Seq<Seq<char>>) -> Seq<char>
    decreases lines.len(),
{
    if lines.len() == 0 {
        Seq::empty()
    } else {
        written(lines.drop_last()) + lines.last().push('\n')
    }
}

/// Whether a line feed occurs in the text.
pub open spec fn has_line_feed(text: Seq<char>) -> bool {
    exists|i: int| 0 <= i < text.len() && text[i] == '\n'
}

/// After a start, whatever came of it, no identifier occurs twice.
pub proof fn law_start_keeps_identifiers_distinct<H>(
    entries: Entries<H>,
    server_id: Seq<char>,
    command: Seq<Seq<char>>,
    spawned: Result<Spawned<H>, String>,
)
    requires
        distinct_ids(entries),
    ensures
        distinct_ids(start_result(entries, server_id, command, spawned).0),
{
    let after = start_result(entries, server_id, command, spawned).0;
    if after != entries {
        assert(!is_tracked(entries, server_id));
        assert forall|i: int, j: int| 0 <= i < j < after.len() implies (#[trigger] after[i]).0 != (
        #[trigger] after[j]).0 by {
            if j == entries.len() {
                assert(entries[i].0 != server_id);
            } else {
                assert(entries[i].0 != entries[j].0);
            }
        }
    }
}

/// After a stop, whatever came of it, no identifier occurs twice.
pub proof fn law_stop_keeps_identifiers_distinct<H>(
    entries: Entries<H>,
    server_id: Seq<char>,
    killed: Result<(), (H, String)>,
)
    requires
        distinct_ids(entries),
    ensures
        distinct_ids(without(entries, server_id)),
        distinct_ids(stop_result(entries, server_id, killed).0),
{
    let remaining = without(entries, server_id);
    if is_tracked(entries, server_id) {
        let at = position(entries, server_id);
        assert forall|i: int, j: int| 0 <= i < j < remaining.len() implies (
        #[trigger] remaining[i]).0 != (#[trigger] remaining[j]).0 by {
            let from_i = if i < at {
                i
            } else {
                i + 1
            };
            let from_j = if j < at {
                j
            } else {
                j + 1
            };
            assert(remaining[i] == entries[from_i]);
            assert(remaining[j] == entries[from_j]);
        }
    }
    let after = stop_result(entries, server_id, killed).0;
    if after != remaining && after != entries {
        assert(!is_tracked(remaining, server_id));
        assert forall|i: int, j: int| 0 <= i < j < after.len() implies (#[trigger] after[i]).0 != (
        #[trigger] after[j]).0 by {
            if j == remaining.len() {
                assert(remaining[i].0 != server_id);
            } else {
                assert(remaining[i].0 != remaining[j].0);
            }
        }
    }
}

/// Starting twice in a row: when the first start of an identifier is a
/// success, the second one, whatever its command line and whatever a spawn
/// would have given, reports that the process is already running and leaves
/// the registry as it is, with exactly one entry for the identifier.
pub proof fn law_second_start_is_already_running<H>(
    entries: Entries<H>,
    server_id: Seq<char>,
    first_command: Seq<Seq<char>>,
    first_spawned: Result<Spawned<H>, String>,
    second_command: Seq<Seq<char>>,
    second_spawned: Result<Spawned<H>, String>,
)
    requires
        distinct_ids(entries),
        start_result(entries, server_id, first_command, first_spawned).1 is Ok,
    ensures
        ({
            let after = start_result(entries, server_id, first_command, first_spawned).0;
            &&& start_refusal(after, server_id, second_command) == Some(
                Ok::<SuccessView, FailureView>(SuccessView::AlreadyRunning { server_id }),
            )
            &&& start_result(after, server_id, second_command, second_spawned) == (
                after,
                Ok::<SuccessView, FailureView>(SuccessView::AlreadyRunning { server_id }),
            )
            &&& is_tracked(after, server_id)
            &&& forall|i: int, j: int|
                0 <= i < after.len() && 0 <= j < after.len() && (#[trigger] after[i]).0
                    == server_id && (#[trigger] after[j]).0 == server_id ==> i == j
        }),
{
    let after = start_result(entries, server_id, first_command, first_spawned).0;
    law_start_keeps_identifiers_distinct(entries, server_id, first_command, first_spawned);
    if !is_tracked(entries, server_id) {
        assert(after == entries.push((server_id, first_spawned->Ok_0.handle)));
        assert(after[entries.len() as int].0 == server_id);
    }
    assert(is_tracked(after, server_id));
    assert forall|i: int, j: int|
        0 <= i < after.len() && 0 <= j < after.len() && (#[trigger] after[i]).0 == server_id && (
        #[trigger] after[j]).0 == server_id implies i == j by {
        if i < j {
            assert(after[i].0 != after[j].0);
        } else if j < i {
            assert(after[j].0 != after[i].0);
        }
    }
}

/// Stopping what is not tracked is a success and changes nothing.
pub proof fn law_stop_of_unknown_is_benign<H>(
    entries: Entries<H>,
    server_id: Seq<char>,
    killed: Result<(), (H, String)>,
)
    requires
        !is_tracked(entries, server_id),
    ensures
        stop_result(entries, server_id, killed) == (
            entries,
            Ok::<SuccessView, FailureView>(SuccessView::WasNotRunning { server_id }),
        ),
{
}

/// After a stop that succeeded, the identifier is no longer listed; after
/// one that failed, it still is.
pub proof fn law_stopped_is_not_listed<H>(
    entries: Entries<H>,
    server_id: Seq<char>,
    killed: Result<(), (H, String)>,
)
    requires
        distinct_ids(entries),
    ensures
        stop_result(entries, server_id, killed).1 is Ok ==> !ids(
            stop_result(entries, server_id, killed).0,
        ).contains(server_id),
        stop_result(entries, server_id, killed).1 is Err ==> ids(
            stop_result(entries, server_id, killed).0,
        ).contains(server_id),
{
    let after = stop_result(entries, server_id, killed).0;
    let remaining = without(entries, server_id);
    law_stop_keeps_identifiers_distinct(entries, server_id, killed);
    if is_tracked(entries, server_id) {
        let at = position(entries, server_id);
        assert forall|i: int| 0 <= i < remaining.len() implies (#[trigger] remaining[i]).0
            != server_id by {
            if i < at {
                assert(remaining[i] == entries[i]);
                assert(entries[i].0 != entries[at].0);
            } else {
                assert(remaining[i] == entries[i + 1]);
                assert(entries[at].0 != entries[i + 1].0);
            }
        }
        assert(!is_tracked(remaining, server_id));
    }
    if stop_result(entries, server_id, killed).1 is Ok {
        assert(after == remaining);
        if ids(after).contains(server_id) {
            let i = choose|i: int| 0 <= i < ids(after).len() && ids(after)[i] == server_id;
            assert(after[i].0 == server_id);
        }
    } else {
        assert(after == remaining.push((server_id, killed->Err_0.0)));
        assert(ids(after)[remaining.len() as int] == server_id);
    }
}

/// A bulk stop of nothing is a success that stopped nothing.
pub proof fn law_stop_all_of_nothing()
    ensures
        stop_all_outcome(Seq::empty()) == Ok::<SuccessView, FailureView>(
            SuccessView::StoppedAll { stopped_count: 0 },
        ),
{
}

/// A bulk stop in which every kill went through is a success that counts
/// every process.
pub proof fn law_stop_all_without_failure(reports: Seq<(Seq<char>, Option<Seq<char>>)>)
    requires
        forall|i: int| 0 <= i < reports.len() ==> (#[trigger] reports[i]).1 is None,
    ensures
        failures(reports).len() == 0,
        stop_all_outcome(reports) == Ok::<SuccessView, FailureView>(
            SuccessView::StoppedAll { stopped_count: reports.len() },
        ),
    decreases reports.len(),
{
    if reports.len() > 0 {
        law_stop_all_without_failure(reports.drop_last());
    }
}

/// A bulk stop in which exactly one kill failed is a failure that counts
/// all processes but one as stopped and names the one, with its reason.
pub proof fn law_stop_all_with_one_failure(
    reports: Seq<(Seq<char>, Option<Seq<char>>)>,
    failing: int,
)
    requires
        0 <= failing < reports.len(),
        reports[failing].1 is Some,
        forall|i: int|
            0 <= i < reports.len() && i != failing ==> (#[trigger] reports[i]).1 is None,
    ensures
        stop_all_outcome(reports) == Err::<SuccessView, FailureView>(
            FailureView::PartialStopFailure {
                stopped_count: (reports.len() - 1) as nat,
                total_count: reports.len(),
                failed: seq![
                    StopFailureView {
                        server_id: reports[failing].0,
                        reason: reports[failing].1->0,
                    },
                ],
            },
        ),
{
    lemma_single_failure(reports, failing);
}

/// With exactly one failing report, the failures are that one.
proof fn lemma_single_failure(reports: Seq<(Seq<char>, Option<Seq<char>>)>, failing: int)
    requires
        0 <= failing < reports.len(),
        reports[failing].1 is Some,
        forall|i: int|
            0 <= i < reports.len() && i != failing ==> (#[trigger] reports[i]).1 is None,
    ensures
        failures(reports) == seq![
            StopFailureView { server_id: reports[failing].0, reason: reports[failing].1->0 },
        ],
    decreases reports.len(),
{
    let earlier = reports.drop_last();
    if failing == reports.len() - 1 {
        law_stop_all_without_failure(earlier);
        assert(failures(earlier) =~= Seq::empty());
        assert(failures(reports) =~= seq![
            StopFailureView { server_id: reports[failing].0, reason: reports[failing].1->0 },
        ]);
    } else {
        assert(earlier[failing] == reports[failing]);
        lemma_single_failure(earlier, failing);
    }
}

/// A message made a line ends with a line feed, and begins with the message.
pub proof fn law_normalized_is_a_line(message: Seq<char>)
    ensures
        ends_with_line_feed(normalized(message)),
        ends_with_line_feed(message) ==> normalized(message) == message,
        !ends_with_line_feed(message) ==> normalized(message) == message.push('\n'),
{
}

/// The terminator is never doubled: a message that a line feed ends
/// already is sent as it is, and making a line of a line changes nothing.
pub proof fn law_terminator_is_not_doubled(message: Seq<char>)
    ensures
        normalized(message.push('\n')) == message.push('\n'),
        normalized(normalized(message)) == normalized(message),
{
}

/// Text without a line feed completes no line: it is added to what is pending.
proof fn lemma_scan_without_line_feed(pending: Seq<char>, text: Seq<char>)
    requires
        !has_line_feed(text),
    ensures
        scan(pending, text) == (Seq::<Seq<char>>::empty(), pending + text),
    decreases text.len(),
{
    if text.len() == 0 {
        assert(pending + text =~= pending);
    } else {
        let earlier = text.drop_last();
        assert(text[text.len() - 1] != '\n');
        assert forall|i: int| 0 <= i < earlier.len() implies earlier[i] != '\n' by {
            assert(earlier[i] == text[i]);
        }
        lemma_scan_without_line_feed(pending, earlier);
        assert((pending + earlier).push(text.last()) =~= pending + text);
    }
}

/// It does not matter in what pieces the text arrives: reading one piece
/// and then the next gives the lines, and leaves pending, what reading both
/// at once does.
pub proof fn law_forwarding_ignores_chunking(
    pending: Seq<char>,
    first: Seq<char>,
    second: Seq<char>,
)
    ensures
        scan(pending, first + second).0 == scan(pending, first).0 + scan(
            scan(pending, first).1,
            second,
        ).0,
        scan(pending, first + second).1 == scan(scan(pending, first).1, second).1,
    decreases second.len(),
{
    let middle = scan(pending, first).1;
    if second.len() == 0 {
        assert(first + second =~= first);
        assert(scan(pending, first).0 + scan(middle, second).0 =~= scan(pending, first).0);
    } else {
        let earlier = second.drop_last();
        law_forwarding_ignores_chunking(pending, first, earlier);
        assert((first + second).drop_last() =~= first + earlier);
        assert((first + second).last() == second.last());
        if second.last() == '\n' {
            assert(scan(pending, first + second).0 =~= scan(pending, first).0 + scan(
                middle,
                second,
            ).0);
        }
    }
}

/// Every line that a process writes is forwarded as exactly one event, in
/// the order written and freed of its terminators, also when several lines
/// arrive together; nothing is left pending after the last line feed.
pub proof fn law_one_event_per_line(lines: Seq<Seq<char>>)
    requires
        forall|i: int| 0 <= i < lines.len() ==> !has_line_feed(#[trigger] lines[i]),
    ensures
        scan(Seq::empty(), written(lines)) == (
            lines.map_values(|line: Seq<char>| stripped(line)),
            Seq::<char>::empty(),
        ),
    decreases lines.len(),
{
    let bare = lines.map_values(|line: Seq<char>| stripped(line));
    if lines.len() == 0 {
        assert(bare =~= Seq::empty());
    } else {
        let earlier = lines.drop_last();
        let line = lines.last();
        assert forall|i: int| 0 <= i < earlier.len() implies !has_line_feed(
            #[trigger] earlier[i],
        ) by {
            assert(earlier[i] == lines[i]);
        }
        law_one_event_per_line(earlier);
        law_forwarding_ignores_chunking(Seq::empty(), written(earlier), line.push('\n'));
        lemma_scan_without_line_feed(Seq::empty(), line);
        assert(line.push('\n').drop_last() =~= line);
        assert(Seq::<char>::empty() + line =~= line);
        assert(scan(Seq::empty(), line.push('\n')) == (seq![stripped(line)], Seq::<char>::empty()));
        assert(bare =~= earlier.map_values(|line: Seq<char>| stripped(line)) + seq![
            stripped(line),
        ]);
    }
}

/// A forwarded line carries no terminator at its end, and stripping takes
/// nothing but terminators away.
pub proof fn law_stripped_has_no_terminator(line: Seq<char>)
    ensures
        stripped(line).len() > 0 ==> !is_line_terminator(stripped(line).last()),
        stripped(line).len() <= line.len(),
        stripped(line) == line.take(stripped(line).len() as int),
        forall|i: int| stripped(line).len() <= i < line.len() ==> is_line_terminator(line[i]),
    decreases line.len(),
{
    if line.len() > 0 && is_line_terminator(line.last()) {
        let shorter = line.drop_last();
        law_stripped_has_no_terminator(shorter);
        assert(shorter.take(stripped(line).len() as int) =~= line.take(
            stripped(line).len() as int,
        ));
        assert forall|i: int| stripped(line).len() <= i < line.len() implies is_line_terminator(
            line[i],
        ) by {
            if i < shorter.len() {
                assert(line[i] == shorter[i]);
            }
        }
    } else {
        assert(line.take(line.len() as int) =~= line);
    }
}

} // verus!
