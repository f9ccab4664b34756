//! What holds of the extraction: which commands a run hands out for an
//! archive, and what of it is written where.
//!
//! The extraction is looked at as it goes when nothing fails outside: every
//! command is answered with `Done`. What the archive reader finds of each
//! entry's name is given as a list of verdicts, one for each entry.

use vstd::prelude::*;

use crate::archive::{
    admitted, directory_of, entry_at, plainly_escapes, reading_of, reads_alike, EntryModel,
    EntryReadingView,
};
use crate::install::{
    advance_model, enter_model, entry_command, turning, InstallState, Step,
};
use crate::laws::{command_at, state_after, Input};
use crate::progress::{extract_event, extract_is_reported, Milestone};
use crate::protocol::{CommandView, OutcomeView};
use crate::text::{ends_with_slash, joined, stays_inside};

verus! {

/// The input of a step whose command before was carried out.
pub open spec fn carried_out(contained: bool) -> Input {
    Input { outcome: OutcomeView::Done, contained }
}

/// What the archive reader finds of the name of entry `i`: whether it stays
/// inside the root.
pub open spec fn verdict_at(verdicts: Seq<bool>, i: nat) -> bool {
    i < verdicts.len() && verdicts[i as int]
}

/// The report that follows entry `i` of `count`, where one is due.
pub open spec fn entry_report(i: nat, count: nat) -> Seq<CommandView> {
    if extract_is_reported(i, count) {
        seq![CommandView::Report(extract_event(i, count))]
    } else {
        Seq::empty()
    }
}

/// Whether something is written for a reading.
pub open spec fn is_written(reading: EntryReadingView) -> bool {
    reading is Directory || reading is File
}

/// The commands that a run hands out for entry `i` of `count`, when what was
/// read there is `reading` and every command is carried out: for an entry
/// that is passed over, the note of it; for a directory or a file, the
/// command that writes it, the milestone, and the report where one is due.
pub open spec fn entry_commands(root: Seq<char>, reading: EntryReadingView, i: nat, count: nat) -> Seq<
    CommandView,
> {
    if is_written(reading) {
        seq![entry_command(root, reading), CommandView::Track(Milestone::ExtractComplete)]
            + entry_report(i, count)
    } else {
        seq![entry_command(root, reading)]
    }
}

/// The inputs that a run is given while it hands out [`entry_commands`]: the
/// first says what the archive reader finds of the entry's name.
pub open spec fn entry_inputs(reading: EntryReadingView, i: nat, count: nat, verdict: bool) -> Seq<
    Input,
> {
    if is_written(reading) {
        if extract_is_reported(i, count) {
            seq![carried_out(verdict), carried_out(false), carried_out(false)]
        } else {
            seq![carried_out(verdict), carried_out(false)]
        }
    } else {
        seq![carried_out(verdict)]
    }
}

/// The commands that a run hands out from entry `i` of `entries` on, when
/// every command is carried out: those of each entry in turn, up to the end,
/// where the registering begins, or up to an entry that cannot be read,
/// where the run halts.
pub open spec fn extraction_commands(
    root: Seq<char>,
    entries: Seq<EntryModel>,
    verdicts: Seq<bool>,
    i: nat,
) -> Seq<CommandView>
    decreases entries.len() - i,
{
    if i >= entries.len() {
        seq![CommandView::FindOwnExecutable]
    } else {
        let reading = reading_of(entries[i as int], verdict_at(verdicts, i));
        if reading is Unreadable {
            seq![CommandView::Stop]
        } else {
            entry_commands(root, reading, i, entries.len()) + extraction_commands(
                root,
                entries,
                verdicts,
                i + 1,
            )
        }
    }
}

/// The inputs that a run is given while it hands out
/// [`extraction_commands`]: one for each command.
pub open spec fn extraction_inputs(entries: Seq<EntryModel>, verdicts: Seq<bool>, i: nat) -> Seq<
    Input,
>
    decreases entries.len() - i,
{
    if i >= entries.len() {
        seq![carried_out(false)]
    } else {
        let verdict = verdict_at(verdicts, i);
        let reading = reading_of(entries[i as int], verdict);
        if reading is Unreadable {
            seq![carried_out(verdict)]
        } else {
            entry_inputs(reading, i, entries.len(), verdict) + extraction_inputs(
                entries,
                verdicts,
                i + 1,
            )
        }
    }
}

/// The commands that a run which began at `s` hands out in answer to
/// `inputs`, one after the other.
pub open spec fn commands_from(s: InstallState, inputs: Seq<Input>) -> Seq<CommandView>
    decreases inputs.len(),
{
    if inputs.len() == 0 {
        Seq::empty()
    } else {
        let (next, command) = advance_model(s, inputs[0].outcome, inputs[0].contained);
        seq![command] + commands_from(next, inputs.skip(1))
    }
}

/// The state of a run that began at `s` and was given `inputs`, told from
/// the first input on.
pub open spec fn state_from(s: InstallState, inputs: Seq<Input>) -> InstallState
    decreases inputs.len(),
{
    if inputs.len() == 0 {
        s
    } else {
        state_from(
            advance_model(s, inputs[0].outcome, inputs[0].contained).0,
            inputs.skip(1),
        )
    }
}

proof fn lemma_state_from_is_state_after(s: InstallState, inputs: Seq<Input>)
    ensures
        state_from(s, inputs) == state_after(s, inputs),
    decreases inputs.len(),
{
    if inputs.len() == 0 {
    } else if inputs.len() == 1 {
        reveal_with_fuel(state_from, 2);
        reveal_with_fuel(state_after, 2);
        assert(inputs.skip(1).len() == 0);
        assert(inputs.drop_last().len() == 0);
        assert(inputs.last() == inputs[0]);
        assert(state_from(s, inputs) == advance_model(
            s,
            inputs[0].outcome,
            inputs[0].contained,
        ).0);
    } else {
        let first = advance_model(s, inputs[0].outcome, inputs[0].contained).0;
        let shorter = inputs.drop_last();
        lemma_state_from_is_state_after(s, shorter);
        lemma_state_from_is_state_after(first, inputs.skip(1));
        lemma_state_from_is_state_after(first, shorter.skip(1));
        assert(shorter.skip(1) =~= inputs.skip(1).drop_last());
        assert(shorter[0] == inputs[0]);
        assert(inputs.skip(1).last() == inputs.last());
        assert(state_from(s, shorter) == state_from(first, shorter.skip(1)));
    }
}

proof fn lemma_commands_from_length(s: InstallState, inputs: Seq<Input>)
    ensures
        commands_from(s, inputs).len() == inputs.len(),
    decreases inputs.len(),
{
    if inputs.len() > 0 {
        let next = advance_model(s, inputs[0].outcome, inputs[0].contained).0;
        lemma_commands_from_length(next, inputs.skip(1));
    }
}

proof fn lemma_commands_from_index(s: InstallState, inputs: Seq<Input>, k: int)
    requires
        0 <= k < inputs.len(),
    ensures
        commands_from(s, inputs).len() == inputs.len(),
        commands_from(s, inputs)[k] == command_at(s, inputs, k),
    decreases inputs.len(),
{
    lemma_commands_from_length(s, inputs);
    let next = advance_model(s, inputs[0].outcome, inputs[0].contained).0;
    lemma_commands_from_length(next, inputs.skip(1));
    if k == 0 {
        assert(inputs.take(0).len() == 0);
    } else {
        lemma_commands_from_index(next, inputs.skip(1), k - 1);
        lemma_state_from_is_state_after(s, inputs.take(k));
        lemma_state_from_is_state_after(next, inputs.skip(1).take(k - 1));
        assert(inputs.take(k).skip(1) =~= inputs.skip(1).take(k - 1));
        assert(inputs.take(k)[0] == inputs[0]);
        assert(inputs.skip(1)[k - 1] == inputs[k]);
    }
}

proof fn lemma_commands_from_sum(s: InstallState, a: Seq<Input>, b: Seq<Input>)
    ensures
        commands_from(s, a + b) == commands_from(s, a) + commands_from(state_from(s, a), b),
    decreases a.len(),
{
    if a.len() == 0 {
        assert(a + b =~= b);
        assert(commands_from(s, a) + commands_from(s, b) =~= commands_from(s, b));
    } else {
        let (next, command) = advance_model(s, a[0].outcome, a[0].contained);
        lemma_commands_from_sum(next, a.skip(1), b);
        assert((a + b).skip(1) =~= a.skip(1) + b);
        assert((a + b)[0] == a[0]);
        assert(commands_from(s, a + b) =~= commands_from(s, a) + commands_from(
            state_from(s, a),
            b,
        ));
    }
}

/// Whether a run at `p` turns to entry `i` of `entries` at its next step,
/// if the command it waits for is carried out.
pub open spec fn before_entry(p: InstallState, entries: Seq<EntryModel>, i: nat) -> bool {
    &&& !p.halted
    &&& {
        ||| p.step == Step::ShowingExtract && directory_of(p.payload) == Some(entries) && i == 0
        ||| (p.step == Step::SkippingEntry || p.step == Step::ShowingEntry || (p.step
            == Step::AnnouncingEntry && !extract_is_reported(p.index, p.entries.len())))
            && p.entries == entries && p.past_entry().index == i
    }
}

proof fn lemma_one_entry(p: InstallState, entries: Seq<EntryModel>, verdicts: Seq<bool>, i: nat)
    requires
        before_entry(p, entries, i),
        i < entries.len(),
        !(reading_of(entries[i as int], verdict_at(verdicts, i)) is Unreadable),
    ensures
        ({
            let reading = reading_of(entries[i as int], verdict_at(verdicts, i));
            let inputs = entry_inputs(reading, i, entries.len(), verdict_at(verdicts, i));
            &&& commands_from(p, inputs) == entry_commands(p.root, reading, i, entries.len())
            &&& before_entry(state_from(p, inputs), entries, i + 1)
            &&& state_from(p, inputs).root == p.root
        }),
{
    let verdict = verdict_at(verdicts, i);
    let reading = reading_of(entries[i as int], verdict);
    let inputs = entry_inputs(reading, i, entries.len(), verdict);
    let x = turning(p);
    assert(x.entries == entries && x.index == i && x.root == p.root && !x.halted);
    assert(advance_model(p, OutcomeView::Done, verdict) == enter_model(x, verdict));
    assert(entry_at(x.entries, x.index) == entries[i as int]);
    let (s1, c1) = enter_model(x, verdict);
    assert(inputs[0] == carried_out(verdict));
    assert(c1 == entry_command(p.root, reading));
    assert(s1.entries == entries && s1.index == i && s1.root == p.root && !s1.halted);
    if is_written(reading) {
        let (s2, c2) = advance_model(s1, OutcomeView::Done, false);
        assert(c2 == CommandView::Track(Milestone::ExtractComplete));
        assert(s2.step == Step::AnnouncingEntry && s2.entries == entries && s2.index == i);
        if extract_is_reported(i, entries.len()) {
            let (s3, c3) = advance_model(s2, OutcomeView::Done, false);
            assert(c3 == CommandView::Report(extract_event(i, entries.len())));
            assert(inputs.skip(1) =~= seq![carried_out(false), carried_out(false)]);
            assert(inputs.skip(1).skip(1) =~= seq![carried_out(false)]);
            assert(inputs.skip(1).skip(1).skip(1) =~= Seq::<Input>::empty());
            reveal_with_fuel(commands_from, 4);
            reveal_with_fuel(state_from, 4);
            assert(commands_from(p, inputs) =~= seq![c1, c2, c3]);
            assert(state_from(p, inputs) == s3);
            assert(entry_commands(p.root, reading, i, entries.len()) =~= seq![c1, c2, c3]);
        } else {
            assert(inputs.skip(1) =~= seq![carried_out(false)]);
            assert(inputs.skip(1).skip(1) =~= Seq::<Input>::empty());
            reveal_with_fuel(commands_from, 3);
            reveal_with_fuel(state_from, 3);
            assert(commands_from(p, inputs) =~= seq![c1, c2]);
            assert(state_from(p, inputs) == s2);
            assert(entry_commands(p.root, reading, i, entries.len()) =~= seq![c1, c2]);
        }
    } else {
        assert(inputs.skip(1) =~= Seq::<Input>::empty());
        reveal_with_fuel(commands_from, 2);
        reveal_with_fuel(state_from, 2);
        assert(commands_from(p, inputs) =~= seq![c1]);
        assert(state_from(p, inputs) == s1);
    }
}

proof fn lemma_extraction_from(p: InstallState, entries: Seq<EntryModel>, verdicts: Seq<bool>, i: nat)
    requires
        before_entry(p, entries, i),
        i <= entries.len(),
    ensures
        commands_from(p, extraction_inputs(entries, verdicts, i)) == extraction_commands(
            p.root,
            entries,
            verdicts,
            i,
        ),
    decreases entries.len() - i,
{
    let inputs = extraction_inputs(entries, verdicts, i);
    if i >= entries.len() {
        assert(inputs.skip(1) =~= Seq::<Input>::empty());
        reveal_with_fuel(commands_from, 2);
        assert(commands_from(p, inputs) =~= seq![CommandView::FindOwnExecutable]);
    } else {
        let verdict = verdict_at(verdicts, i);
        let reading = reading_of(entries[i as int], verdict);
        if reading is Unreadable {
            assert(inputs.skip(1) =~= Seq::<Input>::empty());
            reveal_with_fuel(commands_from, 2);
            assert(commands_from(p, inputs) =~= seq![CommandView::Stop]);
        } else {
            let first = entry_inputs(reading, i, entries.len(), verdict);
            let rest = extraction_inputs(entries, verdicts, i + 1);
            lemma_one_entry(p, entries, verdicts, i);
            lemma_extraction_from(state_from(p, first), entries, verdicts, i + 1);
            lemma_commands_from_sum(p, first, rest);
        }
    }
}

/// The extraction hands out what the archive holds, entry by entry.
///
/// Take a run that has just reported that the extraction begins, and whose
/// payload is an archive with the directory `entries`. Let every command be
/// carried out, and let `verdicts` say of each entry whether the archive
/// reader finds its name to stay inside the root. Then the commands that the
/// run hands out are those of [`extraction_commands`], one for each input of
/// [`extraction_inputs`].
pub proof fn law_extraction_follows_the_archive(
    s: InstallState,
    entries: Seq<EntryModel>,
    verdicts: Seq<bool>,
)
    requires
        !s.halted,
        s.step == Step::ShowingExtract,
        directory_of(s.payload) == Some(entries),
    ensures
        extraction_commands(s.root, entries, verdicts, 0).len() == extraction_inputs(
            entries,
            verdicts,
            0,
        ).len(),
        forall|k: int|
            0 <= k < extraction_inputs(entries, verdicts, 0).len() ==> #[trigger] command_at(
                s,
                extraction_inputs(entries, verdicts, 0),
                k,
            ) == extraction_commands(s.root, entries, verdicts, 0)[k],
{
    let inputs = extraction_inputs(entries, verdicts, 0);
    lemma_extraction_from(s, entries, verdicts, 0);
    lemma_commands_from_length(s, inputs);
    assert forall|k: int| 0 <= k < inputs.len() implies #[trigger] command_at(s, inputs, k)
        == extraction_commands(s.root, entries, verdicts, 0)[k] by {
        lemma_commands_from_index(s, inputs, k);
    }
}

/// What the extraction of `entries` writes below `root` from entry `i` on,
/// in order: for each directory and each file its command, for an entry that
/// is passed over nothing, and nothing from an entry on that cannot be read.
pub open spec fn planned_writes(
    root: Seq<char>,
    entries: Seq<EntryModel>,
    verdicts: Seq<bool>,
    i: nat,
) -> Seq<CommandView>
    decreases entries.len() - i,
{
    if i >= entries.len() {
        Seq::empty()
    } else {
        let reading = reading_of(entries[i as int], verdict_at(verdicts, i));
        if reading is Unreadable {
            Seq::empty()
        } else if is_written(reading) {
            seq![entry_command(root, reading)] + planned_writes(root, entries, verdicts, i + 1)
        } else {
            planned_writes(root, entries, verdicts, i + 1)
        }
    }
}

proof fn lemma_writes_of_one_entry(root: Seq<char>, reading: EntryReadingView, i: nat, count: nat)
    requires
        !(reading is Unreadable),
    ensures
        entry_commands(root, reading, i, count).filter(|c: CommandView| c.writes()) == if is_written(
            reading,
        ) {
            seq![entry_command(root, reading)]
        } else {
            Seq::<CommandView>::empty()
        },
{
    let pred = |c: CommandView| c.writes();
    let commands = entry_commands(root, reading, i, count);
    reveal_with_fuel(Seq::filter, 4);
    if is_written(reading) {
        let head = seq![entry_command(root, reading)];
        let middle = seq![CommandView::Track(Milestone::ExtractComplete)];
        let tail = entry_report(i, count);
        assert(commands =~= head + middle + tail);
        Seq::filter_distributes_over_add(head + middle, tail, pred);
        Seq::filter_distributes_over_add(head, middle, pred);
        assert(head.drop_last() =~= Seq::<CommandView>::empty());
        assert(middle.drop_last() =~= Seq::<CommandView>::empty());
        assert(head.filter(pred) =~= head);
        assert(middle.filter(pred) =~= Seq::<CommandView>::empty());
        if extract_is_reported(i, count) {
            assert(tail.drop_last() =~= Seq::<CommandView>::empty());
            assert(tail.filter(pred) =~= Seq::<CommandView>::empty());
        } else {
            assert(tail.filter(pred) =~= Seq::<CommandView>::empty());
        }
        assert(commands.filter(pred) =~= head);
    } else {
        assert(commands.drop_last() =~= Seq::<CommandView>::empty());
        assert(commands.filter(pred) =~= Seq::<CommandView>::empty());
    }
}

/// Of the commands of an extraction, those that write are the planned
/// writes, in their order.
pub proof fn law_extraction_writes_what_is_planned(
    root: Seq<char>,
    entries: Seq<EntryModel>,
    verdicts: Seq<bool>,
    i: nat,
)
    ensures
        extraction_commands(root, entries, verdicts, i).filter(|c: CommandView| c.writes())
            == planned_writes(root, entries, verdicts, i),
    decreases entries.len() - i,
{
    let pred = |c: CommandView| c.writes();
    let commands = extraction_commands(root, entries, verdicts, i);
    if i >= entries.len() {
        reveal_with_fuel(Seq::filter, 2);
        assert(commands.drop_last() =~= Seq::<CommandView>::empty());
        assert(commands.filter(pred) =~= Seq::<CommandView>::empty());
    } else {
        let reading = reading_of(entries[i as int], verdict_at(verdicts, i));
        if reading is Unreadable {
            reveal_with_fuel(Seq::filter, 2);
            assert(commands.drop_last() =~= Seq::<CommandView>::empty());
            assert(commands.filter(pred) =~= Seq::<CommandView>::empty());
        } else {
            let first = entry_commands(root, reading, i, entries.len());
            let rest = extraction_commands(root, entries, verdicts, i + 1);
            lemma_writes_of_one_entry(root, reading, i, entries.len());
            law_extraction_writes_what_is_planned(root, entries, verdicts, i + 1);
            Seq::filter_distributes_over_add(first, rest, pred);
            assert(commands.filter(pred) =~= planned_writes(root, entries, verdicts, i));
        }
    }
}

/// The declared name of an entry that can be opened.
pub open spec fn name_of(entry: EntryModel) -> Seq<char> {
    match entry {
        Some((name, _)) => name,
        None => Seq::empty(),
    }
}

/// The content of an entry that can be read.
pub open spec fn content_of(entry: EntryModel) -> Seq<u8> {
    match entry {
        Some((_, Some(data))) => data,
        _ => Seq::empty(),
    }
}

/// Whether an entry is rejected: it can be opened, and its name is not
/// admitted.
pub open spec fn is_rejected(entry: EntryModel, verdict: bool) -> bool {
    reading_of(entry, verdict) is Rejected
}

proof fn lemma_planned_writes_shift(
    root: Seq<char>,
    entries: Seq<EntryModel>,
    verdicts: Seq<bool>,
    k: nat,
    j: nat,
)
    requires
        k < entries.len(),
        entries.len() == verdicts.len(),
        k <= j,
    ensures
        planned_writes(root, entries, verdicts, j + 1) == planned_writes(
            root,
            entries.remove(k as int),
            verdicts.remove(k as int),
            j,
        ),
    decreases entries.len() - j,
{
    let fewer = entries.remove(k as int);
    let fewer_verdicts = verdicts.remove(k as int);
    if j + 1 >= entries.len() {
    } else {
        assert(fewer[j as int] == entries[(j + 1) as int]);
        assert(verdict_at(fewer_verdicts, j) == verdict_at(verdicts, (j + 1) as nat));
        lemma_planned_writes_shift(root, entries, verdicts, k, j + 1);
    }
}

proof fn lemma_planned_writes_without(
    root: Seq<char>,
    entries: Seq<EntryModel>,
    verdicts: Seq<bool>,
    k: nat,
    i: nat,
)
    requires
        k < entries.len(),
        entries.len() == verdicts.len(),
        is_rejected(entries[k as int], verdicts[k as int]),
        i <= k,
    ensures
        planned_writes(root, entries, verdicts, i) == planned_writes(
            root,
            entries.remove(k as int),
            verdicts.remove(k as int),
            i,
        ),
    decreases k - i,
{
    let fewer = entries.remove(k as int);
    let fewer_verdicts = verdicts.remove(k as int);
    if i == k {
        lemma_planned_writes_shift(root, entries, verdicts, k, k);
    } else {
        assert(fewer[i as int] == entries[i as int]);
        assert(verdict_at(fewer_verdicts, i) == verdict_at(verdicts, i));
        lemma_planned_writes_without(root, entries, verdicts, k, i + 1);
    }
}

/// An entry whose name leads out of the root is never written, and no other
/// entry is passed over because of it.
///
/// Take an archive with an entry `k` whose name is not admitted: the walk
/// along its components leads out above where it began, or it holds a NUL
/// or begins at the root, or the archive reader finds it to lead out. Then
/// the run hands out no command that writes it: its only command is the
/// note that it was passed over. And what the run writes is what it would
/// write if the archive did not hold that entry at all: the same commands,
/// in the same order.
pub proof fn law_rejected_entry_is_never_written(
    root: Seq<char>,
    entries: Seq<EntryModel>,
    verdicts: Seq<bool>,
    k: nat,
)
    requires
        k < entries.len(),
        entries.len() == verdicts.len(),
        is_rejected(entries[k as int], verdicts[k as int]),
    ensures
        entry_commands(
            root,
            reading_of(entries[k as int], verdicts[k as int]),
            k,
            entries.len(),
        ) == seq![CommandView::Skipped(name_of(entries[k as int]))],
        extraction_commands(root, entries, verdicts, 0).filter(|c: CommandView| c.writes())
            == extraction_commands(
            root,
            entries.remove(k as int),
            verdicts.remove(k as int),
            0,
        ).filter(|c: CommandView| c.writes()),
{
    law_extraction_writes_what_is_planned(root, entries, verdicts, 0);
    law_extraction_writes_what_is_planned(root, entries.remove(k as int), verdicts.remove(k as int), 0);
    lemma_planned_writes_without(root, entries, verdicts, k, 0);
}

/// Whether an entry is a file that can be read and whose name is admitted,
/// given what the archive reader finds of the name: the name does not end in
/// a slash.
pub open spec fn is_plain_file(entry: EntryModel, verdict: bool) -> bool {
    entry matches Some((name, content)) && content is Some && admitted(name, verdict)
        && !ends_with_slash(name)
}

/// The command that writes the file `entry` below `root`: at the root joined
/// with the entry's name, the entry's content.
pub open spec fn file_write(root: Seq<char>, entry: EntryModel) -> CommandView {
    CommandView::WriteFile { path: joined(root, name_of(entry)), data: content_of(entry) }
}

proof fn lemma_planned_writes_of_files(
    root: Seq<char>,
    entries: Seq<EntryModel>,
    verdicts: Seq<bool>,
    i: nat,
)
    requires
        entries.len() == verdicts.len(),
        forall|j: int|
            0 <= j < entries.len() ==> is_plain_file(#[trigger] entries[j], verdicts[j]),
        i <= entries.len(),
    ensures
        planned_writes(root, entries, verdicts, i) == Seq::new(
            (entries.len() - i) as nat,
            |j: int| file_write(root, entries[i + j]),
        ),
    decreases entries.len() - i,
{
    let expected = Seq::new((entries.len() - i) as nat, |j: int| file_write(root, entries[i + j]));
    if i >= entries.len() {
        assert(planned_writes(root, entries, verdicts, i) =~= expected);
    } else {
        lemma_planned_writes_of_files(root, entries, verdicts, i + 1);
        assert(is_plain_file(entries[i as int], verdicts[i as int]));
        let rest = Seq::new(
            (entries.len() - (i + 1)) as nat,
            |j: int| file_write(root, entries[i + 1 + j]),
        );
        assert(seq![file_write(root, entries[i as int])] + rest =~= expected);
    }
}

/// Of an archive of files, each is written below the root with its content,
/// and nothing else is written.
///
/// Take an archive whose entries are all files that can be read, with names
/// that are admitted and do not end in a slash. For a name without
/// backslash and colon that asks no more than that the walk along its
/// components stays inside, that it holds no NUL and does not begin at the
/// root; for any other name the archive reader must find it to stay inside
/// as well. Then the commands of the extraction that write are, in the
/// order of the archive, one for each entry: the file at the root joined
/// with the entry's name, holding the entry's content.
pub proof fn law_files_are_written_as_packed(
    root: Seq<char>,
    entries: Seq<EntryModel>,
    verdicts: Seq<bool>,
)
    requires
        entries.len() == verdicts.len(),
        forall|j: int|
            0 <= j < entries.len() ==> is_plain_file(#[trigger] entries[j], verdicts[j]),
    ensures
        extraction_commands(root, entries, verdicts, 0).filter(|c: CommandView| c.writes())
            == Seq::new(entries.len(), |j: int| file_write(root, entries[j])),
{
    law_extraction_writes_what_is_planned(root, entries, verdicts, 0);
    lemma_planned_writes_of_files(root, entries, verdicts, 0);
    assert(Seq::new((entries.len() - 0) as nat, |j: int| file_write(root, entries[0 + j]))
        =~= Seq::new(entries.len(), |j: int| file_write(root, entries[j])));
}

/// Nothing of an archive is written but what was admitted.
///
/// Whatever state a run is in and whatever it is given: where it hands out a
/// command that writes a file, the file is an entry of the archive whose
/// name is admitted and does not end in a slash; the path is the root joined
/// with that name, and the data is the content of that entry. Where it
/// hands out a command that makes a directory, the directory is the root
/// itself, or an entry of the archive whose name is admitted and ends in a
/// slash, at the root joined with that name. An admitted name is one whose
/// walk, component by component, stays inside, which holds no NUL and does
/// not begin at the root, and which the archive reader found to stay inside
/// where platforms differ in how they read it.
pub proof fn law_only_admitted_entries_are_written(s: InstallState, input: Input)
    ensures
        ({
            let (next, command) = advance_model(s, input.outcome, input.contained);
            let entry = entry_at(next.entries, next.index);
            match command {
                CommandView::WriteFile { path, data } => {
                    &&& entry matches Some((name, content))
                    &&& admitted(name, input.contained)
                    &&& !ends_with_slash(name)
                    &&& content == Some(data)
                    &&& path == joined(next.root, name)
                },
                CommandView::MakeDirs(path) => {
                    ||| path == next.root
                    ||| {
                        &&& entry matches Some((name, content))
                        &&& admitted(name, input.contained)
                        &&& ends_with_slash(name)
                        &&& path == joined(next.root, name)
                    }
                },
                _ => true,
            }
        }),
{
    let (next, command) = advance_model(s, input.outcome, input.contained);
    if command.writes() && !(command == CommandView::MakeDirs(next.root)) {
        assert(advance_model(s, input.outcome, input.contained) == enter_model(
            turning(s),
            input.contained,
        ));
    }
}

/// A name that leads out is rejected whatever the archive reader finds of
/// it: where the walk along its components leads out above where it began,
/// by either separator and at whatever place of the name, or where it holds
/// a NUL or begins at the root, the entry is passed over.
pub proof fn law_name_that_leads_out_is_rejected(
    name: Seq<char>,
    content: Option<Seq<u8>>,
    contained: bool,
)
    requires
        !stays_inside(name) || plainly_escapes(name),
    ensures
        reading_of(Some((name, content)), contained) == (EntryReadingView::Rejected { name }),
{
}

/// Of a name that every platform reads alike, the archive reader's finding
/// decides nothing: the reading is the same whatever it finds, and an entry
/// whose walk stays inside, which holds no NUL and does not begin at the
/// root, is not rejected.
pub proof fn law_name_read_alike_is_decided_by_its_walk(name: Seq<char>, content: Option<Seq<u8>>)
    requires
        reads_alike(name),
    ensures
        reading_of(Some((name, content)), true) == reading_of(Some((name, content)), false),
        stays_inside(name) && !plainly_escapes(name) ==> !(reading_of(Some((name, content)), true)
            is Rejected),
{
}

} // verus!
