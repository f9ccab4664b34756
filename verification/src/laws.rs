//! What holds of every install run, whatever the world answers.
//!
//! A run is looked at from outside: a state to begin with, and the inputs it
//! is given one after the other. Each input is the outcome of the command
//! that went out before, together with what the archive reader found of the
//! entry that the step reads, if it reads one.

use vstd::prelude::*;

use crate::archive::{entry_at, plainly_escapes, reading_of, EntryReadingView};
use crate::install::{
    advance_model, closing_model, enter_model, extracting_model, fetching_model,
    preparing_model, registering_model, turning, InstallState, Phase, Step,
};
use crate::progress::{
    lemma_share_bounded, lemma_share_monotonic, share, BUNDLE_PPM, CLEANING_PPM,
    DOWNLOAD_BASE_PPM, DOWNLOAD_SPAN_PPM, EXTRACT_BASE_PPM, EXTRACT_SPAN_PPM, FULL_SCALE,
    SHORTCUTS_PPM,
};
use crate::protocol::{CommandView, OutcomeView};
use crate::registrar::install_root;
use crate::text::{joined, stays_inside};

verus! {

/// What a run is given at one step.
pub struct Input {
    /// How the command went that was handed out before.
    pub outcome: OutcomeView,
    /// Whether the archive reader finds the name of the entry that this step
    /// reads to stay inside the root.
    pub contained: bool,
}

/// The state of a run that began at `s` and was given `inputs`.
pub open spec fn state_after(s: InstallState, inputs: Seq<Input>) -> InstallState
    decreases inputs.len(),
{
    if inputs.len() == 0 {
        s
    } else {
        advance_model(
            state_after(s, inputs.drop_last()),
            inputs.last().outcome,
            inputs.last().contained,
        ).0
    }
}

/// The command that a run which began at `s` hands out in answer to the
/// input `k` of `inputs`.
pub open spec fn command_at(s: InstallState, inputs: Seq<Input>, k: int) -> CommandView
    recommends
        0 <= k < inputs.len(),
{
    advance_model(state_after(s, inputs.take(k)), inputs[k].outcome, inputs[k].contained).1
}

/// The least fraction that a run at `s` may still report.
pub open spec fn progress_floor(s: InstallState) -> nat {
    match s.step {
        Step::Idle
        | Step::AnnouncingStart
        | Step::AnnouncingBundle
        | Step::FindingRoot
        | Step::AnnouncingCleanup => CLEANING_PPM as nat,
        Step::ShowingCleanup
        | Step::ProbingRoot
        | Step::RemovingOld
        | Step::MakingRoot
        | Step::AnnouncingCleanupDone
        | Step::AnnouncingDownload
        | Step::ShowingDownload
        | Step::Detaching
        | Step::Connecting => DOWNLOAD_BASE_PPM as nat,
        Step::Receiving | Step::ShowingReceived => if s.total > 0 {
            DOWNLOAD_BASE_PPM as nat + share(DOWNLOAD_SPAN_PPM as nat, s.payload.len(), s.total)
        } else {
            DOWNLOAD_BASE_PPM as nat
        },
        Step::AnnouncingDownloadDone | Step::AnnouncingExtract | Step::ShowingExtract => {
            EXTRACT_BASE_PPM as nat
        },
        Step::SkippingEntry | Step::WritingEntry | Step::AnnouncingEntry | Step::ShowingEntry => {
            if s.entries.len() > 0 {
                EXTRACT_BASE_PPM as nat + share(
                    EXTRACT_SPAN_PPM as nat,
                    s.index,
                    s.entries.len(),
                )
            } else {
                EXTRACT_BASE_PPM as nat
            }
        },
        Step::FindingSelf
        | Step::AnnouncingUninstaller
        | Step::CopyingUninstaller
        | Step::Registering => SHORTCUTS_PPM as nat,
        Step::ShowingShortcuts
        | Step::AnnouncingShortcuts
        | Step::FindingDesktop
        | Step::ProbingDesktop
        | Step::LinkingDesktop
        | Step::FindingStartMenu
        | Step::ProbingStartMenu
        | Step::LinkingStartMenu => BUNDLE_PPM as nat,
        _ => FULL_SCALE as nat,
    }
}

/// Whether what `s` has reported lies at or below all that it may still
/// report.
pub open spec fn in_order(s: InstallState) -> bool {
    s.reported <= progress_floor(s)
}

/// The fraction that a command reports, if it reports one.
pub open spec fn fraction_of(command: CommandView) -> Option<nat> {
    match command {
        CommandView::Report(event) => Some(event.fraction_ppm),
        _ => None,
    }
}

/// Whether `next` and `command` may follow `s`: the run stays in order, what
/// it has reported has not fallen, and the command reports nothing but the
/// fraction that the run then remembers.
pub open spec fn follows_in_order(s: InstallState, next: InstallState, command: CommandView) -> bool {
    &&& in_order(next)
    &&& s.reported <= next.reported
    &&& fraction_of(command) matches Some(f) ==> f == next.reported && f <= FULL_SCALE
}

proof fn lemma_preparing_in_order(s: InstallState, outcome: OutcomeView)
    requires
        in_order(s),
        s.phase() == Phase::Idle || s.phase() == Phase::Cleaning || s.step
            == Step::AnnouncingDownload || s.step == Step::ShowingDownload,
    ensures
        follows_in_order(s, preparing_model(s, outcome).0, preparing_model(s, outcome).1),
{
}

proof fn lemma_fetching_in_order(s: InstallState, outcome: OutcomeView)
    requires
        in_order(s),
        s.step == Step::Detaching || s.step == Step::Connecting || s.step == Step::Receiving
            || s.step == Step::ShowingReceived || s.step == Step::AnnouncingDownloadDone || s.step
            == Step::AnnouncingExtract,
    ensures
        follows_in_order(s, fetching_model(s, outcome).0, fetching_model(s, outcome).1),
{
    let next = fetching_model(s, outcome).0;
    if s.total > 0 {
        lemma_share_bounded(DOWNLOAD_SPAN_PPM as nat, s.payload.len(), s.total);
        lemma_share_bounded(DOWNLOAD_SPAN_PPM as nat, next.payload.len(), s.total);
        if s.payload.len() <= next.payload.len() {
            lemma_share_monotonic(
                DOWNLOAD_SPAN_PPM as nat,
                s.payload.len(),
                next.payload.len(),
                s.total,
            );
        }
    }
    if next.total > 0 {
        lemma_share_bounded(DOWNLOAD_SPAN_PPM as nat, next.payload.len(), next.total);
    }
}

/// The part of the extraction's span that a run at `s` has reached.
pub open spec fn extracted_share(s: InstallState) -> nat {
    if s.entries.len() > 0 {
        share(EXTRACT_SPAN_PPM as nat, s.index, s.entries.len())
    } else {
        0
    }
}

proof fn lemma_entering_in_order(s: InstallState, x: InstallState, contained: bool)
    requires
        x.phase() == Phase::Extracting,
        x.step != Step::AnnouncingExtract,
        in_order(x),
        s.reported <= x.reported,
        x.reported <= EXTRACT_BASE_PPM + extracted_share(x),
    ensures
        follows_in_order(s, enter_model(x, contained).0, enter_model(x, contained).1),
{
    if x.entries.len() > 0 {
        lemma_share_bounded(EXTRACT_SPAN_PPM as nat, x.index, x.entries.len());
    }
}

proof fn lemma_extracting_in_order(s: InstallState, outcome: OutcomeView, contained: bool)
    requires
        in_order(s),
        s.phase() == Phase::Extracting,
        s.step != Step::AnnouncingExtract,
    ensures
        follows_in_order(
            s,
            extracting_model(s, outcome, contained).0,
            extracting_model(s, outcome, contained).1,
        ),
{
    let x = turning(s);
    if s.step != Step::ShowingExtract && s.entries.len() > 0 {
        lemma_share_bounded(EXTRACT_SPAN_PPM as nat, s.index, s.entries.len());
        lemma_share_monotonic(EXTRACT_SPAN_PPM as nat, s.index, x.index, s.entries.len());
    }
    lemma_entering_in_order(s, x, contained);
}

proof fn lemma_registering_in_order(s: InstallState, outcome: OutcomeView)
    requires
        in_order(s),
        s.phase() == Phase::Registering,
        s.step != Step::AnnouncingComplete,
    ensures
        follows_in_order(s, registering_model(s, outcome).0, registering_model(s, outcome).1),
{
}

proof fn lemma_closing_in_order(s: InstallState, outcome: OutcomeView)
    requires
        in_order(s),
        s.phase() == Phase::ProvisioningBundle || s.phase() == Phase::Finished || s.step
            == Step::AnnouncingComplete,
    ensures
        follows_in_order(s, closing_model(s, outcome).0, closing_model(s, outcome).1),
{
}

/// One step keeps a run in order, never lowers what it has reported, and
/// reports nothing but the fraction that it then remembers.
proof fn lemma_step_keeps_order(s: InstallState, input: Input)
    requires
        in_order(s),
    ensures
        follows_in_order(
            s,
            advance_model(s, input.outcome, input.contained).0,
            advance_model(s, input.outcome, input.contained).1,
        ),
{
    if s.halted {
    } else if s.step == Step::AnnouncingComplete {
        lemma_closing_in_order(s, input.outcome);
    } else {
        match s.phase() {
            Phase::Idle | Phase::Cleaning => lemma_preparing_in_order(s, input.outcome),
            Phase::Downloading => match s.step {
                Step::AnnouncingDownload | Step::ShowingDownload => lemma_preparing_in_order(
                    s,
                    input.outcome,
                ),
                _ => lemma_fetching_in_order(s, input.outcome),
            },
            Phase::Extracting => match s.step {
                Step::AnnouncingExtract => lemma_fetching_in_order(s, input.outcome),
                _ => lemma_extracting_in_order(s, input.outcome, input.contained),
            },
            Phase::Registering => lemma_registering_in_order(s, input.outcome),
            _ => lemma_closing_in_order(s, input.outcome),
        }
    }
}

/// What a run has reported never falls, from any number of inputs to any
/// larger number.
proof fn lemma_reported_grows(s: InstallState, inputs: Seq<Input>, i: int, j: int)
    requires
        in_order(s),
        0 <= i <= j <= inputs.len(),
    ensures
        in_order(state_after(s, inputs.take(i))),
        in_order(state_after(s, inputs.take(j))),
        state_after(s, inputs.take(i)).reported <= state_after(s, inputs.take(j)).reported,
    decreases j,
{
    if j == 0 {
        assert(inputs.take(0).len() == 0);
    } else if i == j {
        lemma_reported_grows(s, inputs, 0, j - 1);
        assert(inputs.take(j).drop_last() =~= inputs.take(j - 1));
        lemma_step_keeps_order(state_after(s, inputs.take(j - 1)), inputs.take(j).last());
    } else {
        lemma_reported_grows(s, inputs, i, j - 1);
        assert(inputs.take(j).drop_last() =~= inputs.take(j - 1));
        lemma_step_keeps_order(state_after(s, inputs.take(j - 1)), inputs.take(j).last());
    }
}

proof fn lemma_reports_in_order(s: InstallState, inputs: Seq<Input>, i: int, j: int)
    requires
        in_order(s),
        0 <= i <= j < inputs.len(),
        fraction_of(command_at(s, inputs, i)) is Some,
        fraction_of(command_at(s, inputs, j)) is Some,
    ensures
        fraction_of(command_at(s, inputs, i))->0 <= fraction_of(command_at(s, inputs, j))->0
            <= FULL_SCALE,
{
    let before_i = state_after(s, inputs.take(i));
    let before_j = state_after(s, inputs.take(j));
    lemma_reported_grows(s, inputs, i, j);
    lemma_step_keeps_order(before_j, inputs[j]);
    if i < j {
        lemma_step_keeps_order(before_i, inputs[i]);
        assert(inputs.take(i + 1).drop_last() =~= inputs.take(i));
        assert(inputs.take(i + 1).last() == inputs[i]);
        let after_i = state_after(s, inputs.take(i + 1));
        assert(after_i == advance_model(before_i, inputs[i].outcome, inputs[i].contained).0);
        lemma_reported_grows(s, inputs, i + 1, j);
    }
}

/// The fraction that an install run reports never falls, and never leaves
/// the range from nothing to the whole: of any two reports of one run, the
/// later one carries a fraction at least as large as the earlier one, and
/// none is above [`FULL_SCALE`].
pub proof fn law_progress_never_falls(bundle: bool, inputs: Seq<Input>)
    ensures
        forall|i: int, j: int|
            #![trigger command_at(InstallState::initial(bundle), inputs, i), command_at(InstallState::initial(bundle), inputs, j)]
            0 <= i <= j < inputs.len() && fraction_of(
                command_at(InstallState::initial(bundle), inputs, i),
            ) is Some && fraction_of(command_at(InstallState::initial(bundle), inputs, j)) is Some
                ==> fraction_of(command_at(InstallState::initial(bundle), inputs, i))->0
                <= fraction_of(command_at(InstallState::initial(bundle), inputs, j))->0
                <= FULL_SCALE,
{
    let s = InstallState::initial(bundle);
    assert forall|i: int, j: int|
        #![trigger command_at(s, inputs, i), command_at(s, inputs, j)]
        0 <= i <= j < inputs.len() && fraction_of(command_at(s, inputs, i)) is Some && fraction_of(
            command_at(s, inputs, j),
        ) is Some implies fraction_of(command_at(s, inputs, i))->0 <= fraction_of(
        command_at(s, inputs, j),
    )->0 <= FULL_SCALE by {
        lemma_reports_in_order(s, inputs, i, j);
    }
}

/// How many steps a run at `step` is from its finish at most, once the
/// extraction lies behind it.
pub open spec fn steps_to_finish(step: Step) -> nat {
    match step {
        Step::FindingSelf => 19,
        Step::AnnouncingUninstaller => 18,
        Step::CopyingUninstaller => 17,
        Step::Registering => 16,
        Step::ShowingShortcuts => 15,
        Step::AnnouncingShortcuts => 14,
        Step::FindingDesktop => 13,
        Step::ProbingDesktop => 12,
        Step::LinkingDesktop => 11,
        Step::FindingStartMenu => 10,
        Step::ProbingStartMenu => 9,
        Step::LinkingStartMenu => 8,
        Step::ShowingBundle => 7,
        Step::FindingTemp => 6,
        Step::FetchingBundle => 5,
        Step::StartingBundle => 4,
        Step::AnnouncingBundleDone => 3,
        Step::AnnouncingComplete => 2,
        _ => 0,
    }
}

/// Whether a run has the download and the extraction behind it, both done.
pub open spec fn past_extraction(s: InstallState) -> bool {
    !s.halted && (s.phase() == Phase::Registering || s.phase() == Phase::ProvisioningBundle)
}

/// Whether a run has signalled its finish.
pub open spec fn finished(s: InstallState) -> bool {
    !s.halted && s.step == Step::Finished
}

/// Once the extraction lies behind it, nothing stops a run: each step brings
/// it nearer to its finish, and the finish is signalled at the moment the
/// run arrives there, not before.
pub proof fn law_nothing_stops_a_run_after_the_extraction(s: InstallState, input: Input)
    requires
        past_extraction(s),
    ensures
        ({
            let (next, command) = advance_model(s, input.outcome, input.contained);
            &&& (past_extraction(next) || finished(next))
            &&& steps_to_finish(next.step) < steps_to_finish(s.step)
            &&& (command == CommandView::Finish) == finished(next)
        }),
{
}

/// A run that has signalled its finish stays as it is and hands out nothing
/// but `Stop`.
proof fn lemma_finished_is_final(s: InstallState, input: Input)
    requires
        finished(s),
    ensures
        advance_model(s, input.outcome, input.contained) == (s, CommandView::Stop),
{
}

/// The finish is signalled only on arriving at the finish.
proof fn lemma_finish_means_finished(s: InstallState, input: Input)
    requires
        advance_model(s, input.outcome, input.contained).1 == CommandView::Finish,
    ensures
        !finished(s),
        finished(advance_model(s, input.outcome, input.contained).0),
{
}

proof fn lemma_stays_finished(s: InstallState, inputs: Seq<Input>, i: int, j: int)
    requires
        0 <= i <= j <= inputs.len(),
        finished(state_after(s, inputs.take(i))),
    ensures
        state_after(s, inputs.take(j)) == state_after(s, inputs.take(i)),
    decreases j - i,
{
    if i < j {
        lemma_stays_finished(s, inputs, i, j - 1);
        assert(inputs.take(j).drop_last() =~= inputs.take(j - 1));
        lemma_finished_is_final(state_after(s, inputs.take(j - 1)), inputs.take(j).last());
    }
}

/// The finish is signalled at most once, and nothing but `Stop` follows it:
/// whatever a run is given, if it signals the finish in answer to one input,
/// then it has not done so before, and it answers every later input with
/// `Stop`.
pub proof fn law_nothing_follows_finish(s: InstallState, inputs: Seq<Input>, k: int)
    requires
        0 <= k < inputs.len(),
        command_at(s, inputs, k) == CommandView::Finish,
    ensures
        forall|j: int| 0 <= j < k ==> #[trigger] command_at(s, inputs, j) != CommandView::Finish,
        forall|j: int|
            k < j < inputs.len() ==> #[trigger] command_at(s, inputs, j) == CommandView::Stop,
{
    lemma_finish_means_finished(state_after(s, inputs.take(k)), inputs[k]);
    assert(inputs.take(k + 1).drop_last() =~= inputs.take(k));
    assert(inputs.take(k + 1).last() == inputs[k]);
    assert(finished(state_after(s, inputs.take(k + 1))));
    assert forall|j: int| k < j < inputs.len() implies #[trigger] command_at(s, inputs, j)
        == CommandView::Stop by {
        lemma_stays_finished(s, inputs, k + 1, j);
        lemma_finished_is_final(state_after(s, inputs.take(j)), inputs[j]);
    }
    assert forall|j: int| 0 <= j < k implies #[trigger] command_at(s, inputs, j)
        != CommandView::Finish by {
        if command_at(s, inputs, j) == CommandView::Finish {
            lemma_finish_means_finished(state_after(s, inputs.take(j)), inputs[j]);
            assert(inputs.take(j + 1).drop_last() =~= inputs.take(j));
            assert(inputs.take(j + 1).last() == inputs[j]);
            lemma_stays_finished(s, inputs, j + 1, k);
        }
    }
}

proof fn lemma_finish_is_reached(s: InstallState, inputs: Seq<Input>, m: int) -> (k: int)
    requires
        0 <= m <= inputs.len(),
        past_extraction(state_after(s, inputs.take(m))),
        inputs.len() - m >= steps_to_finish(state_after(s, inputs.take(m)).step),
    ensures
        m <= k < inputs.len(),
        command_at(s, inputs, k) == CommandView::Finish,
    decreases inputs.len() - m,
{
    let here = state_after(s, inputs.take(m));
    law_nothing_stops_a_run_after_the_extraction(here, inputs[m]);
    assert(inputs.take(m + 1).drop_last() =~= inputs.take(m));
    assert(inputs.take(m + 1).last() == inputs[m]);
    let next = state_after(s, inputs.take(m + 1));
    if finished(next) {
        m
    } else {
        lemma_finish_is_reached(s, inputs, m + 1)
    }
}

/// Every install run that has the download and the extraction behind it
/// signals its finish exactly once, and after everything else it hands out.
///
/// Take a run that began at `s` and, after `m` inputs, has left the
/// extraction behind without halting. Whatever the inputs from there on are,
/// if there are enough of them for the steps that are left, then the run
/// answers exactly one input with `Finish`; every later input it answers
/// with `Stop`.
pub proof fn law_finish_exactly_once(s: InstallState, inputs: Seq<Input>, m: int) -> (k: int)
    requires
        0 <= m <= inputs.len(),
        past_extraction(state_after(s, inputs.take(m))),
        inputs.len() - m >= steps_to_finish(state_after(s, inputs.take(m)).step),
    ensures
        m <= k < inputs.len(),
        command_at(s, inputs, k) == CommandView::Finish,
        forall|j: int|
            0 <= j < inputs.len() && j != k ==> #[trigger] command_at(s, inputs, j)
                != CommandView::Finish,
        forall|j: int|
            k < j < inputs.len() ==> #[trigger] command_at(s, inputs, j) == CommandView::Stop,
{
    let k = lemma_finish_is_reached(s, inputs, m);
    law_nothing_follows_finish(s, inputs, k);
    k
}

/// The step after `n` inputs follows from the state after `n` inputs and
/// the input `n`.
proof fn lemma_state_after_next(s: InstallState, inputs: Seq<Input>, n: int)
    requires
        0 <= n < inputs.len(),
    ensures
        state_after(s, inputs.take(n + 1)) == advance_model(
            state_after(s, inputs.take(n)),
            inputs[n].outcome,
            inputs[n].contained,
        ).0,
{
    assert(inputs.take(n + 1).drop_last() =~= inputs.take(n));
    assert(inputs.take(n + 1).last() == inputs[n]);
}

/// Whether a command that writes does so at `root` or inside it: it makes
/// `root` itself, or its path is `root` joined with a name whose walk stays
/// inside and which does not plainly lead out.
pub open spec fn writes_within(root: Seq<char>, command: CommandView) -> bool {
    match command {
        CommandView::WriteFile { path, .. } => exists|name: Seq<char>|
            path == #[trigger] joined(root, name) && stays_inside(name) && !plainly_escapes(name),
        CommandView::MakeDirs(path) => path == root || exists|name: Seq<char>|
            path == #[trigger] joined(root, name) && stays_inside(name) && !plainly_escapes(name),
        _ => true,
    }
}

/// Whether a run knows its root for good: it has left the steps behind that
/// find it.
pub open spec fn rooted(s: InstallState, root: Seq<char>) -> bool {
    s.root == root && s.phase() != Phase::Idle
}

proof fn lemma_root_stays(s: InstallState, input: Input, root: Seq<char>)
    requires
        rooted(s, root),
    ensures
        rooted(advance_model(s, input.outcome, input.contained).0, root),
        writes_within(root, advance_model(s, input.outcome, input.contained).1),
{
    let command = advance_model(s, input.outcome, input.contained).1;
    if command.writes() && command != CommandView::MakeDirs(root) {
        let x = turning(s);
        assert(advance_model(s, input.outcome, input.contained) == enter_model(
            x,
            input.contained,
        ));
        match reading_of(entry_at(x.entries, x.index), input.contained) {
            EntryReadingView::File { name, .. } => {
                assert(command->WriteFile_path == joined(root, name));
            },
            EntryReadingView::Directory { name } => {
                assert(command->MakeDirs_0 == joined(root, name));
            },
            _ => {},
        }
    }
}

proof fn lemma_rooted_from(s: InstallState, inputs: Seq<Input>, m: int, n: int, root: Seq<char>)
    requires
        0 <= m <= n <= inputs.len(),
        rooted(state_after(s, inputs.take(m)), root),
    ensures
        rooted(state_after(s, inputs.take(n)), root),
        n < inputs.len() ==> writes_within(root, command_at(s, inputs, n)),
    decreases n - m,
{
    if m < n {
        lemma_rooted_from(s, inputs, m, n - 1, root);
        lemma_state_after_next(s, inputs, n - 1);
        lemma_root_stays(state_after(s, inputs.take(n - 1)), inputs[n - 1], root);
    }
    if n < inputs.len() {
        lemma_root_stays(state_after(s, inputs.take(n)), inputs[n], root);
    }
}

/// How many milestones a run records before it looks for its root: one, and
/// one more where the bundled application was asked for.
pub open spec fn opening_milestones(bundle: bool) -> int {
    if bundle {
        2
    } else {
        1
    }
}

/// Before anything is written, the old installation is cleared away; and
/// nothing is written but at the root and inside it.
///
/// Take any run from its beginning, and any command of it that writes a
/// file or makes a directory. Then the run has found the user's local
/// application data, and its root is the fixed folder below it. Before that
/// command, it has asked whether the root is there; where it was told that
/// it is, it has had the root removed with all it held; and after that it has
/// made the root: that is the first command that writes. What is written
/// is the root itself, or lies at the root joined with a name whose walk,
/// component by component, stays inside and which does not plainly lead
/// out.
pub proof fn law_root_is_cleared_before_anything_is_written(
    bundle: bool,
    inputs: Seq<Input>,
    k: int,
)
    requires
        0 <= k < inputs.len(),
        command_at(InstallState::initial(bundle), inputs, k).writes(),
    ensures
        ({
            let s = InstallState::initial(bundle);
            let b = opening_milestones(bundle);
            &&& k >= b + 4
            &&& command_at(s, inputs, b) == CommandView::FindLocalAppData
            &&& inputs[b + 1].outcome matches OutcomeView::Found(dir)
            &&& command_at(s, inputs, b + 3) == CommandView::Probe(install_root(dir))
            &&& if inputs[b + 4].outcome == OutcomeView::Exists(true) {
                &&& k >= b + 5
                &&& command_at(s, inputs, b + 4) == CommandView::RemoveTree(install_root(dir))
                &&& command_at(s, inputs, b + 5) == CommandView::MakeDirs(install_root(dir))
            } else {
                command_at(s, inputs, b + 4) == CommandView::MakeDirs(install_root(dir))
            }
            &&& writes_within(install_root(dir), command_at(s, inputs, k))
        }),
{
    let s = InstallState::initial(bundle);
    let b = opening_milestones(bundle);
    assert(inputs.take(0).len() == 0);
    assert(state_after(s, inputs.take(0)) == s);
    lemma_state_after_next(s, inputs, 0);
    if k >= 1 {
        lemma_state_after_next(s, inputs, 1);
    }
    if k >= 2 && bundle {
        lemma_state_after_next(s, inputs, 2);
    }
    if k >= b + 1 {
        lemma_state_after_next(s, inputs, b);
        lemma_state_after_next(s, inputs, b + 1);
        let found = state_after(s, inputs.take(b + 2));
        match inputs[b + 1].outcome {
            OutcomeView::Found(dir) => {
                let root = install_root(dir);
                assert(rooted(found, root));
                if k >= b + 2 {
                    lemma_state_after_next(s, inputs, b + 2);
                }
                if k >= b + 3 {
                    lemma_state_after_next(s, inputs, b + 3);
                }
                if k >= b + 4 {
                    lemma_state_after_next(s, inputs, b + 4);
                }
                if k >= b + 5 {
                    lemma_state_after_next(s, inputs, b + 5);
                }
                lemma_rooted_from(s, inputs, b + 2, k, root);
            },
            _ => {
                assert(found.halted);
                law_halted_run_only_stops(s, inputs, b + 2, k);
            },
        }
    }
}

/// A run that has halted stays halted where it is, and hands out nothing but
/// `Stop`: no step follows the one that failed, and the finish is never
/// signalled.
pub proof fn law_halted_run_only_stops(s: InstallState, inputs: Seq<Input>, m: int, n: int)
    requires
        0 <= m <= n <= inputs.len(),
        state_after(s, inputs.take(m)).halted,
    ensures
        state_after(s, inputs.take(n)) == state_after(s, inputs.take(m)),
        n < inputs.len() ==> command_at(s, inputs, n) == CommandView::Stop,
    decreases n - m,
{
    if m < n {
        law_halted_run_only_stops(s, inputs, m, n - 1);
        lemma_state_after_next(s, inputs, n - 1);
    }
}

/// Whether a run at `step` waits for an answer that decides how it goes on.
/// At every other step the command that went out is one whose failure does
/// not matter to the run.
pub open spec fn awaits_answer(step: Step) -> bool {
    match step {
        Step::FindingRoot
        | Step::ProbingRoot
        | Step::MakingRoot
        | Step::Connecting
        | Step::Receiving
        | Step::WritingEntry
        | Step::FindingSelf
        | Step::FindingDesktop
        | Step::ProbingDesktop
        | Step::FindingStartMenu
        | Step::ProbingStartMenu
        | Step::FindingTemp
        | Step::FetchingBundle => true,
        _ => false,
    }
}

/// Whether a run at `step` waits for an answer without which it cannot go
/// on at all.
pub open spec fn may_halt(step: Step) -> bool {
    match step {
        Step::FindingRoot
        | Step::MakingRoot
        | Step::Connecting
        | Step::Receiving
        | Step::ShowingExtract
        | Step::SkippingEntry
        | Step::WritingEntry
        | Step::AnnouncingEntry
        | Step::ShowingEntry => true,
        _ => false,
    }
}

/// What is told to the observer and to the analytics, and what is done on a
/// best effort, cannot fail a run: where a run does not wait for an answer,
/// it goes on in the same way whatever the outcome of its command was.
pub proof fn law_best_effort_outcomes_are_ignored(
    s: InstallState,
    one: OutcomeView,
    other: OutcomeView,
    contained: bool,
)
    requires
        !awaits_answer(s.step),
    ensures
        advance_model(s, one, contained) == advance_model(s, other, contained),
{
}

/// A run halts only where the root cannot be found or made, where the
/// download fails, or where the archive or its writing fails: at every other
/// step a run that has not halted goes on without halting, whatever it is
/// given.
pub proof fn law_only_fatal_steps_halt(s: InstallState, input: Input)
    requires
        !s.halted,
        !may_halt(s.step),
    ensures
        !advance_model(s, input.outcome, input.contained).0.halted,
{
}

/// Whether a run has the whole download behind it and has not yet opened the
/// archive.
pub open spec fn holds_whole_payload(s: InstallState) -> bool {
    !s.halted && (s.step == Step::AnnouncingDownloadDone || s.step == Step::AnnouncingExtract
        || s.step == Step::ShowingExtract)
}

/// Whether the download of a run ended with the input `m`: the run was
/// reading, had not halted, and was told that nothing more is sent.
pub open spec fn download_ended_at(s: InstallState, inputs: Seq<Input>, m: int) -> bool {
    &&& 0 <= m < inputs.len()
    &&& state_after(s, inputs.take(m)).step == Step::Receiving
    &&& !state_after(s, inputs.take(m)).halted
    &&& inputs[m].outcome == OutcomeView::Chunk(Seq::<u8>::empty())
}

/// The extraction never begins before the download has ended, and it is
/// given all that was received.
///
/// Take any run from its beginning that, after `n` inputs, is about to open
/// the archive. Then one of these inputs, `m`, told the run that nothing
/// more is sent, while it was reading; and the payload that the run holds
/// now is the payload that it held then.
pub proof fn law_extraction_waits_for_the_download(bundle: bool, inputs: Seq<Input>, n: int) -> (m:
    int)
    requires
        0 <= n <= inputs.len(),
        holds_whole_payload(state_after(InstallState::initial(bundle), inputs.take(n))),
    ensures
        m < n,
        download_ended_at(InstallState::initial(bundle), inputs, m),
        state_after(InstallState::initial(bundle), inputs.take(n)).payload == state_after(
            InstallState::initial(bundle),
            inputs.take(m),
        ).payload,
    decreases n,
{
    let s = InstallState::initial(bundle);
    if n == 0 {
        assert(inputs.take(0).len() == 0);
        0
    } else {
        lemma_state_after_next(s, inputs, n - 1);
        let before = state_after(s, inputs.take(n - 1));
        if holds_whole_payload(before) {
            law_extraction_waits_for_the_download(bundle, inputs, n - 1)
        } else {
            match inputs[n - 1].outcome {
                OutcomeView::Chunk(bytes) => {
                    assert(bytes =~= Seq::<u8>::empty());
                },
                _ => {},
            }
            n - 1
        }
    }
}

/// While a run reads, its payload grows by what it is given, and by nothing
/// else: told that `bytes` were read, it holds afterwards what it held
/// before, followed by `bytes`.
pub proof fn law_payload_grows_by_what_is_read(s: InstallState, bytes: Seq<u8>, contained: bool)
    requires
        !s.halted,
        s.step == Step::Receiving,
    ensures
        advance_model(s, OutcomeView::Chunk(bytes), contained).0.payload == s.payload + bytes,
{
    assert(s.payload + Seq::<u8>::empty() =~= s.payload);
}

/// The place of a stage in the order of the stages.
pub open spec fn phase_rank(phase: Phase) -> nat {
    match phase {
        Phase::Idle => 0,
        Phase::Cleaning => 1,
        Phase::Downloading => 2,
        Phase::Extracting => 3,
        Phase::Registering => 4,
        Phase::ProvisioningBundle => 5,
        Phase::Finished => 6,
    }
}

/// Whether a run provides the bundled application only where it was asked
/// for.
pub open spec fn provides_what_was_asked_for(s: InstallState) -> bool {
    s.phase() == Phase::ProvisioningBundle ==> s.bundle
}

proof fn lemma_step_keeps_the_order_of_stages(s: InstallState, input: Input)
    requires
        provides_what_was_asked_for(s),
    ensures
        provides_what_was_asked_for(advance_model(s, input.outcome, input.contained).0),
        phase_rank(s.phase()) <= phase_rank(
            advance_model(s, input.outcome, input.contained).0.phase(),
        ),
{
}

/// The stages of a run follow one another and never come back: of the
/// states that any run from its beginning goes through, a later one is in
/// the same stage as an earlier one or in a stage after it. And the bundled
/// application is provided only in a run for which it was asked.
pub proof fn law_stages_never_come_back(bundle: bool, inputs: Seq<Input>, i: int, j: int)
    requires
        0 <= i <= j <= inputs.len(),
    ensures
        phase_rank(state_after(InstallState::initial(bundle), inputs.take(i)).phase())
            <= phase_rank(state_after(InstallState::initial(bundle), inputs.take(j)).phase()),
        provides_what_was_asked_for(state_after(InstallState::initial(bundle), inputs.take(j))),
    decreases j,
{
    let s = InstallState::initial(bundle);
    if j == 0 {
        assert(inputs.take(0).len() == 0);
    } else {
        lemma_state_after_next(s, inputs, j - 1);
        if i == j {
            law_stages_never_come_back(bundle, inputs, 0, j - 1);
        } else {
            law_stages_never_come_back(bundle, inputs, i, j - 1);
        }
        lemma_step_keeps_the_order_of_stages(state_after(s, inputs.take(j - 1)), inputs[j - 1]);
    }
}

} // verus!
