use vstd::prelude::*;

use crate::catalog::selected;
use crate::lookup::{tag_of, versions_of, MetadataView};
use crate::release::{
    action_of, begin, current, current_commands, dir_depth, initial, in_loop, is_tag_mutation, is_terminal, next, valid,
    with_stage, ActionView, CommandView, ErrorView, EventView, Options, ReleaseView, StageView,
};

verus! {

/// The actions of the first `n` states of a run from `s` whose every action
/// is answered by `respond`.
pub open spec fn run(s: ReleaseView, respond: spec_fn(ActionView) -> EventView, n: nat) -> Seq<
    ActionView,
>
    decreases n,
{
    if n == 0 {
        Seq::empty()
    } else {
        seq![action_of(s)] + run(next(s, respond(action_of(s))), respond, (n - 1) as nat)
    }
}

/// The actions of declining each package from `from` on: the question, the
/// notice that the package was left out, and a blank line.
pub open spec fn declined_trace(
    packages: Seq<Seq<char>>,
    lookup: Map<Seq<char>, Seq<char>>,
    from: nat,
) -> Seq<ActionView>
    decreases packages.len() - from,
{
    if from >= packages.len() {
        Seq::empty()
    } else {
        let p = packages[from as int];
        seq![
            ActionView::Confirm { prompt: "Publish "@ + tag_of(p, lookup[p]) + "?"@ },
            ActionView::Say { line: p + " aborted"@ },
            ActionView::Say { line: Seq::empty() },
        ] + declined_trace(packages, lookup, from + 1)
    }
}

/// Every state a run starts in is valid.
pub proof fn lemma_initial_valid(workspaces: nat, requested: Seq<Seq<char>>, options: Options)
    ensures
        valid(initial(workspaces, requested, options)),
{
}

/// Every event takes a valid state to a valid state.
pub proof fn lemma_next_valid(s: ReleaseView, e: EventView)
    requires
        valid(s),
    ensures
        valid(next(s, e)),
{
}

/// With a number of workspace roots other than one, the run ends at once with
/// that error: nothing is read, asked or run, whatever the events.
pub proof fn lemma_workspace_count(
    workspaces: nat,
    requested: Seq<Seq<char>>,
    options: Options,
    respond: spec_fn(ActionView) -> EventView,
    n: nat,
)
    requires
        workspaces != 1,
    ensures
        run(initial(workspaces, requested, options), respond, n) == Seq::new(
            n,
            |i: int|
                ActionView::Finish {
                    outcome: Err(ErrorView::WorkspaceCount { count: workspaces }),
                },
        ),
    decreases n,
{
    let s = initial(workspaces, requested, options);
    if n > 0 {
        lemma_workspace_count(workspaces, requested, options, respond, (n - 1) as nat);
        assert(next(s, respond(action_of(s))) == s);
        assert(run(s, respond, n) =~= Seq::new(
            n,
            |i: int|
                ActionView::Finish {
                    outcome: Err(ErrorView::WorkspaceCount { count: workspaces }),
                },
        ));
    }
}

proof fn lemma_declining_from(
    base: ReleaseView,
    respond: spec_fn(ActionView) -> EventView,
    k: nat,
)
    requires
        !base.options.confirm_all,
        k <= base.packages.len(),
        forall|i: int| 0 <= i < base.packages.len() ==> base.lookup.contains_key(base.packages[i]),
        forall|p: Seq<char>|
            #[trigger] respond(ActionView::Confirm { prompt: p }) == (EventView::Answer {
                result: Ok(false),
            }),
        forall|l: Seq<char>| #[trigger] respond(ActionView::Say { line: l }) == EventView::Done,
    ensures
        run(begin(base, k), respond, (3 * (base.packages.len() - k) + 1) as nat) == declined_trace(
            base.packages,
            base.lookup,
            k,
        ) + seq![ActionView::Finish { outcome: Ok(()) }],
    decreases base.packages.len() - k,
{
    let s = begin(base, k);
    let n = (3 * (base.packages.len() - k) + 1) as nat;
    if k == base.packages.len() {
        assert(run(next(s, respond(action_of(s))), respond, 0) =~= Seq::empty());
        assert(run(s, respond, 1) =~= seq![ActionView::Finish { outcome: Ok(()) }]);
    } else {
        lemma_declining_from(base, respond, k + 1);
        let p = base.packages[k as int];
        assert(base.lookup.contains_key(p));
        let a0 = action_of(s);
        assert(a0 == ActionView::Confirm { prompt: "Publish "@ + tag_of(p, base.lookup[p]) + "?"@ });
        let s1 = next(s, respond(a0));
        assert(s1 == with_stage(s, StageView::Declined { line: 0 }));
        let a1 = action_of(s1);
        assert(a1 == ActionView::Say { line: p + " aborted"@ });
        let s2 = next(s1, respond(a1));
        assert(s2 == with_stage(s, StageView::Declined { line: 1 }));
        let a2 = action_of(s2);
        assert(a2 == ActionView::Say { line: Seq::empty() });
        let s3 = next(s2, respond(a2));
        assert(s3 == begin(base, k + 1));
        let rest = run(s3, respond, (n - 3) as nat);
        assert(run(s2, respond, (n - 2) as nat) == seq![a2] + rest);
        assert(run(s1, respond, (n - 1) as nat) == seq![a1] + (seq![a2] + rest));
        assert(run(s, respond, n) == seq![a0] + (seq![a1] + (seq![a2] + rest)));
        assert(run(s, respond, n) =~= declined_trace(base.packages, base.lookup, k) + seq![
            ActionView::Finish { outcome: Ok(()) },
        ]);
    }
}

/// A user who declines every package sees, after the metadata is read, for
/// each package in order the question, the notice that it was left out and a
/// blank line, and the run then ends in success: no directory is entered and
/// no command is run.
pub proof fn lemma_declining_everything(
    requested: Seq<Seq<char>>,
    options: Options,
    meta: MetadataView,
    respond: spec_fn(ActionView) -> EventView,
)
    requires
        !options.confirm_all,
        versions_of(meta) is Ok,
        forall|i: int|
            0 <= i < selected(requested).len() ==> versions_of(meta)->Ok_0.contains_key(
                #[trigger] selected(requested)[i],
            ),
        respond(ActionView::ReadMetadata) == (EventView::Metadata { result: Ok(meta) }),
        forall|p: Seq<char>|
            #[trigger] respond(ActionView::Confirm { prompt: p }) == (EventView::Answer {
                result: Ok(false),
            }),
        forall|l: Seq<char>| #[trigger] respond(ActionView::Say { line: l }) == EventView::Done,
    ensures
        run(initial(1, requested, options), respond, (3 * selected(requested).len() + 2) as nat)
            == seq![ActionView::ReadMetadata] + declined_trace(
            selected(requested),
            versions_of(meta)->Ok_0,
            0,
        ) + seq![ActionView::Finish { outcome: Ok(()) }],
{
    let s = initial(1, requested, options);
    let base = ReleaseView { lookup: versions_of(meta)->Ok_0, ..s };
    let n = (3 * selected(requested).len() + 2) as nat;
    lemma_declining_from(base, respond, 0);
    assert(next(s, respond(action_of(s))) == begin(base, 0));
    assert(run(s, respond, n) =~= seq![ActionView::ReadMetadata] + declined_trace(
        selected(requested),
        versions_of(meta)->Ok_0,
        0,
    ) + seq![ActionView::Finish { outcome: Ok(()) }]);
}

/// Where the run reaches a package that has no version, it has stopped there
/// with that error: it has not asked, entered a directory or run a command
/// for it, and it does nothing further, whatever the events.
pub proof fn lemma_unknown_package_stops(s: ReleaseView, e: EventView, later: EventView)
    requires
        valid(s),
        in_loop(next(s, e)),
        next(s, e).index < next(s, e).packages.len(),
        !next(s, e).lookup.contains_key(current(next(s, e))),
    ensures
        next(s, e).stage == (StageView::Failed {
            error: ErrorView::UnknownPackage { package: current(next(s, e)) },
        }),
        action_of(next(s, e)) == (ActionView::Finish {
            outcome: Err(ErrorView::UnknownPackage { package: current(next(s, e)) }),
        }),
        next(next(s, e), later) == next(s, e),
{
    lemma_next_valid(s, e);
}

/// In a dry run that publishes, no tag is ever created, moved, pushed or
/// deleted.
pub proof fn lemma_dry_run_keeps_tags(s: ReleaseView)
    requires
        valid(s),
        !s.options.confirm_all,
        !s.options.tag_only,
    ensures
        action_of(s) matches ActionView::Run { command } ==> !is_tag_mutation(command),
{
}

/// When publishing, an event moves the run on to a command that changes a tag
/// only where it reports the success of the command before, and that command
/// was the real publish of the same package or one of the tag changes that
/// follow it; this only when confirming all.
pub proof fn lemma_tag_moves_follow_publish(s: ReleaseView, e: EventView)
    requires
        valid(s),
        !s.options.tag_only,
        next(s, e) != s,
        action_of(next(s, e)) is Run,
        is_tag_mutation(action_of(next(s, e))->Run_command),
    ensures
        s.options.confirm_all,
        e == (EventView::Outcome { result: Ok(()) }),
        action_of(s) matches ActionView::Run { command } && (is_tag_mutation(command) || command
            == (CommandView::Publish { package: current(s), dry_run: false })),
        next(s, e).index == s.index,
{
    lemma_next_valid(s, e);
    if s.stage is Announce {
        assert(current_commands(s)[0] is Publish);
    }
    if s.stage is Exec && e is Outcome && e->Outcome_result is Ok {
        let u: () = e->Outcome_result->Ok_0;
        assert(e->Outcome_result == Ok::<(), Seq<char>>(u));
    }
}

/// The change of working directory that an action with its event makes:
/// entering the package's directory, or going back.
pub open spec fn dir_change(a: ActionView, e: EventView) -> int {
    match (a, e) {
        (ActionView::EnterDir { .. }, EventView::Done) => 1,
        (ActionView::LeaveDir, EventView::Done) => -1,
        _ => 0,
    }
}

/// The working directory is changed only by entering and leaving, at most one
/// level deep; and whenever the run moves on from a package, whether it was
/// released, declined or failed, or ends, it stands in the directory it stood
/// in before that package.
pub proof fn lemma_dir_restored(s: ReleaseView, e: EventView)
    requires
        valid(s),
    ensures
        0 <= dir_depth(s) <= 1,
        dir_depth(next(s, e)) == dir_depth(s) + dir_change(action_of(s), e),
        next(s, e).index != s.index || is_terminal(next(s, e).stage) || s.stage is ReadMetadata
            ==> dir_depth(next(s, e)) == 0,
{
}

} // verus!
