//! Whole runs of the state machine, and what holds of every one of them.

use crate::gatekeeper::{
    check_due, next, update_due, Action, Elapsed, Event, Resolved, Stage, CHECK_COOLDOWN_SECS,
};
use crate::github::ReleaseAsset;
use crate::version::{newer_than, precedence_of, Precedence, SemanticVersion};
use vstd::prelude::*;

verus! {

/// The state that the machine is in after `events`, started in `stage`.
pub open spec fn stage_after(stage: Stage, events: Seq<Event>) -> Stage
    decreases events.len(),
{
    if events.len() == 0 {
        stage
    } else {
        stage_after(next(stage, events.first()).0, events.drop_first())
    }
}

/// How often the machine, started in `stage`, asks for a check while it takes
/// `events`.
pub open spec fn checks_in(stage: Stage, events: Seq<Event>) -> nat
    decreases events.len(),
{
    if events.len() == 0 {
        0
    } else {
        let (then, action) = next(stage, events.first());
        (if action is Check {
            1nat
        } else {
            0nat
        }) + checks_in(then, events.drop_first())
    }
}

/// How often the machine, started in `stage`, asks for a download while it
/// takes `events`.
pub open spec fn downloads_in(stage: Stage, events: Seq<Event>) -> nat
    decreases events.len(),
{
    if events.len() == 0 {
        0
    } else {
        let (then, action) = next(stage, events.first());
        (if action is Download {
            1nat
        } else {
            0nat
        }) + downloads_in(then, events.drop_first())
    }
}

/// Whether the machine, started in `stage`, asks for the cooldown marker to
/// be refreshed while it takes `events`.
pub open spec fn touched_in(stage: Stage, events: Seq<Event>) -> bool
    decreases events.len(),
{
    if events.len() == 0 {
        false
    } else {
        let (then, action) = next(stage, events.first());
        (action matches Action::Conclude { touch_marker, .. } && touch_marker) || touched_in(
            then,
            events.drop_first(),
        )
    }
}

/// Whether a cycle in `stage` has its check behind it.
pub open spec fn past_deciding(stage: Stage) -> bool {
    !(stage is Unchecked) && !(stage is Deciding)
}

/// Whether a cycle in `stage` is at work on a check that it began.
pub open spec fn at_work(stage: Stage) -> bool {
    stage is Checking || stage is Downloading || stage is Extracting
}

/// Whether a cycle in `stage` has nothing left to decide.
pub open spec fn closing(stage: Stage) -> bool {
    stage is SkippedCooldown || stage is Failed || stage is Done
}

/// The installed version `local` and a release of version `remote` with an
/// asset for this platform lead to a download if and only if `remote` is
/// strictly newer than `local`: not when the two are equal in order, and not
/// when `remote` is older.
pub proof fn law_download_iff_newer(
    local: SemanticVersion,
    remote: SemanticVersion,
    asset: ReleaseAsset,
)
    ensures
        next(
            Stage::Checking,
            Event::Checked {
                local: Some(local),
                remote: Ok(Resolved { version: remote, asset: Some(asset) }),
            },
        ).1 is Download <==> newer_than(remote@, local@),
        precedence_of(remote@, local@) == Some(Precedence::Same) ==> !(next(
            Stage::Checking,
            Event::Checked {
                local: Some(local),
                remote: Ok(Resolved { version: remote, asset: Some(asset) }),
            },
        ).1 is Download),
        precedence_of(remote@, local@) == Some(Precedence::Lower) ==> !(next(
            Stage::Checking,
            Event::Checked {
                local: Some(local),
                remote: Ok(Resolved { version: remote, asset: Some(asset) }),
            },
        ).1 is Download),
{
}

/// A download is asked for in one place only: at the end of a check that
/// found a release with an asset for this platform, and nothing installed or
/// something older than the release.
pub proof fn law_download_only_when_due(stage: Stage, event: Event)
    requires
        next(stage, event).1 is Download,
    ensures
        stage is Checking,
        event matches Event::Checked { local, remote: Ok(resolved) } && update_due(
            local,
            resolved.version,
        ) && resolved.asset is Some,
{
}

/// Once a cycle has its check behind it, it asks for no other.
pub proof fn law_no_second_check(stage: Stage, events: Seq<Event>)
    requires
        past_deciding(stage),
    ensures
        checks_in(stage, events) == 0,
    decreases events.len(),
{
    if events.len() > 0 {
        law_no_second_check(next(stage, events.first()).0, events.drop_first());
    }
}

/// A cycle that was skipped, that failed or that is over touches neither the
/// network nor the cooldown marker.
pub proof fn law_closing_is_quiet(stage: Stage, events: Seq<Event>)
    requires
        closing(stage),
    ensures
        checks_in(stage, events) == 0,
        downloads_in(stage, events) == 0,
        !touched_in(stage, events),
    decreases events.len(),
{
    if events.len() > 0 {
        law_closing_is_quiet(next(stage, events.first()).0, events.drop_first());
    }
}

/// Whatever happens, a cycle asks for at most one check and at most one
/// download.
pub proof fn law_at_most_one_check(stage: Stage, events: Seq<Event>)
    ensures
        checks_in(stage, events) <= 1,
        downloads_in(stage, events) <= 1,
        stage is Downloading || stage is Extracting ==> downloads_in(stage, events) == 0,
    decreases events.len(),
{
    if events.len() > 0 {
        let (then, action) = next(stage, events.first());
        law_at_most_one_check(then, events.drop_first());
        if action is Check {
            law_no_second_check(then, events.drop_first());
        }
        if closing(stage) {
            law_closing_is_quiet(stage, events);
        }
        if closing(then) {
            law_closing_is_quiet(then, events.drop_first());
        }
    }
}

/// The cooldown: a launcher that was started without the forcing flag and
/// finds a marker younger than the window asks for no check and no download,
/// whatever follows; one that was forced, finds no marker or finds one as old
/// as the window asks for exactly one check.
pub proof fn law_cooldown(forced: bool, age: Option<Elapsed>, rest: Seq<Event>)
    ensures
        ({
            let events = seq![Event::Invoked { forced }, Event::MarkerRead { age }] + rest;
            let fresh = !forced && age is Some && age->0.secs < CHECK_COOLDOWN_SECS;
            &&& fresh ==> checks_in(Stage::Unchecked, events) == 0 && downloads_in(
                Stage::Unchecked,
                events,
            ) == 0
            &&& !fresh ==> checks_in(Stage::Unchecked, events) == 1
        }),
{
    let events = seq![Event::Invoked { forced }, Event::MarkerRead { age }] + rest;
    let tail = events.drop_first();
    assert(events.first() == Event::Invoked { forced });
    assert(tail.first() == Event::MarkerRead { age });
    assert(tail.drop_first() =~= rest);
    let deciding = Stage::Deciding { forced };
    assert(next(Stage::Unchecked, events.first()) == (deciding, Action::ReadMarker));
    assert(checks_in(Stage::Unchecked, events) == checks_in(deciding, tail));
    assert(downloads_in(Stage::Unchecked, events) == downloads_in(deciding, tail));
    if check_due(forced, age) {
        assert(next(deciding, tail.first()) == (Stage::Checking, Action::Check));
        law_no_second_check(Stage::Checking, rest);
        assert(checks_in(deciding, tail) == 1 + checks_in(Stage::Checking, rest));
    } else {
        assert(next(deciding, tail.first()).0 == Stage::SkippedCooldown);
        law_closing_is_quiet(Stage::SkippedCooldown, rest);
        assert(checks_in(deciding, tail) == checks_in(Stage::SkippedCooldown, rest));
        assert(downloads_in(deciding, tail) == downloads_in(Stage::SkippedCooldown, rest));
    }
}

/// A cycle that is at work on its check does not get to `Done` without asking
/// for the cooldown marker to be refreshed, whether it succeeds or fails.
pub proof fn law_work_ends_with_touch(stage: Stage, events: Seq<Event>)
    requires
        at_work(stage),
        stage_after(stage, events) is Done,
    ensures
        touched_in(stage, events),
    decreases events.len(),
{
    if events.len() > 0 {
        let (then, action) = next(stage, events.first());
        if at_work(then) {
            law_work_ends_with_touch(then, events.drop_first());
        }
    }
}

/// A cycle that asked for a check and got to `Done` has asked for the
/// cooldown marker to be refreshed.
pub proof fn law_checked_cycle_touches(stage: Stage, events: Seq<Event>)
    requires
        stage_after(stage, events) is Done,
        checks_in(stage, events) >= 1,
    ensures
        touched_in(stage, events),
    decreases events.len(),
{
    if events.len() > 0 {
        let (then, action) = next(stage, events.first());
        if action is Check {
            law_work_ends_with_touch(then, events.drop_first());
        } else {
            law_checked_cycle_touches(then, events.drop_first());
        }
    }
}

/// Two runs in succession, neither of them forced, ask for at most one check
/// between them: where the first run came to its end and the second finds the
/// marker, if the first asked for it to be refreshed, younger than the window.
pub proof fn law_second_run_skips(first: Seq<Event>, age: Option<Elapsed>, rest: Seq<Event>)
    requires
        stage_after(Stage::Unchecked, first) is Done,
        touched_in(Stage::Unchecked, first) ==> age is Some && age->0.secs < CHECK_COOLDOWN_SECS,
    ensures
        checks_in(Stage::Unchecked, first) + checks_in(
            Stage::Unchecked,
            seq![Event::Invoked { forced: false }, Event::MarkerRead { age }] + rest,
        ) <= 1,
{
    law_at_most_one_check(Stage::Unchecked, first);
    law_at_most_one_check(
        Stage::Unchecked,
        seq![Event::Invoked { forced: false }, Event::MarkerRead { age }] + rest,
    );
    if checks_in(Stage::Unchecked, first) >= 1 {
        law_checked_cycle_touches(Stage::Unchecked, first);
        law_cooldown(false, age, rest);
    }
}

} // verus!
