//! One attested session, and counting sessions by the time they began.

use vstd::prelude::*;
use crate::constants::HOUR_IN_SECONDS;
use crate::identity::Identity;

verus! {

/// A session that a participant claims to have completed. Once recorded it
/// never changes.
#[derive(Clone, Copy, Debug, PartialEq, Eq)]
pub struct MeditationAttestation {
    /// Who submitted the attestation.
    pub attester: Identity,
    /// When the session began, in seconds.
    pub started_at: i64,
    /// When the session ended, in seconds.
    pub ended_at: i64,
}

impl MeditationAttestation {
    /// The longest session that is accepted: eight hours, in seconds.
    pub const MAX_DURATION: i64 = 8 * HOUR_IN_SECONDS;

    /// Whether the session began at or after `from` and before `until`.
    pub open spec fn began_within(self, from: int, until: int) -> bool {
        from <= self.started_at < until
    }
}

/// How many of `sessions` began at or after `from` and before `until`.
pub open spec fn started_within(sessions: Seq<MeditationAttestation>, from: int, until: int) -> nat
    decreases sessions.len(),
{
    if sessions.len() == 0 {
        0
    } else if sessions.last().began_within(from, until) {
        started_within(sessions.drop_last(), from, until) + 1
    } else {
        started_within(sessions.drop_last(), from, until)
    }
}

/// Recording one more session raises the count of a window by one if the
/// session began inside it, and leaves it alone otherwise.
pub proof fn lemma_started_within_push(
    sessions: Seq<MeditationAttestation>,
    session: MeditationAttestation,
    from: int,
    until: int,
)
    ensures
        started_within(sessions.push(session), from, until) == started_within(
            sessions,
            from,
            until,
        ) + (if session.began_within(from, until) {
            1nat
        } else {
            0nat
        }),
{
    assert(sessions.push(session).drop_last() =~= sessions);
    assert(sessions.push(session).last() == session);
}

/// A window cut in two holds the sessions of both parts.
pub proof fn lemma_started_within_split(
    sessions: Seq<MeditationAttestation>,
    from: int,
    mid: int,
    until: int,
)
    requires
        from <= mid <= until,
    ensures
        started_within(sessions, from, until) == started_within(sessions, from, mid)
            + started_within(sessions, mid, until),
    decreases sessions.len(),
{
    if sessions.len() > 0 {
        lemma_started_within_split(sessions.drop_last(), from, mid, until);
    }
}

/// A window that every session began in counts them all.
pub proof fn lemma_started_within_all(
    sessions: Seq<MeditationAttestation>,
    from: int,
    until: int,
)
    requires
        forall|i: int|
            0 <= i < sessions.len() ==> (#[trigger] sessions[i]).began_within(from, until),
    ensures
        started_within(sessions, from, until) == sessions.len(),
    decreases sessions.len(),
{
    if sessions.len() > 0 {
        let rest = sessions.drop_last();
        assert forall|i: int| 0 <= i < rest.len() implies (#[trigger] rest[i]).began_within(
            from,
            until,
        ) by {
            assert(rest[i] == sessions[i]);
        }
        lemma_started_within_all(rest, from, until);
    }
}

/// A window that no session began in counts none.
pub proof fn lemma_started_within_none(
    sessions: Seq<MeditationAttestation>,
    from: int,
    until: int,
)
    requires
        forall|i: int|
            0 <= i < sessions.len() ==> !(#[trigger] sessions[i]).began_within(from, until),
    ensures
        started_within(sessions, from, until) == 0,
    decreases sessions.len(),
{
    if sessions.len() > 0 {
        let rest = sessions.drop_last();
        assert forall|i: int| 0 <= i < rest.len() implies !(#[trigger] rest[i]).began_within(
            from,
            until,
        ) by {
            assert(rest[i] == sessions[i]);
        }
        lemma_started_within_none(rest, from, until);
    }
}

/// Counts the sessions that began at or after `from` and before `until`.
pub fn count_started_within(
    sessions: &Vec<MeditationAttestation>,
    from: i128,
    until: i128,
) -> (count: usize)
    ensures
        count == started_within(sessions@, from as int, until as int),
{
    let mut count: usize = 0;
    let mut index: usize = 0;
    while index < sessions.len()
        invariant
            index <= sessions.len(),
            count <= index,
            count == started_within(sessions@.take(index as int), from as int, until as int),
        decreases sessions.len() - index,
    {
        let started_at: i128 = sessions[index].started_at as i128;
        proof {
            assert(sessions@.take(index + 1) =~= sessions@.take(index as int).push(
                sessions@[index as int],
            ));
            lemma_started_within_push(
                sessions@.take(index as int),
                sessions@[index as int],
                from as int,
                until as int,
            );
        }
        if from <= started_at && started_at < until {
            count = count + 1;
        }
        index = index + 1;
    }
    proof {
        assert(sessions@.take(sessions.len() as int) =~= sessions@);
    }
    count
}

} // verus!
