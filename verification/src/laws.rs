//! The library's general laws, stated over the same spec functions its
//! contracts use and proved once for all inputs.

use vstd::prelude::*;

use crate::memory::Memory;
use crate::pattern::{matches_at, PatToken};
use crate::table::{record_addr, record_id, table_map};
use crate::task::{
    apply_due, flag_after, mutation_due, remove_due, resolved_after, Observation,
};

verus! {

/// There is only one first match: whenever the pattern matches at `k` and
/// at no earlier offset, any offset the scanner's contract admits equals
/// `k`.
pub proof fn lemma_first_match_unique(hay: Seq<u8>, pat: Seq<PatToken>, k1: int, k2: int)
    requires
        crate::pattern::is_first_match(hay, pat, k1),
        crate::pattern::is_first_match(hay, pat, k2),
    ensures
        k1 == k2,
{
    if k1 < k2 {
        assert(!matches_at(hay, pat, k1));
    }
    if k2 < k1 {
        assert(!matches_at(hay, pat, k2));
    }
}

/// A candidate byte range that differs from a matched one only at the
/// pattern's wildcard positions still matches at the same offset.
pub proof fn lemma_wildcards_insensitive(
    hay1: Seq<u8>,
    hay2: Seq<u8>,
    pat: Seq<PatToken>,
    k: int,
)
    requires
        matches_at(hay1, pat, k),
        hay2.len() == hay1.len(),
        forall|p: int|
            #![trigger hay2[p]]
            0 <= p < hay1.len() && !(k <= p < k + pat.len() && pat[p - k] is Any) ==> hay2[p]
                == hay1[p],
    ensures
        matches_at(hay2, pat, k),
{
    assert forall|i: int| 0 <= i < pat.len() implies crate::pattern::token_matches(
        pat[i],
        hay2[k + i],
    ) by {
        if pat[i] is Any {
        } else {
            assert(hay2[k + i] == hay1[k + i]);
        }
    }
}

/// Decoding covers the records and nothing else: every record's identifier
/// is a key of the decoded map, and every key of the map is some record's
/// identifier.
pub proof fn lemma_table_map_covers(mem: Memory, desc: int, n: int)
    ensures
        forall|i: int|
            0 <= i < n ==> #[trigger] table_map(mem, desc, n).contains_key(
                record_id(mem, desc, i),
            ),
        forall|id: i32|
            #[trigger] table_map(mem, desc, n).contains_key(id) ==> exists|i: int|
                0 <= i < n && record_id(mem, desc, i) == id,
    decreases n,
{
    if n > 0 {
        lemma_table_map_covers(mem, desc, n - 1);
        assert forall|i: int| 0 <= i < n implies #[trigger] table_map(mem, desc, n).contains_key(
            record_id(mem, desc, i),
        ) by {
            if i < n - 1 {
                assert(table_map(mem, desc, n - 1).contains_key(record_id(mem, desc, i)));
            }
        }
        assert forall|id: i32| #[trigger] table_map(mem, desc, n).contains_key(id) implies exists|
            i: int,
        | 0 <= i < n && record_id(mem, desc, i) == id by {
            if id == record_id(mem, desc, n - 1) {
                assert(0 <= n - 1 < n && record_id(mem, desc, n - 1) == id);
            } else {
                assert(table_map(mem, desc, n - 1).contains_key(id));
                let i = choose|i: int| 0 <= i < n - 1 && record_id(mem, desc, i) == id;
                assert(0 <= i < n && record_id(mem, desc, i) == id);
            }
        }
    }
}

/// The decoded map holds at most one entry per record, so at most `n`
/// entries in all.
pub proof fn lemma_table_map_len(mem: Memory, desc: int, n: int)
    requires
        0 <= n,
    ensures
        table_map(mem, desc, n).dom().finite(),
        table_map(mem, desc, n).dom().len() <= n,
    decreases n,
{
    if n == 0 {
        assert(table_map(mem, desc, 0).dom() =~= Set::<i32>::empty());
    } else {
        lemma_table_map_len(mem, desc, n - 1);
        assert(table_map(mem, desc, n).dom() =~= table_map(mem, desc, n - 1).dom().insert(
            record_id(mem, desc, n - 1),
        ));
    }
}

/// Round trip for a table of pairwise-distinct identifiers: the map holds
/// exactly `n` entries, and maps each record's identifier to that record's
/// absolute address.
pub proof fn lemma_table_map_round_trip(mem: Memory, desc: int, n: int)
    requires
        0 <= n,
        forall|i: int, j: int|
            0 <= i < j < n ==> record_id(mem, desc, i) != record_id(mem, desc, j),
    ensures
        table_map(mem, desc, n).dom().finite(),
        table_map(mem, desc, n).dom().len() == n,
        forall|i: int|
            0 <= i < n ==> table_map(mem, desc, n).contains_key(record_id(mem, desc, i))
                && table_map(mem, desc, n)[#[trigger] record_id(mem, desc, i)] == record_addr(
                mem,
                desc,
                i,
            ),
    decreases n,
{
    if n == 0 {
        assert(table_map(mem, desc, 0).dom() =~= Set::<i32>::empty());
    } else {
        lemma_table_map_round_trip(mem, desc, n - 1);
        lemma_table_map_covers(mem, desc, n - 1);
        assert(!table_map(mem, desc, n - 1).contains_key(record_id(mem, desc, n - 1)));
        assert(table_map(mem, desc, n).dom() =~= table_map(mem, desc, n - 1).dom().insert(
            record_id(mem, desc, n - 1),
        ));
    }
}

/// The task's resolved state after a run of frames.
pub open spec fn resolved_after_run(resolved: bool, frames: Seq<Observation>) -> bool
    decreases frames.len(),
{
    if frames.len() == 0 {
        resolved
    } else {
        resolved_after_run(
            resolved_after(resolved, frames[0].player_present, frames[0].alive()),
            frames.drop_first(),
        )
    }
}

/// How many frames of a run perform the one-time mutation.
pub open spec fn mutation_count(resolved: bool, frames: Seq<Observation>) -> int
    decreases frames.len(),
{
    if frames.len() == 0 {
        0
    } else {
        (if mutation_due(resolved, frames[0].player_present, frames[0].alive()) {
            1int
        } else {
            0int
        }) + mutation_count(
            resolved_after(resolved, frames[0].player_present, frames[0].alive()),
            frames.drop_first(),
        )
    }
}

/// Once resolved, no run of frames ever mutates again.
pub proof fn lemma_no_mutation_when_resolved(frames: Seq<Observation>)
    ensures
        mutation_count(true, frames) == 0,
        resolved_after_run(true, frames),
    decreases frames.len(),
{
    if frames.len() > 0 {
        lemma_no_mutation_when_resolved(frames.drop_first());
    }
}

/// Idempotency: a run of frames that all observe the entity present and
/// alive performs the mutation exactly once (on its first frame).
pub proof fn lemma_mutation_exactly_once(frames: Seq<Observation>)
    requires
        forall|i: int|
            0 <= i < frames.len() ==> (#[trigger] frames[i]).player_present && frames[i].alive(),
    ensures
        mutation_count(false, frames) == if frames.len() > 0 {
            1int
        } else {
            0int
        },
{
    if frames.len() > 0 {
        assert(frames[0].player_present && frames[0].alive());
        lemma_no_mutation_when_resolved(frames.drop_first());
    }
}

/// A run of frames that never observes the entity alive performs no
/// resolution attempt at all, and leaves the task unresolved.
pub proof fn lemma_no_mutation_while_dead(frames: Seq<Observation>)
    requires
        forall|i: int| 0 <= i < frames.len() ==> !(#[trigger] frames[i]).alive(),
    ensures
        mutation_count(false, frames) == 0,
        !resolved_after_run(false, frames),
    decreases frames.len(),
{
    if frames.len() > 0 {
        assert(!frames[0].alive());
        assert(forall|i: int|
            0 <= i < frames.drop_first().len() ==> !(#[trigger] frames.drop_first()[i]).alive());
        lemma_no_mutation_while_dead(frames.drop_first());
    }
}

/// Liveness transition: when the entity's health goes from zero to positive
/// across two frames, the mutation does not fire on the first frame and
/// fires on the second.
pub proof fn lemma_liveness_transition(first: Observation, second: Observation)
    requires
        first.player_present,
        second.player_present,
        first.hp == 0,
        second.hp > 0,
    ensures
        !mutation_due(false, first.player_present, first.alive()),
        mutation_due(
            resolved_after(false, first.player_present, first.alive()),
            second.player_present,
            second.alive(),
        ),
{
}

/// The net false-to-true transition of the flag in one frame.
pub open spec fn sets_flag(flag: bool, obs: Observation) -> bool {
    !flag && flag_after(flag, obs.player_present, obs.alive(), obs.has_effect)
}

/// The flag's value after a run of frames.
pub open spec fn flag_after_run(flag: bool, frames: Seq<Observation>) -> bool
    decreases frames.len(),
{
    if frames.len() == 0 {
        flag
    } else {
        flag_after_run(
            flag_after(flag, frames[0].player_present, frames[0].alive(), frames[0].has_effect),
            frames.drop_first(),
        )
    }
}

/// How many frames of a run leave the flag set where it was unset.
pub open spec fn flag_set_count(flag: bool, frames: Seq<Observation>) -> int
    decreases frames.len(),
{
    if frames.len() == 0 {
        0
    } else {
        (if sets_flag(flag, frames[0]) {
            1int
        } else {
            0int
        }) + flag_set_count(
            flag_after(flag, frames[0].player_present, frames[0].alive(), frames[0].has_effect),
            frames.drop_first(),
        )
    }
}

/// Flag synchronization, one frame at a time: an alive entity carrying the
/// effect sets an unset flag; a set flag on an alive entity lacking the
/// effect asks for the effect to be re-applied; a dead entity still
/// carrying the effect asks for its removal and clears the flag.
pub proof fn lemma_flag_sync(flag: bool, obs: Observation)
    requires
        obs.player_present,
    ensures
        obs.alive() && obs.has_effect && !flag ==> flag_after(
            flag,
            obs.player_present,
            obs.alive(),
            obs.has_effect,
        ),
        flag && obs.alive() && !obs.has_effect ==> apply_due(
            flag,
            obs.player_present,
            obs.alive(),
            obs.has_effect,
        ),
        !obs.alive() && obs.has_effect ==> remove_due(obs.player_present, obs.alive(), obs.has_effect)
            && !flag_after(flag, obs.player_present, obs.alive(), obs.has_effect),
{
}

/// A run of frames that all observe the entity present, alive and carrying
/// the effect sets the flag exactly once when it starts unset, and leaves
/// it set.
pub proof fn lemma_flag_set_exactly_once(frames: Seq<Observation>)
    requires
        forall|i: int|
            0 <= i < frames.len() ==> (#[trigger] frames[i]).player_present && frames[i].alive()
                && frames[i].has_effect,
    ensures
        flag_set_count(false, frames) == if frames.len() > 0 {
            1int
        } else {
            0int
        },
        frames.len() > 0 ==> flag_after_run(false, frames),
{
    if frames.len() > 0 {
        assert(frames[0].player_present && frames[0].alive() && frames[0].has_effect);
        lemma_flag_stays_set(frames.drop_first());
    }
}

/// Once the flag is set, frames that keep the entity present, alive and
/// carrying the effect never set it again nor clear it.
pub proof fn lemma_flag_stays_set(frames: Seq<Observation>)
    requires
        forall|i: int|
            0 <= i < frames.len() ==> (#[trigger] frames[i]).player_present && frames[i].alive()
                && frames[i].has_effect,
    ensures
        flag_set_count(true, frames) == 0,
        flag_after_run(true, frames),
    decreases frames.len(),
{
    if frames.len() > 0 {
        assert(frames[0].player_present && frames[0].alive() && frames[0].has_effect);
        assert(forall|i: int|
            0 <= i < frames.drop_first().len() ==> (#[trigger] frames.drop_first()[i]).player_present
                && frames.drop_first()[i].alive() && frames.drop_first()[i].has_effect);
        lemma_flag_stays_set(frames.drop_first());
    }
}

} // verus!
