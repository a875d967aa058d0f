//! Choice of a fresh instance id from the bounded pool.

use vstd::prelude::*;
use crate::protocol::InstanceId;
use crate::scan::{parse_u64, parse_unsigned, trim_span, trimmed};
use crate::text::chars_of;

verus! {

/// The largest instance id; ids are drawn from `1..=MAX_INSTANCE_ID`.
pub const MAX_INSTANCE_ID: u64 = 99;

/// The id after `id` in the cyclic order of the pool.
pub open spec fn successor(id: InstanceId) -> InstanceId {
    (id % MAX_INSTANCE_ID + 1) as u64
}

/// Where the search starts for the remembered counter text: at the number
/// it holds when that is a pool id, at one otherwise.
pub open spec fn search_start(hint: Seq<char>) -> InstanceId {
    match parse_unsigned(trimmed(hint), u64::MAX as nat) {
        Some(n) => if 1 <= n <= MAX_INSTANCE_ID {
            n as u64
        } else {
            1
        },
        None => 1,
    }
}

/// The `k`-th id tried by a search that starts at `start`.
pub open spec fn candidate_at(start: InstanceId, k: nat) -> InstanceId {
    ((start - 1 + k) % (MAX_INSTANCE_ID as int) + 1) as u64
}

/// The outcome of an allocation: the id drawn and the counter to remember.
#[derive(Clone, Copy, Debug, PartialEq, Eq, Structural)]
pub struct Allocation {
    pub id: InstanceId,
    pub next: InstanceId,
}

/// What an allocation may return for a counter text and a list of occupied
/// ids: the first unoccupied id in cyclic order from the search start,
/// together with its successor; or nothing, when the whole pool is occupied.
pub open spec fn drawn_from(
    hint: Seq<char>,
    occupied: Seq<InstanceId>,
    out: Option<Allocation>,
) -> bool {
    match out {
        Some(a) => {
            &&& 1 <= a.id <= MAX_INSTANCE_ID
            &&& !occupied.contains(a.id)
            &&& a.next == successor(a.id)
            &&& exists|k: nat|
                k < MAX_INSTANCE_ID && a.id == #[trigger] candidate_at(search_start(hint), k)
                    && forall|j: nat|
                    j < k ==> occupied.contains(#[trigger] candidate_at(search_start(hint), j))
        },
        None => forall|id: InstanceId|
            1 <= id <= MAX_INSTANCE_ID ==> #[trigger] occupied.contains(id),
    }
}

fn is_occupied(occupied: &Vec<InstanceId>, id: InstanceId) -> (yes: bool)
    ensures
        yes == occupied@.contains(id),
{
    let mut i: usize = 0;
    while i < occupied.len()
        invariant
            i <= occupied.len(),
            forall|j: int| 0 <= j < i ==> occupied@[j] != id,
        decreases occupied.len() - i,
    {
        if occupied[i] == id {
            return true;
        }
        i += 1;
    }
    false
}

/// The failure of an allocation from a pool that is wholly occupied.
pub open spec fn pool_exhausted() -> Seq<char> {
    "no available instance slots (1-99)"@
}

/// Draws an instance id.
///
/// `hint` is the remembered counter text and `occupied` lists the ids whose
/// metadata file or instance directory exists. The ids are tried in cyclic
/// order from the remembered counter; the first unoccupied one is drawn and
/// its successor becomes the counter. The allocation fails exactly when
/// every id of the pool is occupied, and then says so.
pub fn allocate_id(hint: &str, occupied: &Vec<InstanceId>) -> (out: Result<Allocation, String>)
    ensures
        match out {
            Ok(a) => drawn_from(hint@, occupied@, Some(a)),
            Err(e) => drawn_from(hint@, occupied@, None) && e@ == pool_exhausted(),
        },
{
    match first_free(hint, occupied) {
        Some(a) => Ok(a),
        None => Err(String::from_str("no available instance slots (1-99)")),
    }
}

#[verifier::rlimit(60)]
fn first_free(hint: &str, occupied: &Vec<InstanceId>) -> (out: Option<Allocation>)
    ensures
        drawn_from(hint@, occupied@, out),
{
    let text = chars_of(hint);
    let span = trim_span(&text);
    let mut word: Vec<char> = Vec::new();
    let mut i: usize = span.0;
    while i < span.1
        invariant
            span.0 <= i <= span.1 <= text.len(),
            word@ == text@.subrange(span.0 as int, i as int),
        decreases span.1 - i,
    {
        word.push(text[i]);
        i += 1;
        assert(text@.subrange(span.0 as int, i as int) == text@.subrange(
            span.0 as int,
            i - 1,
        ).push(text@[i - 1]));
    }
    let start: u64 = match parse_u64(&word) {
        Some(n) => if 1 <= n && n <= MAX_INSTANCE_ID {
            n
        } else {
            1
        },
        None => 1,
    };
    assert(start == search_start(hint@));
    let mut candidate: u64 = start;
    let mut tried: u64 = 0;
    while tried < MAX_INSTANCE_ID
        invariant
            1 <= start <= MAX_INSTANCE_ID,
            tried <= MAX_INSTANCE_ID,
            start == search_start(hint@),
            candidate == candidate_at(start, tried as nat),
            1 <= candidate <= MAX_INSTANCE_ID,
            forall|j: nat| j < tried ==> occupied@.contains(#[trigger] candidate_at(start, j)),
        decreases MAX_INSTANCE_ID - tried,
    {
        if !is_occupied(occupied, candidate) {
            let next = candidate % MAX_INSTANCE_ID + 1;
            assert(tried < MAX_INSTANCE_ID && candidate == candidate_at(start, tried as nat));
            return Some(Allocation { id: candidate, next });
        }
        candidate = candidate % MAX_INSTANCE_ID + 1;
        tried += 1;
    }
    proof {
        assert forall|id: InstanceId| 1 <= id <= MAX_INSTANCE_ID implies #[trigger] occupied@.contains(
            id,
        ) by {
            let k: nat = ((id as int - start as int + 99) % 99) as nat;
            assert(candidate_at(start, k) == id);
        }
    }
    None
}

/// An id whose files are gone can be drawn again: while any pool id is
/// unoccupied an id is drawn, and when exactly one is unoccupied it is that one.
pub proof fn lemma_freed_id_is_drawn_again(
    hint: Seq<char>,
    occupied: Seq<InstanceId>,
    freed: InstanceId,
    drawn: Option<Allocation>,
)
    requires
        1 <= freed <= MAX_INSTANCE_ID,
        !occupied.contains(freed),
        drawn_from(hint, occupied, drawn),
    ensures
        drawn is Some,
        (forall|id: InstanceId|
            1 <= id <= MAX_INSTANCE_ID && id != freed ==> #[trigger] occupied.contains(id))
            ==> drawn->0.id == freed,
{
}

} // verus!
