//! The limit on the size of request bodies.

use vstd::prelude::*;

verus! {

/// The most bytes that the body of a request may have.
pub const MAX_BODY_BYTES: u64 = 1_048_576;

/// How much of a body has come.
#[derive(Debug, Clone, Copy)]
pub struct BodyMeter {
    received: u64,
}

impl View for BodyMeter {
    type V = nat;

    closed spec fn view(&self) -> nat {
        self.received as nat
    }
}

/// How much of a body has come after another chunk; none where that is more than it may have.
pub open spec fn meter_step(received: nat, chunk: u64) -> Option<nat> {
    if received + chunk <= MAX_BODY_BYTES {
        Some(received + chunk as nat)
    } else {
        None
    }
}

impl BodyMeter {
    #[verifier::type_invariant]
    spec fn within_limit(&self) -> bool {
        self.received <= MAX_BODY_BYTES
    }

    /// A body of which nothing has come.
    pub fn start() -> (r: Self)
        ensures
            r@ == 0,
    {
        BodyMeter { received: 0 }
    }

    /// Takes a chunk of so many bytes; none where the body is then too large.
    pub fn take(self, chunk: u64) -> (r: Option<BodyMeter>)
        ensures
            match r {
                Some(meter) => meter_step(self@, chunk) == Some(meter@),
                None => meter_step(self@, chunk) is None,
            },
    {
        proof {
            use_type_invariant(&self);
        }
        if chunk <= MAX_BODY_BYTES - self.received {
            Some(BodyMeter { received: self.received + chunk })
        } else {
            None
        }
    }
}

/// How much of a body has come after chunks; none where that was more than it may have.
pub open spec fn meter_run(received: nat, chunks: Seq<u64>) -> Option<nat>
    decreases chunks.len(),
{
    if chunks.len() == 0 {
        Some(received)
    } else {
        match meter_step(received, chunks[0]) {
            Some(next) => meter_run(next, chunks.drop_first()),
            None => None,
        }
    }
}

/// How many bytes chunks have together.
pub open spec fn total_bytes(chunks: Seq<u64>) -> nat
    decreases chunks.len(),
{
    if chunks.len() == 0 {
        0
    } else {
        chunks[0] as nat + total_bytes(chunks.drop_first())
    }
}

proof fn meter_run_from(received: nat, chunks: Seq<u64>)
    requires
        received <= MAX_BODY_BYTES,
    ensures
        meter_run(received, chunks) == if received + total_bytes(chunks) <= MAX_BODY_BYTES {
            Some(received + total_bytes(chunks))
        } else {
            None
        },
    decreases chunks.len(),
{
    if chunks.len() > 0 && received + chunks[0] <= MAX_BODY_BYTES {
        meter_run_from(received + chunks[0] as nat, chunks.drop_first());
    }
}

/// However a body is cut into chunks, it is taken exactly where all of it is within the limit.
pub proof fn bodies_are_taken_within_the_limit(chunks: Seq<u64>)
    ensures
        meter_run(0, chunks) is Some <==> total_bytes(chunks) <= MAX_BODY_BYTES,
{
    meter_run_from(0, chunks);
}

/// A chunk is taken where the body then has at most 1048576 bytes, and counts in full.
pub proof fn chunks_count_in_full(received: nat, chunk: u64)
    ensures
        meter_step(received, chunk) is Some <==> received + chunk <= 1048576,
        meter_step(received, chunk) matches Some(n) ==> n == received + chunk,
{
}

/// What has come of a body is the sum of its chunks.
pub proof fn meters_hold_the_sum(chunks: Seq<u64>)
    ensures
        meter_run(0, chunks) matches Some(n) ==> n == total_bytes(chunks) && n <= 1048576,
        meter_run(0, chunks) is None ==> total_bytes(chunks) > 1048576,
{
    meter_run_from(0, chunks);
}

} // verus!
