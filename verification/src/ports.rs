//! Choice of the port on which the embedded service listens.

use vstd::prelude::*;

verus! {

/// How many ports are probed, counting from the preferred one.
pub const PORT_RANGE: u16 = 100;

/// The end (exclusive) of the ports probed from `start`: `PORT_RANGE` ports,
/// or as many as exist from `start` on.
pub open spec fn probe_end(start: u16) -> int {
    if start + PORT_RANGE <= 65536 {
        start + PORT_RANGE
    } else {
        65536
    }
}

/// Whether every probe of a port in `from..to` found it taken.
pub open spec fn all_taken<F: Fn(u16) -> bool>(can_bind: F, from: int, to: int) -> bool {
    forall|p: u16| from <= p < to ==> call_ensures(can_bind, (p,), false)
}

/// Whether `port` is the right choice from `start`, going by what the
/// probes found: the first port that was free, all before it taken; or
/// `start` itself, every probed port taken.
pub open spec fn port_choice<F: Fn(u16) -> bool>(start: u16, can_bind: F, port: u16) -> bool {
    &&& start <= port < probe_end(start)
    &&& call_ensures(can_bind, (port,), true) && all_taken(can_bind, start as int, port as int)
        || port == start && all_taken(can_bind, start as int, probe_end(start))
}

/// The first port from `start` on that `can_bind` accepts, of the ports
/// `start .. probe_end(start)` probed in rising order; `start` itself where
/// it accepts none. `can_bind` is asked about no port behind the one chosen.
///
/// The probe is a snapshot: a port that was free when probed may be taken
/// by the time it is used.
pub fn find_available_port<F: Fn(u16) -> bool>(start: u16, can_bind: F) -> (port: u16)
    requires
        forall|p: u16| call_requires(can_bind, (p,)),
    ensures
        port_choice(start, can_bind, port),
{
    let count: u16 = if start <= 65535 - (PORT_RANGE - 1) {
        PORT_RANGE
    } else {
        65535 - start + 1
    };
    let mut i: u16 = 0;
    while i < count
        invariant
            i <= count,
            start + count == probe_end(start),
            forall|p: u16| call_requires(can_bind, (p,)),
            all_taken(can_bind, start as int, start + i),
        decreases count - i,
    {
        let port: u16 = start + i;
        if can_bind(port) {
            return port;
        }
        i += 1;
    }
    start
}

/// The first port in `from..end` that `free` holds of.
pub open spec fn first_free(from: int, end: int, free: spec_fn(u16) -> bool) -> Option<u16>
    decreases end - from,
{
    if from >= end || from < 0 || from > u16::MAX {
        None
    } else if free(from as u16) {
        Some(from as u16)
    } else {
        first_free(from + 1, end, free)
    }
}

/// The port to choose from `start` where `free` tells which ports are
/// free: the first free one among those probed, or `start`.
pub open spec fn expected_port(start: u16, free: spec_fn(u16) -> bool) -> u16 {
    match first_free(start as int, probe_end(start), free) {
        Some(port) => port,
        None => start,
    }
}

proof fn lemma_first_free(from: int, end: int, free: spec_fn(u16) -> bool, stop: int)
    requires
        0 <= from <= stop <= end <= 65536,
        forall|p: u16| from <= p < stop ==> !(#[trigger] free(p)),
        stop < end ==> free(stop as u16),
        stop < end || stop == end,
    ensures
        first_free(from, end, free) == if stop < end {
            Some(stop as u16)
        } else {
            None
        },
    decreases stop - from,
{
    if from < stop {
        assert(!free(from as u16));
        lemma_first_free(from + 1, end, free, stop);
    }
}

/// Where the probe of a port always tells the same, as `free` does, the
/// port chosen is the first free one of the ports probed, or the preferred
/// port where all of them are taken.
pub proof fn lemma_port_choice_determined<F: Fn(u16) -> bool>(
    start: u16,
    can_bind: F,
    port: u16,
    free: spec_fn(u16) -> bool,
)
    requires
        port_choice(start, can_bind, port),
        forall|p: u16, r: bool| #[trigger] call_ensures(can_bind, (p,), r) ==> r == free(p),
    ensures
        port == expected_port(start, free),
        start <= port < start + PORT_RANGE,
        port != start ==> free(port),
{
    if call_ensures(can_bind, (port,), true) && all_taken(can_bind, start as int, port as int) {
        assert forall|p: u16| start <= p < port implies !(#[trigger] free(p)) by {
            assert(call_ensures(can_bind, (p,), false));
        }
        lemma_first_free(start as int, probe_end(start), free, port as int);
    } else {
        assert forall|p: u16| start <= p < probe_end(start) implies !(#[trigger] free(p)) by {
            assert(call_ensures(can_bind, (p,), false));
        }
        lemma_first_free(start as int, probe_end(start), free, probe_end(start));
    }
}

} // verus!
