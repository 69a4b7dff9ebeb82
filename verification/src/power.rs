use vstd::prelude::*;

verus! {

/// An energy counter sample: the RAPL reading in µJ and the monotonic time
/// in µs; 0 stands for "no sample yet".
#[derive(Clone, Copy, PartialEq, Eq, Debug, Structural)]
pub struct RaplSample {
    pub energy_uj: u64,
    pub time_us: u64,
}

/// The inputs on which the delta can be taken: a counter that went down
/// with a known wrap point did not start above that wrap point.
pub open spec fn rapl_delta_defined(
    energy_uj: u64,
    max_range_uj: u64,
    prev: RaplSample,
    now_us: u64,
) -> bool {
    (prev.energy_uj != 0 && prev.time_us != 0 && now_us > prev.time_us && energy_uj
        < prev.energy_uj && max_range_uj > 0) ==> prev.energy_uj <= max_range_uj
}

/// Energy used (µJ) and time elapsed (µs) since the previous sample; `None`
/// on the first call (no baseline), when the clock did not advance, or when
/// the counter went down with no known wrap point. A counter that wrapped
/// counts up to `max_range_uj` and on from zero. µJ / µs = W.
pub open spec fn spec_rapl_delta(
    energy_uj: u64,
    max_range_uj: u64,
    prev: RaplSample,
    now_us: u64,
) -> Option<(u64, u64)> {
    if prev.energy_uj == 0 || prev.time_us == 0 || now_us <= prev.time_us {
        None
    } else if energy_uj >= prev.energy_uj {
        Some(((energy_uj - prev.energy_uj) as u64, (now_us - prev.time_us) as u64))
    } else if max_range_uj > 0 {
        Some(
            (
                (max_range_uj - prev.energy_uj + energy_uj) as u64,
                (now_us - prev.time_us) as u64,
            ),
        )
    } else {
        None
    }
}

pub fn rapl_delta(energy_uj: u64, max_range_uj: u64, prev: RaplSample, now_us: u64) -> (r: Option<
    (u64, u64),
>)
    requires
        rapl_delta_defined(energy_uj, max_range_uj, prev, now_us),
    ensures
        r == spec_rapl_delta(energy_uj, max_range_uj, prev, now_us),
{
    if prev.energy_uj == 0 || prev.time_us == 0 || now_us <= prev.time_us {
        return None;
    }
    let delta_e = if energy_uj >= prev.energy_uj {
        energy_uj - prev.energy_uj
    } else if max_range_uj > 0 {
        (max_range_uj - prev.energy_uj) + energy_uj
    } else {
        return None;
    };
    let dt = now_us - prev.time_us;
    Some((delta_e, dt))
}

/// A wrapped counter never reports more energy than one full turn.
pub proof fn lemma_wrapped_delta_below_range(
    energy_uj: u64,
    max_range_uj: u64,
    prev: RaplSample,
    now_us: u64,
)
    requires
        rapl_delta_defined(energy_uj, max_range_uj, prev, now_us),
        energy_uj < prev.energy_uj,
    ensures
        spec_rapl_delta(energy_uj, max_range_uj, prev, now_us) matches Some(d) ==> d.0
            < max_range_uj,
{
}

/// The energy used is the plain advance of the counter while it rises, and
/// the distance to the wrap point plus the new reading after a wrap; the
/// time is the plain advance of the clock. There is no result without an
/// earlier sample, when the clock did not move forward, or when a counter
/// that went down has no known wrap point.
pub proof fn lemma_rapl_delta_is_counter_advance(
    energy_uj: u64,
    max_range_uj: u64,
    prev: RaplSample,
    now_us: u64,
)
    ensures
        prev.energy_uj == 0 || prev.time_us == 0 || now_us <= prev.time_us ==> spec_rapl_delta(
            energy_uj,
            max_range_uj,
            prev,
            now_us,
        ) is None,
        prev.energy_uj != 0 && prev.time_us != 0 && now_us > prev.time_us && energy_uj
            >= prev.energy_uj ==> spec_rapl_delta(energy_uj, max_range_uj, prev, now_us) == Some(
            ((energy_uj - prev.energy_uj) as u64, (now_us - prev.time_us) as u64),
        ),
        prev.energy_uj != 0 && prev.time_us != 0 && now_us > prev.time_us && energy_uj
            < prev.energy_uj && 0 < max_range_uj && prev.energy_uj <= max_range_uj
            ==> spec_rapl_delta(energy_uj, max_range_uj, prev, now_us) == Some(
            ((max_range_uj - prev.energy_uj + energy_uj) as u64, (now_us - prev.time_us) as u64),
        ),
        energy_uj < prev.energy_uj && max_range_uj == 0 ==> spec_rapl_delta(
            energy_uj,
            max_range_uj,
            prev,
            now_us,
        ) is None,
{
}

} // verus!
