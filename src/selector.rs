//! Choosing one peripheral among those a scan observed: the first whose name
//! contains a wanted substring, or the one with the strongest signal.

use vstd::prelude::*;
use vstd::utf8::encode_utf8;
use crate::config::SelectionMode;

verus! {

/// What a scan reported about one peripheral: its advertised name and its
/// signal strength in dBm, each when known.
#[derive(Clone, Debug)]
pub struct Observation {
    pub name: Option<String>,
    pub rssi: Option<i16>,
}

/// Why no device came out of a selection.
#[derive(Clone, Copy, Debug, PartialEq, Eq, Structural)]
pub enum SelectError {
    /// The host has no Bluetooth adapter.
    NoAdapter,
    /// No peripheral qualifies under the configured mode.
    NoDeviceFound,
}

/// The two running candidates of a scan, as indices into the observations.
#[derive(Clone, Copy, Debug, PartialEq, Eq, Structural)]
pub struct Candidates {
    pub by_name: Option<usize>,
    pub strongest: Option<usize>,
}

/// `needle` occurs in `hay` as a contiguous run.
pub open spec fn occurs_in(hay: Seq<u8>, needle: Seq<u8>) -> bool {
    exists|i: int|
        0 <= i && i + needle.len() <= hay.len() && #[trigger] hay.subrange(i, i + needle.len())
            == needle
}

/// The name contains at least one of the targets.
pub open spec fn name_hits(name: Seq<char>, targets: Seq<String>) -> bool {
    exists|k: int| 0 <= k < targets.len() && occurs_in(encode_utf8(name), encode_utf8(#[trigger] targets[k]@))
}

/// The peripheral's properties were read and its name contains a target.
pub open spec fn is_name_hit(o: Option<Observation>, targets: Seq<String>) -> bool {
    match o {
        Some(obs) => match obs.name {
            Some(n) => name_hits(n@, targets),
            None => false,
        },
        None => false,
    }
}

/// The signal strength of a peripheral whose properties were read.
pub open spec fn signal(o: Option<Observation>) -> Option<i16> {
    match o {
        Some(obs) => obs.rssi,
        None => None,
    }
}

/// `r` is the first name hit among `obs`, or `None` when there is none.
pub open spec fn is_first_name_hit(obs: Seq<Option<Observation>>, targets: Seq<String>, r: Option<usize>) -> bool {
    match r {
        Some(i) => i < obs.len() && is_name_hit(obs[i as int], targets) && forall|j: int|
            0 <= j < i ==> !is_name_hit(#[trigger] obs[j], targets),
        None => forall|j: int| 0 <= j < obs.len() ==> !is_name_hit(#[trigger] obs[j], targets),
    }
}

/// `r` is the first of the peripherals with the strongest signal, or `None`
/// when no signal strength is known.
pub open spec fn is_strongest(obs: Seq<Option<Observation>>, r: Option<usize>) -> bool {
    match r {
        Some(i) => i < obs.len() && signal(obs[i as int]) is Some && (forall|j: int|
            0 <= j < obs.len() && #[trigger] signal(obs[j]) is Some ==> signal(obs[j])->0
                <= signal(obs[i as int])->0) && (forall|j: int|
            0 <= j < i && #[trigger] signal(obs[j]) is Some ==> signal(obs[j])->0 < signal(
                obs[i as int],
            )->0),
        None => forall|j: int| 0 <= j < obs.len() ==> #[trigger] signal(obs[j]) is None,
    }
}

/// Whether `needle` occurs in `hay` starting at byte `at`.
fn occurs_at(hay: &[u8], needle: &[u8], at: usize) -> (r: bool)
    requires
        at + needle@.len() <= hay@.len(),
    ensures
        r == (hay@.subrange(at as int, at + needle@.len()) == needle@),
{
    let hay_len = hay.len();
    let mut k: usize = 0;
    while k < needle.len()
        invariant
            k <= needle@.len(),
            at + needle@.len() <= hay@.len(),
            hay@.len() == hay_len,
            forall|m: int| 0 <= m < k ==> hay@[at + m] == needle@[m],
        decreases needle@.len() - k,
    {
        if hay[at + k] != needle[k] {
            assert(hay@.subrange(at as int, at + needle@.len())[k as int] != needle@[k as int]);
            return false;
        }
        k += 1;
    }
    assert(hay@.subrange(at as int, at + needle@.len()) =~= needle@);
    true
}

/// Whether `needle` occurs anywhere in `hay`.
pub fn contains_bytes(hay: &[u8], needle: &[u8]) -> (r: bool)
    ensures
        r == occurs_in(hay@, needle@),
{
    if needle.len() > hay.len() {
        return false;
    }
    let last = hay.len() - needle.len();
    let mut at: usize = 0;
    loop
        invariant
            at <= last,
            last + needle@.len() == hay@.len(),
            forall|i: int| 0 <= i < at ==> #[trigger] hay@.subrange(i, i + needle@.len()) != needle@,
        decreases last - at,
    {
        if occurs_at(hay, needle, at) {
            return true;
        }
        if at == last {
            return false;
        }
        at += 1;
    }
}

/// Whether an advertised name contains any of the target substrings
/// (byte-wise, so case-sensitive).
pub fn name_matches(name: &String, targets: &Vec<String>) -> (r: bool)
    ensures
        r == name_hits(name@, targets@),
{
    let hay = name.as_str().as_bytes();
    let mut k: usize = 0;
    while k < targets.len()
        invariant
            k <= targets@.len(),
            hay@ == encode_utf8(name@),
            forall|m: int| 0 <= m < k ==> !occurs_in(encode_utf8(name@), encode_utf8(#[trigger] targets@[m]@)),
        decreases targets@.len() - k,
    {
        if contains_bytes(hay, targets[k].as_str().as_bytes()) {
            return true;
        }
        k += 1;
    }
    false
}

/// One pass over the observations keeping both running candidates: the first
/// name hit, never replaced, and the strongest signal, replaced only by a
/// strictly stronger one. Peripherals whose properties were unavailable
/// (`None`) are skipped.
pub fn scan_candidates(observed: &Vec<Option<Observation>>, targets: &Vec<String>) -> (r: Candidates)
    ensures
        is_first_name_hit(observed@, targets@, r.by_name),
        is_strongest(observed@, r.strongest),
{
    let mut by_name: Option<usize> = None;
    let mut strongest: Option<usize> = None;
    let mut best: i16 = 0;
    let mut i: usize = 0;
    while i < observed.len()
        invariant
            i <= observed@.len(),
            is_first_name_hit(observed@.subrange(0, i as int), targets@, by_name),
            is_strongest(observed@.subrange(0, i as int), strongest),
            strongest matches Some(s) ==> signal(observed@[s as int]) == Some(best),
        decreases observed@.len() - i,
    {
        let ghost before = observed@.subrange(0, i as int);
        let ghost after = observed@.subrange(0, i + 1);
        assert(forall|j: int| 0 <= j < i ==> after[j] == before[j]);
        assert(after[i as int] == observed@[i as int]);
        match &observed[i] {
            None => {},
            Some(obs) => {
                if by_name.is_none() {
                    match &obs.name {
                        Some(n) => {
                            if name_matches(n, targets) {
                                by_name = Some(i);
                            }
                        },
                        None => {},
                    }
                }
                match obs.rssi {
                    Some(rssi) => {
                        if strongest.is_none() || rssi > best {
                            strongest = Some(i);
                            best = rssi;
                        }
                    },
                    None => {},
                }
            },
        }
        i += 1;
    }
    assert(observed@.subrange(0, observed@.len() as int) =~= observed@);
    Candidates { by_name, strongest }
}

/// The candidate the configured mode asks for.
pub open spec fn chosen(c: Candidates, mode: SelectionMode) -> Option<usize> {
    match mode {
        SelectionMode::ByName => c.by_name,
        SelectionMode::StrongestSignal => c.strongest,
    }
}

/// Returns the candidate of the configured mode; when that one is absent the
/// selection fails even if the other candidate exists.
pub fn pick(c: &Candidates, mode: SelectionMode) -> (r: Result<usize, SelectError>)
    ensures
        match chosen(*c, mode) {
            Some(i) => r == Ok::<usize, SelectError>(i),
            None => r == Err::<usize, SelectError>(SelectError::NoDeviceFound),
        },
{
    let choice = match mode {
        SelectionMode::ByName => c.by_name,
        SelectionMode::StrongestSignal => c.strongest,
    };
    match choice {
        Some(i) => Ok(i),
        None => Err(SelectError::NoDeviceFound),
    }
}

/// `r` is what the selector owes for a scan over `adapters` adapters that
/// observed `obs`.
pub open spec fn is_selection(
    adapters: nat,
    obs: Seq<Option<Observation>>,
    targets: Seq<String>,
    mode: SelectionMode,
    r: Result<usize, SelectError>,
) -> bool {
    if adapters == 0 {
        r == Err::<usize, SelectError>(SelectError::NoAdapter)
    } else {
        match mode {
            SelectionMode::ByName => match r {
                Ok(i) => is_first_name_hit(obs, targets, Some(i)),
                Err(e) => e == SelectError::NoDeviceFound && is_first_name_hit(obs, targets, None),
            },
            SelectionMode::StrongestSignal => match r {
                Ok(i) => is_strongest(obs, Some(i)),
                Err(e) => e == SelectError::NoDeviceFound && is_strongest(obs, None),
            },
        }
    }
}

/// Selects one device from a scan: `NoAdapter` without an adapter, otherwise
/// the index of the candidate of the configured mode, or `NoDeviceFound`.
pub fn select_device(
    adapter_count: usize,
    observed: &Vec<Option<Observation>>,
    targets: &Vec<String>,
    mode: SelectionMode,
) -> (r: Result<usize, SelectError>)
    ensures
        is_selection(adapter_count as nat, observed@, targets@, mode, r),
{
    if adapter_count == 0 {
        return Err(SelectError::NoAdapter);
    }
    let c = scan_candidates(observed, targets);
    pick(&c, mode)
}

/// When exactly one peripheral's name contains a target, selection by name
/// returns it, whatever the signal strengths.
pub proof fn lemma_unique_name_selected(
    adapters: nat,
    obs: Seq<Option<Observation>>,
    targets: Seq<String>,
    k: int,
    r: Result<usize, SelectError>,
)
    requires
        adapters > 0,
        0 <= k < obs.len(),
        is_name_hit(obs[k], targets),
        forall|j: int| 0 <= j < obs.len() && j != k ==> !is_name_hit(#[trigger] obs[j], targets),
        is_selection(adapters, obs, targets, SelectionMode::ByName, r),
    ensures
        r == Ok::<usize, SelectError>(k as usize),
{
    match r {
        Ok(i) => {},
        Err(_) => {
            assert(!is_name_hit(obs[k], targets));
        },
    }
}

/// Selection by signal returns the peripheral with the maximum strength; of
/// several with that strength, the one seen first.
pub proof fn lemma_strongest_selected(
    adapters: nat,
    obs: Seq<Option<Observation>>,
    targets: Seq<String>,
    k: int,
    r: Result<usize, SelectError>,
)
    requires
        adapters > 0,
        0 <= k < obs.len(),
        signal(obs[k]) is Some,
        forall|j: int|
            0 <= j < obs.len() && #[trigger] signal(obs[j]) is Some ==> signal(obs[j])->0 <= signal(
                obs[k],
            )->0,
        forall|j: int|
            0 <= j < k && #[trigger] signal(obs[j]) is Some ==> signal(obs[j])->0 < signal(
                obs[k],
            )->0,
        is_selection(adapters, obs, targets, SelectionMode::StrongestSignal, r),
    ensures
        r == Ok::<usize, SelectError>(k as usize),
{
    match r {
        Ok(i) => {
            if (i as int) < k {
                assert(signal(obs[i as int])->0 < signal(obs[k])->0);
                assert(signal(obs[k])->0 <= signal(obs[i as int])->0);
            } else if (i as int) > k {
                assert(signal(obs[k])->0 < signal(obs[i as int])->0);
            }
        },
        Err(_) => {
            assert(signal(obs[k]) is None);
        },
    }
}

} // verus!
