use vstd::prelude::*;

use crate::errors::AgentError;

verus! {

/// A read-only view over a caller-identified stretch of memory: the
/// declared mapped address range together with its current contents.
/// Scan windows are validated against it instead of being dereferenced
/// blindly.
pub struct MappedMemory {
    /// First mapped address.
    pub base: u32,
    /// The bytes at `base..base + bytes.len()`.
    pub bytes: Vec<u8>,
}

/// A candidate window for scanning: an address and a length in bytes.
/// A read-only view with no ownership implications.
#[derive(Clone, Copy, Debug, PartialEq, Eq, Structural)]
pub struct ScanWindow {
    pub address: u32,
    pub length: usize,
}

/// The Sentinel's classification of one window. Produced once per scan,
/// never mutated.
#[derive(Clone, Copy, Debug, PartialEq, Eq, Structural)]
pub struct AnomalyVerdict {
    pub is_anomalous: bool,
    pub unique_byte_count: usize,
    pub window_length: usize,
}

impl MappedMemory {
    /// Whether the window lies entirely within the mapped range.
    pub open spec fn window_in_range(&self, window: ScanWindow) -> bool {
        &&& self.base <= window.address
        &&& window.address - self.base + window.length <= self.bytes@.len()
    }

    /// The bytes the window denotes, defined when the window is in range.
    pub open spec fn window_bytes(&self, window: ScanWindow) -> Seq<u8> {
        self.bytes@.subrange(
            window.address - self.base,
            window.address - self.base + window.length,
        )
    }

    /// Runtime validation of a window, reflecting `window_in_range`.
    pub fn contains_window(&self, window: &ScanWindow) -> (r: bool)
        ensures
            r == self.window_in_range(*window),
    {
        if window.address < self.base {
            return false;
        }
        let offset = (window.address - self.base) as usize;
        offset <= self.bytes.len() && window.length <= self.bytes.len() - offset
    }
}

/// The number of distinct byte values occurring in a window.
pub open spec fn distinct_count(s: Seq<u8>) -> nat {
    s.to_set().len()
}

/// The default anomaly heuristic: a window is anomalous when strictly
/// more than half of its length is made up of distinct byte values. The
/// midpoint itself is not anomalous, and the empty window never is.
pub open spec fn window_is_anomalous(s: Seq<u8>) -> bool {
    distinct_count(s) > s.len() / 2
}

/// A pluggable scoring function: maps the histogram summary (distinct
/// byte values seen, window length) to a verdict, so a stronger entropy
/// estimator can replace the default unique-byte heuristic without
/// touching the rest of the pipeline.
pub trait ScoringPolicy: Sized {
    /// What the policy classifies as anomalous.
    spec fn classifies(&self, unique_values: nat, window_length: nat) -> bool;

    /// Executable classification, agreeing exactly with `classifies`.
    fn classify(&self, unique_values: usize, window_length: usize) -> (r: bool)
        requires
            unique_values <= window_length,
        ensures
            r == self.classifies(unique_values as nat, window_length as nat),
    ;
}

/// The default scoring policy: anomalous when the distinct-value count
/// strictly exceeds half the window length (integer division).
pub struct UniqueMajorityScore;

impl ScoringPolicy for UniqueMajorityScore {
    open spec fn classifies(&self, unique_values: nat, window_length: nat) -> bool {
        unique_values > window_length / 2
    }

    fn classify(&self, unique_values: usize, window_length: usize) -> (r: bool) {
        unique_values > window_length / 2
    }
}

/// Counts the distinct byte values in `bytes[start..start + length]` in a
/// single pass, maintaining a histogram over the full byte-value domain
/// and incrementing the running counter the first time each value is
/// observed: O(length) time, O(1) additional space.
fn count_unique_bytes(bytes: &Vec<u8>, start: usize, length: usize) -> (unique: usize)
    requires
        start + length <= bytes@.len(),
    ensures
        unique == distinct_count(bytes@.subrange(start as int, start + length)),
        unique <= length,
{
    let total = bytes.len();
    let window = Ghost(bytes@.subrange(start as int, start + length));
    let mut histogram: Vec<usize> = Vec::new();
    while histogram.len() < 256
        invariant
            histogram@.len() <= 256,
            forall|v: int| 0 <= v < histogram@.len() ==> histogram@[v] == 0,
        decreases 256 - histogram.len(),
    {
        histogram.push(0);
    }
    let mut unique: usize = 0;
    let mut i: usize = 0;
    proof {
        assert(window@.take(0) =~= Seq::<u8>::empty());
        window@.take(0).lemma_cardinality_of_empty_set_is_0();
    }
    while i < length
        invariant
            total == bytes@.len(),
            start + length <= total,
            window@ == bytes@.subrange(start as int, start + length),
            i <= length,
            unique <= i,
            histogram@.len() == 256,
            unique == window@.take(i as int).to_set().len(),
            forall|v: int|
                0 <= v < 256 ==> ((#[trigger] histogram@[v]) > 0 <==> window@.take(
                    i as int,
                ).to_set().contains(v as u8)),
            forall|v: int| 0 <= v < 256 ==> #[trigger] histogram@[v] <= i,
        decreases length - i,
    {
        let b = bytes[start + i];
        let bi = b as usize;
        let ghost prefix = window@.take(i as int);
        proof {
            assert(window@[i as int] == bytes@[start + i]);
            assert(window@.take(i + 1) =~= prefix + seq![b]);
            broadcast use vstd::prelude::Seq::lemma_to_set_insert_commutes;
            broadcast use vstd::seq_lib::seq_to_set_is_finite;
            broadcast use vstd::set::axiom_set_insert_len;

            assert(window@.take(i + 1).to_set() =~= prefix.to_set().insert(b));
        }
        let seen = histogram[bi];
        if seen == 0 {
            unique = unique + 1;
        }
        histogram.set(bi, seen + 1);
        i = i + 1;
    }
    proof {
        assert(window@.take(length as int) =~= window@);
    }
    unique
}

/// Scans one window with an explicit scoring policy.
///
/// The window is first validated against the declared mapped range; a
/// window outside it fails with `UnmappedScanWindow` and no verdict
/// exists. A valid window, the zero-length window included, always gets
/// a verdict holding the distinct-byte count of the window's bytes, the
/// window's length, and the policy's classification of the two.
pub fn scan_with<P: ScoringPolicy>(
    memory: &MappedMemory,
    window: &ScanWindow,
    policy: &P,
) -> (r: Result<AnomalyVerdict, AgentError>)
    ensures
        match r {
            Ok(verdict) => {
                &&& memory.window_in_range(*window)
                &&& verdict.window_length == window.length
                &&& verdict.unique_byte_count == distinct_count(memory.window_bytes(*window))
                &&& verdict.is_anomalous == policy.classifies(
                    distinct_count(memory.window_bytes(*window)),
                    window.length as nat,
                )
            },
            Err(e) => {
                &&& e == AgentError::UnmappedScanWindow
                &&& !memory.window_in_range(*window)
            },
        },
{
    if !memory.contains_window(window) {
        return Err(AgentError::UnmappedScanWindow);
    }
    let offset = (window.address - memory.base) as usize;
    let unique = count_unique_bytes(&memory.bytes, offset, window.length);
    let is_anomalous = policy.classify(unique, window.length);
    Ok(AnomalyVerdict { is_anomalous, unique_byte_count: unique, window_length: window.length })
}

/// Scans one window with the default unique-byte-majority heuristic.
pub fn scan(memory: &MappedMemory, window: &ScanWindow) -> (r: Result<AnomalyVerdict, AgentError>)
    ensures
        match r {
            Ok(verdict) => {
                &&& memory.window_in_range(*window)
                &&& verdict.window_length == window.length
                &&& verdict.unique_byte_count == distinct_count(memory.window_bytes(*window))
                &&& verdict.is_anomalous == window_is_anomalous(memory.window_bytes(*window))
            },
            Err(e) => {
                &&& e == AgentError::UnmappedScanWindow
                &&& !memory.window_in_range(*window)
            },
        },
{
    let r = scan_with(memory, window, &UniqueMajorityScore);
    proof {
        if memory.window_in_range(*window) {
            assert(memory.window_bytes(*window).len() == window.length);
        }
    }
    r
}

/// A window of length zero is deterministically classified as not
/// anomalous.
pub proof fn lemma_empty_window_not_anomalous(s: Seq<u8>)
    requires
        s.len() == 0,
    ensures
        !window_is_anomalous(s),
{
    s.lemma_cardinality_of_empty_set_is_0();
}

/// A window whose byte values are all distinct is anomalous whenever it
/// holds at least two bytes.
pub proof fn lemma_all_distinct_is_anomalous(s: Seq<u8>)
    requires
        s.no_duplicates(),
        s.len() >= 2,
    ensures
        window_is_anomalous(s),
{
    s.unique_seq_to_set();
}

/// A window filled with a single repeated byte value is never anomalous
/// (it takes at least two bytes for a value to repeat).
pub proof fn lemma_single_value_not_anomalous(s: Seq<u8>)
    requires
        s.len() >= 2,
        forall|i: int| 0 <= i < s.len() ==> #[trigger] s[i] == s[0],
    ensures
        !window_is_anomalous(s),
{
    broadcast use vstd::seq_lib::seq_to_set_is_finite;
    broadcast use vstd::set::axiom_set_insert_len;
    broadcast use vstd::set::axiom_set_empty_len;

    assert(s.contains(s[0]));
    assert(s.to_set() =~= Set::<u8>::empty().insert(s[0]));
    assert(Set::<u8>::empty().insert(s[0]).len() == 1);
    assert(s.len() / 2 >= 1);
}

/// The boundary case of the heuristic: a window whose distinct-value
/// count equals exactly half its length (integer division) is not
/// anomalous: the comparison is a strict greater-than.
pub proof fn lemma_midpoint_not_anomalous(s: Seq<u8>)
    requires
        distinct_count(s) == s.len() / 2,
    ensures
        !window_is_anomalous(s),
{
}

} // verus!
