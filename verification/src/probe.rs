//! Capability probing: decoding key-capability bitmaps and driving the
//! growing-buffer query protocol.
//!
//! A device reports the set of key codes it can produce as a bitmap: bit `k`
//! of byte `j` set means key code `j * 8 + k` is supported. The size of the
//! bitmap is not known in advance; the kernel query returns the number of
//! bytes it needs, so the caller grows its buffer until the reported size
//! fits inside the buffer it offered.

use vstd::prelude::*;

verus! {

broadcast use vstd::seq_lib::lemma_seq_contains_after_push;

/// How many growth rounds the probe tolerates before giving up on a
/// pathological device that keeps reporting a size at or above the buffer
/// offered to it.
pub const PROBE_ROUND_CAP: u32 = 32;

/// Key code `code` is set in the bitmap `bits`: bit `code % 8` of byte
/// `code / 8`.
pub open spec fn bitmap_bit(bits: Seq<u8>, code: int) -> bool {
    &&& 0 <= code
    &&& code / 8 < bits.len()
    &&& (bits[code / 8] >> ((code % 8) as u8)) & 1u8 == 1u8
}

/// Decode the first `n` bytes of a key-capability bitmap into the list of
/// supported key codes, in ascending order.
pub fn decode_key_bitmap(bits: &Vec<u8>, n: usize) -> (keys: Vec<usize>)
    requires
        n <= bits.len(),
        n <= usize::MAX / 8,
    ensures
        forall|c: usize| #[trigger] keys@.contains(c) <==> (c < n * 8 && bitmap_bit(bits@, c as int)),
        forall|a: int, b: int| 0 <= a < b < keys@.len() ==> keys@[a] < keys@[b],
        (forall|i: int| 0 <= i < n ==> bits@[i] == 0u8) ==> keys@.len() == 0,
{
    let mut keys: Vec<usize> = Vec::new();
    let mut j: usize = 0;
    while j < n
        invariant
            j <= n,
            n <= bits.len(),
            n <= usize::MAX / 8,
            forall|c: usize| #[trigger] keys@.contains(c) <==> (c < j * 8 && bitmap_bit(
                bits@,
                c as int,
            )),
            forall|a: int, b: int| 0 <= a < b < keys@.len() ==> keys@[a] < keys@[b],
            forall|a: int| 0 <= a < keys@.len() ==> keys@[a] < j * 8,
        decreases n - j,
    {
        let byte = bits[j];
        let mut k: usize = 0;
        while k < 8
            invariant
                j < n,
                n <= bits.len(),
                n <= usize::MAX / 8,
                k <= 8,
                byte == bits@[j as int],
                forall|c: usize| #[trigger] keys@.contains(c) <==> (c < j * 8 + k && bitmap_bit(
                    bits@,
                    c as int,
                )),
                forall|a: int, b: int| 0 <= a < b < keys@.len() ==> keys@[a] < keys@[b],
                forall|a: int| 0 <= a < keys@.len() ==> keys@[a] < j * 8 + k,
            decreases 8 - k,
        {
            let code = j * 8 + k;
            assert(code / 8 == j && code % 8 == k);
            if (byte >> (k as u8)) & 1u8 == 1u8 {
                keys.push(code);
            }
            k += 1;
        }
        j += 1;
    }
    proof {
        if (forall|i: int| 0 <= i < n ==> bits@[i] == 0u8) && keys@.len() > 0 {
            let c0 = keys@[0];
            assert(keys@.contains(c0));
            assert(bitmap_bit(bits@, c0 as int));
            assert(bits@[c0 as int / 8] == 0u8);
            let sh = ((c0 as int) % 8) as u8;
            assert((0u8 >> sh) & 1u8 == 0u8) by (bit_vector);
            assert(false);
        }
    }
    keys
}

/// Membership test on a decoded capability list.
pub fn contains_key(keys: &Vec<usize>, code: usize) -> (r: bool)
    ensures
        r == keys@.contains(code),
{
    let mut i: usize = 0;
    while i < keys.len()
        invariant
            i <= keys@.len(),
            forall|a: int| 0 <= a < i ==> keys@[a] != code,
        decreases keys@.len() - i,
    {
        if keys[i] == code {
            return true;
        }
        i += 1;
    }
    false
}

/// The probe's running state: the buffer length offered to the next query,
/// and how many growth rounds have been used.
pub struct ProbeState {
    pub buf_len: usize,
    pub rounds: u32,
}

/// What the probe decides after one query: the bitmap fits and its first
/// `used` bytes are valid, or the buffer must grow to `new_len` bytes, or
/// the device keeps outgrowing every buffer and the probe fails.
#[derive(PartialEq, Eq, Structural, Clone, Copy, Debug)]
pub enum ProbeStep {
    Done { used: usize },
    Grow { new_len: usize },
    Failed,
}

/// The state offered to the first query: an empty buffer, no rounds used.
pub open spec fn probe_start_state() -> ProbeState {
    ProbeState { buf_len: 0, rounds: 0 }
}

/// The decision taken when the query against state `st` reported `reported`
/// needed bytes: done as soon as the report is strictly below the buffer
/// offered; otherwise grow the buffer past the report, unless the round cap
/// is spent or the grown length would not fit the machine.
pub open spec fn probe_step_result(st: ProbeState, reported: usize) -> ProbeStep {
    if reported < st.buf_len {
        ProbeStep::Done { used: reported }
    } else if st.rounds >= PROBE_ROUND_CAP || reported > usize::MAX - 16 {
        ProbeStep::Failed
    } else {
        ProbeStep::Grow { new_len: (reported + 16) as usize }
    }
}

/// The state after that decision: growth raises the buffer length strictly
/// above the reported size and spends one round; the other outcomes leave
/// the state as it was.
pub open spec fn probe_step_state(st: ProbeState, reported: usize) -> ProbeState {
    if reported >= st.buf_len && st.rounds < PROBE_ROUND_CAP && reported <= usize::MAX - 16 {
        ProbeState { buf_len: (reported + 16) as usize, rounds: (st.rounds + 1) as u32 }
    } else {
        st
    }
}

pub fn probe_start() -> (st: ProbeState)
    ensures
        st == probe_start_state(),
{
    ProbeState { buf_len: 0, rounds: 0 }
}

/// Feed the probe the size the query reported and take its decision.
pub fn probe_step(st: &mut ProbeState, reported: usize) -> (r: ProbeStep)
    ensures
        r == probe_step_result(*old(st), reported),
        *final(st) == probe_step_state(*old(st), reported),
{
    if reported < st.buf_len {
        ProbeStep::Done { used: reported }
    } else if st.rounds >= PROBE_ROUND_CAP || reported > usize::MAX - 16 {
        ProbeStep::Failed
    } else {
        st.buf_len = reported + 16;
        st.rounds = st.rounds + 1;
        ProbeStep::Grow { new_len: st.buf_len }
    }
}

/// Every growth round pushes the buffer strictly past the size the device
/// reported and strictly above the old buffer, so a device whose needed
/// size stops growing is outrun after finitely many rounds; the round cap
/// bounds the pathological rest.
pub proof fn lemma_probe_buffer_outgrows_report(st: ProbeState, reported: usize)
    requires
        probe_step_result(st, reported) is Grow,
    ensures
        probe_step_state(st, reported).buf_len > reported,
        probe_step_state(st, reported).buf_len >= st.buf_len + 16,
        probe_step_state(st, reported).rounds == st.rounds + 1,
{
}

/// Against a device whose needed bitmap size is a fixed `l` bytes, the probe
/// finishes after exactly two queries: the first offers an empty buffer and
/// grows it strictly past `l`, the second sees the report fit and returns
/// `l` as the number of valid bytes.
pub proof fn lemma_probe_two_rounds(l: usize)
    requires
        l <= usize::MAX - 16,
    ensures
        probe_step_result(probe_start_state(), l) == (ProbeStep::Grow { new_len: (l + 16) as usize }),
        probe_step_result(probe_step_state(probe_start_state(), l), l) == (ProbeStep::Done { used: l }),
{
}

} // verus!
