//! Device selection: among the candidates that expose a button's key code,
//! pick the one with the fewest supported keys.
//!
//! A platform may expose several devices that all advertise the volume
//! keys; a generic keyboard node multiplexes many keys, while the node
//! dedicated to the physical volume buttons supports only a handful. The
//! candidate with the strictly smallest capability-set cardinality is taken
//! to be the dedicated one; ties keep the earliest-scanned candidate.

use vstd::prelude::*;

verus! {

/// Key code of the volume-up button on the event-device interface.
pub const KEY_VOLUMEUP: usize = 115;

/// Key code of the volume-down button.
pub const KEY_VOLUMEDOWN: usize = 114;

/// One probed device: its decoded capability list. The position of a
/// candidate in the scanned list is its identity; the caller keeps whatever
/// handle it opened at the same position.
pub struct Candidate {
    pub keys: Vec<usize>,
}

/// The candidate supports key `code`.
pub open spec fn supports(c: Candidate, code: usize) -> bool {
    c.keys@.contains(code)
}

/// The candidate's capability-set cardinality.
pub open spec fn card(c: Candidate) -> nat {
    c.keys@.len()
}

/// Index `i` is the winner for `code` among `cands`: it supports the code,
/// no candidate supporting the code has a smaller cardinality, and every
/// earlier candidate supporting the code has a strictly larger one.
pub open spec fn is_selected(cands: Seq<Candidate>, code: usize, i: int) -> bool {
    &&& 0 <= i < cands.len()
    &&& supports(cands[i], code)
    &&& forall|j: int| 0 <= j < cands.len() && supports(#[trigger] cands[j], code) ==> card(
        cands[i],
    ) <= card(cands[j])
    &&& forall|j: int| 0 <= j < i && supports(#[trigger] cands[j], code) ==> card(cands[i]) < card(
        cands[j],
    )
}

/// Scan the candidates once and return the index of the winner for `code`,
/// or `None` when no candidate supports the code.
pub fn select_for_code(cands: &Vec<Candidate>, code: usize) -> (r: Option<usize>)
    ensures
        match r {
            Some(i) => is_selected(cands@, code, i as int),
            None => forall|j: int|
                0 <= j < cands@.len() ==> !supports(#[trigger] cands@[j], code),
        },
{
    let mut best: Option<usize> = None;
    let mut best_n: usize = usize::MAX;
    let mut idx: usize = 0;
    while idx < cands.len()
        invariant
            idx <= cands@.len(),
            match best {
                Some(i) => {
                    &&& 0 <= i < idx
                    &&& supports(cands@[i as int], code)
                    &&& best_n == card(cands@[i as int])
                    &&& forall|j: int|
                        0 <= j < idx && supports(#[trigger] cands@[j], code) ==> card(
                            cands@[i as int],
                        ) <= card(cands@[j])
                    &&& forall|j: int|
                        0 <= j < i && supports(#[trigger] cands@[j], code) ==> card(
                            cands@[i as int],
                        ) < card(cands@[j])
                },
                None => {
                    &&& best_n == usize::MAX
                    &&& forall|j: int|
                        0 <= j < idx ==> !supports(#[trigger] cands@[j], code)
                },
            },
        decreases cands@.len() - idx,
    {
        if crate::probe::contains_key(&cands[idx].keys, code) {
            let n = cands[idx].keys.len();
            let take = match best {
                None => true,
                Some(_) => n < best_n,
            };
            if take {
                best = Some(idx);
                best_n = n;
            }
        }
        idx += 1;
    }
    best
}

/// The contract of `select_for_code` pins a unique winner: two indices that
/// both satisfy `is_selected` for the same scan and code are equal.
pub proof fn lemma_selector_deterministic(cands: Seq<Candidate>, code: usize, i1: int, i2: int)
    requires
        is_selected(cands, code, i1),
        is_selected(cands, code, i2),
    ensures
        i1 == i2,
{
    if i1 < i2 {
        assert(card(cands[i2]) < card(cands[i1]));
        assert(card(cands[i1]) <= card(cands[i2]));
    } else if i2 < i1 {
        assert(card(cands[i1]) < card(cands[i2]));
        assert(card(cands[i2]) <= card(cands[i1]));
    }
}

/// Why selection failed: one of the two buttons has no candidate at all.
#[derive(PartialEq, Eq, Structural, Clone, Copy, Debug)]
pub enum SelectError {
    VolumeUpNotFound,
    VolumeDownNotFound,
}

/// The winning candidate indices for the two buttons.
pub struct Selection {
    pub up: usize,
    pub down: usize,
}

/// Pick one device for volume-up and one for volume-down out of the scanned
/// candidates. A missing volume-down winner is reported first.
pub fn select_devices(cands: &Vec<Candidate>) -> (r: Result<Selection, SelectError>)
    ensures
        match r {
            Ok(s) => is_selected(cands@, KEY_VOLUMEUP, s.up as int) && is_selected(
                cands@,
                KEY_VOLUMEDOWN,
                s.down as int,
            ),
            Err(e) => match e {
                SelectError::VolumeDownNotFound => forall|j: int|
                    0 <= j < cands@.len() ==> !supports(#[trigger] cands@[j], KEY_VOLUMEDOWN),
                SelectError::VolumeUpNotFound => (exists|j: int|
                    0 <= j < cands@.len() && supports(#[trigger] cands@[j], KEY_VOLUMEDOWN))
                    && forall|j: int|
                    0 <= j < cands@.len() ==> !supports(#[trigger] cands@[j], KEY_VOLUMEUP),
            },
        },
{
    let down = match select_for_code(cands, KEY_VOLUMEDOWN) {
        Some(i) => i,
        None => {
            return Err(SelectError::VolumeDownNotFound);
        },
    };
    let up = match select_for_code(cands, KEY_VOLUMEUP) {
        Some(i) => i,
        None => {
            return Err(SelectError::VolumeUpNotFound);
        },
    };
    Ok(Selection { up, down })
}

} // verus!
