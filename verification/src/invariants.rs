//! The validity of an equipment store, and that every change keeps it.
//!
//! A store is valid where no id stands twice in one of its lists and every
//! reference names a record of the store: the vocal microphone of a member, the
//! gear a microphone is placed on, the owner and the amplifier of an
//! instrument, the owner of an amplifier.

use vstd::prelude::*;
use crate::assignments::{holds_target, relinked, with_assignments, with_link};
use crate::gear::{
    with_amplifier, with_amplifier_at, with_instrument, with_instrument_at, with_pa, with_pa_at,
    without_amplifier, without_instrument, without_pa,
};
use crate::model::{
    AmplifierView, BandMemberView, InstrumentView, MicrophoneView, PaEquipmentView, TargetKind,
};
use crate::records::{
    amplifier_refs_ok, instrument_refs_ok, member_refs_ok, microphone_refs_ok, with_member,
    with_member_at, with_microphone, with_microphone_at, without_member, without_microphone,
};
use crate::store::{
    amplifier_ids, distinct_ids, instrument_ids, member_ids, microphone_ids, pa_ids, StoreView,
};

verus! {

/// No id stands twice in a list of the store.
pub open spec fn ids_distinct(s: StoreView) -> bool {
    &&& distinct_ids(member_ids(s))
    &&& distinct_ids(microphone_ids(s))
    &&& distinct_ids(instrument_ids(s))
    &&& distinct_ids(amplifier_ids(s))
    &&& distinct_ids(pa_ids(s))
}

/// Every reference names a record of the store.
pub open spec fn references_held(s: StoreView) -> bool {
    &&& forall|i: int| 0 <= i < s.members.len() ==> member_refs_ok(s, #[trigger] s.members[i])
    &&& forall|i: int|
        0 <= i < s.microphones.len() ==> microphone_refs_ok(s, #[trigger] s.microphones[i])
    &&& forall|i: int|
        0 <= i < s.instruments.len() ==> instrument_refs_ok(s, #[trigger] s.instruments[i])
    &&& forall|i: int|
        0 <= i < s.amplifiers.len() ==> amplifier_refs_ok(s, #[trigger] s.amplifiers[i])
}

/// The store is valid.
pub open spec fn well_formed(s: StoreView) -> bool {
    ids_distinct(s) && references_held(s)
}

/// The ids of `after` are those of `before` and `id` at the end.
proof fn lemma_pushed(before: Seq<Seq<char>>, after: Seq<Seq<char>>, id: Seq<char>)
    requires
        after == before.push(id),
    ensures
        forall|x: Seq<char>| before.contains(x) ==> after.contains(x),
        distinct_ids(before) && !before.contains(id) ==> distinct_ids(after),
{
    assert forall|x: Seq<char>| before.contains(x) implies after.contains(x) by {
        let k = choose|k: int| 0 <= k < before.len() && before[k] == x;
        assert(after[k] == x);
    }
    if distinct_ids(before) && !before.contains(id) {
        assert forall|i: int, j: int| 0 <= i < j < after.len() implies after[i] != after[j] by {
            if j == before.len() {
                assert(before[i] == after[i]);
                assert(before.contains(before[i]));
            } else {
                assert(before[i] == after[i] && before[j] == after[j]);
            }
        }
    }
}

/// The ids of `after` are those of `before` without the one at position `i`.
proof fn lemma_removed(before: Seq<Seq<char>>, after: Seq<Seq<char>>, i: int)
    requires
        0 <= i < before.len(),
        after == before.remove(i),
    ensures
        distinct_ids(before) ==> distinct_ids(after),
        distinct_ids(before) ==> !after.contains(before[i]),
        forall|x: Seq<char>| before.contains(x) && x != before[i] ==> after.contains(x),
{
    if distinct_ids(before) {
        assert forall|a: int, b: int| 0 <= a < b < after.len() implies after[a] != after[b] by {
            let a2 = if a < i {
                a
            } else {
                a + 1
            };
            let b2 = if b < i {
                b
            } else {
                b + 1
            };
            assert(after[a] == before[a2] && after[b] == before[b2]);
        }
        if after.contains(before[i]) {
            let k = choose|k: int| 0 <= k < after.len() && after[k] == before[i];
            let k2 = if k < i {
                k
            } else {
                k + 1
            };
            assert(after[k] == before[k2]);
            if k2 < i {
                assert(before[k2] != before[i]);
            } else {
                assert(before[i] != before[k2]);
            }
        }
    }
    assert forall|x: Seq<char>| before.contains(x) && x != before[i] implies after.contains(x) by {
        let k = choose|k: int| 0 <= k < before.len() && before[k] == x;
        if k < i {
            assert(after[k] == x);
        } else {
            assert(after[k - 1] == x);
        }
    }
}

/// Adding a member under a free id, with a vocal microphone of the store,
/// keeps the store valid.
pub proof fn lemma_member_added(s: StoreView, m: BandMemberView)
    requires
        well_formed(s),
        !member_ids(s).contains(m.id),
        member_refs_ok(s, m),
    ensures
        well_formed(with_member(s, m)),
{
    let t = with_member(s, m);
    assert(member_ids(t) =~= member_ids(s).push(m.id));
    lemma_pushed(member_ids(s), member_ids(t), m.id);
    assert(microphone_ids(t) =~= microphone_ids(s));
    assert(instrument_ids(t) =~= instrument_ids(s));
    assert(amplifier_ids(t) =~= amplifier_ids(s));
    assert(pa_ids(t) =~= pa_ids(s));
    assert forall|i: int| 0 <= i < t.members.len() implies member_refs_ok(
        t,
        #[trigger] t.members[i],
    ) by {
        if i < s.members.len() {
            assert(member_refs_ok(s, s.members[i]));
        }
    }
    assert forall|i: int| 0 <= i < t.instruments.len() implies instrument_refs_ok(
        t,
        #[trigger] t.instruments[i],
    ) by {
        assert(instrument_refs_ok(s, s.instruments[i]));
    }
    assert forall|i: int| 0 <= i < t.amplifiers.len() implies amplifier_refs_ok(
        t,
        #[trigger] t.amplifiers[i],
    ) by {
        assert(amplifier_refs_ok(s, s.amplifiers[i]));
    }
    assert forall|i: int| 0 <= i < t.microphones.len() implies microphone_refs_ok(
        t,
        #[trigger] t.microphones[i],
    ) by {
        assert(microphone_refs_ok(s, s.microphones[i]));
    }
}

/// Adding a microphone under a free id, placed on gear of the store or
/// nowhere, keeps the store valid.
pub proof fn lemma_microphone_added(s: StoreView, m: MicrophoneView)
    requires
        well_formed(s),
        !microphone_ids(s).contains(m.id),
        microphone_refs_ok(s, m),
    ensures
        well_formed(with_microphone(s, m)),
{
    let t = with_microphone(s, m);
    assert(microphone_ids(t) =~= microphone_ids(s).push(m.id));
    lemma_pushed(microphone_ids(s), microphone_ids(t), m.id);
    assert(member_ids(t) =~= member_ids(s));
    assert(instrument_ids(t) =~= instrument_ids(s));
    assert(amplifier_ids(t) =~= amplifier_ids(s));
    assert(pa_ids(t) =~= pa_ids(s));
    assert forall|i: int| 0 <= i < t.members.len() implies member_refs_ok(
        t,
        #[trigger] t.members[i],
    ) by {
        assert(member_refs_ok(s, s.members[i]));
    }
    assert forall|i: int| 0 <= i < t.microphones.len() implies microphone_refs_ok(
        t,
        #[trigger] t.microphones[i],
    ) by {
        if i < s.microphones.len() {
            assert(microphone_refs_ok(s, s.microphones[i]));
        }
    }
    assert forall|i: int| 0 <= i < t.instruments.len() implies instrument_refs_ok(
        t,
        #[trigger] t.instruments[i],
    ) by {
        assert(instrument_refs_ok(s, s.instruments[i]));
    }
    assert forall|i: int| 0 <= i < t.amplifiers.len() implies amplifier_refs_ok(
        t,
        #[trigger] t.amplifiers[i],
    ) by {
        assert(amplifier_refs_ok(s, s.amplifiers[i]));
    }
}

/// Adding an instrument under a free id, with an owner and an amplifier of the
/// store, keeps the store valid.
pub proof fn lemma_instrument_added(s: StoreView, x: InstrumentView)
    requires
        well_formed(s),
        !instrument_ids(s).contains(x.id),
        instrument_refs_ok(s, x),
    ensures
        well_formed(with_instrument(s, x)),
{
    let t = with_instrument(s, x);
    assert(instrument_ids(t) =~= instrument_ids(s).push(x.id));
    lemma_pushed(instrument_ids(s), instrument_ids(t), x.id);
    assert(member_ids(t) =~= member_ids(s));
    assert(microphone_ids(t) =~= microphone_ids(s));
    assert(amplifier_ids(t) =~= amplifier_ids(s));
    assert(pa_ids(t) =~= pa_ids(s));
    assert forall|i: int| 0 <= i < t.members.len() implies member_refs_ok(
        t,
        #[trigger] t.members[i],
    ) by {
        assert(member_refs_ok(s, s.members[i]));
    }
    assert forall|i: int| 0 <= i < t.microphones.len() implies microphone_refs_ok(
        t,
        #[trigger] t.microphones[i],
    ) by {
        assert(microphone_refs_ok(s, s.microphones[i]));
    }
    assert forall|i: int| 0 <= i < t.instruments.len() implies instrument_refs_ok(
        t,
        #[trigger] t.instruments[i],
    ) by {
        if i < s.instruments.len() {
            assert(instrument_refs_ok(s, s.instruments[i]));
        }
    }
    assert forall|i: int| 0 <= i < t.amplifiers.len() implies amplifier_refs_ok(
        t,
        #[trigger] t.amplifiers[i],
    ) by {
        assert(amplifier_refs_ok(s, s.amplifiers[i]));
    }
}

/// Adding an amplifier under a free id, with an owner of the store, keeps the
/// store valid.
pub proof fn lemma_amplifier_added(s: StoreView, a: AmplifierView)
    requires
        well_formed(s),
        !amplifier_ids(s).contains(a.id),
        amplifier_refs_ok(s, a),
    ensures
        well_formed(with_amplifier(s, a)),
{
    let t = with_amplifier(s, a);
    assert(amplifier_ids(t) =~= amplifier_ids(s).push(a.id));
    lemma_pushed(amplifier_ids(s), amplifier_ids(t), a.id);
    assert(member_ids(t) =~= member_ids(s));
    assert(microphone_ids(t) =~= microphone_ids(s));
    assert(instrument_ids(t) =~= instrument_ids(s));
    assert(pa_ids(t) =~= pa_ids(s));
    assert forall|i: int| 0 <= i < t.members.len() implies member_refs_ok(
        t,
        #[trigger] t.members[i],
    ) by {
        assert(member_refs_ok(s, s.members[i]));
    }
    assert forall|i: int| 0 <= i < t.microphones.len() implies microphone_refs_ok(
        t,
        #[trigger] t.microphones[i],
    ) by {
        assert(microphone_refs_ok(s, s.microphones[i]));
    }
    assert forall|i: int| 0 <= i < t.instruments.len() implies instrument_refs_ok(
        t,
        #[trigger] t.instruments[i],
    ) by {
        assert(instrument_refs_ok(s, s.instruments[i]));
    }
    assert forall|i: int| 0 <= i < t.amplifiers.len() implies amplifier_refs_ok(
        t,
        #[trigger] t.amplifiers[i],
    ) by {
        if i < s.amplifiers.len() {
            assert(amplifier_refs_ok(s, s.amplifiers[i]));
        }
    }
}

/// Adding front-of-house gear under a free id keeps the store valid.
pub proof fn lemma_pa_added(s: StoreView, p: PaEquipmentView)
    requires
        well_formed(s),
        !pa_ids(s).contains(p.id),
    ensures
        well_formed(with_pa(s, p)),
{
    let t = with_pa(s, p);
    assert(pa_ids(t) =~= pa_ids(s).push(p.id));
    lemma_pushed(pa_ids(s), pa_ids(t), p.id);
    assert(member_ids(t) =~= member_ids(s));
    assert(microphone_ids(t) =~= microphone_ids(s));
    assert(instrument_ids(t) =~= instrument_ids(s));
    assert(amplifier_ids(t) =~= amplifier_ids(s));
    assert forall|i: int| 0 <= i < t.members.len() implies member_refs_ok(
        t,
        #[trigger] t.members[i],
    ) by {
        assert(member_refs_ok(s, s.members[i]));
    }
    assert forall|i: int| 0 <= i < t.microphones.len() implies microphone_refs_ok(
        t,
        #[trigger] t.microphones[i],
    ) by {
        assert(microphone_refs_ok(s, s.microphones[i]));
    }
    assert forall|i: int| 0 <= i < t.instruments.len() implies instrument_refs_ok(
        t,
        #[trigger] t.instruments[i],
    ) by {
        assert(instrument_refs_ok(s, s.instruments[i]));
    }
    assert forall|i: int| 0 <= i < t.amplifiers.len() implies amplifier_refs_ok(
        t,
        #[trigger] t.amplifiers[i],
    ) by {
        assert(amplifier_refs_ok(s, s.amplifiers[i]));
    }
}

/// Replacing a record by one with the same id and with references into the
/// store keeps the store valid.
pub proof fn lemma_records_replaced(s: StoreView)
    requires
        well_formed(s),
    ensures
        forall|i: int, m: BandMemberView|
            0 <= i < s.members.len() && m.id == s.members[i].id && member_refs_ok(s, m)
                ==> well_formed(#[trigger] with_member_at(s, i, m)),
        forall|i: int, m: MicrophoneView|
            0 <= i < s.microphones.len() && m.id == s.microphones[i].id && microphone_refs_ok(
                s,
                m,
            ) ==> well_formed(#[trigger] with_microphone_at(s, i, m)),
        forall|i: int, x: InstrumentView|
            0 <= i < s.instruments.len() && x.id == s.instruments[i].id && instrument_refs_ok(
                s,
                x,
            ) ==> well_formed(#[trigger] with_instrument_at(s, i, x)),
        forall|i: int, a: AmplifierView|
            0 <= i < s.amplifiers.len() && a.id == s.amplifiers[i].id && amplifier_refs_ok(s, a)
                ==> well_formed(#[trigger] with_amplifier_at(s, i, a)),
        forall|i: int, p: PaEquipmentView|
            0 <= i < s.pa_equipment.len() && p.id == s.pa_equipment[i].id ==> well_formed(
                #[trigger] with_pa_at(s, i, p),
            ),
{
    assert forall|i: int, m: BandMemberView|
        0 <= i < s.members.len() && m.id == s.members[i].id && member_refs_ok(
            s,
            m,
        ) implies well_formed(#[trigger] with_member_at(s, i, m)) by {
        let t = with_member_at(s, i, m);
        assert(member_ids(t) =~= member_ids(s));
        lemma_same_ids(s, t);
        assert forall|j: int| 0 <= j < t.members.len() implies member_refs_ok(
            t,
            #[trigger] t.members[j],
        ) by {
            if j != i {
                assert(member_refs_ok(s, s.members[j]));
            }
        }
    }
    assert forall|i: int, m: MicrophoneView|
        0 <= i < s.microphones.len() && m.id == s.microphones[i].id && microphone_refs_ok(
            s,
            m,
        ) implies well_formed(#[trigger] with_microphone_at(s, i, m)) by {
        let t = with_microphone_at(s, i, m);
        assert(microphone_ids(t) =~= microphone_ids(s));
        lemma_same_ids(s, t);
        assert forall|j: int| 0 <= j < t.microphones.len() implies microphone_refs_ok(
            t,
            #[trigger] t.microphones[j],
        ) by {
            if j != i {
                assert(microphone_refs_ok(s, s.microphones[j]));
            }
        }
    }
    assert forall|i: int, x: InstrumentView|
        0 <= i < s.instruments.len() && x.id == s.instruments[i].id && instrument_refs_ok(
            s,
            x,
        ) implies well_formed(#[trigger] with_instrument_at(s, i, x)) by {
        let t = with_instrument_at(s, i, x);
        assert(instrument_ids(t) =~= instrument_ids(s));
        lemma_same_ids(s, t);
        assert forall|j: int| 0 <= j < t.instruments.len() implies instrument_refs_ok(
            t,
            #[trigger] t.instruments[j],
        ) by {
            if j != i {
                assert(instrument_refs_ok(s, s.instruments[j]));
            }
        }
    }
    assert forall|i: int, a: AmplifierView|
        0 <= i < s.amplifiers.len() && a.id == s.amplifiers[i].id && amplifier_refs_ok(
            s,
            a,
        ) implies well_formed(#[trigger] with_amplifier_at(s, i, a)) by {
        let t = with_amplifier_at(s, i, a);
        assert(amplifier_ids(t) =~= amplifier_ids(s));
        lemma_same_ids(s, t);
        assert forall|j: int| 0 <= j < t.amplifiers.len() implies amplifier_refs_ok(
            t,
            #[trigger] t.amplifiers[j],
        ) by {
            if j != i {
                assert(amplifier_refs_ok(s, s.amplifiers[j]));
            }
        }
    }
    assert forall|i: int, p: PaEquipmentView|
        0 <= i < s.pa_equipment.len() && p.id == s.pa_equipment[i].id implies well_formed(
        #[trigger] with_pa_at(s, i, p),
    ) by {
        let t = with_pa_at(s, i, p);
        assert(pa_ids(t) =~= pa_ids(s));
        lemma_same_ids(s, t);
    }
}

/// A store with the ids of a valid store, in which the records that both hold
/// are the same, has valid references wherever its records are those of the
/// valid store.
proof fn lemma_same_ids(s: StoreView, t: StoreView)
    requires
        well_formed(s),
        member_ids(t) == member_ids(s) || t.members == s.members,
        microphone_ids(t) == microphone_ids(s) || t.microphones == s.microphones,
        instrument_ids(t) == instrument_ids(s) || t.instruments == s.instruments,
        amplifier_ids(t) == amplifier_ids(s) || t.amplifiers == s.amplifiers,
        pa_ids(t) == pa_ids(s) || t.pa_equipment == s.pa_equipment,
    ensures
        ids_distinct(t),
        member_ids(t) == member_ids(s),
        microphone_ids(t) == microphone_ids(s),
        instrument_ids(t) == instrument_ids(s),
        amplifier_ids(t) == amplifier_ids(s),
        forall|m: BandMemberView| member_refs_ok(s, m) ==> member_refs_ok(t, m),
        forall|m: MicrophoneView| microphone_refs_ok(s, m) ==> microphone_refs_ok(t, m),
        forall|x: InstrumentView| instrument_refs_ok(s, x) ==> instrument_refs_ok(t, x),
        forall|a: AmplifierView| amplifier_refs_ok(s, a) ==> amplifier_refs_ok(t, a),
        t.members == s.members ==> forall|i: int|
            0 <= i < t.members.len() ==> member_refs_ok(t, #[trigger] t.members[i]),
        t.microphones == s.microphones ==> forall|i: int|
            0 <= i < t.microphones.len() ==> microphone_refs_ok(t, #[trigger] t.microphones[i]),
        t.instruments == s.instruments ==> forall|i: int|
            0 <= i < t.instruments.len() ==> instrument_refs_ok(t, #[trigger] t.instruments[i]),
        t.amplifiers == s.amplifiers ==> forall|i: int|
            0 <= i < t.amplifiers.len() ==> amplifier_refs_ok(t, #[trigger] t.amplifiers[i]),
{
    assert(member_ids(t) =~= member_ids(s));
    assert(microphone_ids(t) =~= microphone_ids(s));
    assert(instrument_ids(t) =~= instrument_ids(s));
    assert(amplifier_ids(t) =~= amplifier_ids(s));
    assert(pa_ids(t) =~= pa_ids(s));
    if t.members == s.members {
        assert forall|i: int| 0 <= i < t.members.len() implies member_refs_ok(
            t,
            #[trigger] t.members[i],
        ) by {
            assert(member_refs_ok(s, s.members[i]));
        }
    }
    if t.microphones == s.microphones {
        assert forall|i: int| 0 <= i < t.microphones.len() implies microphone_refs_ok(
            t,
            #[trigger] t.microphones[i],
        ) by {
            assert(microphone_refs_ok(s, s.microphones[i]));
        }
    }
    if t.instruments == s.instruments {
        assert forall|i: int| 0 <= i < t.instruments.len() implies instrument_refs_ok(
            t,
            #[trigger] t.instruments[i],
        ) by {
            assert(instrument_refs_ok(s, s.instruments[i]));
        }
    }
    if t.amplifiers == s.amplifiers {
        assert forall|i: int| 0 <= i < t.amplifiers.len() implies amplifier_refs_ok(
            t,
            #[trigger] t.amplifiers[i],
        ) by {
            assert(amplifier_refs_ok(s, s.amplifiers[i]));
        }
    }
}

/// Placing microphones on gear of the store keeps the store valid.
pub proof fn lemma_assignments_keep_valid(
    s: StoreView,
    kind: TargetKind,
    target: Seq<char>,
    mic_ids: Seq<Seq<char>>,
)
    requires
        well_formed(s),
        holds_target(s, kind, target),
    ensures
        well_formed(with_assignments(s, kind, target, mic_ids)),
{
    let t = with_assignments(s, kind, target, mic_ids);
    assert(microphone_ids(t) =~= microphone_ids(s));
    lemma_same_ids(s, t);
    assert forall|i: int| 0 <= i < t.microphones.len() implies microphone_refs_ok(
        t,
        #[trigger] t.microphones[i],
    ) by {
        assert(microphone_refs_ok(s, s.microphones[i]));
    }
}

/// Setting the instrument that feeds an amplifier of the store keeps the store valid.
pub proof fn lemma_link_keeps_valid(s: StoreView, amp: Seq<char>, chosen: Option<Seq<char>>)
    requires
        well_formed(s),
        amplifier_ids(s).contains(amp),
    ensures
        well_formed(with_link(s, amp, chosen)),
{
    let t = with_link(s, amp, chosen);
    assert(instrument_ids(t) =~= instrument_ids(s));
    lemma_same_ids(s, t);
    assert forall|i: int| 0 <= i < t.instruments.len() implies instrument_refs_ok(
        t,
        #[trigger] t.instruments[i],
    ) by {
        assert(instrument_refs_ok(s, s.instruments[i]));
        assert(t.instruments[i] == relinked(s.instruments[i], amp, chosen));
    }
}

/// Removing a member keeps the store valid: no instrument and no amplifier
/// names the member any more.
pub proof fn lemma_member_removed(s: StoreView, i: int)
    requires
        well_formed(s),
        0 <= i < s.members.len(),
    ensures
        well_formed(without_member(s, i)),
{
    let t = without_member(s, i);
    let gone = s.members[i].id;
    assert(member_ids(t) =~= member_ids(s).remove(i));
    assert(member_ids(s)[i] == gone);
    lemma_removed(member_ids(s), member_ids(t), i);
    assert(microphone_ids(t) =~= microphone_ids(s));
    assert(instrument_ids(t) =~= instrument_ids(s));
    assert(amplifier_ids(t) =~= amplifier_ids(s));
    assert(pa_ids(t) =~= pa_ids(s));
    assert forall|j: int| 0 <= j < t.members.len() implies member_refs_ok(
        t,
        #[trigger] t.members[j],
    ) by {
        let j2 = if j < i {
            j
        } else {
            j + 1
        };
        assert(t.members[j] == s.members[j2]);
        assert(member_refs_ok(s, s.members[j2]));
    }
    assert forall|j: int| 0 <= j < t.microphones.len() implies microphone_refs_ok(
        t,
        #[trigger] t.microphones[j],
    ) by {
        assert(microphone_refs_ok(s, s.microphones[j]));
    }
    assert forall|j: int| 0 <= j < t.instruments.len() implies instrument_refs_ok(
        t,
        #[trigger] t.instruments[j],
    ) by {
        assert(instrument_refs_ok(s, s.instruments[j]));
    }
    assert forall|j: int| 0 <= j < t.amplifiers.len() implies amplifier_refs_ok(
        t,
        #[trigger] t.amplifiers[j],
    ) by {
        assert(amplifier_refs_ok(s, s.amplifiers[j]));
    }
}

/// Removing a microphone keeps the store valid: no member names it any more.
pub proof fn lemma_microphone_removed(s: StoreView, i: int)
    requires
        well_formed(s),
        0 <= i < s.microphones.len(),
    ensures
        well_formed(without_microphone(s, i)),
{
    let t = without_microphone(s, i);
    let gone = s.microphones[i].id;
    assert(microphone_ids(t) =~= microphone_ids(s).remove(i));
    assert(microphone_ids(s)[i] == gone);
    lemma_removed(microphone_ids(s), microphone_ids(t), i);
    assert(member_ids(t) =~= member_ids(s));
    assert(instrument_ids(t) =~= instrument_ids(s));
    assert(amplifier_ids(t) =~= amplifier_ids(s));
    assert(pa_ids(t) =~= pa_ids(s));
    assert forall|j: int| 0 <= j < t.members.len() implies member_refs_ok(
        t,
        #[trigger] t.members[j],
    ) by {
        assert(member_refs_ok(s, s.members[j]));
    }
    assert forall|j: int| 0 <= j < t.microphones.len() implies microphone_refs_ok(
        t,
        #[trigger] t.microphones[j],
    ) by {
        let j2 = if j < i {
            j
        } else {
            j + 1
        };
        assert(t.microphones[j] == s.microphones[j2]);
        assert(microphone_refs_ok(s, s.microphones[j2]));
    }
    assert forall|j: int| 0 <= j < t.instruments.len() implies instrument_refs_ok(
        t,
        #[trigger] t.instruments[j],
    ) by {
        assert(instrument_refs_ok(s, s.instruments[j]));
    }
    assert forall|j: int| 0 <= j < t.amplifiers.len() implies amplifier_refs_ok(
        t,
        #[trigger] t.amplifiers[j],
    ) by {
        assert(amplifier_refs_ok(s, s.amplifiers[j]));
    }
}

/// Removing an instrument keeps the store valid: no microphone is placed on it
/// any more.
pub proof fn lemma_instrument_removed(s: StoreView, i: int)
    requires
        well_formed(s),
        0 <= i < s.instruments.len(),
    ensures
        well_formed(without_instrument(s, i)),
{
    let t = without_instrument(s, i);
    let gone = s.instruments[i].id;
    assert(instrument_ids(t) =~= instrument_ids(s).remove(i));
    assert(instrument_ids(s)[i] == gone);
    lemma_removed(instrument_ids(s), instrument_ids(t), i);
    assert(member_ids(t) =~= member_ids(s));
    assert(microphone_ids(t) =~= microphone_ids(s));
    assert(amplifier_ids(t) =~= amplifier_ids(s));
    assert(pa_ids(t) =~= pa_ids(s));
    assert forall|j: int| 0 <= j < t.members.len() implies member_refs_ok(
        t,
        #[trigger] t.members[j],
    ) by {
        assert(member_refs_ok(s, s.members[j]));
    }
    assert forall|j: int| 0 <= j < t.microphones.len() implies microphone_refs_ok(
        t,
        #[trigger] t.microphones[j],
    ) by {
        assert(microphone_refs_ok(s, s.microphones[j]));
    }
    assert forall|j: int| 0 <= j < t.instruments.len() implies instrument_refs_ok(
        t,
        #[trigger] t.instruments[j],
    ) by {
        let j2 = if j < i {
            j
        } else {
            j + 1
        };
        assert(t.instruments[j] == s.instruments[j2]);
        assert(instrument_refs_ok(s, s.instruments[j2]));
    }
    assert forall|j: int| 0 <= j < t.amplifiers.len() implies amplifier_refs_ok(
        t,
        #[trigger] t.amplifiers[j],
    ) by {
        assert(amplifier_refs_ok(s, s.amplifiers[j]));
    }
}

/// Removing an amplifier keeps the store valid: no microphone is placed on it
/// and no instrument feeds it any more.
pub proof fn lemma_amplifier_removed(s: StoreView, i: int)
    requires
        well_formed(s),
        0 <= i < s.amplifiers.len(),
    ensures
        well_formed(without_amplifier(s, i)),
{
    let t = without_amplifier(s, i);
    let gone = s.amplifiers[i].id;
    assert(amplifier_ids(t) =~= amplifier_ids(s).remove(i));
    assert(amplifier_ids(s)[i] == gone);
    lemma_removed(amplifier_ids(s), amplifier_ids(t), i);
    assert(member_ids(t) =~= member_ids(s));
    assert(microphone_ids(t) =~= microphone_ids(s));
    assert(instrument_ids(t) =~= instrument_ids(s));
    assert(pa_ids(t) =~= pa_ids(s));
    assert forall|j: int| 0 <= j < t.members.len() implies member_refs_ok(
        t,
        #[trigger] t.members[j],
    ) by {
        assert(member_refs_ok(s, s.members[j]));
    }
    assert forall|j: int| 0 <= j < t.microphones.len() implies microphone_refs_ok(
        t,
        #[trigger] t.microphones[j],
    ) by {
        assert(microphone_refs_ok(s, s.microphones[j]));
    }
    assert forall|j: int| 0 <= j < t.instruments.len() implies instrument_refs_ok(
        t,
        #[trigger] t.instruments[j],
    ) by {
        assert(instrument_refs_ok(s, s.instruments[j]));
    }
    assert forall|j: int| 0 <= j < t.amplifiers.len() implies amplifier_refs_ok(
        t,
        #[trigger] t.amplifiers[j],
    ) by {
        let j2 = if j < i {
            j
        } else {
            j + 1
        };
        assert(t.amplifiers[j] == s.amplifiers[j2]);
        assert(amplifier_refs_ok(s, s.amplifiers[j2]));
    }
}

/// Removing front-of-house gear keeps the store valid.
pub proof fn lemma_pa_removed(s: StoreView, i: int)
    requires
        well_formed(s),
        0 <= i < s.pa_equipment.len(),
    ensures
        well_formed(without_pa(s, i)),
{
    let t = without_pa(s, i);
    assert(pa_ids(t) =~= pa_ids(s).remove(i));
    lemma_removed(pa_ids(s), pa_ids(t), i);
    lemma_same_ids_but_pa(s, t);
}

/// A store that differs from a valid store in its front-of-house gear alone has
/// valid references.
proof fn lemma_same_ids_but_pa(s: StoreView, t: StoreView)
    requires
        well_formed(s),
        t.members == s.members,
        t.microphones == s.microphones,
        t.instruments == s.instruments,
        t.amplifiers == s.amplifiers,
    ensures
        references_held(t),
        distinct_ids(member_ids(t)),
        distinct_ids(microphone_ids(t)),
        distinct_ids(instrument_ids(t)),
        distinct_ids(amplifier_ids(t)),
{
    assert(member_ids(t) =~= member_ids(s));
    assert(microphone_ids(t) =~= microphone_ids(s));
    assert(instrument_ids(t) =~= instrument_ids(s));
    assert(amplifier_ids(t) =~= amplifier_ids(s));
    assert forall|j: int| 0 <= j < t.members.len() implies member_refs_ok(
        t,
        #[trigger] t.members[j],
    ) by {
        assert(member_refs_ok(s, s.members[j]));
    }
    assert forall|j: int| 0 <= j < t.microphones.len() implies microphone_refs_ok(
        t,
        #[trigger] t.microphones[j],
    ) by {
        assert(microphone_refs_ok(s, s.microphones[j]));
    }
    assert forall|j: int| 0 <= j < t.instruments.len() implies instrument_refs_ok(
        t,
        #[trigger] t.instruments[j],
    ) by {
        assert(instrument_refs_ok(s, s.instruments[j]));
    }
    assert forall|j: int| 0 <= j < t.amplifiers.len() implies amplifier_refs_ok(
        t,
        #[trigger] t.amplifiers[j],
    ) by {
        assert(amplifier_refs_ok(s, s.amplifiers[j]));
    }
}

} // verus!
