//! Where each microphone is in use: on an instrument, on an amplifier, in front
//! of a singer, or nowhere.
//!
//! A microphone is bound by its own assignment where the store holds the gear
//! that the assignment names. Apart from that, a member may name the
//! microphone as the vocal microphone; that is looked at where the assignment
//! binds nothing.

use vstd::prelude::*;
use crate::model::{Assignment, AssignmentView, TargetKind};
use crate::store::{amplifier_ids, instrument_ids, lemma_find_id, EquipmentStore, StoreView};
use crate::text::{copy_text, is_same_text};

verus! {

/// Where a microphone is in use.
#[derive(Clone, Debug, PartialEq, Eq)]
pub enum MicBinding {
    Unassigned,
    BoundToInstrument(String),
    BoundToAmplifier(String),
    BoundToVocalist(String),
}

/// Mathematical value of a [`MicBinding`].
pub enum MicBindingValue {
    Unassigned,
    BoundToInstrument(Seq<char>),
    BoundToAmplifier(Seq<char>),
    BoundToVocalist(Seq<char>),
}

impl View for MicBinding {
    type V = MicBindingValue;

    open spec fn view(&self) -> MicBindingValue {
        match self {
            MicBinding::Unassigned => MicBindingValue::Unassigned,
            MicBinding::BoundToInstrument(id) => MicBindingValue::BoundToInstrument(id@),
            MicBinding::BoundToAmplifier(id) => MicBindingValue::BoundToAmplifier(id@),
            MicBinding::BoundToVocalist(id) => MicBindingValue::BoundToVocalist(id@),
        }
    }
}

impl DeepView for MicBinding {
    type V = MicBindingValue;

    open spec fn deep_view(&self) -> MicBindingValue {
        self@
    }
}

/// Member `b` is the first member who names the microphone `microphone` as the
/// vocal microphone.
pub open spec fn first_singer_at(s: StoreView, microphone: Seq<char>, b: int) -> bool {
    &&& 0 <= b < s.members.len()
    &&& s.members[b].vocal_mic_id == Some(microphone)
    &&& forall|j: int| 0 <= j < b ==> (#[trigger] s.members[j]).vocal_mic_id != Some(microphone)
}

/// The first member who names the microphone `microphone` as the vocal
/// microphone, if there is one.
pub open spec fn first_singer(s: StoreView, microphone: Seq<char>) -> Option<int> {
    if exists|b: int| first_singer_at(s, microphone, b) {
        Some(choose|b: int| first_singer_at(s, microphone, b))
    } else {
        None
    }
}

/// Where the microphone at position `m` is in use.
pub open spec fn binding_of(s: StoreView, m: int) -> MicBindingValue {
    let mic = s.microphones[m];
    let by_singer = match first_singer(s, mic.id) {
        Some(b) => MicBindingValue::BoundToVocalist(s.members[b].id),
        None => MicBindingValue::Unassigned,
    };
    match mic.assignment {
        AssignmentView::AssignedTo { kind: TargetKind::Instrument, target_id } => {
            if instrument_ids(s).contains(target_id) {
                MicBindingValue::BoundToInstrument(target_id)
            } else {
                by_singer
            }
        },
        AssignmentView::AssignedTo { kind: TargetKind::Amplifier, target_id } => {
            if amplifier_ids(s).contains(target_id) {
                MicBindingValue::BoundToAmplifier(target_id)
            } else {
                by_singer
            }
        },
        AssignmentView::Unassigned => by_singer,
    }
}

/// Where every microphone of the store is in use, in store order.
pub open spec fn bindings_of(s: StoreView) -> Seq<MicBindingValue> {
    Seq::new(s.microphones.len(), |m: int| binding_of(s, m))
}

/// The binding of a microphone by the first member who sings into it.
fn singer_binding(store: &EquipmentStore, microphone: &str) -> (r: MicBinding)
    ensures
        r@ == match first_singer(store@, microphone@) {
            Some(b) => MicBindingValue::BoundToVocalist(store@.members[b].id),
            None => MicBindingValue::Unassigned,
        },
{
    let mut b: usize = 0;
    while b < store.members.len()
        invariant
            b <= store@.members.len(),
            forall|j: int|
                0 <= j < b ==> (#[trigger] store@.members[j]).vocal_mic_id != Some(microphone@),
        decreases store@.members.len() - b,
    {
        assert(store@.members[b as int] == store.members@[b as int]@);
        let sings = match &store.members[b].vocal_mic_id {
            Some(x) => is_same_text(x.as_str(), microphone),
            None => false,
        };
        if sings {
            proof {
                assert(first_singer_at(store@, microphone@, b as int));
                let c = choose|c: int| first_singer_at(store@, microphone@, c);
                if c < b {
                    assert(store@.members[c].vocal_mic_id != Some(microphone@));
                }
                if b < c {
                    assert(store@.members[b as int].vocal_mic_id != Some(microphone@));
                }
            }
            return MicBinding::BoundToVocalist(copy_text(&store.members[b].id));
        }
        b = b + 1;
    }
    proof {
        if exists|c: int| first_singer_at(store@, microphone@, c) {
            let c = choose|c: int| first_singer_at(store@, microphone@, c);
            assert(store@.members[c].vocal_mic_id != Some(microphone@));
        }
    }
    MicBinding::Unassigned
}

/// Where the microphone at position `m` is in use.
pub fn microphone_binding(store: &EquipmentStore, m: usize) -> (r: MicBinding)
    requires
        m < store@.microphones.len(),
    ensures
        r@ == binding_of(store@, m as int),
{
    let mic = &store.microphones[m];
    assert(store@.microphones[m as int] == mic@);
    match &mic.assignment {
        Assignment::AssignedTo { kind: TargetKind::Instrument, target_id } => {
            proof {
                lemma_find_id(instrument_ids(store@), target_id@);
            }
            if store.find_instrument(target_id.as_str()).is_some() {
                MicBinding::BoundToInstrument(copy_text(target_id))
            } else {
                singer_binding(store, mic.id.as_str())
            }
        },
        Assignment::AssignedTo { kind: TargetKind::Amplifier, target_id } => {
            proof {
                lemma_find_id(amplifier_ids(store@), target_id@);
            }
            if store.find_amplifier(target_id.as_str()).is_some() {
                MicBinding::BoundToAmplifier(copy_text(target_id))
            } else {
                singer_binding(store, mic.id.as_str())
            }
        },
        Assignment::Unassigned => singer_binding(store, mic.id.as_str()),
    }
}

/// Where every microphone of the store is in use, in store order.
pub fn microphone_bindings(store: &EquipmentStore) -> (r: Vec<MicBinding>)
    ensures
        r.deep_view() == bindings_of(store@),
{
    let mut r: Vec<MicBinding> = Vec::new();
    let mut m: usize = 0;
    while m < store.microphones.len()
        invariant
            m <= store@.microphones.len(),
            r@.len() == m,
            forall|j: int| 0 <= j < m ==> (#[trigger] r@[j])@ == binding_of(store@, j),
        decreases store@.microphones.len() - m,
    {
        r.push(microphone_binding(store, m));
        m = m + 1;
    }
    assert(r.deep_view() =~= bindings_of(store@));
    r
}

} // verus!
