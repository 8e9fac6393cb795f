use vstd::prelude::*;
use core::time::Duration;

verus! {

broadcast use vstd::seq_lib::group_to_multiset_ensures;

/// The kind of device a pointer sample came from.
#[derive(Debug, Clone, Copy, PartialEq, Eq, Structural, PartialOrd, Ord, Hash)]
pub enum InputDevice {
    Mouse,
    Touch,
}

/// The stage of a gesture that a sample belongs to.
#[derive(Debug, Clone, Copy, PartialEq, Eq, Structural, PartialOrd, Ord, Hash)]
pub enum ClickPhase {
    Start,
    Move,
    End,
}

impl ClickPhase {
    pub fn is_start(&self) -> (r: bool)
        ensures
            r <==> *self == ClickPhase::Start,
    {
        *self == ClickPhase::Start
    }

    pub fn is_move(&self) -> (r: bool)
        ensures
            r <==> *self == ClickPhase::Move,
    {
        *self == ClickPhase::Move
    }

    pub fn is_end(&self) -> (r: bool)
        ensures
            r <==> *self == ClickPhase::End,
    {
        *self == ClickPhase::End
    }
}

/// Identity of a clickable element, chosen by the host.
#[derive(Debug, Clone, Copy, PartialEq, Eq, Structural, PartialOrd, Ord, Hash)]
pub struct ElementId(pub u64);

/// One clickable element as seen from one pointer position.
#[derive(Debug, Clone, Copy, PartialEq, Eq, Structural, Hash)]
pub struct Candidate {
    pub entity: ElementId,
    /// Whether the element takes part in hit-testing at all.
    pub enabled: bool,
    /// Whether the pointer position lies within the element's rectangle.
    pub hit: bool,
    /// Z order key of the element (see `depth_key`); of several hit
    /// elements the one with the greatest key is on top.
    pub depth: i64,
}

pub open spec fn eligible(c: Candidate) -> bool {
    c.enabled && c.hit
}

pub open spec fn has_eligible(s: Seq<Candidate>) -> bool {
    exists|i: int| 0 <= i < s.len() && #[trigger] eligible(s[i])
}

/// `i` is the eligible candidate of greatest depth, and the last one in `s`
/// among those that share that depth.
pub open spec fn is_topmost(s: Seq<Candidate>, i: int) -> bool {
    &&& 0 <= i < s.len()
    &&& eligible(s[i])
    &&& forall|j: int| 0 <= j < s.len() && #[trigger] eligible(s[j]) ==> s[j].depth <= s[i].depth
    &&& forall|j: int| i < j < s.len() && #[trigger] eligible(s[j]) ==> s[j].depth < s[i].depth
}

/// Index of the topmost candidate; meaningful when `has_eligible(s)`.
pub open spec fn topmost(s: Seq<Candidate>) -> int {
    choose|i: int| is_topmost(s, i)
}

/// The element that a pointer at this position targets, if any.
pub open spec fn target_of(s: Seq<Candidate>) -> Option<ElementId> {
    if has_eligible(s) {
        Some(s[topmost(s)].entity)
    } else {
        None
    }
}

/// At most one index is topmost.
pub proof fn lemma_topmost_unique(s: Seq<Candidate>, i: int, k: int)
    requires
        is_topmost(s, i),
        is_topmost(s, k),
    ensures
        i == k,
{
    if i < k {
        assert(eligible(s[k]));
    } else if k < i {
        assert(eligible(s[i]));
    }
}

/// Once an index is known to be topmost, it is the one that `topmost` names.
pub proof fn lemma_topmost_is(s: Seq<Candidate>, i: int)
    requires
        is_topmost(s, i),
    ensures
        topmost(s) == i,
        has_eligible(s),
        target_of(s) == Some(s[i].entity),
{
    lemma_topmost_unique(s, i, topmost(s));
}

/// Picks the enabled, hit candidate of greatest depth; among equal depths
/// the one registered last wins.
pub fn select_target(candidates: &Vec<Candidate>) -> (r: Option<usize>)
    ensures
        r is Some <==> has_eligible(candidates@),
        r matches Some(i) ==> is_topmost(candidates@, i as int) && i == topmost(candidates@),
{
    let mut best: Option<usize> = None;
    let mut k: usize = 0;
    while k < candidates.len()
        invariant
            k <= candidates@.len(),
            best is None ==> forall|j: int| 0 <= j < k ==> !#[trigger] eligible(candidates@[j]),
            best matches Some(b) ==> {
                &&& b < k
                &&& eligible(candidates@[b as int])
                &&& forall|j: int|
                    0 <= j < k && #[trigger] eligible(candidates@[j]) ==> candidates@[j].depth
                        <= candidates@[b as int].depth
                &&& forall|j: int|
                    b < j < k && #[trigger] eligible(candidates@[j]) ==> candidates@[j].depth
                        < candidates@[b as int].depth
            },
        decreases candidates.len() - k,
    {
        let c = candidates[k];
        if c.enabled && c.hit {
            match best {
                None => {
                    best = Some(k);
                },
                Some(b) => {
                    if candidates[b].depth <= c.depth {
                        best = Some(k);
                    }
                },
            }
        }
        k = k + 1;
    }
    match best {
        None => {
            assert(!has_eligible(candidates@));
        },
        Some(b) => {
            proof {
                lemma_topmost_is(candidates@, b as int);
            }
        },
    }
    best
}

/// Eligible candidates of `s` have pairwise distinct depths.
pub open spec fn distinct_eligible_depths(s: Seq<Candidate>) -> bool {
    forall|a: int, b: int|
        0 <= a < s.len() && 0 <= b < s.len() && a != b && #[trigger] eligible(s[a])
            && #[trigger] eligible(s[b]) ==> s[a].depth != s[b].depth
}

/// When eligible elements have distinct depths, the deepest one is the
/// target whatever order the registry lists the elements in: any two
/// listings of the same elements select the same one.
pub proof fn lemma_target_independent_of_order(s1: Seq<Candidate>, s2: Seq<Candidate>)
    requires
        s1.to_multiset() == s2.to_multiset(),
        distinct_eligible_depths(s1),
    ensures
        target_of(s1) == target_of(s2),
        has_eligible(s1) ==> s1[topmost(s1)] == s2[topmost(s2)],
{
    if has_eligible(s1) {
        lemma_topmost_exists(s1);
        let i1 = topmost(s1);
        assert(s1.contains(s1[i1]));
        assert(s2.to_multiset().count(s1[i1]) > 0);
        let k2 = choose|k: int| 0 <= k < s2.len() && s2[k] == s1[i1];
        assert(eligible(s2[k2]));
        lemma_topmost_exists(s2);
        let i2 = topmost(s2);
        assert(s2.contains(s2[i2]));
        assert(s1.to_multiset().count(s2[i2]) > 0);
        let k1 = choose|k: int| 0 <= k < s1.len() && s1[k] == s2[i2];
        assert(eligible(s1[k1]));
        assert(s1[k1].depth <= s1[i1].depth);
        assert(s2[k2].depth <= s2[i2].depth);
        assert(k1 == i1);
    } else {
        assert forall|i: int| 0 <= i < s2.len() implies !#[trigger] eligible(s2[i]) by {
            assert(s2.contains(s2[i]));
            assert(s1.to_multiset().count(s2[i]) > 0);
            let k = choose|k: int| 0 <= k < s1.len() && s1[k] == s2[i];
            assert(!eligible(s1[k]));
        }
    }
}

/// A sequence with an eligible candidate has a topmost one.
pub proof fn lemma_topmost_exists(s: Seq<Candidate>)
    requires
        has_eligible(s),
    ensures
        is_topmost(s, topmost(s)),
    decreases s.len(),
{
    let last = s.len() - 1;
    let init = s.drop_last();
    if has_eligible(init) {
        lemma_topmost_exists(init);
        let t = topmost(init);
        if eligible(s[last]) && s[t].depth <= s[last].depth {
            assert forall|j: int| 0 <= j < s.len() && #[trigger] eligible(s[j]) implies s[j].depth
                <= s[last].depth by {
                if j < last {
                    assert(eligible(init[j]));
                }
            }
            assert(is_topmost(s, last));
        } else {
            assert(is_topmost(s, t)) by {
                assert forall|j: int| 0 <= j < s.len() && #[trigger] eligible(s[j]) implies s[j].depth
                    <= s[t].depth by {
                    if j < last {
                        assert(eligible(init[j]));
                    }
                }
                assert forall|j: int| t < j < s.len() && #[trigger] eligible(s[j]) implies s[j].depth
                    < s[t].depth by {
                    if j < last {
                        assert(eligible(init[j]));
                    }
                }
            }
        }
    } else {
        let w = choose|i: int| 0 <= i < s.len() && #[trigger] eligible(s[i]);
        if w < last {
            assert(eligible(init[w]));
        }
        assert forall|j: int| 0 <= j < s.len() && #[trigger] eligible(s[j]) implies j == last by {
            if j < last {
                assert(eligible(init[j]));
            }
        }
        assert(is_topmost(s, last));
    }
}

/// The gesture in progress, if any.
#[derive(Debug, Clone, Copy, PartialEq, Eq)]
pub enum PressedEntity {
    /// No press is being tracked.
    Idle,
    /// A press that started on `start_entity` (or on empty space) and is now
    /// over `current_entity`.
    Pressed {
        start_entity: Option<ElementId>,
        current_entity: Option<ElementId>,
        start_elapsed: Duration,
        device: InputDevice,
    },
}

impl PressedEntity {
    /// Whether the tracked press belongs to the mouse.
    pub fn is_mouse(&self) -> (r: bool)
        ensures
            r <==> owned_by(*self, InputDevice::Mouse),
    {
        match self {
            PressedEntity::Idle => false,
            PressedEntity::Pressed { device, .. } => *device == InputDevice::Mouse,
        }
    }
}

impl Default for PressedEntity {
    fn default() -> (r: PressedEntity)
        ensures
            r == PressedEntity::Idle,
    {
        PressedEntity::Idle
    }
}

/// The press is tracked for `device`.
pub open spec fn owned_by(state: PressedEntity, device: InputDevice) -> bool {
    state matches PressedEntity::Pressed { device: d, .. } && d == device
}

/// The press is tracked for a device other than `device`, which therefore
/// may not disturb it (but by starting a new press).
pub open spec fn owned_by_other(state: PressedEntity, device: InputDevice) -> bool {
    state matches PressedEntity::Pressed { device: d, .. } && d != device
}

/// A fresh press by `device` at time `now`, starting over `target`.
pub open spec fn fresh_press(target: Option<ElementId>, now: Duration, device: InputDevice) -> PressedEntity {
    PressedEntity::Pressed {
        start_entity: target,
        current_entity: target,
        start_elapsed: now,
        device,
    }
}

/// The press state after a sample from `device`, in phase `phase`, whose
/// position targets `target`.
pub open spec fn press_transition(
    state: PressedEntity,
    device: InputDevice,
    phase: ClickPhase,
    target: Option<ElementId>,
    now: Duration,
) -> PressedEntity {
    if phase == ClickPhase::Start {
        fresh_press(target, now, device)
    } else if owned_by_other(state, device) {
        state
    } else if phase == ClickPhase::End {
        PressedEntity::Idle
    } else {
        match target {
            None => state,
            Some(t) => match state {
                PressedEntity::Idle => fresh_press(target, now, device),
                PressedEntity::Pressed { start_entity, start_elapsed, device: d, .. } =>
                    PressedEntity::Pressed {
                    start_entity,
                    current_entity: Some(t),
                    start_elapsed,
                    device: d,
                },
            },
        }
    }
}

/// The press state after a sample from `device` whose position could not be
/// resolved: the press is dropped unless another device owns it.
pub open spec fn unresolved_transition(
    state: PressedEntity,
    device: InputDevice,
    phase: ClickPhase,
) -> PressedEntity {
    if phase == ClickPhase::Start || !owned_by_other(state, device) {
        PressedEntity::Idle
    } else {
        state
    }
}

/// Computes `press_transition`.
pub fn next_press_state(
    state: PressedEntity,
    device: InputDevice,
    phase: ClickPhase,
    target: Option<ElementId>,
    now: Duration,
) -> (r: PressedEntity)
    ensures
        r == press_transition(state, device, phase, target, now),
{
    if phase == ClickPhase::Start {
        return PressedEntity::Pressed {
            start_entity: target,
            current_entity: target,
            start_elapsed: now,
            device,
        };
    }
    let other = match state {
        PressedEntity::Idle => false,
        PressedEntity::Pressed { device: d, .. } => d != device,
    };
    if other {
        state
    } else if phase == ClickPhase::End {
        PressedEntity::Idle
    } else {
        match target {
            None => state,
            Some(t) => match state {
                PressedEntity::Idle => PressedEntity::Pressed {
                    start_entity: target,
                    current_entity: target,
                    start_elapsed: now,
                    device,
                },
                PressedEntity::Pressed { start_entity, start_elapsed, device: d, .. } =>
                    PressedEntity::Pressed {
                    start_entity,
                    current_entity: Some(t),
                    start_elapsed,
                    device: d,
                },
            },
        }
    }
}

/// A click to deliver to the handler of the element at `index` in the
/// candidate list it was selected from.
#[derive(Debug, Clone, Copy, PartialEq, Eq, Structural, Hash)]
pub struct ClickDispatch {
    pub index: usize,
    pub entity: ElementId,
    pub input_device: InputDevice,
    pub click_phase: ClickPhase,
}

/// The click, if any, that a sample at a position with these candidates
/// produces.
pub open spec fn dispatch_for(c: Seq<Candidate>, device: InputDevice, phase: ClickPhase) -> Option<
    ClickDispatch,
> {
    if has_eligible(c) {
        Some(
            ClickDispatch {
                index: topmost(c) as usize,
                entity: c[topmost(c)].entity,
                input_device: device,
                click_phase: phase,
            },
        )
    } else {
        None
    }
}

/// The candidates seen from a sample's position, or `None` where the
/// position could not be resolved.
pub open spec fn resolved(c: Option<Vec<Candidate>>) -> Option<Seq<Candidate>> {
    match c {
        Some(v) => Some(v@),
        None => None,
    }
}

/// The press state after one sample.
pub open spec fn sample_transition(
    state: PressedEntity,
    device: InputDevice,
    phase: ClickPhase,
    candidates: Option<Seq<Candidate>>,
    now: Duration,
) -> PressedEntity {
    match candidates {
        None => unresolved_transition(state, device, phase),
        Some(c) => press_transition(state, device, phase, target_of(c), now),
    }
}

/// The click that one sample produces.
pub open spec fn sample_dispatch(
    device: InputDevice,
    phase: ClickPhase,
    candidates: Option<Seq<Candidate>>,
) -> Option<ClickDispatch> {
    match candidates {
        None => None,
        Some(c) => dispatch_for(c, device, phase),
    }
}

/// Resolves one resolved pointer sample: selects the target among
/// `candidates`, updates the press state and returns the click to deliver.
pub fn handle_sample(
    state: &mut PressedEntity,
    device: InputDevice,
    phase: ClickPhase,
    candidates: &Vec<Candidate>,
    now: Duration,
) -> (r: Option<ClickDispatch>)
    ensures
        r == dispatch_for(candidates@, device, phase),
        *final(state) == press_transition(*old(state), device, phase, target_of(candidates@), now),
{
    match select_target(candidates) {
        None => {
            *state = next_press_state(*state, device, phase, None, now);
            None
        },
        Some(i) => {
            let entity = candidates[i].entity;
            proof {
                lemma_topmost_is(candidates@, i as int);
            }
            *state = next_press_state(*state, device, phase, Some(entity), now);
            Some(ClickDispatch { index: i, entity, input_device: device, click_phase: phase })
        },
    }
}

/// Handles one sample whose position may be unknown.
fn handle_optional_sample(
    state: &mut PressedEntity,
    device: InputDevice,
    phase: ClickPhase,
    candidates: &Option<Vec<Candidate>>,
    now: Duration,
) -> (r: Option<ClickDispatch>)
    ensures
        r == sample_dispatch(device, phase, resolved(*candidates)),
        *final(state) == sample_transition(*old(state), device, phase, resolved(*candidates), now),
{
    match candidates {
        None => {
            let other = match *state {
                PressedEntity::Idle => false,
                PressedEntity::Pressed { device: d, .. } => d != device,
            };
            if phase == ClickPhase::Start || !other {
                *state = PressedEntity::Idle;
            }
            None
        },
        Some(c) => handle_sample(state, device, phase, c, now),
    }
}

/// The state of the primary mouse button in this frame.
#[derive(Debug, Clone, Copy, PartialEq, Eq, Structural, Default)]
pub struct MouseButtons {
    pub just_pressed: bool,
    pub pressed: bool,
    pub just_released: bool,
}

pub open spec fn mouse_phase(b: MouseButtons) -> Option<ClickPhase> {
    if b.just_released {
        Some(ClickPhase::End)
    } else if b.just_pressed {
        Some(ClickPhase::Start)
    } else if b.pressed {
        Some(ClickPhase::Move)
    } else {
        None
    }
}

/// The gesture phase that the mouse button state stands for: a release ends
/// a gesture, a fresh press starts one, a held button moves it.
pub fn mouse_click_phase(b: MouseButtons) -> (r: Option<ClickPhase>)
    ensures
        r == mouse_phase(b),
{
    if b.just_released {
        Some(ClickPhase::End)
    } else if b.just_pressed {
        Some(ClickPhase::Start)
    } else if b.pressed {
        Some(ClickPhase::Move)
    } else {
        None
    }
}

/// The press state after the mouse is polled.
pub open spec fn mouse_transition(
    state: PressedEntity,
    buttons: MouseButtons,
    cursor: Option<Seq<Candidate>>,
    now: Duration,
) -> PressedEntity {
    match mouse_phase(buttons) {
        None => if owned_by(state, InputDevice::Mouse) {
            PressedEntity::Idle
        } else {
            state
        },
        Some(phase) => sample_transition(state, InputDevice::Mouse, phase, cursor, now),
    }
}

/// One frame of mouse input. `cursor` holds the candidates seen from the
/// cursor position, or `None` when the cursor position is unknown.
pub fn handle_mouse_clicks(
    state: &mut PressedEntity,
    buttons: MouseButtons,
    cursor: &Option<Vec<Candidate>>,
    now: Duration,
) -> (r: Option<ClickDispatch>)
    ensures
        r == match mouse_phase(buttons) {
            None => None,
            Some(phase) => sample_dispatch(InputDevice::Mouse, phase, resolved(*cursor)),
        },
        *final(state) == mouse_transition(*old(state), buttons, resolved(*cursor), now),
{
    match mouse_click_phase(buttons) {
        None => {
            if state.is_mouse() {
                *state = PressedEntity::Idle;
            }
            None
        },
        Some(phase) => handle_optional_sample(state, InputDevice::Mouse, phase, cursor, now),
    }
}

/// The phase of a touch sample as the host reports it.
#[derive(Debug, Clone, Copy, PartialEq, Eq, Structural, Hash)]
pub enum TouchPhase {
    Started,
    Moved,
    Ended,
    Canceled,
}

pub open spec fn touch_phase_spec(p: TouchPhase) -> ClickPhase {
    match p {
        TouchPhase::Started => ClickPhase::Start,
        TouchPhase::Moved => ClickPhase::Move,
        TouchPhase::Ended | TouchPhase::Canceled => ClickPhase::End,
    }
}

impl TouchPhase {
    /// A cancelled touch ends its gesture like a lifted one.
    pub fn click_phase(self) -> (r: ClickPhase)
        ensures
            r == touch_phase_spec(self),
    {
        match self {
            TouchPhase::Started => ClickPhase::Start,
            TouchPhase::Moved => ClickPhase::Move,
            TouchPhase::Ended => ClickPhase::End,
            TouchPhase::Canceled => ClickPhase::End,
        }
    }
}

/// One touch sample: its phase and the candidates seen from its position,
/// or `None` when the position could not be resolved.
#[derive(Debug, Clone, PartialEq, Eq)]
pub struct TouchSample {
    pub phase: TouchPhase,
    pub candidates: Option<Vec<Candidate>>,
}

/// The press state after the touch samples `samples`, taken in order.
pub open spec fn touch_transitions(state: PressedEntity, samples: Seq<TouchSample>, now: Duration) -> PressedEntity
    decreases samples.len(),
{
    if samples.len() == 0 {
        state
    } else {
        let last = samples.last();
        sample_transition(
            touch_transitions(state, samples.drop_last(), now),
            InputDevice::Touch,
            touch_phase_spec(last.phase),
            resolved(last.candidates),
            now,
        )
    }
}

/// One frame of touch input: the samples are resolved in order, and the
/// result holds the click, if any, of each sample.
pub fn handle_touches(state: &mut PressedEntity, samples: &Vec<TouchSample>, now: Duration) -> (r: Vec<
    Option<ClickDispatch>,
>)
    ensures
        r@.len() == samples@.len(),
        forall|k: int|
            0 <= k < samples@.len() ==> #[trigger] r@[k] == sample_dispatch(
                InputDevice::Touch,
                touch_phase_spec(samples@[k].phase),
                resolved(samples@[k].candidates),
            ),
        *final(state) == touch_transitions(*old(state), samples@, now),
{
    let mut out: Vec<Option<ClickDispatch>> = Vec::new();
    let mut k: usize = 0;
    while k < samples.len()
        invariant
            k <= samples@.len(),
            out@.len() == k,
            forall|j: int|
                0 <= j < k ==> #[trigger] out@[j] == sample_dispatch(
                    InputDevice::Touch,
                    touch_phase_spec(samples@[j].phase),
                    resolved(samples@[j].candidates),
                ),
            *state == touch_transitions(*old(state), samples@.subrange(0, k as int), now),
        decreases samples.len() - k,
    {
        let sample = &samples[k];
        let phase = sample.phase.click_phase();
        let d = handle_optional_sample(state, InputDevice::Touch, phase, &sample.candidates, now);
        out.push(d);
        assert(samples@.subrange(0, k + 1).drop_last() =~= samples@.subrange(0, k as int));
        k = k + 1;
    }
    assert(samples@.subrange(0, k as int) =~= samples@);
    out
}

/// Polling the mouse never alters a press that a touch owns unless the
/// mouse starts a press of its own: a held button moving the cursor, a
/// release, or no button at all leave the touch press as it was.
pub proof fn lemma_mouse_leaves_touch_press(
    state: PressedEntity,
    buttons: MouseButtons,
    cursor: Option<Seq<Candidate>>,
    now: Duration,
)
    requires
        owned_by(state, InputDevice::Touch),
        mouse_phase(buttons) != Some(ClickPhase::Start),
    ensures
        mouse_transition(state, buttons, cursor, now) == state,
{
}

/// Order key of an `f32` depth given by its bit pattern: keys compare as the
/// IEEE 754 total order compares the floats (negative values below positive
/// ones, `-0.0` just below `+0.0`).
pub open spec fn depth_key_of(bits: u32) -> int {
    if bits < 0x8000_0000 {
        bits as int
    } else {
        -1 - (bits - 0x8000_0000)
    }
}

/// The order key of an `f32` depth, from its bit pattern.
pub fn depth_key(bits: u32) -> (r: i64)
    ensures
        r == depth_key_of(bits),
{
    if bits < 0x8000_0000u32 {
        bits as i64
    } else {
        -1i64 - ((bits - 0x8000_0000u32) as i64)
    }
}

} // verus!
