use vstd::prelude::*;
use vstd::string::StringExecFns;
use super::component::Component;
use super::pin::{Pin, PinDirection, PinStateChange, PinView};
use crate::emulator::EmulatorError;
use std::ops::Range;
use crate::text::{same_text, spec_decimal, with_number};

verus! {

/// The id of the first pin that a circuit links.
pub const FIRST_PIN_ID: u32 = 2;

/// The power supply of a circuit, the component "POW": its "VCC" pin is a
/// high output. It also has a low "GND" pin, which it does not give out.
pub struct Power {
    vcc: Pin,
    gnd: Pin,
}

impl Power {
    pub closed spec fn spec_vcc(&self) -> PinView {
        self.vcc@
    }

    fn new() -> (r: Power)
        ensures
            r.spec_vcc().name == "VCC"@,
            r.spec_vcc().group_id is None,
            r.spec_vcc().direction == PinDirection::Output,
            r.spec_vcc().value,
    {
        let mut p = Power { vcc: Pin::output("VCC"), gnd: Pin::input("GND") };
        let _ = p.vcc.set_high();
        p.gnd.set_val(false);
        p
    }
}

impl PinStateChange for Power {
    /// The supply does not react.
    closed spec fn reacted(&self, before: &Self, pin: PinView) -> bool {
        *self == *before
    }

    fn on_state_change(&mut self, _pin: &Pin) {
    }
}

impl Component for Power {
    open spec fn has_pin(&self, name: Seq<char>) -> bool {
        name == "VCC"@
    }

    /// The VCC pin.
    open spec fn pin(&self, name: Seq<char>) -> PinView {
        self.spec_vcc()
    }

    closed spec fn pin_replaced(&self, before: &Self, name: Seq<char>, p: PinView) -> bool {
        self.vcc@ == p && self.gnd == before.gnd
    }

    proof fn lemma_pin_replaced(&self, before: &Self, name: Seq<char>, p: PinView, other: Seq<char>) {
    }

    fn get_pin(&self, name: &str) -> (r: Option<&Pin>) {
        proof {
            reveal_strlit("VCC");
        }
        if same_text(name, "VCC") {
            Some(&self.vcc)
        } else {
            None
        }
    }

    fn get_pin_mut(&mut self, name: &str) -> (r: Option<&mut Pin>) {
        proof {
            reveal_strlit("VCC");
        }
        if same_text(name, "VCC") {
            Some(&mut self.vcc)
        } else {
            None
        }
    }
}

/// The index of the component named `name`, if any.
pub open spec fn find_component<C>(comps: Seq<(String, C)>, name: Seq<char>) -> Option<int> {
    if exists|i: int| 0 <= i < comps.len() && #[trigger] comps[i].0@ == name {
        Some(choose|i: int| 0 <= i < comps.len() && #[trigger] comps[i].0@ == name)
    } else {
        None
    }
}

/// No two components have the same name.
pub open spec fn unique_names<C>(comps: Seq<(String, C)>) -> bool {
    forall|i: int, j: int|
        0 <= i < comps.len() && 0 <= j < comps.len() && #[trigger] comps[i].0@ == #[trigger] comps[j].0@
            ==> i == j
}

/// There is a component of that name: one that was added, or the power supply.
pub open spec fn component_exists<C>(comps: Seq<(String, C)>, name: Seq<char>) -> bool {
    find_component(comps, name) is Some || name == "POW"@
}

/// The component of that name has a pin of that name.
pub open spec fn component_has_pin<C: Component>(
    comps: Seq<(String, C)>,
    name: Seq<char>,
    pin: Seq<char>,
) -> bool {
    match find_component(comps, name) {
        Some(i) => comps[i].1.has_pin(pin),
        None => name == "POW"@ && pin == "VCC"@,
    }
}

/// What linking a writer pin to a reader pin recorded: (component, pin) of each.
pub struct LinkView {
    pub writer: (Seq<char>, Seq<char>),
    pub reader: (Seq<char>, Seq<char>),
}

/// The link `k` of the recorded pins, which come in (writer, reader) pairs.
pub open spec fn link_at(pins: Seq<(String, String)>, k: int) -> LinkView {
    LinkView {
        writer: (pins[2 * k].0@, pins[2 * k].1@),
        reader: (pins[2 * k + 1].0@, pins[2 * k + 1].1@),
    }
}

/// The error that building reports for a link, if any: a writer component
/// that is missing, or a pin that is missing on either side.
pub open spec fn link_error_matches<C: Component>(
    comps: Seq<(String, C)>,
    l: LinkView,
    e: EmulatorError,
) -> bool {
    if !component_exists(comps, l.writer.0) {
        e matches EmulatorError::ComponentNotFound(n) && n@ == l.writer.0
    } else if !component_has_pin(comps, l.writer.0, l.writer.1) {
        e matches EmulatorError::PinNotFound(c, p) && c@ == l.writer.0 && p@ == l.writer.1
    } else {
        e matches EmulatorError::PinNotFound(c, p) && c@ == l.reader.0 && p@ == l.reader.1
    }
}

/// A link whose components and pins are all there.
pub open spec fn link_ok<C: Component>(comps: Seq<(String, C)>, l: LinkView) -> bool {
    &&& component_exists(comps, l.writer.0)
    &&& component_has_pin(comps, l.writer.0, l.writer.1)
    &&& component_has_pin(comps, l.reader.0, l.reader.1)
}

/// The number of values in a range.
pub open spec fn range_len(range: Range<u8>) -> int {
    if range.start <= range.end {
        range.end - range.start
    } else {
        0
    }
}

/// The (component, pin) names of recorded pins.
pub open spec fn pin_names(pins: Seq<(String, String)>) -> Seq<(Seq<char>, Seq<char>)> {
    pins.map_values(|p: (String, String)| (p.0@, p.1@))
}

/// The (component, pin) names that linking the pin `wp` + `i` of `w` to the
/// pin `rp` + `i` of `r` records, for each `i` from `start` on, `n` times in
/// increasing order (`i` in decimal).
pub open spec fn range_link_names(
    w: Seq<char>,
    wp: Seq<char>,
    r: Seq<char>,
    rp: Seq<char>,
    start: int,
    n: nat,
) -> Seq<(Seq<char>, Seq<char>)>
    decreases n,
{
    if n == 0 {
        Seq::empty()
    } else {
        let i = (start + n - 1) as nat;
        range_link_names(w, wp, r, rp, start, (n - 1) as nat).push((w, wp + spec_decimal(i))).push(
            (r, rp + spec_decimal(i)),
        )
    }
}

/// Linking a range of one more pin records what linking the shorter range
/// records, and then what one more `link` of the next pins records.
pub proof fn lemma_link_range_extends(
    w: Seq<char>,
    wp: Seq<char>,
    r: Seq<char>,
    rp: Seq<char>,
    start: int,
    n: nat,
)
    requires
        start + n >= 0,
    ensures
        range_link_names(w, wp, r, rp, start, n + 1) == range_link_names(
            w,
            wp,
            r,
            rp,
            start,
            n,
        ).push((w, wp + spec_decimal((start + n) as nat))).push(
            (r, rp + spec_decimal((start + n) as nat)),
        ),
{
}

/// The names of components.
pub open spec fn component_names<C>(comps: Seq<(String, C)>) -> Seq<Seq<char>> {
    comps.map_values(|c: (String, C)| c.0@)
}

fn find_index<C>(comps: &Vec<(String, C)>, name: &str) -> (r: Option<usize>)
    requires
        unique_names(comps@),
    ensures
        match r {
            Some(i) => find_component(comps@, name@) == Some(i as int),
            None => find_component(comps@, name@) is None,
        },
{
    let mut i: usize = 0;
    while i < comps.len()
        invariant
            i <= comps@.len(),
            unique_names(comps@),
            forall|j: int| 0 <= j < i ==> #[trigger] comps@[j].0@ != name@,
        decreases comps.len() - i,
    {
        if same_text(comps[i].0.as_str(), name) {
            proof {
                let c = choose|j: int| 0 <= j < comps@.len() && #[trigger] comps@[j].0@ == name@;
                assert(comps@[c].0@ == comps@[i as int].0@);
            }
            return Some(i);
        }
        i = i + 1;
    }
    None
}

fn has_component<C>(comps: &Vec<(String, C)>, name: &str) -> (r: bool)
    requires
        unique_names(comps@),
    ensures
        r == component_exists(comps@, name@),
{
    proof {
        reveal_strlit("POW");
    }
    find_index(comps, name).is_some() || same_text(name, "POW")
}

fn has_pin<C: Component>(comps: &Vec<(String, C)>, power: &Power, name: &str, pin: &str) -> (r: bool)
    requires
        unique_names(comps@),
    ensures
        r == component_has_pin(comps@, name@, pin@),
{
    proof {
        reveal_strlit("POW");
        reveal_strlit("VCC");
    }
    match find_index(comps, name) {
        Some(i) => comps[i].1.get_pin(pin).is_some(),
        None => same_text(name, "POW") && power.get_pin(pin).is_some(),
    }
}

fn copy_links(links: &Vec<(u32, u32)>) -> (r: Vec<(u32, u32)>)
    ensures
        r@ == links@,
{
    let mut out: Vec<(u32, u32)> = Vec::new();
    let mut i: usize = 0;
    while i < links.len()
        invariant
            i <= links@.len(),
            out@ == links@.take(i as int),
        decreases links.len() - i,
    {
        out.push(links[i]);
        i = i + 1;
        assert(out@ =~= links@.take(i as int));
    }
    assert(links@.take(links@.len() as int) =~= links@);
    out
}

fn copy_pins(pins: &Vec<(String, String)>) -> (r: Vec<(String, String)>)
    ensures
        pin_names(r@) == pin_names(pins@),
{
    let mut out: Vec<(String, String)> = Vec::new();
    let mut i: usize = 0;
    while i < pins.len()
        invariant
            i <= pins@.len(),
            out@.len() == i,
            forall|j: int| 0 <= j < i ==> #[trigger] out@[j].0@ == pins@[j].0@ && out@[j].1@ == pins@[j].1@,
        decreases pins.len() - i,
    {
        out.push((pins[i].0.clone(), pins[i].1.clone()));
        i = i + 1;
    }
    assert(pin_names(out@) =~= pin_names(pins@));
    out
}

/// Link `k` is the first one that is not fine.
pub open spec fn first_bad_link<C: Component>(
    comps: Seq<(String, C)>,
    pins: Seq<(String, String)>,
    k: int,
) -> bool {
    &&& forall|j: int| 0 <= j < k ==> link_ok(comps, #[trigger] link_at(pins, j))
    &&& !link_ok(comps, link_at(pins, k))
}

/// The components and the supply after the pin `pin` of the component
/// `comp` ("POW" is the supply) got the id `id`, unless it had one: only
/// that pin changes, and nothing changes where there is no such pin.
pub open spec fn id_set<C: Component>(
    after: (Seq<(String, C)>, Power),
    before: (Seq<(String, C)>, Power),
    comp: Seq<char>,
    pin: Seq<char>,
    id: u32,
) -> bool {
    match find_component(before.0, comp) {
        Some(i) => {
            &&& after.1 == before.1
            &&& after.0.len() == before.0.len()
            &&& forall|j: int| 0 <= j < before.0.len() && j != i ==> #[trigger] after.0[j] == before.0[j]
            &&& after.0[i].0 == before.0[i].0
            &&& if before.0[i].1.has_pin(pin) {
                after.0[i].1.pin_replaced(
                    &before.0[i].1,
                    pin,
                    before.0[i].1.pin(pin).spec_set_inner_id(id),
                )
            } else {
                after.0[i].1 == before.0[i].1
            }
        },
        None => {
            &&& after.0 == before.0
            &&& if comp == "POW"@ && before.1.has_pin(pin) {
                after.1.pin_replaced(&before.1, pin, before.1.pin(pin).spec_set_inner_id(id))
            } else {
                after.1 == before.1
            }
        },
    }
}

/// The components and the supply after the ids of the first `n` links were
/// given: for each link in turn, its writer pin gets the link's even id,
/// then its reader pin the odd one.
pub open spec fn ids_assigned<C: Component>(
    after: (Seq<(String, C)>, Power),
    before: (Seq<(String, C)>, Power),
    pins: Seq<(String, String)>,
    n: nat,
) -> bool
    decreases n, 1nat,
{
    if n == 0 {
        after == before
    } else {
        ids_assigned_through(after, before, pins, (n - 1) as nat)
    }
}

/// The ids of the links before `k` were given, then those of link `k`.
pub open spec fn ids_assigned_through<C: Component>(
    after: (Seq<(String, C)>, Power),
    before: (Seq<(String, C)>, Power),
    pins: Seq<(String, String)>,
    k: nat,
) -> bool
    decreases k, 2nat,
{
    exists|m1: (Seq<(String, C)>, Power), m2: (Seq<(String, C)>, Power)|
        ids_assigned(m1, before, pins, k) && #[trigger] id_set(
            m2,
            m1,
            pins[2 * k as int].0@,
            pins[2 * k as int].1@,
            (FIRST_PIN_ID + 2 * k) as u32,
        ) && #[trigger] id_set(
            after,
            m2,
            pins[2 * k as int + 1].0@,
            pins[2 * k as int + 1].1@,
            (FIRST_PIN_ID + 2 * k + 1) as u32,
        )
}

/// `after` is what `before` became when its pin `name` took `v` and the
/// component reacted to it.
pub open spec fn set_and_reacted<C: Component>(after: C, before: C, name: Seq<char>, v: PinView) -> bool {
    exists|mid: C| mid.pin_replaced(&before, name, v) && #[trigger] after.reacted(&mid, v)
}

/// What the pin `pin` of the component `comp` ("POW" is the supply) holds.
pub open spec fn pin_of<C: Component>(
    state: (Seq<(String, C)>, Power),
    comp: Seq<char>,
    pin: Seq<char>,
) -> PinView {
    match find_component(state.0, comp) {
        Some(i) => state.0[i].1.pin(pin),
        None => state.1.pin(pin),
    }
}

/// `after` is `before` with the pin `pin` of the component `comp` holding
/// `p`; nothing else differs.
pub open spec fn pin_written<C: Component>(
    after: (Seq<(String, C)>, Power),
    before: (Seq<(String, C)>, Power),
    comp: Seq<char>,
    pin: Seq<char>,
    p: PinView,
) -> bool {
    match find_component(before.0, comp) {
        Some(i) => {
            &&& after.1 == before.1
            &&& after.0.len() == before.0.len()
            &&& forall|j: int| 0 <= j < before.0.len() && j != i ==> #[trigger] after.0[j] == before.0[j]
            &&& after.0[i].0 == before.0[i].0
            &&& after.0[i].1.pin_replaced(&before.0[i].1, pin, p)
        },
        None => {
            &&& after.0 == before.0
            &&& after.1.pin_replaced(&before.1, pin, p)
        },
    }
}

/// What writing `val` to the pin `pin` of the component `comp` made of
/// `before`: the pin is written as `Pin::write` does; when that changed its
/// state and the pin carries an id, the change went along the link.
pub open spec fn written_then_passed<C: Component>(
    after: (Seq<(String, C)>, Power),
    before: (Seq<(String, C)>, Power),
    pins: Seq<(String, String)>,
    links: nat,
    comp: Seq<char>,
    pin: Seq<char>,
    val: bool,
) -> bool {
    let v = pin_of(before, comp, pin);
    let w = v.spec_write(val);
    exists|mid: (Seq<(String, C)>, Power)|
        #[trigger] pin_written(mid, before, comp, pin, w.0) && if w.1 == Some(true)
            && v.inner_id is Some {
            propagated(after, mid, pins, links, v.inner_id->0, val)
        } else {
            after == mid
        }
}

/// The components after a change of state of the pin with id `writer_id`
/// went along its link: the reader pin took `state` (an input pin does) and
/// its component reacted; nothing changes where there is no such link, or
/// no such reader.
pub open spec fn propagated<C: Component>(
    after: (Seq<(String, C)>, Power),
    before: (Seq<(String, C)>, Power),
    pins: Seq<(String, String)>,
    links: nat,
    writer_id: u32,
    state: bool,
) -> bool {
    let k = (writer_id - FIRST_PIN_ID) / 2;
    let reader = pins[2 * k + 1];
    if writer_id >= FIRST_PIN_ID && (writer_id - FIRST_PIN_ID) % 2 == 0 && k < links
        && find_component(before.0, reader.0@) is Some && before.0[find_component(
        before.0,
        reader.0@,
    )->0].1.has_pin(reader.1@) {
        let i = find_component(before.0, reader.0@)->0;
        let c = before.0[i].1;
        let v = c.pin(reader.1@).spec_set_val(state);
        &&& after.1 == before.1
        &&& after.0.len() == before.0.len()
        &&& forall|j: int| 0 <= j < before.0.len() && j != i ==> #[trigger] after.0[j] == before.0[j]
        &&& after.0[i].0 == before.0[i].0
        &&& set_and_reacted(after.0[i].1, c, reader.1@, v)
    } else {
        after == before
    }
}

/// Giving the links their ids keeps the supply's VCC pin as it was but for
/// its link id: name, direction and state stay.
pub proof fn lemma_ids_keep_supply<C: Component>(
    after: (Seq<(String, C)>, Power),
    before: (Seq<(String, C)>, Power),
    pins: Seq<(String, String)>,
    n: nat,
)
    requires
        ids_assigned(after, before, pins, n),
    ensures
        after.1.spec_vcc() == (PinView { inner_id: after.1.spec_vcc().inner_id, ..before.1.spec_vcc() }),
    decreases n,
{
    if n > 0 {
        let k = (n - 1) as nat;
        let (m1, m2) = choose|m1: (Seq<(String, C)>, Power), m2: (Seq<(String, C)>, Power)|
            ids_assigned(m1, before, pins, k) && #[trigger] id_set(
                m2,
                m1,
                pins[2 * k as int].0@,
                pins[2 * k as int].1@,
                (FIRST_PIN_ID + 2 * k) as u32,
            ) && #[trigger] id_set(
                after,
                m2,
                pins[2 * k as int + 1].0@,
                pins[2 * k as int + 1].1@,
                (FIRST_PIN_ID + 2 * k + 1) as u32,
            );
        lemma_ids_keep_supply(m1, before, pins, k);
    }
}

/// Two lists of components with the same name at every place.
pub open spec fn same_names<C>(a: Seq<(String, C)>, b: Seq<(String, C)>) -> bool {
    &&& a.len() == b.len()
    &&& forall|i: int| 0 <= i < a.len() ==> #[trigger] a[i].0 == b[i].0
}

proof fn lemma_find_same_names<C>(a: Seq<(String, C)>, b: Seq<(String, C)>, name: Seq<char>)
    requires
        same_names(a, b),
        unique_names(b),
    ensures
        unique_names(a),
        find_component(a, name) == find_component(b, name),
{
    assert forall|i: int, j: int|
        0 <= i < a.len() && 0 <= j < a.len() && #[trigger] a[i].0@ == #[trigger] a[j].0@ implies i
        == j by {
        assert(b[i].0@ == b[j].0@);
    }
    if exists|i: int| 0 <= i < b.len() && #[trigger] b[i].0@ == name {
        let i = choose|i: int| 0 <= i < b.len() && #[trigger] b[i].0@ == name;
        assert(a[i].0@ == name);
        let ia = find_component(a, name)->0;
        let ib = find_component(b, name)->0;
        assert(a[ia].0@ == name && b[ib].0@ == name);
        assert(b[ia].0@ == name);
    } else {
        assert forall|i: int| 0 <= i < a.len() implies #[trigger] a[i].0@ != name by {
            assert(b[i].0@ != name);
        }
    }
}

/// The link id that the pin `pin` of `comp` holds after the ids of the
/// first `n` links were given, when it held `init` before: its first place
/// among the recorded pins gives it, unless it had one.
pub open spec fn assigned_id(
    pins: Seq<(String, String)>,
    n: nat,
    comp: Seq<char>,
    pin: Seq<char>,
    init: Option<u32>,
) -> Option<u32>
    decreases n,
{
    if n == 0 {
        init
    } else {
        let k = (n - 1) as nat;
        let prev = assigned_id(pins, k, comp, pin, init);
        let mid = if prev is None && pins[2 * k as int].0@ == comp && pins[2 * k as int].1@ == pin {
            Some((FIRST_PIN_ID + 2 * k) as u32)
        } else {
            prev
        };
        if mid is None && pins[2 * k as int + 1].0@ == comp && pins[2 * k as int + 1].1@ == pin {
            Some((FIRST_PIN_ID + 2 * k + 1) as u32)
        } else {
            mid
        }
    }
}

proof fn lemma_id_set_pin<C: Component>(
    after: (Seq<(String, C)>, Power),
    before: (Seq<(String, C)>, Power),
    comp: Seq<char>,
    pin: Seq<char>,
    id: u32,
    c2: Seq<char>,
    p2: Seq<char>,
)
    requires
        id_set(after, before, comp, pin, id),
        unique_names(before.0),
        component_has_pin(before.0, c2, p2),
    ensures
        same_names(after.0, before.0),
        unique_names(after.0),
        component_has_pin(after.0, c2, p2),
        pin_of(after, c2, p2) == if c2 == comp && p2 == pin {
            pin_of(before, c2, p2).spec_set_inner_id(id)
        } else {
            pin_of(before, c2, p2)
        },
{
    lemma_find_same_names(after.0, before.0, c2);
    match find_component(before.0, comp) {
        Some(i) => {
            if before.0[i].1.has_pin(pin) {
                let p = before.0[i].1.pin(pin).spec_set_inner_id(id);
                after.0[i].1.lemma_pin_replaced(&before.0[i].1, pin, p, p2);
            }
        },
        None => {
            if comp == "POW"@ && before.1.has_pin(pin) {
                let p = before.1.pin(pin).spec_set_inner_id(id);
                after.1.lemma_pin_replaced(&before.1, pin, p, p2);
            }
        },
    }
}

/// Giving the links their ids leaves the components, their names and their
/// pins as they were, but for the link ids: each pin takes the id of its
/// first place among the recorded pins, unless it had one.
pub proof fn lemma_ids_pin<C: Component>(
    after: (Seq<(String, C)>, Power),
    before: (Seq<(String, C)>, Power),
    pins: Seq<(String, String)>,
    n: nat,
    comp: Seq<char>,
    pin: Seq<char>,
)
    requires
        ids_assigned(after, before, pins, n),
        2 * n <= pins.len(),
        unique_names(before.0),
        component_has_pin(before.0, comp, pin),
    ensures
        same_names(after.0, before.0),
        unique_names(after.0),
        component_has_pin(after.0, comp, pin),
        pin_of(after, comp, pin) == (PinView {
            inner_id: assigned_id(pins, n, comp, pin, pin_of(before, comp, pin).inner_id),
            ..pin_of(before, comp, pin)
        }),
    decreases n,
{
    if n == 0 {
        assert(same_names(after.0, before.0));
    } else {
        let k = (n - 1) as nat;
        let (m1, m2) = choose|m1: (Seq<(String, C)>, Power), m2: (Seq<(String, C)>, Power)|
            ids_assigned(m1, before, pins, k) && #[trigger] id_set(
                m2,
                m1,
                pins[2 * k as int].0@,
                pins[2 * k as int].1@,
                (FIRST_PIN_ID + 2 * k) as u32,
            ) && #[trigger] id_set(
                after,
                m2,
                pins[2 * k as int + 1].0@,
                pins[2 * k as int + 1].1@,
                (FIRST_PIN_ID + 2 * k + 1) as u32,
            );
        lemma_ids_pin(m1, before, pins, k, comp, pin);
        lemma_id_set_pin(
            m2,
            m1,
            pins[2 * k as int].0@,
            pins[2 * k as int].1@,
            (FIRST_PIN_ID + 2 * k) as u32,
            comp,
            pin,
        );
        lemma_id_set_pin(
            after,
            m2,
            pins[2 * k as int + 1].0@,
            pins[2 * k as int + 1].1@,
            (FIRST_PIN_ID + 2 * k + 1) as u32,
            comp,
            pin,
        );
        assert(same_names(after.0, before.0));
    }
}

proof fn lemma_assigned_none(pins: Seq<(String, String)>, m: nat, comp: Seq<char>, pin: Seq<char>)
    requires
        forall|j: int|
            0 <= j < 2 * m ==> !(#[trigger] pins[j].0@ == comp && pins[j].1@ == pin),
    ensures
        assigned_id(pins, m, comp, pin, None) is None,
    decreases m,
{
    if m > 0 {
        let k = (m - 1) as nat;
        assert(!(pins[2 * k as int].0@ == comp && pins[2 * k as int].1@ == pin));
        assert(!(pins[2 * k as int + 1].0@ == comp && pins[2 * k as int + 1].1@ == pin));
        lemma_assigned_none(pins, k, comp, pin);
    }
}

proof fn lemma_assigned_first(
    pins: Seq<(String, String)>,
    n: nat,
    comp: Seq<char>,
    pin: Seq<char>,
    k: nat,
)
    requires
        k < n,
        forall|j: int|
            0 <= j < 2 * k ==> !(#[trigger] pins[j].0@ == comp && pins[j].1@ == pin),
        pins[2 * k as int].0@ == comp,
        pins[2 * k as int].1@ == pin,
    ensures
        assigned_id(pins, n, comp, pin, None) == Some((FIRST_PIN_ID + 2 * k) as u32),
    decreases n,
{
    if n == k + 1 {
        lemma_assigned_none(pins, k, comp, pin);
    } else {
        lemma_assigned_first(pins, (n - 1) as nat, comp, pin, k);
    }
}

/// A write that changes the state of an output pin reaches the pin it is
/// linked to. Take a circuit that `build` made of the components `comps0`
/// and the supply `power0`, and its link `k`, the first link that names its
/// writer pin, a pin that held no link id before; let the reader be another
/// component, one that has the reader pin. When a write to the writer pin
/// changes its state (`write_to_pin` returns `Ok(true)`), the reader pin
/// takes the new state and the reader reacts to it.
pub proof fn lemma_write_reaches_reader<C: Component>(
    built: &Circuit<C>,
    comps0: Seq<(String, C)>,
    power0: Power,
    after: (Seq<(String, C)>, Power),
    k: nat,
    val: bool,
)
    requires
        built.wf(),
        unique_names(comps0),
        ids_assigned(
            (built.spec_components(), built.spec_power()),
            (comps0, power0),
            built.spec_pins(),
            built.spec_links(),
        ),
        k < built.spec_links(),
        forall|j: int|
            0 <= j < 2 * k ==> !(#[trigger] built.spec_pins()[j].0@ == link_at(
                built.spec_pins(),
                k as int,
            ).writer.0 && built.spec_pins()[j].1@ == link_at(built.spec_pins(), k as int).writer.1),
        component_has_pin(
            comps0,
            link_at(built.spec_pins(), k as int).writer.0,
            link_at(built.spec_pins(), k as int).writer.1,
        ),
        pin_of(
            (comps0, power0),
            link_at(built.spec_pins(), k as int).writer.0,
            link_at(built.spec_pins(), k as int).writer.1,
        ).inner_id is None,
        find_component(comps0, link_at(built.spec_pins(), k as int).reader.0) is Some,
        component_has_pin(
            comps0,
            link_at(built.spec_pins(), k as int).reader.0,
            link_at(built.spec_pins(), k as int).reader.1,
        ),
        link_at(built.spec_pins(), k as int).reader.0 != link_at(
            built.spec_pins(),
            k as int,
        ).writer.0,
        pin_of(
            (built.spec_components(), built.spec_power()),
            link_at(built.spec_pins(), k as int).writer.0,
            link_at(built.spec_pins(), k as int).writer.1,
        ).spec_write(val).1 == Some(true),
        written_then_passed(
            after,
            (built.spec_components(), built.spec_power()),
            built.spec_pins(),
            built.spec_links(),
            link_at(built.spec_pins(), k as int).writer.0,
            link_at(built.spec_pins(), k as int).writer.1,
            val,
        ),
    ensures
        ({
            let l = link_at(built.spec_pins(), k as int);
            let comps = built.spec_components();
            let ri = find_component(comps, l.reader.0)->0;
            &&& find_component(comps, l.reader.0) is Some
            &&& after.0.len() == comps.len()
            &&& after.0[ri].0 == comps[ri].0
            &&& set_and_reacted(
                after.0[ri].1,
                comps[ri].1,
                l.reader.1,
                comps[ri].1.pin(l.reader.1).spec_set_val(val),
            )
        }),
{
    let pins = built.spec_pins();
    let n = built.spec_links();
    let l = link_at(pins, k as int);
    let state = (built.spec_components(), built.spec_power());
    lemma_ids_pin(state, (comps0, power0), pins, n, l.writer.0, l.writer.1);
    lemma_ids_pin(state, (comps0, power0), pins, n, l.reader.0, l.reader.1);
    lemma_find_same_names(state.0, comps0, l.reader.0);
    lemma_assigned_first(pins, n, l.writer.0, l.writer.1, k);
    let v = pin_of(state, l.writer.0, l.writer.1);
    assert(v.inner_id == Some((FIRST_PIN_ID + 2 * k) as u32));
    let mid = choose|mid: (Seq<(String, C)>, Power)|
        #[trigger] pin_written(mid, state, l.writer.0, l.writer.1, v.spec_write(val).0) && if v.spec_write(
            val,
        ).1 == Some(true) && v.inner_id is Some {
            propagated(after, mid, pins, n, v.inner_id->0, val)
        } else {
            after == mid
        };
    assert(same_names(mid.0, state.0));
    lemma_find_same_names(mid.0, state.0, l.reader.0);
    let ri = find_component(state.0, l.reader.0)->0;
    assert(mid.0[ri] == state.0[ri]);
    let wid = (FIRST_PIN_ID + 2 * k) as u32;
    assert((wid - FIRST_PIN_ID) / 2 == k);
}

proof fn lemma_ids_step<C: Component>(
    after: (Seq<(String, C)>, Power),
    m2: (Seq<(String, C)>, Power),
    m1: (Seq<(String, C)>, Power),
    before: (Seq<(String, C)>, Power),
    pins: Seq<(String, String)>,
    k: nat,
)
    requires
        ids_assigned(m1, before, pins, k),
        id_set(m2, m1, pins[2 * k as int].0@, pins[2 * k as int].1@, (FIRST_PIN_ID + 2 * k) as u32),
        id_set(
            after,
            m2,
            pins[2 * k as int + 1].0@,
            pins[2 * k as int + 1].1@,
            (FIRST_PIN_ID + 2 * k + 1) as u32,
        ),
    ensures
        ids_assigned(after, before, pins, k + 1),
{
    assert(ids_assigned_through(after, before, pins, k));
    assert(((k + 1) - 1) as nat == k);
}

/// A part of a circuit: one of its components, or its power supply.
pub enum Part<'a, C> {
    Component(&'a C),
    Supply(&'a Power),
}

impl<'a, C: Component> Part<'a, C> {
    /// The part has a pin of that name.
    pub open spec fn part_has_pin(&self, name: Seq<char>) -> bool {
        match *self {
            Part::Component(c) => c.has_pin(name),
            Part::Supply(p) => p.has_pin(name),
        }
    }

    /// What the pin of that name holds.
    pub open spec fn part_pin(&self, name: Seq<char>) -> PinView {
        match *self {
            Part::Component(c) => c.pin(name),
            Part::Supply(p) => p.pin(name),
        }
    }

    /// The pin of that name.
    pub fn get_pin(&self, name: &str) -> (r: Option<&'a Pin>)
        ensures
            r is Some <==> self.part_has_pin(name@),
            r matches Some(p) ==> p@ == self.part_pin(name@),
    {
        match self {
            Part::Component(c) => {
                let c: &'a C = *c;
                c.get_pin(name)
            },
            Part::Supply(p) => {
                let p: &'a Power = *p;
                p.get_pin(name)
            },
        }
    }
}

/// A circuit: components whose pins are linked, each writer pin to one
/// reader pin. Pins are recorded by id, from `FIRST_PIN_ID` on, in pairs.
pub struct Circuit<C: Component> {
    pins: Vec<(String, String)>,
    connections: Vec<(u32, u32)>,
    components: Vec<(String, C)>,
    power: Power,
}

/// Helps build a circuit: components are added by name and pins linked
/// by the names of their components and their own names.
pub struct CircuitBuilder<C: Component> {
    components: Option<Vec<(String, C)>>,
    power: Option<Power>,
    pins: Vec<(String, String)>,
    last_pin_id: u32,
    connections: Vec<(u32, u32)>,
}

impl<C: Component> CircuitBuilder<C> {
    /// The pins recorded so far, by id less `FIRST_PIN_ID`.
    pub closed spec fn spec_pins(&self) -> Seq<(String, String)> {
        self.pins@
    }

    /// The components added so far; none once the circuit is built.
    pub closed spec fn spec_components(&self) -> Option<Seq<(String, C)>> {
        match self.components {
            Some(v) => Some(v@),
            None => None,
        }
    }

    /// The number of links made.
    pub closed spec fn spec_links(&self) -> nat {
        self.connections@.len()
    }

    /// The power supply, until the circuit is built.
    pub closed spec fn spec_power(&self) -> Option<Power> {
        self.power
    }

    pub closed spec fn wf(&self) -> bool {
        &&& self.last_pin_id == FIRST_PIN_ID + self.pins@.len()
        &&& self.pins@.len() == 2 * self.connections@.len()
        &&& forall|k: int|
            0 <= k < self.connections@.len() ==> #[trigger] self.connections@[k] == (
                (FIRST_PIN_ID + 2 * k) as u32,
                (FIRST_PIN_ID + 2 * k + 1) as u32,
            )
        &&& (self.components is Some <==> self.power is Some)
        &&& self.components matches Some(v) ==> unique_names(v@)
    }

    /// Room for `n` more links: pin ids stay within `u32`.
    pub open spec fn has_room(&self, n: int) -> bool {
        FIRST_PIN_ID + self.spec_pins().len() + 2 * n <= u32::MAX
    }

    /// A builder holding only the power supply "POW".
    pub fn new() -> (r: Self)
        ensures
            r.wf(),
            r.spec_pins() == Seq::<(String, String)>::empty(),
            r.spec_links() == 0,
            r.spec_components() == Some(Seq::<(String, C)>::empty()),
            r.spec_power() matches Some(p) && p.spec_vcc().name == "VCC"@ && p.spec_vcc().group_id
                is None && p.spec_vcc().direction == PinDirection::Output && p.spec_vcc().value,
    {
        CircuitBuilder {
            components: Some(Vec::new()),
            power: Some(Power::new()),
            pins: Vec::new(),
            last_pin_id: FIRST_PIN_ID,
            connections: Vec::new(),
        }
    }

    /// Adds a component under `name`, in place of one already of that name.
    pub fn add_component(&mut self, name: &str, component: C) -> (r: &mut Self)
        requires
            old(self).wf(),
            old(self).spec_components() is Some,
        ensures
            (*r).wf(),
            (*r).spec_pins() == old(self).spec_pins(),
            (*r).spec_links() == old(self).spec_links(),
            (*r).spec_power() == old(self).spec_power(),
            ({
                let old_comps = old(self).spec_components()->0;
                let comps = (*r).spec_components()->0;
                &&& (*r).spec_components() is Some
                &&& match find_component(old_comps, name@) {
                    Some(i) => comps == old_comps.update(i, (comps[i].0, component)) && comps[i].0@
                        == name@,
                    None => comps.len() == old_comps.len() + 1 && comps.take(
                        old_comps.len() as int,
                    ) == old_comps && comps.last().0@ == name@ && comps.last().1 == component,
                }
            }),
            *final(self) == *final(r),
    {
        let mut comps = self.components.take().unwrap();
        let ghost before = comps@;
        let mut i: usize = 0;
        let mut found = false;
        while i < comps.len() && !found
            invariant
                comps@ == before,
                i <= comps@.len(),
                found ==> i < comps@.len() && comps@[i as int].0@ == name@,
                forall|j: int| 0 <= j < i ==> #[trigger] comps@[j].0@ != name@,
            decreases comps.len() - i, if found { 0int } else { 1int },
        {
            if same_text(comps[i].0.as_str(), name) {
                found = true;
            } else {
                i = i + 1;
            }
        }
        if found {
            proof {
                assert(before[i as int].0@ == name@);
                let c = choose|j: int| 0 <= j < before.len() && #[trigger] before[j].0@ == name@;
                assert(before[c].0@ == before[i as int].0@);
            }
            assert(find_component(before, name@) == Some(i as int));
            let n = String::from_str(name);
            comps.set(i, (n, component));
        } else {
            comps.push((String::from_str(name), component));
            assert(find_component(before, name@) is None);
        }
        assert(unique_names(comps@)) by {
            assert forall|a: int, b: int|
                0 <= a < comps@.len() && 0 <= b < comps@.len() && #[trigger] comps@[a].0@
                    == #[trigger] comps@[b].0@ implies a == b by {
                if a != i && b != i {
                    assert(before[a].0@ == before[b].0@);
                }
            }
        }
        self.components = Some(comps);
        self
    }

    fn add_pin(&mut self, component_name: &str, pin_name: &str) -> (r: u32)
        requires
            old(self).last_pin_id < u32::MAX,
        ensures
            r == old(self).last_pin_id,
            final(self).last_pin_id == old(self).last_pin_id + 1,
            final(self).pins@.len() == old(self).pins@.len() + 1,
            final(self).pins@.take(old(self).pins@.len() as int) == old(self).pins@,
            final(self).pins@.last().0@ == component_name@,
            final(self).pins@.last().1@ == pin_name@,
            final(self).connections == old(self).connections,
            final(self).components == old(self).components,
            final(self).power == old(self).power,
    {
        self.pins.push((String::from_str(component_name), String::from_str(pin_name)));
        self.last_pin_id = self.last_pin_id + 1;
        self.last_pin_id - 1
    }

    fn add_connection(&mut self, writer_id: u32, reader_id: u32)
        ensures
            final(self).connections@ == old(self).connections@.push((writer_id, reader_id)),
            final(self).pins == old(self).pins,
            final(self).last_pin_id == old(self).last_pin_id,
            final(self).components == old(self).components,
            final(self).power == old(self).power,
    {
        self.connections.push((writer_id, reader_id));
    }

    /// Links the pin `writer_pin_name` of `writer_name` to the pin
    /// `reader_pin_name` of `reader_name`.
    pub fn link(
        &mut self,
        writer_name: &str,
        writer_pin_name: &str,
        reader_name: &str,
        reader_pin_name: &str,
    ) -> (r: &mut Self)
        requires
            old(self).wf(),
            old(self).has_room(1),
        ensures
            (*r).wf(),
            (*r).spec_components() == old(self).spec_components(),
            (*r).spec_power() == old(self).spec_power(),
            (*r).spec_links() == old(self).spec_links() + 1,
            (*r).spec_pins().len() == old(self).spec_pins().len() + 2,
            (*r).spec_pins().take(old(self).spec_pins().len() as int) == old(self).spec_pins(),
            link_at((*r).spec_pins(), old(self).spec_links() as int) == (LinkView {
                writer: (writer_name@, writer_pin_name@),
                reader: (reader_name@, reader_pin_name@),
            }),
            pin_names((*r).spec_pins()) == pin_names(old(self).spec_pins()).push((writer_name@, writer_pin_name@)).push(
                (reader_name@, reader_pin_name@),
            ),
            *final(self) == *final(r),
    {
        let writer_id = self.add_pin(writer_name, writer_pin_name);
        let reader_id = self.add_pin(reader_name, reader_pin_name);
        self.add_connection(writer_id, reader_id);
        proof {
            let k = old(self).connections@.len();
            assert(self.connections@[k as int] == (
                (FIRST_PIN_ID + 2 * k) as u32,
                (FIRST_PIN_ID + 2 * k + 1) as u32,
            ));
            assert(self.pins@.take(old(self).pins@.len() as int) =~= old(self).pins@);
            assert(pin_names(self.pins@) =~= pin_names(old(self).pins@).push(
                (writer_name@, writer_pin_name@),
            ).push((reader_name@, reader_pin_name@)));
        }
        self
    }

    /// Links the power supply's VCC to a pin.
    pub fn link_to_vcc(&mut self, component_name: &str, pin_name: &str) -> (r: &mut Self)
        requires
            old(self).wf(),
            old(self).has_room(1),
        ensures
            (*r).wf(),
            (*r).spec_components() == old(self).spec_components(),
            (*r).spec_power() == old(self).spec_power(),
            (*r).spec_links() == old(self).spec_links() + 1,
            (*r).spec_pins().len() == old(self).spec_pins().len() + 2,
            (*r).spec_pins().take(old(self).spec_pins().len() as int) == old(self).spec_pins(),
            link_at((*r).spec_pins(), old(self).spec_links() as int) == (LinkView {
                writer: ("POW"@, "VCC"@),
                reader: (component_name@, pin_name@),
            }),
            pin_names((*r).spec_pins()) == pin_names(old(self).spec_pins()).push(("POW"@, "VCC"@)).push(
                (component_name@, pin_name@),
            ),
            *final(self) == *final(r),
    {
        self.link("POW", "VCC", component_name, pin_name)
    }

    /// Links the power supply's GND to a pin. The supply does not give out
    /// its GND pin, so building fails on such a link.
    pub fn link_to_gnd(&mut self, component_name: &str, pin_name: &str) -> (r: &mut Self)
        requires
            old(self).wf(),
            old(self).has_room(1),
        ensures
            (*r).wf(),
            (*r).spec_components() == old(self).spec_components(),
            (*r).spec_power() == old(self).spec_power(),
            (*r).spec_links() == old(self).spec_links() + 1,
            (*r).spec_pins().len() == old(self).spec_pins().len() + 2,
            (*r).spec_pins().take(old(self).spec_pins().len() as int) == old(self).spec_pins(),
            link_at((*r).spec_pins(), old(self).spec_links() as int) == (LinkView {
                writer: ("POW"@, "GND"@),
                reader: (component_name@, pin_name@),
            }),
            pin_names((*r).spec_pins()) == pin_names(old(self).spec_pins()).push(("POW"@, "GND"@)).push(
                (component_name@, pin_name@),
            ),
            *final(self) == *final(r),
    {
        self.link("POW", "GND", component_name, pin_name)
    }

    /// For each `i` in `range`, links the pin `writer_pin_prefix` + `i` of
    /// `writer_name` to the pin `reader_name_prefix` + `i` of `reader_name`
    /// (`i` in decimal).
    pub fn link_range(
        &mut self,
        writer_name: &str,
        writer_pin_prefix: &str,
        reader_name: &str,
        reader_name_prefix: &str,
        range: Range<u8>,
    ) -> (r: &mut Self)
        requires
            old(self).wf(),
            old(self).has_room(range.end - range.start),
        ensures
            (*r).wf(),
            (*r).spec_components() == old(self).spec_components(),
            (*r).spec_power() == old(self).spec_power(),
            (*r).spec_links() == old(self).spec_links() + range_len(range),
            (*r).spec_pins().take(old(self).spec_pins().len() as int) == old(self).spec_pins(),
            forall|k: int|
                0 <= k < range_len(range) ==> #[trigger] link_at(
                    (*r).spec_pins(),
                    old(self).spec_links() + k,
                ) == (LinkView {
                    writer: (writer_name@, writer_pin_prefix@ + spec_decimal((range.start + k) as nat)),
                    reader: (reader_name@, reader_name_prefix@ + spec_decimal((range.start + k) as nat)),
                }),
            pin_names((*r).spec_pins()) == pin_names(old(self).spec_pins()) + range_link_names(
                writer_name@,
                writer_pin_prefix@,
                reader_name@,
                reader_name_prefix@,
                range.start as int,
                range_len(range) as nat,
            ),
            *final(self) == *final(r),
    {
        let ghost start_pins = self.pins@;
        let ghost start_links = self.connections@.len();
        let mut i: u8 = range.start;
        while i < range.end
            invariant
                self.wf(),
                range.start <= i,
                range.start <= range.end ==> i <= range.end,
                range.start > range.end ==> i == range.start,
                self.spec_components() == old(self).spec_components(),
                self.spec_power() == old(self).spec_power(),
                self.connections@.len() == start_links + (i - range.start),
                FIRST_PIN_ID + start_pins.len() + 2 * (range.end - range.start) <= u32::MAX,
                start_pins == old(self).spec_pins(),
                start_links == old(self).spec_links(),
                start_pins.len() == 2 * start_links,
                self.pins@.len() >= start_pins.len(),
                pin_names(self.pins@) == pin_names(start_pins) + range_link_names(
                    writer_name@,
                    writer_pin_prefix@,
                    reader_name@,
                    reader_name_prefix@,
                    range.start as int,
                    (i - range.start) as nat,
                ),
                forall|j: int| 0 <= j < start_pins.len() ==> #[trigger] self.pins@[j] == start_pins[j],
                forall|k: int|
                    0 <= k < i - range.start ==> #[trigger] link_at(self.pins@, start_links + k)
                        == (LinkView {
                        writer: (
                            writer_name@,
                            writer_pin_prefix@ + spec_decimal((range.start + k) as nat),
                        ),
                        reader: (
                            reader_name@,
                            reader_name_prefix@ + spec_decimal((range.start + k) as nat),
                        ),
                    }),
            decreases range.end - i,
        {
            let w = with_number(writer_pin_prefix, i as u64);
            let rd = with_number(reader_name_prefix, i as u64);
            let ghost before = self.pins@;
            self.link(writer_name, w.as_str(), reader_name, rd.as_str());
            proof {
                let n = (i - range.start) as nat;
                lemma_link_range_extends(
                    writer_name@,
                    writer_pin_prefix@,
                    reader_name@,
                    reader_name_prefix@,
                    range.start as int,
                    n,
                );
                assert(pin_names(self.pins@) =~= pin_names(start_pins) + range_link_names(
                    writer_name@,
                    writer_pin_prefix@,
                    reader_name@,
                    reader_name_prefix@,
                    range.start as int,
                    n + 1,
                ));
                assert forall|j: int| 0 <= j < before.len() implies #[trigger] self.pins@[j]
                    == before[j] by {
                    assert(self.pins@.take(before.len() as int)[j] == self.pins@[j]);
                }
                assert forall|k: int| 0 <= k < i + 1 - range.start implies #[trigger] link_at(
                    self.pins@,
                    start_links + k,
                ) == (LinkView {
                    writer: (writer_name@, writer_pin_prefix@ + spec_decimal((range.start + k) as nat)),
                    reader: (reader_name@, reader_name_prefix@ + spec_decimal((range.start + k) as nat)),
                }) by {
                    if k < i - range.start {
                        assert(link_at(before, start_links + k) == link_at(self.pins@, start_links + k));
                    }
                }
            }
            i = i + 1;
        }
        proof {
            assert(self.pins@.take(start_pins.len() as int) =~= start_pins);
            if range.start > range.end {
                assert(pin_names(self.pins@) =~= pin_names(start_pins) + Seq::empty());
            }
        }
        self
    }

    /// Builds the circuit from the components and links: every link must
    /// name a writer component that exists, and a pin on each side that its
    /// component has; else the first link, in the order they were made,
    /// that does not gives the error. The builder gives its components to
    /// the circuit, even when building fails. Linked pins get their ids.
    pub fn build(&mut self) -> (r: Result<Circuit<C>, EmulatorError>)
        requires
            old(self).wf(),
            old(self).spec_components() is Some,
            forall|k: int|
                0 <= k < old(self).spec_links() ==> component_exists(
                    old(self).spec_components()->0,
                    #[trigger] link_at(old(self).spec_pins(), k).reader.0,
                ),
        ensures
            final(self).spec_components() is None,
            final(self).spec_pins() == old(self).spec_pins(),
            final(self).spec_links() == old(self).spec_links(),
            ({
                let comps = old(self).spec_components()->0;
                let pins = old(self).spec_pins();
                let n = old(self).spec_links() as int;
                match r {
                    Ok(c) => {
                        &&& unique_names(comps)
                        &&& forall|k: int| 0 <= k < n ==> link_ok(comps, #[trigger] link_at(pins, k))
                        &&& pin_names(c.spec_pins()) == pin_names(pins)
                        &&& c.spec_links() == n
                        &&& component_names(c.spec_components()) == component_names(comps)
                        &&& c.wf()
                        &&& ids_assigned(
                            (c.spec_components(), c.spec_power()),
                            (comps, old(self).spec_power()->0),
                            c.spec_pins(),
                            n as nat,
                        )
                        &&& c.spec_power().spec_vcc() == (PinView {
                            inner_id: c.spec_power().spec_vcc().inner_id,
                            ..old(self).spec_power()->0.spec_vcc()
                        })
                    },
                    Err(e) => exists|k: int|
                        0 <= k < n && #[trigger] first_bad_link(comps, pins, k)
                            && link_error_matches(comps, link_at(pins, k), e),
                }
            }),
    {
        let comps = self.components.take().unwrap();
        let power = self.power.take().unwrap();
        let n = self.connections.len();
        let m = self.pins.len();
        let ghost pins = self.pins@;
        let mut k: usize = 0;
        while k < n
            invariant
                n == self.connections@.len(),
                m == self.pins@.len(),
                k <= n,
                self.pins@ == pins,
                m == 2 * n,
                self.components is None,
                self.power is None,
                old(self).wf(),
                pins == old(self).pins@,
                self.connections@ == old(self).connections@,
                comps@ == old(self).spec_components()->0,
                unique_names(comps@),
                forall|j: int| 0 <= j < k ==> link_ok(comps@, #[trigger] link_at(pins, j)),
            decreases n - k,
        {
            let wc = &self.pins[2 * k].0;
            let wp = &self.pins[2 * k].1;
            let rc = &self.pins[2 * k + 1].0;
            let rp = &self.pins[2 * k + 1].1;
            let ghost l = link_at(pins, k as int);
            if !has_component(&comps, wc.as_str()) {
                let e = EmulatorError::ComponentNotFound(wc.clone());
                assert(first_bad_link(comps@, pins, k as int) && link_error_matches(comps@, l, e));
                assert(first_bad_link(old(self).spec_components()->0, old(self).spec_pins(), k as int));
                assert(link_error_matches(old(self).spec_components()->0, link_at(old(self).spec_pins(), k as int), e));
                return Err(e);
            }
            if !has_pin(&comps, &power, wc.as_str(), wp.as_str()) {
                let e = EmulatorError::PinNotFound(wc.clone(), wp.clone());
                assert(first_bad_link(comps@, pins, k as int) && link_error_matches(comps@, l, e));
                assert(first_bad_link(old(self).spec_components()->0, old(self).spec_pins(), k as int));
                assert(link_error_matches(old(self).spec_components()->0, link_at(old(self).spec_pins(), k as int), e));
                return Err(e);
            }
            if !has_pin(&comps, &power, rc.as_str(), rp.as_str()) {
                let e = EmulatorError::PinNotFound(rc.clone(), rp.clone());
                assert(first_bad_link(comps@, pins, k as int) && link_error_matches(comps@, l, e));
                assert(first_bad_link(old(self).spec_components()->0, old(self).spec_pins(), k as int));
                assert(link_error_matches(old(self).spec_components()->0, link_at(old(self).spec_pins(), k as int), e));
                return Err(e);
            }
            k = k + 1;
        }
        let mut circuit = Circuit {
            pins: copy_pins(&self.pins),
            connections: copy_links(&self.connections),
            components: comps,
            power,
        };
        assert(circuit.pins@.len() == pin_names(circuit.pins@).len());
        assert(circuit.pins@.len() == self.pins@.len());
        assert(unique_names(circuit.components@));
        assert(circuit.connections@ == self.connections@);
        circuit.assign_ids();
        proof {
            lemma_ids_keep_supply(
                (circuit.components@, circuit.power),
                (old(self).spec_components()->0, old(self).spec_power()->0),
                circuit.pins@,
                n as nat,
            );
        }
        Ok(circuit)
    }
}

impl<C: Component> Circuit<C> {
    pub closed spec fn spec_pins(&self) -> Seq<(String, String)> {
        self.pins@
    }

    pub closed spec fn spec_links(&self) -> nat {
        self.connections@.len()
    }

    pub closed spec fn spec_components(&self) -> Seq<(String, C)> {
        self.components@
    }

    /// The power supply.
    pub closed spec fn spec_power(&self) -> Power {
        self.power
    }

    pub closed spec fn wf(&self) -> bool {
        &&& self.pins@.len() == 2 * self.connections@.len()
        &&& FIRST_PIN_ID + self.pins@.len() <= u32::MAX
        &&& forall|k: int|
            0 <= k < self.connections@.len() ==> #[trigger] self.connections@[k] == (
                (FIRST_PIN_ID + 2 * k) as u32,
                (FIRST_PIN_ID + 2 * k + 1) as u32,
            )
        &&& unique_names(self.components@)
    }

    /// The component added under `name`, or the power supply for "POW" when
    /// no component was added under that name.
    pub fn component(&self, name: &str) -> (r: Part<'_, C>)
        requires
            self.wf(),
            component_exists(self.spec_components(), name@),
        ensures
            match r {
                Part::Component(c) => find_component(self.spec_components(), name@) matches Some(
                    i,
                ) && *c == self.spec_components()[i].1,
                Part::Supply(p) => find_component(self.spec_components(), name@) is None && name@
                    == "POW"@ && *p == self.spec_power(),
            },
    {
        match find_index(&self.components, name) {
            Some(i) => Part::Component(&self.components[i].1),
            None => Part::Supply(&self.power),
        }
    }

    /// Calls `cb` with the pin `pin_name` of the component `component_name`
    /// ("POW" is the power supply), if it has such a pin.
    pub fn with_pin<F: FnOnce(&Pin)>(&self, component_name: &str, pin_name: &str, cb: F)
        requires
            self.wf(),
            component_exists(self.spec_components(), component_name@),
            forall|p: &Pin| #[trigger] cb.requires((p,)),
        ensures
            component_has_pin(self.spec_components(), component_name@, pin_name@) ==> exists|
                p: &Pin,
            |
                p@ == pin_of(
                    (self.spec_components(), self.spec_power()),
                    component_name@,
                    pin_name@,
                ) && #[trigger] cb.ensures((p,), ()),
    {
        let part = self.component(component_name);
        match part.get_pin(pin_name) {
            Some(pin) => {
                cb(pin);
            },
            None => {},
        }
    }

    /// The power supply, the component "POW".
    pub fn power_supply(&self) -> (r: &Power)
        ensures
            *r == self.spec_power(),
    {
        &self.power
    }

    /// Writes `val` to the pin `pin_name` of the component `component_name`
    /// ("POW" is the power supply). When the write changes the state of a
    /// pin that drives a link, the pin it is linked to takes the new state
    /// and its component is told of the change.
    pub fn write_to_pin(&mut self, component_name: &str, pin_name: &str, val: bool) -> (r: Result<
        bool,
        EmulatorError,
    >)
        requires
            old(self).wf(),
            component_exists(old(self).spec_components(), component_name@),
        ensures
            final(self).wf(),
            component_names(final(self).spec_components()) == component_names(
                old(self).spec_components(),
            ),
            pin_names(final(self).spec_pins()) == pin_names(old(self).spec_pins()),
            !component_has_pin(old(self).spec_components(), component_name@, pin_name@) ==> (r
                matches Err(EmulatorError::PinNotFound(c, p)) && c@ == component_name@ && p@
                == pin_name@),
            !component_has_pin(old(self).spec_components(), component_name@, pin_name@) ==> (
            final(self).spec_components() == old(self).spec_components() && final(self).spec_power()
                == old(self).spec_power()),
            component_has_pin(old(self).spec_components(), component_name@, pin_name@) ==> ({
                let v = pin_of(
                    (old(self).spec_components(), old(self).spec_power()),
                    component_name@,
                    pin_name@,
                );
                &&& match v.spec_write(val).1 {
                    Some(b) => r == Ok::<bool, EmulatorError>(b),
                    None => r matches Err(EmulatorError::CantWriteToReadPin(n)) && n@
                        == v.full_name(),
                }
                &&& written_then_passed(
                    (final(self).spec_components(), final(self).spec_power()),
                    (old(self).spec_components(), old(self).spec_power()),
                    old(self).spec_pins(),
                    old(self).spec_links(),
                    component_name@,
                    pin_name@,
                    val,
                )
            }),
    {
        proof {
            reveal_strlit("POW");
            reveal_strlit("VCC");
        }
        let mut changed: Option<(bool, u32)> = None;
        let r = match find_index(&self.components, component_name) {
            Some(i) => {
                let ghost before = self.components@;
                let entry = &mut self.components[i];
                let res = match entry.1.get_pin_mut(pin_name) {
                    Some(p) => {
                        let w = p.write(val);
                        if let Ok(true) = w {
                            if let Some(id) = p.inner_id() {
                                changed = Some((p.state(), id));
                            }
                        }
                        w
                    },
                    None => Err(
                        EmulatorError::PinNotFound(
                            String::from_str(component_name),
                            String::from_str(pin_name),
                        ),
                    ),
                };
                proof {
                    assert(component_names(self.components@) =~= component_names(before));
                    assert forall|a: int, b: int|
                        0 <= a < self.components@.len() && 0 <= b < self.components@.len()
                            && #[trigger] self.components@[a].0@ == #[trigger] self.components@[b].0@
                            implies a == b by {
                        assert(component_names(self.components@)[a] == component_names(before)[a]);
                        assert(component_names(self.components@)[b] == component_names(before)[b]);
                    }
                }
                res
            },
            None => {
                match self.power.get_pin_mut(pin_name) {
                    Some(p) => {
                        let w = p.write(val);
                        if let Ok(true) = w {
                            if let Some(id) = p.inner_id() {
                                changed = Some((p.state(), id));
                            }
                        }
                        w
                    },
                    None => Err(
                        EmulatorError::PinNotFound(
                            String::from_str(component_name),
                            String::from_str(pin_name),
                        ),
                    ),
                }
            },
        };
        let ghost mid = (self.components@, self.power);
        proof {
            if component_has_pin(old(self).components@, component_name@, pin_name@) {
                let v = pin_of((old(self).components@, old(self).power), component_name@, pin_name@);
                assert(pin_written(
                    mid,
                    (old(self).components@, old(self).power),
                    component_name@,
                    pin_name@,
                    v.spec_write(val).0,
                ));
            }
        }
        if let Some((state, id)) = changed {
            self.propagate(id, state);
        }
        r
    }

    /// Passes the new state of the pin with id `writer_id` along its link:
    /// the reader pin takes it and its component is told of the change.
    fn propagate(&mut self, writer_id: u32, state: bool)
        requires
            old(self).wf(),
        ensures
            final(self).wf(),
            component_names(final(self).components@) == component_names(old(self).components@),
            final(self).pins@ == old(self).pins@,
            final(self).connections@ == old(self).connections@,
            propagated(
                (final(self).components@, final(self).power),
                (old(self).components@, old(self).power),
                old(self).pins@,
                old(self).connections@.len(),
                writer_id,
                state,
            ),
    {
        if writer_id < FIRST_PIN_ID || (writer_id - FIRST_PIN_ID) % 2 != 0 {
            return;
        }
        let k = ((writer_id - FIRST_PIN_ID) / 2) as usize;
        if k >= self.connections.len() {
            return;
        }
        let rc = self.pins[2 * k + 1].0.clone();
        let rp = self.pins[2 * k + 1].1.clone();
        match find_index(&self.components, rc.as_str()) {
            Some(i) => {
                let ghost before = self.components@;
                let entry = &mut self.components[i];
                let reader = match entry.1.get_pin_mut(rp.as_str()) {
                    Some(p) => {
                        p.set_val(state);
                        Some(p.clone())
                    },
                    None => None,
                };
                let ghost mid = entry.1;
                let ghost c = before[i as int].1;
                let ghost v = c.pin(rp@).spec_set_val(state);
                if let Some(rpin) = reader {
                    entry.1.on_state_change(&rpin);
                    assert(rpin@ == v);
                    assert(mid.pin_replaced(&c, rp@, v));
                    assert(entry.1.reacted(&mid, v));
                } else {
                    assert(mid == c);
                }
                proof {
                    assert(component_names(self.components@) =~= component_names(before));
                    assert forall|a: int, b: int|
                        0 <= a < self.components@.len() && 0 <= b < self.components@.len()
                            && #[trigger] self.components@[a].0@ == #[trigger] self.components@[b].0@
                            implies a == b by {
                        assert(component_names(self.components@)[a] == component_names(before)[a]);
                        assert(component_names(self.components@)[b] == component_names(before)[b]);
                    }
                    assert(rc@ == old(self).pins@[2 * k + 1].0@);
                    assert(rp@ == old(self).pins@[2 * k + 1].1@);
                    if !c.has_pin(rp@) {
                        assert(self.components@ =~= before);
                    } else {
                        assert(self.components@[i as int].1.reacted(&mid, v));
                        assert(set_and_reacted(self.components@[i as int].1, c, rp@, v));
                    }
                }
            },
            None => {
                assert(rc@ == old(self).pins@[2 * k + 1].0@);
            },
        }
    }

    /// Gives each linked pin its id: a writer pin keeps the first id it got.
    fn assign_ids(&mut self)
        requires
            old(self).wf(),
        ensures
            final(self).wf(),
            final(self).pins@ == old(self).pins@,
            final(self).connections@ == old(self).connections@,
            component_names(final(self).components@) == component_names(old(self).components@),
            ids_assigned(
                (final(self).components@, final(self).power),
                (old(self).components@, old(self).power),
                old(self).pins@,
                old(self).connections@.len(),
            ),
    {
        let n = self.connections.len();
        let mut k: usize = 0;
        while k < n
            invariant
                n == self.connections@.len(),
                k <= n,
                self.wf(),
                self.pins@ == old(self).pins@,
                self.connections@ == old(self).connections@,
                component_names(self.components@) == component_names(old(self).components@),
                ids_assigned(
                    (self.components@, self.power),
                    (old(self).components@, old(self).power),
                    old(self).pins@,
                    k as nat,
                ),
            decreases n - k,
        {
            let ghost m1 = (self.components@, self.power);
            let (wid, rid) = self.connections[k];
            let wc = self.pins[2 * k].0.clone();
            let wp = self.pins[2 * k].1.clone();
            let rc = self.pins[2 * k + 1].0.clone();
            let rp = self.pins[2 * k + 1].1.clone();
            self.with_pin_mut_set_id(wc.as_str(), wp.as_str(), wid, true);
            let ghost m2 = (self.components@, self.power);
            self.with_pin_mut_set_id(rc.as_str(), rp.as_str(), rid, false);
            proof {
                assert(self.connections@[k as int] == (
                    (FIRST_PIN_ID + 2 * k) as u32,
                    (FIRST_PIN_ID + 2 * k + 1) as u32,
                ));
                let b = (old(self).components@, old(self).power);
                lemma_ids_step((self.components@, self.power), m2, m1, b, old(self).pins@, k as nat);
            }
            k = k + 1;
        }
    }

    /// Sets the id of a pin, if the component and the pin are there; a
    /// writer pin that has an id already keeps it.
    fn with_pin_mut_set_id(&mut self, component_name: &str, pin_name: &str, id: u32, writer: bool)
        requires
            old(self).wf(),
        ensures
            final(self).wf(),
            final(self).pins@ == old(self).pins@,
            final(self).connections@ == old(self).connections@,
            component_names(final(self).components@) == component_names(old(self).components@),
            id_set(
                (final(self).components@, final(self).power),
                (old(self).components@, old(self).power),
                component_name@,
                pin_name@,
                id,
            ),
    {
        proof {
            reveal_strlit("POW");
        }
        match find_index(&self.components, component_name) {
            Some(i) => {
                let ghost before = self.components@;
                let entry = &mut self.components[i];
                match entry.1.get_pin_mut(pin_name) {
                    Some(p) => {
                        if !writer || p.inner_id().is_none() {
                            p.set_inner_id(id);
                        }
                    },
                    None => {},
                }
                proof {
                    assert(component_names(self.components@) =~= component_names(before));
                    assert forall|a: int, b: int|
                        0 <= a < self.components@.len() && 0 <= b < self.components@.len()
                            && #[trigger] self.components@[a].0@ == #[trigger] self.components@[b].0@
                            implies a == b by {
                        assert(component_names(self.components@)[a] == component_names(before)[a]);
                        assert(component_names(self.components@)[b] == component_names(before)[b]);
                    }
                }
            },
            None => {
                if same_text(component_name, "POW") {
                    match self.power.get_pin_mut(pin_name) {
                        Some(p) => {
                            if !writer || p.inner_id().is_none() {
                                p.set_inner_id(id);
                            }
                        },
                        None => {},
                    }
                }
            },
        }
    }
}

} // verus!
