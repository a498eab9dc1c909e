use vstd::prelude::*;
use crate::traits::{DesignPattern, DesignPatternFactory, Line};

verus! {

/// Direction of the pressure between two readings.
#[derive(Clone, Copy, Debug, PartialEq, Eq, Structural)]
pub enum Trend {
    Improving,
    Worsening,
    Unchanged,
}

/// Rising pressure improves the weather, falling pressure worsens it; equal
/// readings change nothing.
pub open spec fn trend_spec(last: i16, current: i16) -> Trend {
    if last < current {
        Trend::Improving
    } else if last > current {
        Trend::Worsening
    } else {
        Trend::Unchanged
    }
}

impl Trend {
    pub open spec fn text(self) -> Seq<char> {
        match self {
            Trend::Improving => "Forecast: Improving weather on the way!"@,
            Trend::Worsening => "Forecast: Watch out for cooler, rainy weather"@,
            Trend::Unchanged => "Forecast: More of the same"@,
        }
    }

    /// The forecast sentence for this trend.
    pub fn message(&self) -> (r: &'static str)
        ensures
            r@ == self.text(),
    {
        match self {
            Trend::Improving => "Forecast: Improving weather on the way!",
            Trend::Worsening => "Forecast: Watch out for cooler, rainy weather",
            Trend::Unchanged => "Forecast: More of the same",
        }
    }
}

pub fn trend(last: i16, current: i16) -> (r: Trend)
    ensures
        r == trend_spec(last, current),
{
    if last < current {
        Trend::Improving
    } else if last > current {
        Trend::Worsening
    } else {
        Trend::Unchanged
    }
}

/// The heat-index polynomial of a temperature `t` and a relative humidity
/// `h`, both given in tenths, times 10^22. With `t = T / 10` and `h = H / 10`
/// the index is
///   16.923 + 0.185212 t + 5.37941 h - 0.100254 t h + 0.00941695 t^2
///   + 0.00728898 h^2 + 0.000345372 t^2 h - 0.000814971 t h^2
///   + 0.0000102102 t^2 h^2 - 0.000038646 t^3 + 0.0000291583 h^3
///   + 0.00000142721 t^3 h + 0.000000197483 t h^3 - 0.0000000218429 t^3 h^2
///   + 0.000000000843296 t^2 h^3 - 0.0000000000481975 t^3 h^3,
/// so that every term is an integer once scaled.
pub open spec fn heat_index_spec(t: int, h: int) -> int {
    let t2 = t * t;
    let t3 = t2 * t;
    let h2 = h * h;
    let h3 = h2 * h;
    169230000000000000000000
        + 185212000000000000000 * t
        + 5379410000000000000000 * h
        - 10025400000000000000 * (t * h)
        + 941695000000000000 * t2
        + 728898000000000000 * h2
        + 3453720000000000 * (t2 * h)
        - 8149710000000000 * (t * h2)
        + 10210200000000 * (t2 * h2)
        - 386460000000000 * t3
        + 291583000000000 * h3
        + 1427210000000 * (t3 * h)
        + 197483000000 * (t * h3)
        - 2184290000 * (t3 * h2)
        + 84329600 * (t2 * h3)
        - 481975 * (t3 * h3)
}

proof fn lemma_mul_bound(x: int, y: int, bx: int, by: int)
    requires
        0 <= bx,
        0 <= by,
        -bx <= x <= bx,
        -by <= y <= by,
    ensures
        -(bx * by) <= x * y <= bx * by,
{
    assert(-(bx * by) <= x * y <= bx * by) by (nonlinear_arith)
        requires
            0 <= bx,
            0 <= by,
            -bx <= x <= bx,
            -by <= y <= by,
    ;
}

/// The heat index of a temperature and a humidity in tenths, scaled by
/// 10^22: exact, with no rounding.
pub fn heat_index(temperature: i16, humidity: i16) -> (r: i128)
    ensures
        r == heat_index_spec(temperature as int, humidity as int),
{
    let t = temperature as i128;
    let h = humidity as i128;
    proof {
        lemma_mul_bound(t as int, t as int, 32768, 32768);
        lemma_mul_bound(h as int, h as int, 32768, 32768);
        lemma_mul_bound(t as int, h as int, 32768, 32768);
    }
    let t2 = t * t;
    let h2 = h * h;
    let th = t * h;
    proof {
        lemma_mul_bound(t2 as int, t as int, 1073741824, 32768);
        lemma_mul_bound(h2 as int, h as int, 1073741824, 32768);
        lemma_mul_bound(t2 as int, h as int, 1073741824, 32768);
        lemma_mul_bound(t as int, h2 as int, 32768, 1073741824);
        lemma_mul_bound(t2 as int, h2 as int, 1073741824, 1073741824);
    }
    let t3 = t2 * t;
    let h3 = h2 * h;
    let t2h = t2 * h;
    let th2 = t * h2;
    let t2h2 = t2 * h2;
    proof {
        lemma_mul_bound(t3 as int, h as int, 35184372088832, 32768);
        lemma_mul_bound(t as int, h3 as int, 32768, 35184372088832);
        lemma_mul_bound(t3 as int, h2 as int, 35184372088832, 1073741824);
        lemma_mul_bound(t2 as int, h3 as int, 1073741824, 35184372088832);
        lemma_mul_bound(t3 as int, h3 as int, 35184372088832, 35184372088832);
    }
    let t3h = t3 * h;
    let th3 = t * h3;
    let t3h2 = t3 * h2;
    let t2h3 = t2 * h3;
    let t3h3 = t3 * h3;
    169230000000000000000000
        + 185212000000000000000 * t
        + 5379410000000000000000 * h
        - 10025400000000000000 * th
        + 941695000000000000 * t2
        + 728898000000000000 * h2
        + 3453720000000000 * t2h
        - 8149710000000000 * th2
        + 10210200000000 * t2h2
        - 386460000000000 * t3
        + 291583000000000 * h3
        + 1427210000000 * t3h
        + 197483000000 * th3
        - 2184290000 * t3h2
        + 84329600 * t2h3
        - 481975 * t3h3
}

/// The three readings a weather subject holds, each in tenths of its unit.
#[derive(Clone, Copy, Debug, PartialEq, Eq, Structural)]
pub struct Readings {
    pub temperature: i16,
    pub humidity: i16,
    pub pressure: i16,
}

/// What a display shows after an update.
#[derive(Clone, Copy, Debug, PartialEq, Eq, Structural)]
pub enum Rendering {
    CurrentConditions { temperature: i16, humidity: i16 },
    /// The heat index scaled by 10^22, as `heat_index` gives it.
    HeatIndex { scaled: i128 },
    Forecast { trend: Trend },
}

/// An observer of a weather subject: it pulls the readings it needs on each
/// update and keeps what it pulled.
#[derive(Clone, Copy, Debug, PartialEq, Eq, Structural)]
pub enum DisplayElement {
    CurrentConditions { temperature: i16, humidity: i16 },
    HeatIndex { temperature: i16, humidity: i16 },
    Forecast { current_pressure: i16, last_pressure: i16 },
}

impl DisplayElement {
    pub open spec fn after_update(self, readings: Readings) -> DisplayElement {
        match self {
            DisplayElement::CurrentConditions { .. } => DisplayElement::CurrentConditions {
                temperature: readings.temperature,
                humidity: readings.humidity,
            },
            DisplayElement::HeatIndex { .. } => DisplayElement::HeatIndex {
                temperature: readings.temperature,
                humidity: readings.humidity,
            },
            DisplayElement::Forecast { current_pressure, .. } => DisplayElement::Forecast {
                current_pressure: readings.pressure,
                last_pressure: current_pressure,
            },
        }
    }

    pub open spec fn rendering(self) -> Rendering {
        match self {
            DisplayElement::CurrentConditions { temperature, humidity } => {
                Rendering::CurrentConditions { temperature, humidity }
            },
            DisplayElement::HeatIndex { temperature, humidity } => Rendering::HeatIndex {
                scaled: heat_index_spec(temperature as int, humidity as int) as i128,
            },
            DisplayElement::Forecast { current_pressure, last_pressure } => Rendering::Forecast {
                trend: trend_spec(last_pressure, current_pressure),
            },
        }
    }

    pub fn current_conditions() -> (r: DisplayElement)
        ensures
            r == (DisplayElement::CurrentConditions { temperature: 0, humidity: 0 }),
    {
        DisplayElement::CurrentConditions { temperature: 0, humidity: 0 }
    }

    pub fn heat_index() -> (r: DisplayElement)
        ensures
            r == (DisplayElement::HeatIndex { temperature: 0, humidity: 0 }),
    {
        DisplayElement::HeatIndex { temperature: 0, humidity: 0 }
    }

    pub fn forecast() -> (r: DisplayElement)
        ensures
            r == (DisplayElement::Forecast { current_pressure: 0, last_pressure: 0 }),
    {
        DisplayElement::Forecast { current_pressure: 0, last_pressure: 0 }
    }

    /// What the display shows for what it holds now.
    pub fn display(&self) -> (r: Rendering)
        ensures
            r == self.rendering(),
    {
        match self {
            DisplayElement::CurrentConditions { temperature, humidity } => {
                Rendering::CurrentConditions { temperature: *temperature, humidity: *humidity }
            },
            DisplayElement::HeatIndex { temperature, humidity } => Rendering::HeatIndex {
                scaled: heat_index(*temperature, *humidity),
            },
            DisplayElement::Forecast { current_pressure, last_pressure } => Rendering::Forecast {
                trend: trend(*last_pressure, *current_pressure),
            },
        }
    }

    /// Pulls the readings this display needs, then shows them.
    pub fn update(&mut self, readings: Readings) -> (r: Rendering)
        ensures
            *final(self) == old(self).after_update(readings),
            r == old(self).after_update(readings).rendering(),
    {
        let next = match self {
            DisplayElement::CurrentConditions { .. } => DisplayElement::CurrentConditions {
                temperature: readings.temperature,
                humidity: readings.humidity,
            },
            DisplayElement::HeatIndex { .. } => DisplayElement::HeatIndex {
                temperature: readings.temperature,
                humidity: readings.humidity,
            },
            DisplayElement::Forecast { current_pressure, .. } => DisplayElement::Forecast {
                current_pressure: readings.pressure,
                last_pressure: *current_pressure,
            },
        };
        *self = next;
        self.display()
    }
}

/// A subject's reference to one of its observers. The identity is the
/// observer's slot in an `ObserverPool`; an owning reference keeps that slot
/// alive, a non-owning one may find it destroyed.
#[derive(Clone, Copy, Debug, PartialEq, Eq, Structural)]
pub struct ObserverRef {
    pub id: usize,
    pub owning: bool,
}

/// One observer shown one thing during a notification.
#[derive(Clone, Copy, Debug, PartialEq, Eq, Structural)]
pub struct Notification {
    pub observer: usize,
    pub rendering: Rendering,
}

/// The observer in slot `id`, if that slot exists and is still alive.
pub open spec fn resolve(slots: Seq<Option<DisplayElement>>, id: usize) -> Option<DisplayElement> {
    if id < slots.len() {
        slots[id as int]
    } else {
        None
    }
}

pub open spec fn is_live(slots: Seq<Option<DisplayElement>>, id: usize) -> bool {
    resolve(slots, id) is Some
}

/// Notifying `refs` in order: each reference that resolves is updated with
/// `readings` and shows what it now holds; one that does not is skipped.
/// Gives the slots afterwards and what was shown, in order.
pub open spec fn notify_spec(
    refs: Seq<ObserverRef>,
    readings: Readings,
    slots: Seq<Option<DisplayElement>>,
) -> (Seq<Option<DisplayElement>>, Seq<Notification>)
    decreases refs.len(),
{
    if refs.len() == 0 {
        (slots, Seq::empty())
    } else {
        let (before, shown) = notify_spec(refs.drop_last(), readings, slots);
        let id = refs.last().id;
        match resolve(before, id) {
            Some(d) => {
                let d2 = d.after_update(readings);
                (
                    before.update(id as int, Some(d2)),
                    shown.push(Notification { observer: id, rendering: d2.rendering() }),
                )
            },
            None => (before, shown),
        }
    }
}

/// The identities in `refs` whose observer is alive in `slots`, in order.
pub open spec fn live_ids(refs: Seq<ObserverRef>, slots: Seq<Option<DisplayElement>>) -> Seq<usize>
    decreases refs.len(),
{
    if refs.len() == 0 {
        Seq::empty()
    } else {
        let rest = live_ids(refs.drop_last(), slots);
        if is_live(slots, refs.last().id) {
            rest.push(refs.last().id)
        } else {
            rest
        }
    }
}

pub open spec fn ids_of(refs: Seq<ObserverRef>) -> Seq<usize> {
    refs.map_values(|r: ObserverRef| r.id)
}

pub open spec fn holds_id(refs: Seq<ObserverRef>, id: usize) -> bool {
    exists|i: int| 0 <= i < refs.len() && refs[i].id == id
}

pub open spec fn distinct_ids(refs: Seq<ObserverRef>) -> bool {
    forall|i: int, j: int| 0 <= i < j < refs.len() ==> refs[i].id != refs[j].id
}

/// The subscription list after `add_observer(r)`.
pub open spec fn added(refs: Seq<ObserverRef>, r: ObserverRef) -> Seq<ObserverRef> {
    if holds_id(refs, r.id) {
        refs
    } else {
        refs.push(r)
    }
}

/// The subscription list after `remove_observer(id)`.
pub open spec fn removed(refs: Seq<ObserverRef>, id: usize) -> Seq<ObserverRef> {
    refs.filter(|r: ObserverRef| r.id != id)
}

/// The observers, each in a slot that its identity names. A destroyed
/// observer leaves its slot empty, and slots are never reused.
pub struct ObserverPool {
    displays: Vec<Option<DisplayElement>>,
}

impl ObserverPool {
    pub closed spec fn slots(self) -> Seq<Option<DisplayElement>> {
        self.displays@
    }

    pub fn new() -> (r: ObserverPool)
        ensures
            r.slots() == Seq::<Option<DisplayElement>>::empty(),
    {
        ObserverPool { displays: Vec::new() }
    }

    /// Places `display` in a fresh slot and gives its identity.
    pub fn attach(&mut self, display: DisplayElement) -> (id: usize)
        requires
            old(self).slots().len() < usize::MAX,
        ensures
            id == old(self).slots().len(),
            final(self).slots() == old(self).slots().push(Some(display)),
    {
        let id = self.displays.len();
        self.displays.push(Some(display));
        id
    }

    pub fn get(&self, id: usize) -> (r: Option<DisplayElement>)
        ensures
            r == resolve(self.slots(), id),
    {
        if id < self.displays.len() {
            self.displays[id]
        } else {
            None
        }
    }

    /// Destroys the observer in slot `id`, unless the slot is empty or
    /// `subject` holds an owning reference to it. Tells whether it did.
    pub fn destroy(&mut self, id: usize, subject: &WeatherData) -> (r: bool)
        ensures
            r == (is_live(old(self).slots(), id) && !subject.owns(id)),
            final(self).slots() == if r {
                old(self).slots().update(id as int, None)
            } else {
                old(self).slots()
            },
    {
        if id >= self.displays.len() || self.displays[id].is_none() || subject.has_owning(id) {
            return false;
        }
        self.displays.set(id, None);
        true
    }
}

/// The weather subject: three readings and the ordered list of its
/// observers, with no identity twice.
pub struct WeatherData {
    readings: Readings,
    observers: Vec<ObserverRef>,
}

impl WeatherData {
    pub closed spec fn subscribers(self) -> Seq<ObserverRef> {
        self.observers@
    }

    pub closed spec fn readings(self) -> Readings {
        self.readings
    }

    pub open spec fn wf(self) -> bool {
        distinct_ids(self.subscribers())
    }

    pub open spec fn owns(self, id: usize) -> bool {
        exists|i: int|
            0 <= i < self.subscribers().len() && self.subscribers()[i].id == id
                && self.subscribers()[i].owning
    }

    pub fn new() -> (r: WeatherData)
        ensures
            r.wf(),
            r.subscribers() == Seq::<ObserverRef>::empty(),
            r.readings() == (Readings { temperature: 0, humidity: 0, pressure: 0 }),
    {
        WeatherData {
            readings: Readings { temperature: 0, humidity: 0, pressure: 0 },
            observers: Vec::new(),
        }
    }

    pub fn get_temperature(&self) -> (r: i16)
        ensures
            r == self.readings().temperature,
    {
        self.readings.temperature
    }

    pub fn get_humidity(&self) -> (r: i16)
        ensures
            r == self.readings().humidity,
    {
        self.readings.humidity
    }

    pub fn get_pressure(&self) -> (r: i16)
        ensures
            r == self.readings().pressure,
    {
        self.readings.pressure
    }

    fn has_owning(&self, id: usize) -> (r: bool)
        ensures
            r == self.owns(id),
    {
        let mut i: usize = 0;
        while i < self.observers.len()
            invariant
                0 <= i <= self.observers.len(),
                forall|k: int|
                    0 <= k < i ==> !(self.observers@[k].id == id && self.observers@[k].owning),
            decreases self.observers.len() - i,
        {
            if self.observers[i].id == id && self.observers[i].owning {
                assert(self.subscribers()[i as int] == self.observers@[i as int]);
                return true;
            }
            i = i + 1;
        }
        false
    }

    fn position_of(&self, id: usize) -> (r: Option<usize>)
        ensures
            r is None <==> !holds_id(self.subscribers(), id),
            r matches Some(i) ==> i < self.subscribers().len() && self.subscribers()[i as int].id
                == id,
    {
        let mut i: usize = 0;
        while i < self.observers.len()
            invariant
                0 <= i <= self.observers.len(),
                forall|k: int| 0 <= k < i ==> self.observers@[k].id != id,
            decreases self.observers.len() - i,
        {
            if self.observers[i].id == id {
                return Some(i);
            }
            i = i + 1;
        }
        None
    }

    /// Subscribes `observer` at the end of the list, unless its identity is
    /// already there.
    pub fn add_observer(&mut self, observer: ObserverRef)
        requires
            old(self).wf(),
        ensures
            final(self).wf(),
            final(self).subscribers() == added(old(self).subscribers(), observer),
            final(self).readings() == old(self).readings(),
    {
        if self.position_of(observer.id).is_none() {
            self.observers.push(observer);
        }
    }

    /// Unsubscribes every reference with identity `id`.
    pub fn remove_observer(&mut self, id: usize)
        requires
            old(self).wf(),
        ensures
            final(self).wf(),
            final(self).subscribers() == removed(old(self).subscribers(), id),
            final(self).readings() == old(self).readings(),
    {
        let mut kept: Vec<ObserverRef> = Vec::new();
        let mut i: usize = 0;
        while i < self.observers.len()
            invariant
                0 <= i <= self.observers.len(),
                kept@ == removed(self.observers@.subrange(0, i as int), id),
            decreases self.observers.len() - i,
        {
            let ghost prefix = self.observers@.subrange(0, i + 1);
            proof {
                reveal(Seq::filter);
                assert(prefix.drop_last() =~= self.observers@.subrange(0, i as int));
                assert(prefix.last() == self.observers@[i as int]);
            }
            if self.observers[i].id != id {
                kept.push(self.observers[i]);
            }
            assert(kept@ == removed(prefix, id));
            i = i + 1;
        }
        proof {
            assert(self.observers@.subrange(0, self.observers@.len() as int) =~= self.observers@);
            lemma_filter_keeps_distinct(self.observers@, |r: ObserverRef| r.id != id);
        }
        self.observers = kept;
    }

    /// Updates every observer whose reference resolves, in subscription
    /// order, and gives what each showed. References that do not resolve are
    /// skipped.
    pub fn notify_observers(&self, pool: &mut ObserverPool) -> (r: Vec<Notification>)
        ensures
            (final(pool).slots(), r@) == notify_spec(self.subscribers(), self.readings(), old(pool).slots()),
    {
        let mut shown: Vec<Notification> = Vec::new();
        let mut i: usize = 0;
        while i < self.observers.len()
            invariant
                0 <= i <= self.observers.len(),
                (pool.slots(), shown@) == notify_spec(
                    self.observers@.subrange(0, i as int),
                    self.readings,
                    old(pool).slots(),
                ),
            decreases self.observers.len() - i,
        {
            proof {
                assert(self.observers@.subrange(0, i + 1).drop_last() =~= self.observers@.subrange(0, i as int));
            }
            let id = self.observers[i].id;
            if id < pool.displays.len() {
                if let Some(mut d) = pool.displays[id] {
                    let rendering = d.update(self.readings);
                    pool.displays.set(id, Some(d));
                    shown.push(Notification { observer: id, rendering });
                }
            }
            i = i + 1;
        }
        proof {
            assert(self.observers@.subrange(0, self.observers@.len() as int) =~= self.observers@);
        }
        shown
    }

    /// Notification on a change of the readings.
    pub fn measurements_changed(&self, pool: &mut ObserverPool) -> (r: Vec<Notification>)
        ensures
            (final(pool).slots(), r@) == notify_spec(self.subscribers(), self.readings(), old(pool).slots()),
    {
        self.notify_observers(pool)
    }

    /// Overwrites all three readings, then notifies every observer, even
    /// when the readings did not change.
    pub fn set_measurements(
        &mut self,
        temperature: i16,
        humidity: i16,
        pressure: i16,
        pool: &mut ObserverPool,
    ) -> (r: Vec<Notification>)
        ensures
            final(self).readings() == (Readings { temperature, humidity, pressure }),
            final(self).subscribers() == old(self).subscribers(),
            (final(pool).slots(), r@) == notify_spec(
                old(self).subscribers(),
                Readings { temperature, humidity, pressure },
                old(pool).slots(),
            ),
    {
        self.readings = Readings { temperature, humidity, pressure };
        self.measurements_changed(pool)
    }
}

proof fn lemma_filter_keeps_distinct(refs: Seq<ObserverRef>, pred: spec_fn(ObserverRef) -> bool)
    requires
        distinct_ids(refs),
    ensures
        distinct_ids(refs.filter(pred)),
    decreases refs.len(),
{
    reveal(Seq::filter);
    if refs.len() > 0 {
        lemma_filter_keeps_distinct(refs.drop_last(), pred);
        let rest = refs.drop_last().filter(pred);
        if pred(refs.last()) {
            assert forall|k: int| 0 <= k < rest.len() implies rest[k].id != refs.last().id by {
                refs.drop_last().lemma_filter_contains_rev(pred, rest[k]);
                let j = choose|j: int| 0 <= j < refs.drop_last().len() && refs.drop_last()[j] == rest[k];
                assert(refs[j] == rest[k]);
                assert(refs.last() == refs[refs.len() - 1]);
            }
        }
    }
}

/// The identities notified, in order, when `refs` are notified.
pub open spec fn notified(
    refs: Seq<ObserverRef>,
    readings: Readings,
    slots: Seq<Option<DisplayElement>>,
) -> Seq<usize> {
    notify_spec(refs, readings, slots).1.map_values(|n: Notification| n.observer)
}

proof fn lemma_notify_shape(
    refs: Seq<ObserverRef>,
    readings: Readings,
    slots: Seq<Option<DisplayElement>>,
)
    ensures
        notify_spec(refs, readings, slots).0.len() == slots.len(),
        forall|id: usize| is_live(notify_spec(refs, readings, slots).0, id) == is_live(slots, id),
        notified(refs, readings, slots) == live_ids(refs, slots),
    decreases refs.len(),
{
    if refs.len() > 0 {
        lemma_notify_shape(refs.drop_last(), readings, slots);
        let (before, shown) = notify_spec(refs.drop_last(), readings, slots);
        let id = refs.last().id;
        let after = notify_spec(refs, readings, slots).0;
        assert forall|x: usize| is_live(after, x) == is_live(slots, x) by {
            assert(is_live(before, x) == is_live(slots, x));
        }
        if let Some(d) = resolve(before, id) {
            let n = Notification { observer: id, rendering: d.after_update(readings).rendering() };
            assert(shown.push(n).map_values(|n: Notification| n.observer) =~= shown.map_values(
                |n: Notification| n.observer,
            ).push(id));
        }
    }
}

proof fn lemma_live_ids_members(refs: Seq<ObserverRef>, slots: Seq<Option<DisplayElement>>, x: usize)
    ensures
        live_ids(refs, slots).contains(x) <==> (holds_id(refs, x) && is_live(slots, x)),
    decreases refs.len(),
{
    if refs.len() > 0 {
        let rest = refs.drop_last();
        lemma_live_ids_members(rest, slots, x);
        if holds_id(refs, x) && is_live(slots, x) {
            let i = choose|i: int| 0 <= i < refs.len() && refs[i].id == x;
            if i < refs.len() - 1 {
                assert(rest[i] == refs[i]);
                assert(holds_id(rest, x));
                let before = live_ids(rest, slots);
                let k = choose|k: int| 0 <= k < before.len() && before[k] == x;
                assert(live_ids(refs, slots)[k] == x);
            }
            let ids = live_ids(refs, slots);
            if refs.last().id == x {
                assert(ids[ids.len() - 1] == x);
            }
        }
        if holds_id(rest, x) {
            let i = choose|i: int| 0 <= i < rest.len() && rest[i].id == x;
            assert(refs[i] == rest[i]);
        }
        let before = live_ids(rest, slots);
        if live_ids(refs, slots).contains(x) {
            let k = choose|k: int| 0 <= k < live_ids(refs, slots).len() && live_ids(refs, slots)[k] == x;
            if is_live(slots, refs.last().id) {
                if k < before.len() {
                    assert(before[k] == x);
                } else {
                    assert(refs[refs.len() - 1].id == x);
                }
            } else {
                assert(before[k] == x);
            }
        }
    }
}

proof fn lemma_live_ids_distinct(refs: Seq<ObserverRef>, slots: Seq<Option<DisplayElement>>)
    requires
        distinct_ids(refs),
    ensures
        live_ids(refs, slots).no_duplicates(),
    decreases refs.len(),
{
    if refs.len() > 0 {
        let rest = refs.drop_last();
        lemma_live_ids_distinct(rest, slots);
        lemma_live_ids_members(rest, slots, refs.last().id);
        if holds_id(rest, refs.last().id) {
            let i = choose|i: int| 0 <= i < rest.len() && rest[i].id == refs.last().id;
            assert(refs[i] == rest[i]);
        }
    }
}

proof fn lemma_live_ids_all_live(refs: Seq<ObserverRef>, slots: Seq<Option<DisplayElement>>)
    requires
        forall|i: int| 0 <= i < refs.len() ==> is_live(slots, #[trigger] refs[i].id),
    ensures
        live_ids(refs, slots) == ids_of(refs),
    decreases refs.len(),
{
    if refs.len() > 0 {
        let rest = refs.drop_last();
        assert forall|i: int| 0 <= i < rest.len() implies is_live(slots, #[trigger] rest[i].id) by {
            assert(rest[i] == refs[i]);
        }
        lemma_live_ids_all_live(rest, slots);
        assert(is_live(slots, refs[refs.len() - 1].id));
        assert(ids_of(refs) =~= ids_of(rest).push(refs.last().id));
    }
}

/// Notification reaches the live observers in the order in which they were
/// subscribed; when every subscriber is alive, the order of notification is
/// exactly the order of subscription.
pub proof fn lemma_notification_follows_subscription_order(
    refs: Seq<ObserverRef>,
    readings: Readings,
    slots: Seq<Option<DisplayElement>>,
)
    ensures
        notified(refs, readings, slots) == live_ids(refs, slots),
        (forall|i: int| 0 <= i < refs.len() ==> is_live(slots, #[trigger] refs[i].id))
            ==> notified(refs, readings, slots) == ids_of(refs),
{
    lemma_notify_shape(refs, readings, slots);
    if forall|i: int| 0 <= i < refs.len() ==> is_live(slots, #[trigger] refs[i].id) {
        lemma_live_ids_all_live(refs, slots);
    }
}

/// Subscribing the same observer twice is the same as subscribing it once:
/// each notification then reaches it exactly once.
pub proof fn lemma_subscribing_twice_notifies_once(
    refs: Seq<ObserverRef>,
    observer: ObserverRef,
    readings: Readings,
    slots: Seq<Option<DisplayElement>>,
)
    requires
        distinct_ids(refs),
        is_live(slots, observer.id),
    ensures
        added(added(refs, observer), observer) == added(refs, observer),
        notified(added(added(refs, observer), observer), readings, slots).contains(observer.id),
        notified(added(added(refs, observer), observer), readings, slots).no_duplicates(),
{
    let once = added(refs, observer);
    if !holds_id(refs, observer.id) {
        assert(once[once.len() - 1].id == observer.id);
        assert forall|i: int, j: int| 0 <= i < j < once.len() implies once[i].id != once[j].id by {
            if j == once.len() - 1 {
                assert(refs[i].id != observer.id);
            }
        }
    }
    assert(holds_id(once, observer.id));
    lemma_notify_shape(once, readings, slots);
    lemma_live_ids_members(once, slots, observer.id);
    lemma_live_ids_distinct(once, slots);
}

/// An observer that was unsubscribed is not notified.
pub proof fn lemma_removed_observer_is_not_notified(
    refs: Seq<ObserverRef>,
    id: usize,
    readings: Readings,
    slots: Seq<Option<DisplayElement>>,
)
    ensures
        !notified(removed(refs, id), readings, slots).contains(id),
{
    let rest = removed(refs, id);
    lemma_notify_shape(rest, readings, slots);
    lemma_live_ids_members(rest, slots, id);
    if holds_id(rest, id) {
        let i = choose|i: int| 0 <= i < rest.len() && rest[i].id == id;
        refs.lemma_filter_pred(|r: ObserverRef| r.id != id, i);
    }
}

/// A reference whose observer has been destroyed is skipped: notification
/// goes on without it, and its slot stays empty.
pub proof fn lemma_destroyed_observer_is_skipped(
    refs: Seq<ObserverRef>,
    id: usize,
    readings: Readings,
    slots: Seq<Option<DisplayElement>>,
)
    requires
        !is_live(slots, id),
    ensures
        !notified(refs, readings, slots).contains(id),
        !is_live(notify_spec(refs, readings, slots).0, id),
{
    lemma_notify_shape(refs, readings, slots);
    lemma_live_ids_members(refs, slots, id);
}

/// An owning reference is never skipped: where every owning reference is
/// alive, each of them is notified.
pub proof fn lemma_owning_references_are_notified(
    refs: Seq<ObserverRef>,
    readings: Readings,
    slots: Seq<Option<DisplayElement>>,
    i: int,
)
    requires
        forall|k: int| 0 <= k < refs.len() && (#[trigger] refs[k]).owning ==> is_live(slots, refs[k].id),
        0 <= i < refs.len(),
        refs[i].owning,
    ensures
        notified(refs, readings, slots).contains(refs[i].id),
{
    lemma_notify_shape(refs, readings, slots);
    lemma_live_ids_members(refs, slots, refs[i].id);
}

/// Each notification as a line of a transcript, then a break.
pub open spec fn round(shown: Seq<Notification>) -> Seq<Line> {
    shown.map_values(|n: Notification| Line::Report(n)).push(Line::Break)
}

fn push_round(out: &mut Vec<Line>, shown: &Vec<Notification>)
    ensures
        final(out)@ == old(out)@ + round(shown@),
{
    let mut i: usize = 0;
    while i < shown.len()
        invariant
            0 <= i <= shown.len(),
            out@ == old(out)@ + shown@.subrange(0, i as int).map_values(
                |n: Notification| Line::Report(n),
            ),
        decreases shown.len() - i,
    {
        out.push(Line::Report(shown[i]));
        i = i + 1;
        assert(shown@.subrange(0, i as int).map_values(|n: Notification| Line::Report(n))
            =~= shown@.subrange(0, i - 1).map_values(|n: Notification| Line::Report(n)).push(
            Line::Report(shown@[i - 1]),
        ));
    }
    out.push(Line::Break);
    assert(shown@.subrange(0, shown@.len() as int) =~= shown@);
    assert(out@ =~= old(out)@ + round(shown@));
}

/// The subscriptions of the weather scenario: current conditions through a
/// non-owning reference, heat index and forecast through owning ones.
pub open spec fn weather_refs() -> Seq<ObserverRef> {
    seq![
        ObserverRef { id: 0, owning: false },
        ObserverRef { id: 1, owning: true },
        ObserverRef { id: 2, owning: true },
    ]
}

pub open spec fn weather_slots() -> Seq<Option<DisplayElement>> {
    seq![
        Some(DisplayElement::CurrentConditions { temperature: 0, humidity: 0 }),
        Some(DisplayElement::HeatIndex { temperature: 0, humidity: 0 }),
        Some(DisplayElement::Forecast { current_pressure: 0, last_pressure: 0 }),
    ]
}

/// The weather scenario: three displays subscribe to one subject, which then
/// takes three sets of readings (80.0 F, 65.0 %, 30.4; 82.0 F, 70.0 %, 29.2;
/// 78.0 F, 90.0 %, 29.2), each notified in full.
#[derive(Clone, Copy, Debug, PartialEq, Eq, Structural)]
pub struct ObserverPattern;

impl DesignPatternFactory for ObserverPattern {
    fn new() -> Self {
        ObserverPattern
    }
}

impl DesignPattern for ObserverPattern {
    open spec fn transcript(&self) -> Seq<Line> {
        let (s1, n1) = notify_spec(
            weather_refs(),
            Readings { temperature: 800, humidity: 650, pressure: 304 },
            weather_slots(),
        );
        let (s2, n2) = notify_spec(
            weather_refs(),
            Readings { temperature: 820, humidity: 700, pressure: 292 },
            s1,
        );
        let (s3, n3) = notify_spec(
            weather_refs(),
            Readings { temperature: 780, humidity: 900, pressure: 292 },
            s2,
        );
        round(n1) + round(n2) + round(n3)
    }

    fn run(&self) -> (r: Vec<Line>) {
        let mut pool = ObserverPool::new();
        let mut weather_data = WeatherData::new();

        let current = pool.attach(DisplayElement::current_conditions());
        weather_data.add_observer(ObserverRef { id: current, owning: false });
        let heat = pool.attach(DisplayElement::heat_index());
        weather_data.add_observer(ObserverRef { id: heat, owning: true });
        let forecast = pool.attach(DisplayElement::forecast());
        weather_data.add_observer(ObserverRef { id: forecast, owning: true });
        assert(pool.slots() =~= weather_slots());
        assert(weather_data.subscribers() =~= weather_refs());

        let mut out: Vec<Line> = Vec::new();
        let shown = weather_data.set_measurements(800, 650, 304, &mut pool);
        push_round(&mut out, &shown);
        let shown = weather_data.set_measurements(820, 700, 292, &mut pool);
        push_round(&mut out, &shown);
        let shown = weather_data.set_measurements(780, 900, 292, &mut pool);
        push_round(&mut out, &shown);
        assert(out@ =~= self.transcript());
        out
    }
}

} // verus!
