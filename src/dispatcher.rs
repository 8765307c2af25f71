use vstd::prelude::*;

use std::collections::VecDeque;

use crate::action::{action_kind, event_kind, Action, ActionType, Event, EventType, KeyPress};
use crate::home::{home_update, Home, HomeOutcome, HomeView};
use crate::keymap::{Keymap, Mode};
use crate::output::AudioOutput;
use crate::song_list::{SongList, SongListView};

verus! {

/// Whether a component with the given interest list receives items of kind
/// `kind`. An empty list receives every kind.
pub open spec fn accepts<T>(interests: Seq<T>, kind: T) -> bool {
    interests.len() == 0 || interests.contains(kind)
}

pub fn accepts_action(interests: &Vec<ActionType>, kind: ActionType) -> (r: bool)
    ensures
        r == accepts(interests@, kind),
{
    if interests.len() == 0 {
        return true;
    }
    let mut i: usize = 0;
    while i < interests.len()
        invariant
            i <= interests@.len(),
            forall|j: int| 0 <= j < i ==> interests@[j] != kind,
        decreases interests@.len() - i,
    {
        if interests[i] == kind {
            return true;
        }
        i = i + 1;
    }
    false
}

pub fn accepts_event(interests: &Vec<EventType>, kind: EventType) -> (r: bool)
    ensures
        r == accepts(interests@, kind),
{
    if interests.len() == 0 {
        return true;
    }
    let mut i: usize = 0;
    while i < interests.len()
        invariant
            i <= interests@.len(),
            forall|j: int| 0 <= j < i ==> interests@[j] != kind,
        decreases interests@.len() - i,
    {
        if interests[i] == kind {
            return true;
        }
        i = i + 1;
    }
    false
}

/// The actions of `acts`, in order, that a component with action interest
/// `interests` receives.
pub open spec fn received(acts: Seq<Action>, interests: Seq<ActionType>) -> Seq<Action>
    decreases acts.len(),
{
    if acts.len() == 0 {
        seq![]
    } else if accepts(interests, action_kind(acts.last())) {
        received(acts.drop_last(), interests).push(acts.last())
    } else {
        received(acts.drop_last(), interests)
    }
}

/// Work on the terminal that the dispatcher asks of its host.
#[derive(Clone, Copy, Debug, PartialEq, Eq, Structural)]
pub enum Effect {
    /// A draw pass over all components.
    Draw,
    /// Resize the viewport to the given width and height.
    Resize(u16, u16),
    /// Clear the render surface.
    Clear,
}

/// Terminal work that one action asks for.
pub open spec fn action_effects(a: Action) -> Seq<Effect> {
    match a {
        Action::Render => seq![Effect::Draw],
        Action::Resize(w, h) => seq![Effect::Resize(w, h), Effect::Draw],
        Action::ClearScreen => seq![Effect::Clear],
        _ => seq![],
    }
}

/// Terminal work that a batch of actions asks for, in order.
pub open spec fn effects_of(acts: Seq<Action>) -> Seq<Effect>
    decreases acts.len(),
{
    if acts.len() == 0 {
        seq![]
    } else {
        effects_of(acts.drop_last()) + action_effects(acts.last())
    }
}

/// The quitting flag after a batch: set once a Quit has passed.
pub open spec fn quit_after(quitting: bool, acts: Seq<Action>) -> bool
    decreases acts.len(),
{
    if acts.len() == 0 {
        quitting
    } else {
        quit_after(quitting, acts.drop_last()) || acts.last() is Quit
    }
}

/// The suspending flag after a batch: the last Suspend or Resume decides.
pub open spec fn suspend_after(suspending: bool, acts: Seq<Action>) -> bool
    decreases acts.len(),
{
    if acts.len() == 0 {
        suspending
    } else {
        match acts.last() {
            Action::Suspend => true,
            Action::Resume => false,
            _ => suspend_after(suspending, acts.drop_last()),
        }
    }
}

/// The pending chord keys after a batch: dropped by every Tick.
pub open spec fn pending_after(pending: Seq<KeyPress>, acts: Seq<Action>) -> Seq<KeyPress>
    decreases acts.len(),
{
    if acts.len() == 0 {
        pending
    } else if acts.last() is Tick {
        seq![]
    } else {
        pending_after(pending, acts.drop_last())
    }
}

/// The effect of one action on the dispatcher itself: Quit and Suspend raise
/// their flags, Resume lowers the suspend flag, Tick drops the pending chord
/// keys.
pub open spec fn core_step(v: AppView, a: Action) -> AppView {
    AppView {
        should_quit: v.should_quit || a is Quit,
        should_suspend: match a {
            Action::Suspend => true,
            Action::Resume => false,
            _ => v.should_suspend,
        },
        pending: if a is Tick {
            seq![]
        } else {
            v.pending
        },
        ..v
    }
}

/// The action that the dispatcher itself makes of a raw event, if any.
pub open spec fn core_action(e: Event) -> Option<Action> {
    match e {
        Event::Quit => Some(Action::Quit),
        Event::Tick => Some(Action::Tick),
        Event::Render => Some(Action::Render),
        Event::Resize(w, h) => Some(Action::Resize(w, h)),
        _ => None,
    }
}

/// The value held by `o`, as a sequence of zero or one items.
pub open spec fn option_seq<T>(o: Option<T>) -> Seq<T> {
    match o {
        Some(x) => seq![x],
        None => seq![],
    }
}

/// One of the components that the dispatcher fans actions out to.
pub enum Component<O> {
    Home(Home<O>),
    SongList(SongList),
}

/// Abstract state of a component.
pub enum ComponentView {
    Home(HomeView),
    SongList(SongListView),
}

impl<O> View for Component<O> {
    type V = ComponentView;

    open spec fn view(&self) -> ComponentView {
        match self {
            Component::Home(h) => ComponentView::Home(h@),
            Component::SongList(s) => ComponentView::SongList(s@),
        }
    }
}

impl ComponentView {
    pub open spec fn wf(&self) -> bool {
        match self {
            ComponentView::Home(h) => h.wf(),
            ComponentView::SongList(_) => true,
        }
    }

    /// How a component answers a raw event.
    pub open spec fn reply(&self, e: Event) -> Option<Action> {
        match self {
            ComponentView::Home(_) => match e {
                Event::Key(k) => Some(Action::Key(k)),
                _ => None,
            },
            ComponentView::SongList(_) => None,
        }
    }

    /// Whether delivering `a` at clock reading `now` may take the component
    /// from `self` to `next`, for some report of the output device.
    pub open spec fn step(&self, a: Action, now: u64, next: ComponentView) -> bool {
        match (*self, next) {
            (ComponentView::Home(h), ComponentView::Home(h2)) => exists|o: HomeOutcome|
                h2 == home_update(h, a, now, o),
            (ComponentView::SongList(s), ComponentView::SongList(s2)) => s2 == s,
            _ => false,
        }
    }
}

/// Whether `trace` lists the states that a component passes through when
/// `acts` are delivered in order at clock reading `now`, from `c` to `c2`.
pub open spec fn is_trace(
    trace: Seq<ComponentView>,
    c: ComponentView,
    acts: Seq<Action>,
    now: u64,
    c2: ComponentView,
) -> bool {
    &&& trace.len() == acts.len() + 1
    &&& trace[0] == c
    &&& trace.last() == c2
    &&& forall|i: int| 0 <= i < acts.len() ==> trace[i].step(#[trigger] acts[i], now, trace[i + 1])
}

/// Whether delivering `acts` in order at clock reading `now` may take a
/// component from `c` to `c2`.
pub open spec fn delivered(c: ComponentView, acts: Seq<Action>, now: u64, c2: ComponentView) -> bool {
    exists|trace: Seq<ComponentView>| is_trace(trace, c, acts, now, c2)
}

/// The replies of the first `n` components to a raw event, in component
/// order, from those whose event interest accepts it.
pub open spec fn raw_replies(
    comps: Seq<ComponentView>,
    interests: Seq<Seq<EventType>>,
    e: Event,
    n: nat,
) -> Seq<Action>
    decreases n,
{
    if n == 0 {
        seq![]
    } else {
        let prev = raw_replies(comps, interests, e, (n - 1) as nat);
        if accepts(interests[n - 1], event_kind(e)) {
            prev + option_seq(comps[n - 1].reply(e))
        } else {
            prev
        }
    }
}

impl<O: AudioOutput> Component<O> {
    pub fn interested_actions(&self) -> (r: Vec<ActionType>)
        ensures
            r@.len() == 0,
    {
        match self {
            Component::Home(h) => h.interested_actions(),
            Component::SongList(_) => Vec::new(),
        }
    }

    pub fn interested_events(&self) -> (r: Vec<EventType>)
        ensures
            r@.len() == 0,
    {
        match self {
            Component::Home(h) => h.interested_events(),
            Component::SongList(_) => Vec::new(),
        }
    }

    pub fn handle_events(&self, e: &Event) -> (r: Option<Action>)
        ensures
            r == self@.reply(*e),
    {
        match self {
            Component::Home(h) => h.handle_events(e),
            Component::SongList(_) => None,
        }
    }

    pub fn update(&mut self, a: &Action, now_ms: u64) -> (r: Option<Action>)
        requires
            old(self)@.wf(),
        ensures
            r is None,
            final(self)@.wf(),
            old(self)@.step(*a, now_ms, final(self)@),
    {
        match self {
            Component::Home(h) => h.update(a, now_ms),
            Component::SongList(s) => s.update(a),
        }
    }
}

/// What the host loop does after a dispatch cycle.
#[derive(Clone, Copy, Debug, PartialEq, Eq, Structural)]
pub enum LoopStep {
    Continue,
    /// Hand the terminal back to the system, then call `resume`.
    Suspend,
    /// Release the terminal and stop.
    Quit,
}

/// Abstract state of the dispatcher.
pub struct AppView {
    pub components: Seq<ComponentView>,
    pub action_interests: Seq<Seq<ActionType>>,
    pub event_interests: Seq<Seq<EventType>>,
    pub keymap: Keymap,
    pub mode: Mode,
    pub pending: Seq<KeyPress>,
    pub queue: Seq<Action>,
    pub should_quit: bool,
    pub should_suspend: bool,
}

impl AppView {
    pub open spec fn wf(&self) -> bool {
        &&& self.action_interests.len() == self.components.len()
        &&& self.event_interests.len() == self.components.len()
        &&& forall|i: int| 0 <= i < self.components.len() ==> #[trigger] self.components[i].wf()
    }
}

/// The dispatch core: turns raw events into actions on a FIFO action bus and
/// fans the actions out to the components whose interest lists accept them.
pub struct App<O> {
    components: Vec<Component<O>>,
    component_action_interests: Vec<Vec<ActionType>>,
    component_event_interests: Vec<Vec<EventType>>,
    keymap: Keymap,
    mode: Mode,
    last_tick_key_events: Vec<KeyPress>,
    action_queue: VecDeque<Action>,
    should_quit: bool,
    should_suspend: bool,
}

impl<O> View for App<O> {
    type V = AppView;

    closed spec fn view(&self) -> AppView {
        AppView {
            components: self.components@.map_values(|c: Component<O>| c@),
            action_interests: self.component_action_interests@.map_values(
                |v: Vec<ActionType>| v@,
            ),
            event_interests: self.component_event_interests@.map_values(|v: Vec<EventType>| v@),
            keymap: self.keymap,
            mode: self.mode,
            pending: self.last_tick_key_events@,
            queue: self.action_queue@,
            should_quit: self.should_quit,
            should_suspend: self.should_suspend,
        }
    }
}

/// Actions that one raw event puts on the bus before the components see it:
/// for a key, what the key resolver fires; otherwise the dispatcher's own
/// mapping.
pub open spec fn event_actions(v: AppView, e: Event) -> Seq<Action> {
    match e {
        Event::Key(k) => option_seq(v.keymap.resolve_spec(v.mode, v.pending, k).1),
        _ => option_seq(core_action(e)),
    }
}

proof fn lemma_delivered_none(c: ComponentView, now: u64)
    ensures
        delivered(c, seq![], now, c),
{
    assert(is_trace(seq![c], c, seq![], now, c));
}

proof fn lemma_delivered_push(
    c: ComponentView,
    acts: Seq<Action>,
    a: Action,
    now: u64,
    mid: ComponentView,
    c2: ComponentView,
)
    requires
        delivered(c, acts, now, mid),
        mid.step(a, now, c2),
    ensures
        delivered(c, acts.push(a), now, c2),
{
    let trace = choose|trace: Seq<ComponentView>| is_trace(trace, c, acts, now, mid);
    let longer = trace.push(c2);
    let pushed = acts.push(a);
    assert forall|i: int| 0 <= i < pushed.len() implies longer[i].step(
        #[trigger] pushed[i],
        now,
        longer[i + 1],
    ) by {
        if i < acts.len() {
            assert(pushed[i] == acts[i]);
        }
    }
    assert(is_trace(longer, c, pushed, now, c2));
}

proof fn lemma_batch_push(acts: Seq<Action>, a: Action)
    ensures
        acts.push(a).drop_last() == acts,
        acts.push(a).last() == a,
{
    assert(acts.push(a).drop_last() == acts);
}

proof fn lemma_received_tick_only(acts: Seq<Action>)
    ensures
        forall|i: int|
            0 <= i < received(acts, seq![ActionType::Tick]).len() ==> #[trigger] received(
                acts,
                seq![ActionType::Tick],
            )[i] is Tick,
    decreases acts.len(),
{
    if acts.len() > 0 {
        lemma_received_tick_only(acts.drop_last());
        assert(seq![ActionType::Tick].contains(action_kind(acts.last())) ==> action_kind(
            acts.last(),
        ) == ActionType::Tick);
    }
}

proof fn lemma_received_all(acts: Seq<Action>)
    ensures
        received(acts, Seq::<ActionType>::empty()) == acts,
    decreases acts.len(),
{
    if acts.len() > 0 {
        lemma_received_all(acts.drop_last());
        assert(acts.drop_last().push(acts.last()) =~= acts);
    }
}

/// Interest filtering. A component whose action interest is Tick alone
/// receives the ticks of a batch and nothing else, so never a Key, Render or
/// Resize action. An empty interest list accepts every kind there is, of
/// actions and of events alike, so such a component receives the whole batch.
pub proof fn lemma_interest_filter(acts: Seq<Action>)
    ensures
        forall|k: ActionType| #[trigger] accepts(seq![ActionType::Tick], k) <==> k == ActionType::Tick,
        forall|k: ActionType| #[trigger] accepts(Seq::<ActionType>::empty(), k),
        forall|k: EventType| #[trigger] accepts(Seq::<EventType>::empty(), k),
        forall|i: int|
            0 <= i < received(acts, seq![ActionType::Tick]).len() ==> #[trigger] received(
                acts,
                seq![ActionType::Tick],
            )[i] is Tick,
        received(acts, Seq::<ActionType>::empty()) == acts,
{
    assert forall|k: ActionType| #[trigger] accepts(seq![ActionType::Tick], k) <==> k
        == ActionType::Tick by {
        if k == ActionType::Tick {
            assert(seq![ActionType::Tick][0] == k);
        }
    }
    lemma_received_tick_only(acts);
    lemma_received_all(acts);
}

impl<O: AudioOutput> App<O> {
    /// A dispatcher over `components`, resolving keys with `keymap`. The
    /// interest lists are taken from the components once, here.
    pub fn new(components: Vec<Component<O>>, keymap: Keymap) -> (r: App<O>)
        requires
            forall|i: int| 0 <= i < components@.len() ==> (#[trigger] components@[i])@.wf(),
        ensures
            r@.wf(),
            r@.components == components@.map_values(|c: Component<O>| c@),
            forall|i: int| 0 <= i < r@.components.len() ==> (#[trigger] r@.action_interests[i]).len() == 0,
            forall|i: int| 0 <= i < r@.components.len() ==> (#[trigger] r@.event_interests[i]).len() == 0,
            r@.keymap == keymap,
            r@.mode == Mode::Home,
            r@.pending.len() == 0,
            r@.queue.len() == 0,
            !r@.should_quit,
            !r@.should_suspend,
    {
        let mut component_action_interests: Vec<Vec<ActionType>> = Vec::new();
        let mut component_event_interests: Vec<Vec<EventType>> = Vec::new();
        let mut i: usize = 0;
        while i < components.len()
            invariant
                i <= components@.len(),
                component_action_interests@.len() == i,
                component_event_interests@.len() == i,
                forall|j: int| 0 <= j < i ==> (#[trigger] component_action_interests@[j])@.len() == 0,
                forall|j: int| 0 <= j < i ==> (#[trigger] component_event_interests@[j])@.len() == 0,
            decreases components@.len() - i,
        {
            component_action_interests.push(components[i].interested_actions());
            component_event_interests.push(components[i].interested_events());
            i = i + 1;
        }
        let r = App {
            components,
            component_action_interests,
            component_event_interests,
            keymap,
            mode: Mode::Home,
            last_tick_key_events: Vec::new(),
            action_queue: VecDeque::new(),
            should_quit: false,
            should_suspend: false,
        };
        assert forall|i: int| 0 <= i < r@.components.len() implies #[trigger] r@.components[i].wf() by {
            assert(r@.components[i] == r.components@[i]@);
        }
        assert forall|i: int| 0 <= i < r@.components.len() implies (#[trigger] r@.action_interests[i]).len() == 0 by {
            assert(r@.action_interests[i] == r.component_action_interests@[i]@);
        }
        assert forall|i: int| 0 <= i < r@.components.len() implies (#[trigger] r@.event_interests[i]).len() == 0 by {
            assert(r@.event_interests[i] == r.component_event_interests@[i]@);
        }
        r
    }

    /// Puts `a` at the back of the action bus.
    pub fn send(&mut self, a: Action)
        ensures
            final(self)@ == (AppView { queue: old(self)@.queue.push(a), ..old(self)@ }),
    {
        self.action_queue.push_back(a);
    }

    /// Delivers `a` to every component whose action interest accepts it, in
    /// component order. Any answer of a component goes to the back of the bus.
    pub fn deliver(&mut self, a: &Action, now_ms: u64)
        requires
            old(self)@.wf(),
        ensures
            final(self)@ == (AppView { components: final(self)@.components, ..old(self)@ }),
            final(self)@.wf(),
            final(self)@.components.len() == old(self)@.components.len(),
            forall|i: int|
                0 <= i < old(self)@.components.len() ==> if accepts(
                    old(self)@.action_interests[i],
                    action_kind(*a),
                ) {
                    old(self)@.components[i].step(*a, now_ms, #[trigger] final(self)@.components[i])
                } else {
                    final(self)@.components[i] == old(self)@.components[i]
                },
    {
        let ghost v0 = self@;
        let kind = a.get_type();
        let n = self.components.len();
        let mut j: usize = 0;
        while j < n
            invariant
                n == self.components@.len(),
                j <= n,
                kind == action_kind(*a),
                v0.wf(),
                self@ == (AppView { components: self@.components, ..v0 }),
                self@.wf(),
                self@.components.len() == n,
                forall|i: int|
                    0 <= i < j ==> if accepts(v0.action_interests[i], action_kind(*a)) {
                        v0.components[i].step(*a, now_ms, #[trigger] self@.components[i])
                    } else {
                        self@.components[i] == v0.components[i]
                    },
                forall|i: int| j <= i < n ==> #[trigger] self@.components[i] == v0.components[i],
            decreases n - j,
        {
            assert(self@.action_interests[j as int] == self.component_action_interests@[j as int]@);
            assert(self@.components[j as int] == self.components@[j as int]@);
            if accepts_action(&self.component_action_interests[j], kind) {
                let ghost before = self.components@;
                let reply = self.components[j].update(a, now_ms);
                proof {
                    assert(self@.components =~= before.map_values(|c: Component<O>| c@).update(
                        j as int,
                        self.components@[j as int]@,
                    ));
                }
                if let Some(r) = reply {
                    self.action_queue.push_back(r);
                }
            }
            j = j + 1;
        }
    }

    /// Takes the oldest action off the bus and applies its effect on the
    /// dispatcher itself (see `core_step`). Returns it together with the
    /// terminal work it asks for (Render a draw pass, Resize a resize and a
    /// draw pass, ClearScreen a clear), which the host does before it hands
    /// the action to `deliver`. Returns nothing when the bus is empty.
    pub fn take_action(&mut self) -> (r: Option<(Action, Vec<Effect>)>)
        ensures
            old(self)@.queue.len() == 0 ==> r is None && final(self)@ == old(self)@,
            old(self)@.queue.len() > 0 ==> match r {
                Some((a, work)) => {
                    &&& a == old(self)@.queue[0]
                    &&& work@ == action_effects(a)
                    &&& final(self)@ == (AppView {
                        queue: old(self)@.queue.drop_first(),
                        ..core_step(old(self)@, a)
                    })
                },
                None => false,
            },
    {
        if self.action_queue.len() == 0 {
            return None;
        }
        let a = self.action_queue.pop_front().unwrap();
        let mut work: Vec<Effect> = Vec::new();
        match &a {
            Action::Tick => self.last_tick_key_events.clear(),
            Action::Quit => self.should_quit = true,
            Action::Suspend => self.should_suspend = true,
            Action::Resume => self.should_suspend = false,
            Action::ClearScreen => work.push(Effect::Clear),
            Action::Resize(w, h) => {
                work.push(Effect::Resize(*w, *h));
                work.push(Effect::Draw);
            },
            Action::Render => work.push(Effect::Draw),
            _ => {},
        }
        assert(work@ =~= action_effects(a));
        assert(self@.queue =~= old(self)@.queue.drop_first());
        Some((a, work))
    }

    /// Drains the action bus, oldest action first. Each action first takes
    /// its effect on the dispatcher itself (Tick drops the pending chord
    /// keys, Quit and Suspend raise their flags, Resume lowers the suspend
    /// flag; Render, Resize and ClearScreen ask the host for terminal work),
    /// then goes to every component whose action interest accepts it.
    /// Returns the terminal work of the whole batch, in order, for a host
    /// that does it after the batch; a host that draws each Render before
    /// the components see it calls `take_action` and `deliver` in turn.
    pub fn handle_actions(&mut self, now_ms: u64) -> (effects: Vec<Effect>)
        requires
            old(self)@.wf(),
        ensures
            final(self)@.wf(),
            final(self)@.queue.len() == 0,
            effects@ == effects_of(old(self)@.queue),
            final(self)@.should_quit == quit_after(old(self)@.should_quit, old(self)@.queue),
            final(self)@.should_suspend == suspend_after(
                old(self)@.should_suspend,
                old(self)@.queue,
            ),
            final(self)@.pending == pending_after(old(self)@.pending, old(self)@.queue),
            final(self)@.components.len() == old(self)@.components.len(),
            forall|i: int|
                0 <= i < old(self)@.components.len() ==> delivered(
                    old(self)@.components[i],
                    received(old(self)@.queue, old(self)@.action_interests[i]),
                    now_ms,
                    #[trigger] final(self)@.components[i],
                ),
            final(self)@.action_interests == old(self)@.action_interests,
            final(self)@.event_interests == old(self)@.event_interests,
            final(self)@.keymap == old(self)@.keymap,
            final(self)@.mode == old(self)@.mode,
    {
        let ghost v0 = self@;
        let ghost batch = v0.queue;
        let mut effects: Vec<Effect> = Vec::new();
        let ghost mut k: int = 0;
        proof {
            assert(batch.subrange(0, 0) =~= Seq::<Action>::empty());
            assert(batch.subrange(0, batch.len() as int) =~= batch);
            assert forall|i: int| 0 <= i < v0.components.len() implies delivered(
                v0.components[i],
                received(batch.subrange(0, 0), v0.action_interests[i]),
                now_ms,
                #[trigger] self@.components[i],
            ) by {
                lemma_delivered_none(v0.components[i], now_ms);
            }
        }
        while self.action_queue.len() > 0
            invariant
                self@.wf(),
                0 <= k <= batch.len(),
                self@.queue == batch.subrange(k, batch.len() as int),
                effects@ == effects_of(batch.subrange(0, k)),
                self@.should_quit == quit_after(v0.should_quit, batch.subrange(0, k)),
                self@.should_suspend == suspend_after(v0.should_suspend, batch.subrange(0, k)),
                self@.pending == pending_after(v0.pending, batch.subrange(0, k)),
                self@.components.len() == v0.components.len(),
                forall|i: int|
                    0 <= i < v0.components.len() ==> delivered(
                        v0.components[i],
                        received(batch.subrange(0, k), v0.action_interests[i]),
                        now_ms,
                        #[trigger] self@.components[i],
                    ),
                self@.action_interests == v0.action_interests,
                self@.event_interests == v0.event_interests,
                self@.keymap == v0.keymap,
                self@.mode == v0.mode,
            decreases self@.queue.len(),
        {
            let ghost done = batch.subrange(0, k);
            let (a, mut work) = self.take_action().unwrap();
            proof {
                assert(a == batch[k]);
                assert(batch.subrange(0, k + 1) =~= done.push(a));
                assert(self@.queue =~= batch.subrange(k + 1, batch.len() as int));
                lemma_batch_push(done, a);
            }
            effects.append(&mut work);
            proof {
                assert(effects@ =~= effects_of(done) + action_effects(a));
            }
            let ghost before = self@.components;
            self.deliver(&a, now_ms);
            proof {
                assert forall|i: int| 0 <= i < v0.components.len() implies delivered(
                    v0.components[i],
                    received(done.push(a), v0.action_interests[i]),
                    now_ms,
                    #[trigger] self@.components[i],
                ) by {
                    if accepts(v0.action_interests[i], action_kind(a)) {
                        lemma_delivered_push(
                            v0.components[i],
                            received(done, v0.action_interests[i]),
                            a,
                            now_ms,
                            before[i],
                            self@.components[i],
                        );
                    }
                }
                k = k + 1;
            }
        }
        effects
    }

    /// After the host has handed the terminal back and taken it again: puts
    /// Resume and then ClearScreen on the bus and lowers the suspend flag.
    pub fn resume(&mut self)
        ensures
            final(self)@ == (AppView {
                queue: old(self)@.queue.push(Action::Resume).push(Action::ClearScreen),
                should_suspend: false,
                ..old(self)@
            }),
    {
        self.action_queue.push_back(Action::Resume);
        self.action_queue.push_back(Action::ClearScreen);
        self.should_suspend = false;
    }

    /// What the host loop does after a dispatch cycle: suspend when asked,
    /// else quit when asked, else go on.
    pub fn next_step(&self) -> (r: LoopStep)
        ensures
            r == if self@.should_suspend {
                LoopStep::Suspend
            } else if self@.should_quit {
                LoopStep::Quit
            } else {
                LoopStep::Continue
            },
    {
        if self.should_suspend {
            LoopStep::Suspend
        } else if self.should_quit {
            LoopStep::Quit
        } else {
            LoopStep::Continue
        }
    }

    pub fn should_quit(&self) -> (r: bool)
        ensures
            r == self@.should_quit,
    {
        self.should_quit
    }

    pub fn should_suspend(&self) -> (r: bool)
        ensures
            r == self@.should_suspend,
    {
        self.should_suspend
    }

    pub fn mode(&self) -> (r: Mode)
        ensures
            r == self@.mode,
    {
        self.mode
    }

    /// Keys of an unfinished chord, pressed since the last tick.
    pub fn pending_keys(&self) -> (r: &Vec<KeyPress>)
        ensures
            r@ == self@.pending,
    {
        &self.last_tick_key_events
    }

    /// Number of actions waiting on the bus.
    pub fn queued(&self) -> (r: usize)
        ensures
            r == self@.queue.len(),
    {
        self.action_queue.len()
    }

    pub fn components(&self) -> (r: &Vec<Component<O>>)
        ensures
            r@.map_values(|c: Component<O>| c@) == self@.components,
    {
        &self.components
    }

    pub fn component_action_interests(&self) -> (r: &Vec<Vec<ActionType>>)
        ensures
            r@.map_values(|v: Vec<ActionType>| v@) == self@.action_interests,
    {
        &self.component_action_interests
    }

    pub fn component_event_interests(&self) -> (r: &Vec<Vec<EventType>>)
        ensures
            r@.map_values(|v: Vec<EventType>| v@) == self@.event_interests,
    {
        &self.component_event_interests
    }

    /// Resolves a key press against the keymap of the current mode and puts
    /// the action that fires, if any, on the bus.
    pub fn handle_key_event(&mut self, key: KeyPress)
        ensures
            final(self)@ == (AppView {
                pending: old(self)@.keymap.resolve_spec(old(self)@.mode, old(self)@.pending, key).0,
                queue: old(self)@.queue + option_seq(
                    old(self)@.keymap.resolve_spec(old(self)@.mode, old(self)@.pending, key).1,
                ),
                ..old(self)@
            }),
    {
        let fired = self.keymap.resolve(self.mode, &mut self.last_tick_key_events, key);
        if let Some(a) = fired {
            self.action_queue.push_back(a);
        }
        assert(self@.queue =~= old(self)@.queue + option_seq(fired));
    }

    /// Takes one raw event: puts the action it maps to (or, for a key,
    /// the action the key resolver fires) on the bus, then the replies of the
    /// components whose event interest accepts it.
    pub fn handle_events(&mut self, e: Event)
        requires
            old(self)@.wf(),
        ensures
            final(self)@ == (AppView {
                pending: match e {
                    Event::Key(k) => old(self)@.keymap.resolve_spec(old(self)@.mode, old(self)@.pending, k).0,
                    _ => old(self)@.pending,
                },
                queue: old(self)@.queue + event_actions(old(self)@, e) + raw_replies(
                    old(self)@.components,
                    old(self)@.event_interests,
                    e,
                    old(self)@.components.len(),
                ),
                ..old(self)@
            }),
    {
        let ghost v0 = self@;
        match e {
            Event::Quit => self.action_queue.push_back(Action::Quit),
            Event::Tick => self.action_queue.push_back(Action::Tick),
            Event::Render => self.action_queue.push_back(Action::Render),
            Event::Resize(w, h) => self.action_queue.push_back(Action::Resize(w, h)),
            Event::Key(k) => self.handle_key_event(k),
            _ => {},
        }
        let ghost q1 = self.action_queue@;
        let ghost v1 = self@;
        assert(q1 == v0.queue + event_actions(v0, e));
        let kind = e.get_type();
        let n = self.components.len();
        let mut j: usize = 0;
        while j < n
            invariant
                n == self.components@.len(),
                j <= n,
                self@ == (AppView { queue: self@.queue, ..v1 }),
                v0.components == self@.components,
                v0.event_interests == self@.event_interests,
                v0.wf(),
                kind == event_kind(e),
                self.action_queue@ == q1 + raw_replies(v0.components, v0.event_interests, e, j as nat),
            decreases n - j,
        {
            assert(v0.event_interests[j as int] == self.component_event_interests@[j as int]@);
            assert(v0.components[j as int] == self.components@[j as int]@);
            if accepts_event(&self.component_event_interests[j], kind) {
                if let Some(a) = self.components[j].handle_events(&e) {
                    self.action_queue.push_back(a);
                }
            }
            j = j + 1;
        }
        assert(self@.queue =~= v0.queue + event_actions(v0, e) + raw_replies(
            v0.components,
            v0.event_interests,
            e,
            v0.components.len(),
        ));
        assert(self@.components == v0.components);
        assert(self@.action_interests == v0.action_interests);
        assert(self@.event_interests == v0.event_interests);
        assert(self@.keymap == v0.keymap);
        assert(self@.pending == match e {
            Event::Key(k) => v0.keymap.resolve_spec(v0.mode, v0.pending, k).0,
            _ => v0.pending,
        });
    }
}

} // verus!
