use vstd::prelude::*;
use crate::event::{DocumentInfo, EntryId, Event, UpdateMode, ViewId};
use crate::frontlight::FakeFrontlight;
use crate::geom::{covers, overlaps_spec, union_spec, Rectangle};
use crate::tracker::UpdateTracker;

verus! {

/// The persisted settings that the run loop reads.
#[derive(Clone, Debug, PartialEq, Eq)]
pub struct Settings {
    /// Root of the library; the document index is stored under it.
    pub library_path: String,
    /// Whether the machine has a frontlight to show a panel for.
    pub frontlight: bool,
}

/// State that lives as long as the process and that only the dispatcher changes.
pub struct Context {
    pub settings: Settings,
    /// The document index.
    pub metadata: Vec<DocumentInfo>,
    pub frontlight: FakeFrontlight,
    pub inverted: bool,
    pub monochrome: bool,
    /// Next notification identifier to hand out.
    pub notification_index: u64,
}

/// Gathers the loaded settings and document index into a fresh context.
pub fn build_context(settings: Settings, metadata: Vec<DocumentInfo>) -> (r: Context)
    ensures
        r.settings == settings,
        r.metadata@ == metadata@,
        !r.inverted,
        !r.monochrome,
        r.notification_index == 0,
{
    Context {
        settings,
        metadata,
        frontlight: FakeFrontlight {},
        inverted: false,
        monochrome: false,
        notification_index: 0,
    }
}

/// What an overlay shows.
#[derive(Clone, Copy, Debug, PartialEq, Eq, Structural)]
pub enum OverlayKind {
    Frontlight,
    /// A transient note on a screenshot, and whether it was saved.
    Screenshot { saved: bool },
    Other,
}

/// A child view drawn above a top-level view.
#[derive(Clone, Copy, Debug, PartialEq, Eq, Structural)]
pub struct Overlay {
    pub id: ViewId,
    pub kind: OverlayKind,
    pub rect: Rectangle,
}

/// Which top-level view this is.
#[derive(Clone, Debug, PartialEq, Eq)]
pub enum ViewKind {
    Home,
    Reader(DocumentInfo),
}

/// A top-level view with its overlays, front-most last.
pub struct TopView {
    pub kind: ViewKind,
    pub rect: Rectangle,
    pub children: Vec<Overlay>,
}

pub struct TopViewModel {
    pub kind: ViewKind,
    pub rect: Rectangle,
    pub children: Seq<Overlay>,
}

impl View for TopView {
    type V = TopViewModel;

    open spec fn view(&self) -> TopViewModel {
        TopViewModel { kind: self.kind, rect: self.rect, children: self.children@ }
    }
}

/// What the run loop must do after the dispatcher has decided on an event.
#[derive(Clone, Debug, PartialEq, Eq)]
pub enum Action {
    Nothing,
    /// Draw the active view in `rect` and send it to the display; register the token
    /// that comes back. `wait` tells whether the update may wait on earlier ones.
    Render { rect: Rectangle, mode: UpdateMode, wait: bool },
    /// Redraw the background of `rect` only, then update the display.
    Expose(Rectangle),
    /// Try to build a reader for the document, then report through `open_result`.
    OpenReader(DocumentInfo),
    /// Build the frontlight panel, then report its rectangle through `frontlight_shown`.
    ShowFrontlight,
    ToggleInverted,
    ToggleMonochrome,
    /// Save the screen to a file, then report through `screenshot_taken`.
    TakeScreenshot,
    /// Hand the event to the active view; its follow-ups go through `post`.
    Deliver(Event),
    Quit,
}

/// One navigation step forward: the active view goes onto the history.
pub open spec fn open_step(
    s: (Seq<TopViewModel>, TopViewModel),
    v: TopViewModel,
) -> (Seq<TopViewModel>, TopViewModel) {
    (s.0.push(s.1), v)
}

/// One navigation step back: the last view of the history becomes active, if any.
pub open spec fn back_step(s: (Seq<TopViewModel>, TopViewModel)) -> (Seq<TopViewModel>, TopViewModel) {
    if s.0.len() > 0 {
        (s.0.drop_last(), s.0.last())
    } else {
        s
    }
}

/// Opening each of `vs` in turn.
pub open spec fn open_all(
    s: (Seq<TopViewModel>, TopViewModel),
    vs: Seq<TopViewModel>,
) -> (Seq<TopViewModel>, TopViewModel)
    decreases vs.len(),
{
    if vs.len() == 0 {
        s
    } else {
        open_step(open_all(s, vs.drop_last()), vs.last())
    }
}

/// Going back `n` times.
pub open spec fn back_times(s: (Seq<TopViewModel>, TopViewModel), n: nat) -> (
    Seq<TopViewModel>,
    TopViewModel,
)
    decreases n,
{
    if n == 0 {
        s
    } else {
        back_times(back_step(s), (n - 1) as nat)
    }
}

/// `i` is the first overlay in `cs` with identifier `id`.
pub open spec fn first_with_id(cs: Seq<Overlay>, id: ViewId, i: int) -> bool {
    &&& 0 <= i < cs.len()
    &&& cs[i].id == id
    &&& forall|j: int| 0 <= j < i ==> cs[j].id != id
}

/// The region to repaint when an overlay with rectangle `r` goes: `r` grown by
/// every overlay of `cs` that overlaps it.
pub open spec fn expose_region(cs: Seq<Overlay>, r: Rectangle) -> Rectangle
    decreases cs.len(),
{
    if cs.len() == 0 {
        r
    } else if overlaps_spec(cs.last().rect, r) {
        union_spec(expose_region(cs.drop_last(), r), cs.last().rect)
    } else {
        expose_region(cs.drop_last(), r)
    }
}

/// The main queue once a turn ends: what was sent during the turn, in order,
/// then what was waiting.
pub open spec fn after_turn(queue: Seq<Event>, sent: Seq<Event>) -> Seq<Event> {
    sent + queue
}

/// The single consumer of the event queue, and the only owner of the views,
/// the context and the tracked display updates.
pub struct Dispatcher {
    pub screen: Rectangle,
    pub history: Vec<TopView>,
    pub active: TopView,
    pub context: Context,
    pub updates: UpdateTracker,
    /// The main queue, oldest first.
    pub queue: Vec<Event>,
    /// Events sent during the current turn: the dispatcher's own and the
    /// follow-ups that view handlers post.
    pub bus: Vec<Event>,
}

impl Dispatcher {
    pub open spec fn stack(&self) -> (Seq<TopViewModel>, TopViewModel) {
        (self.history@.map_values(|v: TopView| v@), self.active@)
    }

    /// The screen, the tracked updates and the context but for its two flags stay.
    /// The views, the queue, the bus and the flags are left open.
    pub open spec fn keeps_state(&self, other: &Dispatcher) -> bool {
        &&& other.screen == self.screen
        &&& other.updates@ == self.updates@
        &&& other.context.settings == self.context.settings
        &&& other.context.metadata@ == self.context.metadata@
        &&& other.context.frontlight == self.context.frontlight
        &&& other.context.notification_index == self.context.notification_index
    }

    /// Both presentation flags stay.
    pub open spec fn keeps_flags(&self, other: &Dispatcher) -> bool {
        &&& other.context.inverted == self.context.inverted
        &&& other.context.monochrome == self.context.monochrome
    }

    /// Nothing changes.
    pub open spec fn unchanged(&self, other: &Dispatcher) -> bool {
        &&& self.keeps_state(other)
        &&& self.keeps_flags(other)
        &&& other.stack() == self.stack()
        &&& other.queue@ == self.queue@
        &&& other.bus@ == self.bus@
    }

    /// A dispatcher whose only view is the home view, covering the screen.
    pub fn new(screen: Rectangle, context: Context) -> (r: Dispatcher)
        ensures
            r.screen == screen,
            r.stack() == (
            Seq::<TopViewModel>::empty(),
            TopViewModel { kind: ViewKind::Home, rect: screen, children: Seq::empty() },
            ),
            r.updates@ == Map::<u32, Rectangle>::empty(),
            r.queue@.len() == 0,
            r.bus@.len() == 0,
            r.context == context,
    {
        let r = Dispatcher {
            screen,
            history: Vec::new(),
            active: TopView { kind: ViewKind::Home, rect: screen, children: Vec::new() },
            context,
            updates: UpdateTracker::new(),
            queue: Vec::new(),
            bus: Vec::new(),
        };
        assert(r.stack().0 =~= Seq::<TopViewModel>::empty());
        r
    }

    /// An event arrives on the main queue.
    pub fn enqueue(&mut self, evt: Event)
        ensures
            final(self).queue@ == old(self).queue@.push(evt),
            final(self).bus@ == old(self).bus@,
            old(self).keeps_state(final(self)),
            old(self).keeps_flags(final(self)),
            final(self).stack() == old(self).stack(),
    {
        self.queue.push(evt);
    }

    /// Takes the oldest event of the main queue.
    pub fn next_event(&mut self) -> (r: Option<Event>)
        ensures
            old(self).queue@.len() == 0 ==> r.is_none() && final(self).queue@.len() == 0,
            old(self).queue@.len() > 0 ==> r == Some(old(self).queue@[0]) && final(self).queue@
                == old(self).queue@.drop_first(),
            final(self).bus@ == old(self).bus@,
            old(self).keeps_state(final(self)),
            old(self).keeps_flags(final(self)),
            final(self).stack() == old(self).stack(),
    {
        if self.queue.len() == 0 {
            None
        } else {
            let e = self.queue.remove(0);
            assert(self.queue@ =~= old(self).queue@.drop_first());
            Some(e)
        }
    }

    /// A view handler posts a follow-up event for the current turn.
    pub fn post(&mut self, evt: Event)
        ensures
            final(self).bus@ == old(self).bus@.push(evt),
            final(self).queue@ == old(self).queue@,
            old(self).keeps_state(final(self)),
            old(self).keeps_flags(final(self)),
            final(self).stack() == old(self).stack(),
    {
        self.bus.push(evt);
    }

    /// Ends the turn: the events sent while handling it go, in the order they were
    /// sent, ahead of everything that waits in the main queue.
    pub fn end_turn(&mut self)
        ensures
            final(self).queue@ == after_turn(old(self).queue@, old(self).bus@),
            final(self).bus@.len() == 0,
            old(self).keeps_state(final(self)),
            old(self).keeps_flags(final(self)),
            final(self).stack() == old(self).stack(),
    {
        self.bus.append(&mut self.queue);
        std::mem::swap(&mut self.queue, &mut self.bus);
    }

    /// Records a display update that the display accepted under a token that is
    /// not in flight.
    pub fn register(&mut self, token: u32, rect: Rectangle)
        requires
            !old(self).updates@.contains_key(token),
        ensures
            final(self).updates@ == old(self).updates@.insert(token, rect),
            final(self).queue@ == old(self).queue@,
            final(self).bus@ == old(self).bus@,
            final(self).screen == old(self).screen,
            final(self).context.settings == old(self).context.settings,
            final(self).context.metadata@ == old(self).context.metadata@,
            final(self).context.frontlight == old(self).context.frontlight,
            final(self).context.notification_index == old(self).context.notification_index,
            old(self).keeps_flags(final(self)),
            final(self).stack() == old(self).stack(),
    {
        self.updates.register(token, rect);
    }

    /// Decides on one event: changes the views and the context, sends further
    /// events on the bus, and says what the run loop must do.
    pub fn dispatch(&mut self, evt: Event) -> (r: Action)
        ensures
            match evt {
                Event::Render(rect, mode) => {
                    &&& r == (Action::Render { rect, mode, wait: true })
                    &&& old(self).unchanged(final(self))
                },
                Event::RenderNoWait(rect, mode) => {
                    &&& r == (Action::Render { rect, mode, wait: false })
                    &&& old(self).unchanged(final(self))
                },
                Event::Expose(rect) => r == Action::Expose(rect) && old(self).unchanged(final(self)),
                Event::Open(info) => r == Action::OpenReader(info) && old(self).unchanged(
                    final(self),
                ),
                Event::Back => {
                    &&& r == Action::Deliver(Event::Back)
                    &&& old(self).keeps_state(final(self))
                    &&& old(self).keeps_flags(final(self))
                    &&& final(self).queue@ == old(self).queue@
                    &&& final(self).bus@ == old(self).bus@
                    &&& final(self).stack() == back_step(old(self).stack())
                },
                Event::Show(ViewId::Frontlight) => {
                    &&& r == (if old(self).context.settings.frontlight {
                        Action::ShowFrontlight
                    } else {
                        Action::Nothing
                    })
                    &&& old(self).unchanged(final(self))
                },
                Event::Close(id) => {
                    &&& r == Action::Nothing
                    &&& old(self).keeps_state(final(self))
                    &&& old(self).keeps_flags(final(self))
                    &&& final(self).queue@ == old(self).queue@
                    &&& final(self).stack().0 == old(self).stack().0
                    &&& final(self).active.kind == old(self).active.kind
                    &&& final(self).active.rect == old(self).active.rect
                    &&& (forall|j: int|
                        0 <= j < old(self).active.children@.len()
                            ==> old(self).active.children@[j].id != id) ==> old(self).unchanged(
                        final(self),
                    )
                    &&& forall|i: int| #[trigger]
                        first_with_id(old(self).active.children@, id, i) ==> {
                            &&& final(self).active.children@ == old(
                                self,
                            ).active.children@.remove(i)
                            &&& final(self).bus@ == old(self).bus@.push(
                                Event::Expose(
                                    expose_region(
                                        old(self).active.children@,
                                        old(self).active.children@[i].rect,
                                    ),
                                ),
                            )
                        }
                },
                Event::Select(EntryId::ToggleInverted) => {
                    &&& r == Action::ToggleInverted
                    &&& old(self).keeps_state(final(self))
                    &&& final(self).stack() == old(self).stack()
                    &&& final(self).context.inverted == !old(self).context.inverted
                    &&& final(self).context.monochrome == old(self).context.monochrome
                    &&& final(self).queue@ == old(self).queue@
                    &&& final(self).bus@ == old(self).bus@.push(
                        Event::Render(old(self).screen, UpdateMode::Gui),
                    )
                },
                Event::Select(EntryId::ToggleMonochrome) => {
                    &&& r == Action::ToggleMonochrome
                    &&& old(self).keeps_state(final(self))
                    &&& final(self).stack() == old(self).stack()
                    &&& final(self).context.monochrome == !old(self).context.monochrome
                    &&& final(self).context.inverted == old(self).context.inverted
                    &&& final(self).queue@ == old(self).queue@
                    &&& final(self).bus@ == old(self).bus@.push(
                        Event::Render(old(self).screen, UpdateMode::Gui),
                    )
                },
                Event::Select(EntryId::TakeScreenshot) => r == Action::TakeScreenshot && old(
                    self,
                ).unchanged(final(self)),
                Event::Select(EntryId::Quit) => r == Action::Quit && old(self).unchanged(
                    final(self),
                ),
                _ => r == Action::Deliver(evt) && old(self).unchanged(final(self)),
            },
    {
        match evt {
            Event::Render(rect, mode) => Action::Render { rect, mode, wait: true },
            Event::RenderNoWait(rect, mode) => Action::Render { rect, mode, wait: false },
            Event::Expose(rect) => Action::Expose(rect),
            Event::Open(info) => Action::OpenReader(info),
            Event::Back => {
                let ghost before = self.history@;
                match self.history.pop() {
                    Some(v) => {
                        self.active = v;
                        assert(self.history@.map_values(|v: TopView| v@) =~= before.map_values(
                            |v: TopView| v@,
                        ).drop_last());
                    },
                    None => {},
                }
                Action::Deliver(Event::Back)
            },
            Event::Show(ViewId::Frontlight) => {
                if self.context.settings.frontlight {
                    Action::ShowFrontlight
                } else {
                    Action::Nothing
                }
            },
            Event::Close(id) => {
                match find_child(&self.active.children, id) {
                    Some(i) => {
                        let rect = self.active.children[i].rect;
                        let region = expose_rect(&self.active.children, rect);
                        self.active.children.remove(i);
                        self.bus.push(Event::Expose(region));
                        proof {
                            assert forall|k: int| #[trigger]
                                first_with_id(old(self).active.children@, id, k) implies k
                                == i as int by {
                                if k < i as int {
                                    assert(old(self).active.children@[k].id != id);
                                } else if k > i as int {
                                    assert(old(self).active.children@[i as int].id != id);
                                }
                            }
                        }
                    },
                    None => {},
                }
                Action::Nothing
            },
            Event::Select(EntryId::ToggleInverted) => {
                self.context.inverted = !self.context.inverted;
                self.bus.push(Event::Render(self.screen, UpdateMode::Gui));
                Action::ToggleInverted
            },
            Event::Select(EntryId::ToggleMonochrome) => {
                self.context.monochrome = !self.context.monochrome;
                self.bus.push(Event::Render(self.screen, UpdateMode::Gui));
                Action::ToggleMonochrome
            },
            Event::Select(EntryId::TakeScreenshot) => Action::TakeScreenshot,
            Event::Select(EntryId::Quit) => Action::Quit,
            _ => Action::Deliver(evt),
        }
    }

    /// Takes back whether a reader could be built for `info`: if so it becomes the
    /// active view and the former one goes onto the history; if not, the active
    /// view is told that the document is invalid.
    pub fn open_result(&mut self, info: DocumentInfo, opened: bool) -> (r: Action)
        ensures
            opened ==> {
                &&& r == Action::Nothing
                &&& final(self).stack() == open_step(
                    old(self).stack(),
                    TopViewModel {
                        kind: ViewKind::Reader(info),
                        rect: old(self).screen,
                        children: Seq::empty(),
                    },
                )
                &&& old(self).keeps_state(final(self))
                &&& old(self).keeps_flags(final(self))
                &&& final(self).queue@ == old(self).queue@
                &&& final(self).bus@ == old(self).bus@
            },
            !opened ==> r == Action::Deliver(Event::Invalid(info)) && old(self).unchanged(
                final(self),
            ),
    {
        if opened {
            let mut prev = TopView {
                kind: ViewKind::Reader(info),
                rect: self.screen,
                children: Vec::new(),
            };
            std::mem::swap(&mut self.active, &mut prev);
            self.history.push(prev);
            assert(self.history@.map_values(|v: TopView| v@) =~= old(self).history@.map_values(
                |v: TopView| v@,
            ).push(old(self).active@));
            assert(self.active@.children =~= Seq::<Overlay>::empty());
            Action::Nothing
        } else {
            Action::Deliver(Event::Invalid(info))
        }
    }

    /// Takes back the rectangle of the frontlight panel that was built: it goes on
    /// top of the active view, and a render of its rectangle is sent.
    pub fn frontlight_shown(&mut self, rect: Rectangle)
        ensures
            final(self).active.children@ == old(self).active.children@.push(
                Overlay { id: ViewId::Frontlight, kind: OverlayKind::Frontlight, rect },
            ),
            final(self).active.kind == old(self).active.kind,
            final(self).active.rect == old(self).active.rect,
            final(self).stack().0 == old(self).stack().0,
            final(self).queue@ == old(self).queue@,
            final(self).bus@ == old(self).bus@.push(Event::Render(rect, UpdateMode::Gui)),
            old(self).keeps_state(final(self)),
            old(self).keeps_flags(final(self)),
    {
        self.active.children.push(
            Overlay { id: ViewId::Frontlight, kind: OverlayKind::Frontlight, rect },
        );
        self.bus.push(Event::Render(rect, UpdateMode::Gui));
    }

    /// Takes back whether the screenshot was saved, and the rectangle of the note
    /// that reports it: the note goes on top of the active view under a fresh
    /// identifier.
    pub fn screenshot_taken(&mut self, saved: bool, rect: Rectangle)
        requires
            old(self).context.notification_index < u64::MAX,
        ensures
            final(self).active.children@ == old(self).active.children@.push(
                Overlay {
                    id: ViewId::Notification(old(self).context.notification_index),
                    kind: OverlayKind::Screenshot { saved },
                    rect,
                },
            ),
            final(self).context.notification_index == old(self).context.notification_index + 1,
            final(self).active.kind == old(self).active.kind,
            final(self).active.rect == old(self).active.rect,
            final(self).stack().0 == old(self).stack().0,
            final(self).queue@ == old(self).queue@,
            final(self).bus@ == old(self).bus@,
            final(self).screen == old(self).screen,
            final(self).updates@ == old(self).updates@,
            final(self).context.settings == old(self).context.settings,
            final(self).context.metadata@ == old(self).context.metadata@,
            final(self).context.frontlight == old(self).context.frontlight,
            old(self).keeps_flags(final(self)),
    {
        let id = ViewId::Notification(self.context.notification_index);
        self.context.notification_index = self.context.notification_index + 1;
        self.active.children.push(Overlay { id, kind: OverlayKind::Screenshot { saved }, rect });
    }
}

/// The position of the first overlay with identifier `id`, if any.
fn find_child(children: &Vec<Overlay>, id: ViewId) -> (r: Option<usize>)
    ensures
        r.is_none() ==> forall|j: int| 0 <= j < children@.len() ==> children@[j].id != id,
        r matches Some(i) ==> first_with_id(children@, id, i as int),
{
    let mut i: usize = 0;
    while i < children.len()
        invariant
            i <= children@.len(),
            forall|j: int| 0 <= j < i ==> children@[j].id != id,
        decreases children@.len() - i,
    {
        if children[i].id == id {
            return Some(i);
        }
        i = i + 1;
    }
    None
}

/// `rect` grown by every overlay of `children` that overlaps it.
fn expose_rect(children: &Vec<Overlay>, rect: Rectangle) -> (r: Rectangle)
    ensures
        r == expose_region(children@, rect),
{
    let mut acc = rect;
    let mut i: usize = 0;
    while i < children.len()
        invariant
            i <= children@.len(),
            acc == expose_region(children@.subrange(0, i as int), rect),
        decreases children@.len() - i,
    {
        let c = children[i].rect;
        assert(children@.subrange(0, i + 1).drop_last() =~= children@.subrange(0, i as int));
        if c.overlaps(&rect) {
            acc.absorb(&c);
        }
        i = i + 1;
    }
    assert(children@.subrange(0, children@.len() as int) =~= children@);
    acc
}

/// Opening any number of views and then going back as many times returns to the
/// view that was active at first, with the history as it was (empty, if it was).
pub proof fn lemma_open_then_back(s: (Seq<TopViewModel>, TopViewModel), vs: Seq<TopViewModel>)
    ensures
        back_times(open_all(s, vs), vs.len()) == s,
    decreases vs.len(),
{
    if vs.len() > 0 {
        let prev = open_all(s, vs.drop_last());
        lemma_open_then_back(s, vs.drop_last());
        assert(prev.0.push(prev.1).drop_last() =~= prev.0);
        assert(back_step(open_all(s, vs)) == prev);
    }
}

/// Going back with an empty history keeps the active view.
pub proof fn lemma_back_on_empty_history(s: (Seq<TopViewModel>, TopViewModel))
    requires
        s.0.len() == 0,
    ensures
        back_step(s) == s,
{
}

/// Events sent while one event is handled run, in the order they were sent,
/// before every event that waited in the main queue when the turn ended and
/// before every event that arrives after it.
pub proof fn lemma_follow_ups_precede_later_arrivals(
    waiting: Seq<Event>,
    sent: Seq<Event>,
    later: Seq<Event>,
)
    ensures
        ({
            let q = after_turn(waiting, sent) + later;
            &&& forall|i: int| 0 <= i < sent.len() ==> #[trigger] q[i] == sent[i]
            &&& forall|j: int|
                0 <= j < waiting.len() ==> #[trigger] q[sent.len() + j] == waiting[j]
            &&& forall|j: int|
                0 <= j < later.len() ==> #[trigger] q[sent.len() + waiting.len() + j]
                    == later[j]
        }),
{
}

/// The region repainted when an overlay goes covers at least that overlay's own
/// rectangle.
pub proof fn lemma_expose_covers_closed(cs: Seq<Overlay>, r: Rectangle)
    ensures
        covers(expose_region(cs, r), r),
    decreases cs.len(),
{
    if cs.len() > 0 {
        lemma_expose_covers_closed(cs.drop_last(), r);
    }
}

} // verus!
