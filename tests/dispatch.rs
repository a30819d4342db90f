use plato::dispatcher::{build_context, Action, Dispatcher, Overlay, OverlayKind, Settings, ViewKind};
use plato::event::{DocumentInfo, EntryId, Event, UpdateMode, ViewId};
use plato::geom::Rectangle;

fn screen() -> Rectangle {
    Rectangle::new(0, 0, 600, 800)
}

fn dispatcher(frontlight: bool) -> Dispatcher {
    let settings = Settings { library_path: "/mnt/onboard".to_string(), frontlight };
    Dispatcher::new(screen(), build_context(settings, Vec::new()))
}

fn doc(path: &str) -> DocumentInfo {
    DocumentInfo { path: path.to_string() }
}

#[test]
fn context_starts_plain() {
    let settings = Settings { library_path: "/lib".to_string(), frontlight: true };
    let ctx = build_context(settings.clone(), vec![doc("a.epub")]);
    assert_eq!(ctx.settings, settings);
    assert_eq!(ctx.metadata, vec![doc("a.epub")]);
    assert!(!ctx.inverted);
    assert!(!ctx.monochrome);
    assert_eq!(ctx.notification_index, 0);
}

#[test]
fn opens_then_backs_return_to_root() {
    let mut d = dispatcher(false);
    for name in ["a.pdf", "b.epub", "c.cbz"] {
        assert_eq!(d.dispatch(Event::Open(doc(name))), Action::OpenReader(doc(name)));
        assert_eq!(d.open_result(doc(name), true), Action::Nothing);
    }
    assert_eq!(d.history.len(), 3);
    assert_eq!(d.active.kind, ViewKind::Reader(doc("c.cbz")));
    for _ in 0..3 {
        assert_eq!(d.dispatch(Event::Back), Action::Deliver(Event::Back));
    }
    assert_eq!(d.history.len(), 0);
    assert_eq!(d.active.kind, ViewKind::Home);
}

#[test]
fn back_on_empty_history_is_redelivered() {
    let mut d = dispatcher(false);
    assert_eq!(d.dispatch(Event::Back), Action::Deliver(Event::Back));
    assert_eq!(d.history.len(), 0);
    assert_eq!(d.active.kind, ViewKind::Home);
    assert!(d.queue.is_empty());
}

#[test]
fn malformed_document_is_reported_invalid() {
    let mut d = dispatcher(false);
    assert_eq!(d.dispatch(Event::Open(doc("broken.pdf"))), Action::OpenReader(doc("broken.pdf")));
    assert_eq!(d.open_result(doc("broken.pdf"), false), Action::Deliver(Event::Invalid(doc("broken.pdf"))));
    assert_eq!(d.history.len(), 0);
    assert_eq!(d.active.kind, ViewKind::Home);
    assert!(d.queue.is_empty());
    assert!(d.bus.is_empty());
}

#[test]
fn toggle_inverted_flips_once_and_renders_screen() {
    let mut d = dispatcher(false);
    assert_eq!(d.dispatch(Event::Select(EntryId::ToggleInverted)), Action::ToggleInverted);
    assert!(d.context.inverted);
    assert!(d.queue.is_empty());
    assert_eq!(d.bus, vec![Event::Render(screen(), UpdateMode::Gui)]);
    assert_eq!(d.dispatch(Event::Select(EntryId::ToggleInverted)), Action::ToggleInverted);
    assert!(!d.context.inverted);
    assert_eq!(d.bus.len(), 2);
}

#[test]
fn toggle_monochrome_flips_and_renders_screen() {
    let mut d = dispatcher(false);
    assert_eq!(d.dispatch(Event::Select(EntryId::ToggleMonochrome)), Action::ToggleMonochrome);
    assert!(d.context.monochrome);
    assert!(!d.context.inverted);
    assert_eq!(d.bus, vec![Event::Render(screen(), UpdateMode::Gui)]);
}

#[test]
fn screenshot_appends_one_note() {
    let mut d = dispatcher(false);
    assert_eq!(d.dispatch(Event::Select(EntryId::TakeScreenshot)), Action::TakeScreenshot);
    let note = Rectangle::new(100, 700, 500, 760);
    d.screenshot_taken(true, note);
    assert_eq!(d.active.children.len(), 1);
    assert_eq!(
        d.active.children[0],
        Overlay { id: ViewId::Notification(0), kind: OverlayKind::Screenshot { saved: true }, rect: note }
    );
    d.screenshot_taken(false, note);
    assert_eq!(d.active.children[1].id, ViewId::Notification(1));
    assert_eq!(d.active.children[1].kind, OverlayKind::Screenshot { saved: false });
    assert_eq!(d.context.notification_index, 2);
}

#[test]
fn frontlight_shown_only_when_enabled() {
    let mut off = dispatcher(false);
    assert_eq!(off.dispatch(Event::Show(ViewId::Frontlight)), Action::Nothing);
    let mut on = dispatcher(true);
    assert_eq!(on.dispatch(Event::Show(ViewId::Frontlight)), Action::ShowFrontlight);
    let panel = Rectangle::new(50, 50, 550, 300);
    on.frontlight_shown(panel);
    assert_eq!(on.active.children[0].id, ViewId::Frontlight);
    assert_eq!(on.bus, vec![Event::Render(panel, UpdateMode::Gui)]);
}

#[test]
fn close_exposes_union_with_overlapping_siblings() {
    let mut d = dispatcher(true);
    d.frontlight_shown(Rectangle::new(50, 50, 550, 300));
    d.screenshot_taken(true, Rectangle::new(100, 250, 500, 400));
    d.screenshot_taken(true, Rectangle::new(0, 700, 100, 760));
    d.bus.clear();
    assert_eq!(d.dispatch(Event::Close(ViewId::Frontlight)), Action::Nothing);
    assert_eq!(d.active.children.len(), 2);
    assert!(d.queue.is_empty());
    assert_eq!(d.bus, vec![Event::Expose(Rectangle::new(50, 50, 550, 400))]);
}

#[test]
fn close_unknown_overlay_does_nothing() {
    let mut d = dispatcher(false);
    assert_eq!(d.dispatch(Event::Close(ViewId::Menu(3))), Action::Nothing);
    assert!(d.queue.is_empty());
    assert!(d.bus.is_empty());
}

#[test]
fn renders_and_other_events_pass_through() {
    let mut d = dispatcher(false);
    let r = Rectangle::new(0, 0, 10, 10);
    assert_eq!(d.dispatch(Event::Render(r, UpdateMode::Full)), Action::Render { rect: r, mode: UpdateMode::Full, wait: true });
    assert_eq!(d.dispatch(Event::RenderNoWait(r, UpdateMode::Partial)), Action::Render { rect: r, mode: UpdateMode::Partial, wait: false });
    assert_eq!(d.dispatch(Event::Expose(r)), Action::Expose(r));
    assert_eq!(d.dispatch(Event::ClockTick), Action::Deliver(Event::ClockTick));
    assert_eq!(d.dispatch(Event::Select(EntryId::Other(4))), Action::Deliver(Event::Select(EntryId::Other(4))));
    assert_eq!(d.dispatch(Event::Select(EntryId::Quit)), Action::Quit);
}

#[test]
fn follow_ups_come_before_later_arrivals() {
    let mut d = dispatcher(false);
    d.enqueue(Event::ClockTick);
    d.enqueue(Event::Back);
    let e = d.next_event().unwrap();
    assert_eq!(e, Event::ClockTick);
    assert_eq!(d.dispatch(e), Action::Deliver(Event::ClockTick));
    d.post(Event::Expose(Rectangle::new(0, 0, 1, 1)));
    d.post(Event::Expose(Rectangle::new(1, 1, 2, 2)));
    d.end_turn();
    d.enqueue(Event::Select(EntryId::Quit));
    assert!(d.bus.is_empty());
    assert_eq!(
        d.queue,
        vec![
            Event::Expose(Rectangle::new(0, 0, 1, 1)),
            Event::Expose(Rectangle::new(1, 1, 2, 2)),
            Event::Back,
            Event::Select(EntryId::Quit),
        ]
    );
}

#[test]
fn own_sends_run_before_waiting_events() {
    let mut d = dispatcher(false);
    d.enqueue(Event::Select(EntryId::ToggleInverted));
    d.enqueue(Event::ClockTick);
    let e = d.next_event().unwrap();
    assert_eq!(d.dispatch(e), Action::ToggleInverted);
    d.end_turn();
    assert_eq!(d.next_event(), Some(Event::Render(screen(), UpdateMode::Gui)));
    assert_eq!(d.next_event(), Some(Event::ClockTick));
}

#[test]
fn next_event_on_empty_queue() {
    let mut d = dispatcher(false);
    assert_eq!(d.next_event(), None);
}

#[test]
fn registered_updates_are_tracked() {
    let mut d = dispatcher(false);
    let a = Rectangle::new(0, 0, 10, 10);
    let b = Rectangle::new(5, 5, 20, 20);
    d.register(7, a);
    d.register(8, b);
    assert_eq!(d.updates.region(7), Some(a));
    assert_eq!(d.updates.region(8), Some(b));
    assert_eq!(d.updates.region(9), None);
    d.updates.register(7, b);
    assert_eq!(d.updates.region(7), Some(b));
}
