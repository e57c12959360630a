use minecraft_skins::raster::{Image, Rgba};
use minecraft_skins::slots::{SelectionMarker, Slot, SlotState, SlotStore, SLOT_COUNT};
use parking_lot::Mutex;

fn marked(tag: u8) -> Image {
    let mut img = Image::new(2, 2).unwrap();
    img.put_pixel(0, 0, Rgba { r: tag, g: tag, b: tag, a: 255 });
    img
}

#[test]
fn slot_starts_empty() {
    let slot = Slot::new();
    assert_eq!(slot.current_state(), SlotState::Empty);
    assert_eq!(slot.get_selected(), None);
}

#[test]
fn slot_walks_through_its_states() {
    let mut slot = Slot::new();
    assert!(slot.get_or_render(|_| Some(marked(1))).is_none());
    assert_eq!(slot.current_state(), SlotState::Empty);

    slot.select(Some("a.png".to_string()));
    assert_eq!(slot.current_state(), SlotState::Selected);
    assert_eq!(slot.get_selected(), Some("a.png".to_string()));

    let first = slot.get_or_render(|p| {
        assert_eq!(p, "a.png");
        Some(marked(1))
    });
    assert_eq!(first.unwrap().as_raw(), marked(1).as_raw());
    assert_eq!(slot.current_state(), SlotState::Rendered);

    // the cached render is handed out; the function is not asked again
    let second = slot.get_or_render(|_| panic!("rendered twice"));
    assert_eq!(second.unwrap().as_raw(), marked(1).as_raw());

    // a new selection drops the render
    slot.select(Some("b.png".to_string()));
    assert_eq!(slot.current_state(), SlotState::Selected);
    let third = slot.get_or_render(|p| {
        assert_eq!(p, "b.png");
        Some(marked(2))
    });
    assert_eq!(third.unwrap().as_raw(), marked(2).as_raw());

    slot.select(None);
    assert_eq!(slot.current_state(), SlotState::Empty);
    assert!(slot.get_or_render(|_| panic!("rendered without a selection")).is_none());
}

#[test]
fn failed_render_is_not_cached() {
    let mut slot = Slot::new();
    slot.select(Some("broken.png".to_string()));
    assert!(slot.get_or_render(|_| None).is_none());
    assert_eq!(slot.current_state(), SlotState::Selected);
    assert_eq!(slot.get_selected(), Some("broken.png".to_string()));
    assert!(slot.get_or_render(|_| Some(marked(3))).is_some());
    assert_eq!(slot.current_state(), SlotState::Rendered);
}

#[test]
fn store_starts_with_eight_empty_slots() {
    let store = SlotStore::new();
    assert_eq!(SLOT_COUNT, 8);
    for i in 0..SLOT_COUNT {
        assert_eq!(store.get_selected(i), None);
    }
    assert_eq!(store.last_selected(), None);
}

#[test]
fn select_on_one_slot_leaves_the_others() {
    let mut store = SlotStore::new();
    for i in 1..SLOT_COUNT {
        store.select(i, Some(format!("skin{}.png", i)));
        assert!(store.get_or_render(i, |_| Some(marked(i as u8))).is_some());
    }
    store.select(0, Some("zero.png".to_string()));
    assert_eq!(store.get_selected(0), Some("zero.png".to_string()));
    store.select(0, None);
    assert_eq!(store.get_selected(0), None);
    for i in 1..SLOT_COUNT {
        assert_eq!(store.get_selected(i), Some(format!("skin{}.png", i)));
        let cached = store.get_or_render(i, |_| panic!("the render of slot {} was lost", i));
        assert_eq!(cached.unwrap().as_raw(), marked(i as u8).as_raw());
    }
}

#[test]
fn render_on_one_slot_leaves_the_others() {
    let mut store = SlotStore::new();
    store.select(2, Some("two.png".to_string()));
    store.select(5, Some("five.png".to_string()));
    assert!(store.get_or_render(2, |_| Some(marked(2))).is_some());
    assert_eq!(store.get_selected(5), Some("five.png".to_string()));
    let five = store.get_or_render(5, |p| {
        assert_eq!(p, "five.png");
        Some(marked(5))
    });
    assert_eq!(five.unwrap().as_raw(), marked(5).as_raw());
    assert!(store.get_or_render(3, |_| panic!("nothing is selected")).is_none());
}

#[test]
fn marker_remembers_the_last_slot_until_it_is_reset() {
    let mut marker = SelectionMarker::new();
    assert_eq!(marker.last_selected(), None);
    marker.mark(6);
    assert_eq!(marker.last_selected(), Some(6));
    marker.mark(0);
    assert_eq!(marker.last_selected(), Some(0));
    marker.reset_all();
    assert_eq!(marker.last_selected(), None);
    marker.reset_all();
    assert_eq!(marker.last_selected(), None);
}

#[test]
fn reset_clears_the_marker_and_nothing_else() {
    let mut store = SlotStore::new();
    store.select(4, Some("four.png".to_string()));
    assert!(store.get_or_render(4, |_| Some(marked(4))).is_some());
    assert_eq!(store.last_selected(), Some(4));
    store.reset_all();
    assert_eq!(store.last_selected(), None);
    assert_eq!(store.get_selected(4), Some("four.png".to_string()));
    assert!(store.get_or_render(4, |_| panic!("the render was lost")).is_some());
    store.select(1, None);
    assert_eq!(store.last_selected(), Some(1));
}

/// The two operations exclude each other, so they happen in one of two
/// orders; each takes the lock for its whole duration.
fn select_and_render(store: &Mutex<SlotStore>, select_first: bool) -> Option<Image> {
    let select = |store: &Mutex<SlotStore>| {
        store.lock().select(3, Some("A".to_string()));
    };
    let render = |store: &Mutex<SlotStore>| {
        store.lock().get_or_render(3, |p| {
            assert_eq!(p, "A");
            Some(marked(b'A'))
        })
    };
    if select_first {
        select(store);
        render(store)
    } else {
        let seen = render(store);
        select(store);
        seen
    }
}

#[test]
fn select_and_render_in_either_order_see_no_torn_state() {
    for select_first in [true, false] {
        let store = Mutex::new(SlotStore::new());
        let seen = select_and_render(&store, select_first);
        // the render is that of path A, or there was no selection yet
        match seen {
            Some(img) => {
                assert!(select_first);
                assert_eq!(img.as_raw(), marked(b'A').as_raw());
            },
            None => assert!(!select_first),
        }
        let mut store = store.lock();
        assert_eq!(store.get_selected(3), Some("A".to_string()));
        let now = store.get_or_render(3, |p| {
            assert_eq!(p, "A");
            Some(marked(b'A'))
        });
        assert_eq!(now.unwrap().as_raw(), marked(b'A').as_raw());
    }
}

#[test]
fn select_after_render_leaves_no_stale_cache() {
    let store = Mutex::new(SlotStore::new());
    store.lock().select(3, Some("old".to_string()));
    assert!(store.lock().get_or_render(3, |_| Some(marked(1))).is_some());
    store.lock().select(3, Some("A".to_string()));
    let seen = store.lock().get_or_render(3, |p| {
        assert_eq!(p, "A");
        Some(marked(b'A'))
    });
    assert_eq!(seen.unwrap().as_raw(), marked(b'A').as_raw());
}
