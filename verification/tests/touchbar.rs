use input_linux::Key;
use tiny_dfr::button::{Button, ButtonImage};
use tiny_dfr::compose::{clip_spans, spans_within, Span};
use tiny_dfr::keys::{emit, is_layer_key, toggle_key, InputEvent};
use tiny_dfr::layer::FunctionLayer;
use tiny_dfr::layout::{
    button_clip, button_hit, fits_thickness, full_clip, hit_column, to_subpixels, ClipRect,
    SUBPIXELS,
};
use tiny_dfr::names::{contains_bytes, names_touch_bar, occurs_at};
use tiny_dfr::router::{Binding, Config, Event, LayerType, Touchbar, UiConfig};

const STRIP: u64 = 7;
const WIDTH: u16 = 2008;
const HEIGHT: u16 = 64;

/// A whole number of pixels as a fixed-point position.
fn px(pixels: u16) -> u32 {
    to_subpixels(pixels)
}

fn function_layer() -> FunctionLayer {
    FunctionLayer {
        buttons: vec![
            Button::new_text("F1", Key::F1 as u16),
            Button::new_text("F2", Key::F2 as u16),
            Button::new_text("F3", Key::F3 as u16),
            Button::new_text("F4", Key::F4 as u16),
            Button::new_text("F5", Key::F5 as u16),
            Button::new_text("F6", Key::F6 as u16),
            Button::new_text("F7", Key::F7 as u16),
            Button::new_text("F8", Key::F8 as u16),
            Button::new_text("F9", Key::F9 as u16),
            Button::new_text("F10", Key::F10 as u16),
            Button::new_text("F11", Key::F11 as u16),
            Button::new_text("F12", Key::F12 as u16),
        ],
    }
}

fn special_layer() -> FunctionLayer {
    FunctionLayer {
        buttons: vec![
            Button::new_svg("brightness_low", Key::BrightnessDown as u16),
            Button::new_svg("brightness_high", Key::BrightnessUp as u16),
            Button::new_svg("mic_off", Key::MicMute as u16),
            Button::new_svg("search", Key::Search as u16),
            Button::new_svg("backlight_low", Key::IllumDown as u16),
            Button::new_svg("backlight_high", Key::IllumUp as u16),
            Button::new_svg("fast_rewind", Key::PreviousSong as u16),
            Button::new_svg("play_pause", Key::PlayPause as u16),
            Button::new_svg("fast_forward", Key::NextSong as u16),
            Button::new_svg("volume_off", Key::Mute as u16),
            Button::new_svg("volume_down", Key::VolumeDown as u16),
            Button::new_svg("volume_up", Key::VolumeUp as u16),
        ],
    }
}

fn config(primary: LayerType, secondary: LayerType) -> Config {
    Config { ui: UiConfig { primary_layer: primary, secondary_layer: secondary } }
}

/// A context that knows the strip and has drawn its first frame.
fn ready(primary: LayerType, secondary: LayerType) -> Touchbar {
    let mut bar =
        Touchbar::new(config(primary, secondary), WIDTH, HEIGHT, function_layer(), special_layer());
    let mut sink = Vec::new();
    let added = Event::DeviceAdded {
        device: STRIP,
        name: "Apple Inc. Touch Bar Display Touchpad".as_bytes().to_vec(),
    };
    bar.handle_event(&added, 1, &mut sink);
    assert!(sink.is_empty());
    let first = bar.redraw().unwrap();
    assert!(first.clear);
    assert_eq!(first.clips, vec![ClipRect { x1: 0, y1: 0, x2: 64, y2: 2008 }]);
    bar
}

fn key_down(code: u16) -> Vec<InputEvent> {
    vec![InputEvent { kind: 1, code, value: 1 }, InputEvent { kind: 0, code: 0, value: 0 }]
}

fn key_up(code: u16) -> Vec<InputEvent> {
    vec![InputEvent { kind: 1, code, value: 0 }, InputEvent { kind: 0, code: 0, value: 0 }]
}

#[test]
fn starts_on_primary_with_complete_redraw_due() {
    let bar = Touchbar::new(
        config(LayerType::Special, LayerType::Function),
        WIDTH,
        HEIGHT,
        function_layer(),
        special_layer(),
    );
    assert_eq!(bar.active_layer, LayerType::Special);
    assert!(bar.needs_complete_redraw);
    assert_eq!(bar.digitizer, None);
    assert!(bar.touches.is_empty());
}

#[test]
fn first_frame_paints_every_button_once() {
    let mut bar = Touchbar::new(
        config(LayerType::Function, LayerType::Special),
        WIDTH,
        HEIGHT,
        function_layer(),
        special_layer(),
    );
    let frame = bar.redraw().unwrap();
    assert!(frame.clear);
    assert_eq!(frame.repaint, (0u32..12).collect::<Vec<u32>>());
    assert_eq!(frame.clips, vec![ClipRect { x1: 0, y1: 0, x2: 64, y2: 2008 }]);
    assert!(!bar.needs_complete_redraw);
    assert!(bar.redraw().is_none());
}

#[test]
fn touch_on_first_column_presses_and_releases_f1() {
    let mut bar = ready(LayerType::Function, LayerType::Special);
    let mut sink = Vec::new();
    bar.handle_event(&Event::TouchDown { device: STRIP, slot: 0, x: px(100), y: px(32) }, 1, &mut sink);
    assert!(bar.function.buttons[0].active);
    assert!(bar.function.buttons[0].changed);
    assert_eq!(sink, key_down(Key::F1 as u16));
    assert_eq!(bar.touches.get(&0), Some(&Binding { layer: LayerType::Function, button: 0 }));
    let frame = bar.redraw().unwrap();
    assert!(!frame.clear);
    assert_eq!(frame.repaint, vec![0]);
    assert_eq!(frame.clips, vec![ClipRect { x1: 2, y1: 0, x2: 63, y2: 154 }]);
    assert!(!bar.function.buttons[0].changed);

    let mut sink = Vec::new();
    bar.handle_event(&Event::TouchUp { device: STRIP, slot: 0 }, 1, &mut sink);
    assert!(!bar.function.buttons[0].active);
    assert_eq!(sink, key_up(Key::F1 as u16));
    assert!(bar.touches.is_empty());
    let frame = bar.redraw().unwrap();
    assert_eq!(frame.repaint, vec![0]);
    assert_eq!(frame.clips, vec![ClipRect { x1: 2, y1: 0, x2: 63, y2: 154 }]);
    assert!(bar.redraw().is_none());
}

#[test]
fn touch_outside_vertical_band_is_not_tracked() {
    let mut bar = ready(LayerType::Function, LayerType::Special);
    let mut sink = Vec::new();
    // 2% of the thickness; column 3 spans 505.5 to 659.9.
    let y = 64 * SUBPIXELS * 2 / 100;
    bar.handle_event(&Event::TouchDown { device: STRIP, slot: 4, x: px(550), y }, 1, &mut sink);
    assert!(bar.touches.is_empty());
    assert!(sink.is_empty());
    assert!(bar.function.buttons.iter().all(|b| !b.active && !b.changed));
    assert!(bar.redraw().is_none());
    // The same place inside the band does hit column 3.
    bar.handle_event(&Event::TouchDown { device: STRIP, slot: 4, x: px(550), y: px(32) }, 1, &mut sink);
    assert_eq!(bar.touches.get(&4), Some(&Binding { layer: LayerType::Function, button: 3 }));
    assert_eq!(sink, key_down(Key::F4 as u16));
}

#[test]
fn missed_contact_is_ignored_for_its_whole_life() {
    let mut bar = ready(LayerType::Function, LayerType::Special);
    let mut sink = Vec::new();
    // 160 lies in the gap between the first two buttons.
    bar.handle_event(&Event::TouchDown { device: STRIP, slot: 2, x: px(160), y: px(32) }, 1, &mut sink);
    assert!(bar.touches.is_empty());
    bar.handle_event(&Event::TouchMotion { device: STRIP, slot: 2, x: px(100), y: px(32) }, 1, &mut sink);
    bar.handle_event(&Event::TouchUp { device: STRIP, slot: 2 }, 1, &mut sink);
    assert!(bar.touches.is_empty());
    assert!(sink.is_empty());
    assert!(bar.function.buttons.iter().all(|b| !b.active && !b.changed));
    assert!(bar.redraw().is_none());
}

#[test]
fn motion_never_rebinds_a_contact() {
    let mut bar = ready(LayerType::Function, LayerType::Special);
    let mut sink = Vec::new();
    bar.handle_event(&Event::TouchDown { device: STRIP, slot: 1, x: px(100), y: px(32) }, 1, &mut sink);
    let bound = Binding { layer: LayerType::Function, button: 0 };
    assert_eq!(bar.touches.get(&1), Some(&bound));
    // Far away, over the last button.
    bar.handle_event(&Event::TouchMotion { device: STRIP, slot: 1, x: px(1900), y: px(32) }, 1, &mut sink);
    assert_eq!(bar.touches.get(&1), Some(&bound));
    assert!(!bar.function.buttons[0].active);
    assert!(!bar.function.buttons[11].active);
    // Still away: nothing more is sent.
    bar.handle_event(&Event::TouchMotion { device: STRIP, slot: 1, x: px(1000), y: px(32) }, 1, &mut sink);
    // Back on the button.
    bar.handle_event(&Event::TouchMotion { device: STRIP, slot: 1, x: px(50), y: px(30) }, 1, &mut sink);
    assert_eq!(bar.touches.get(&1), Some(&bound));
    assert!(bar.function.buttons[0].active);
    let mut expected = key_down(Key::F1 as u16);
    expected.extend(key_up(Key::F1 as u16));
    expected.extend(key_down(Key::F1 as u16));
    assert_eq!(sink, expected);
}

#[test]
fn layer_key_switches_layer_and_forces_complete_redraw() {
    let mut bar = ready(LayerType::Function, LayerType::Special);
    let mut sink = Vec::new();
    bar.handle_event(&Event::TouchDown { device: STRIP, slot: 0, x: px(100), y: px(32) }, 1, &mut sink);
    assert_eq!(sink.len(), 2);
    let mut sink = Vec::new();
    bar.handle_event(&Event::Key { code: Key::Fn as u32, pressed: true }, 1, &mut sink);
    assert_eq!(bar.active_layer, LayerType::Special);
    assert!(bar.needs_complete_redraw);
    assert!(sink.is_empty());
    assert!(bar.function.buttons[0].active);
    assert!(bar.touches.is_empty());
    let frame = bar.redraw().unwrap();
    assert!(frame.clear);
    assert_eq!(frame.clips, vec![ClipRect { x1: 0, y1: 0, x2: 64, y2: 2008 }]);
    // The dropped contact no longer reaches its button.
    bar.handle_event(&Event::TouchUp { device: STRIP, slot: 0 }, 1, &mut sink);
    assert!(sink.is_empty());
    assert!(bar.function.buttons[0].active);
    // Release goes back to the primary layer.
    bar.handle_event(&Event::Key { code: Key::Fn as u32, pressed: false }, 1, &mut sink);
    assert_eq!(bar.active_layer, LayerType::Function);
    assert!(bar.needs_complete_redraw);
    assert!(sink.is_empty());
}

#[test]
fn switch_between_equal_layers_draws_nothing() {
    let mut bar = ready(LayerType::Special, LayerType::Special);
    let mut sink = Vec::new();
    bar.handle_event(&Event::Key { code: Key::Fn as u32, pressed: true }, 1, &mut sink);
    assert_eq!(bar.active_layer, LayerType::Special);
    assert!(!bar.needs_complete_redraw);
    assert!(bar.redraw().is_none());
    bar.handle_event(&Event::Key { code: Key::Fn as u32, pressed: false }, 1, &mut sink);
    assert!(!bar.needs_complete_redraw);
    assert!(bar.redraw().is_none());
    assert!(sink.is_empty());
}

#[test]
fn other_keys_do_not_switch() {
    let mut bar = ready(LayerType::Function, LayerType::Special);
    let mut sink = Vec::new();
    bar.handle_event(&Event::Key { code: Key::A as u32, pressed: true }, 1, &mut sink);
    bar.handle_event(&Event::Other, 1, &mut sink);
    assert_eq!(bar.active_layer, LayerType::Function);
    assert!(!bar.needs_complete_redraw);
    assert!(sink.is_empty());
}

#[test]
fn touches_are_ignored_while_backlight_is_off_or_from_other_devices() {
    let mut bar = ready(LayerType::Function, LayerType::Special);
    let mut sink = Vec::new();
    bar.handle_event(&Event::TouchDown { device: STRIP, slot: 0, x: px(100), y: px(32) }, 0, &mut sink);
    bar.handle_event(&Event::TouchDown { device: STRIP + 1, slot: 0, x: px(100), y: px(32) }, 1, &mut sink);
    assert!(bar.touches.is_empty());
    assert!(sink.is_empty());
    let keyboard = Event::DeviceAdded { device: 9, name: "AT keyboard".as_bytes().to_vec() };
    bar.handle_event(&keyboard, 1, &mut sink);
    assert_eq!(bar.digitizer, Some(STRIP));
    bar.handle_event(&Event::TouchDown { device: 9, slot: 0, x: px(100), y: px(32) }, 1, &mut sink);
    assert!(sink.is_empty());
    let mut fresh = Touchbar::new(
        config(LayerType::Function, LayerType::Special),
        WIDTH,
        HEIGHT,
        function_layer(),
        special_layer(),
    );
    fresh.handle_event(&Event::TouchDown { device: STRIP, slot: 0, x: px(100), y: px(32) }, 1, &mut sink);
    assert!(sink.is_empty());
}

#[test]
fn two_contacts_on_one_button_toggle_it_independently() {
    let mut bar = ready(LayerType::Function, LayerType::Special);
    let mut sink = Vec::new();
    bar.handle_event(&Event::TouchDown { device: STRIP, slot: 0, x: px(100), y: px(32) }, 1, &mut sink);
    bar.handle_event(&Event::TouchDown { device: STRIP, slot: 1, x: px(120), y: px(32) }, 1, &mut sink);
    assert_eq!(bar.touches.len(), 2);
    assert_eq!(sink, key_down(Key::F1 as u16));
    bar.handle_event(&Event::TouchUp { device: STRIP, slot: 0 }, 1, &mut sink);
    assert!(!bar.function.buttons[0].active);
    bar.handle_event(&Event::TouchUp { device: STRIP, slot: 1 }, 1, &mut sink);
    let mut expected = key_down(Key::F1 as u16);
    expected.extend(key_up(Key::F1 as u16));
    assert_eq!(sink, expected);
    assert!(bar.touches.is_empty());
}

#[test]
fn set_active_twice_emits_once() {
    let mut b = Button::new_text("F5", Key::F5 as u16);
    assert!(matches!(b.image, ButtonImage::Text("F5")));
    let mut sink = Vec::new();
    b.set_active(&mut sink, true);
    b.set_active(&mut sink, true);
    assert!(b.active && b.changed);
    assert_eq!(sink, key_down(Key::F5 as u16));
    b.set_active(&mut sink, false);
    b.set_active(&mut sink, false);
    assert!(!b.active);
    assert_eq!(sink.len(), 4);
    assert_eq!(sink[2..], key_up(Key::F5 as u16)[..]);
    let mut idle = Button::new_svg("search", Key::Search as u16);
    assert!(matches!(idle.image, ButtonImage::Svg("search")));
    let mut none = Vec::new();
    idle.set_active(&mut none, false);
    assert!(none.is_empty() && !idle.changed);
}

#[test]
fn key_report_is_key_record_then_sync() {
    let mut sink = Vec::new();
    toggle_key(&mut sink, 59, 1);
    assert_eq!(
        sink,
        vec![InputEvent { kind: 1, code: 59, value: 1 }, InputEvent { kind: 0, code: 0, value: 0 }]
    );
    emit(&mut sink, 4, 5, -6);
    assert_eq!(sink[2], InputEvent { kind: 4, code: 5, value: -6 });
    assert!(is_layer_key(0x1d0));
    assert!(!is_layer_key(0));
    assert!(!is_layer_key(59));
}

#[test]
fn buttons_and_gaps_fill_the_row() {
    // 12 buttons on 2008: width 154.46, pitch 168.50.
    assert!(button_hit(12, 0, 2008, 64, px(0), px(32)));
    assert!(button_hit(12, 0, 2008, 64, px(154), px(32)));
    assert!(!button_hit(12, 0, 2008, 64, px(155), px(32)));
    assert!(!button_hit(12, 1, 2008, 64, px(168), px(32)));
    assert!(button_hit(12, 1, 2008, 64, px(169), px(32)));
    assert!(!button_hit(12, 1, 2008, 64, px(154), px(32)));
    // The last button ends exactly at the end of the row.
    assert!(button_hit(12, 11, 2008, 64, px(2008), px(32)));
    assert!(!button_hit(12, 11, 2008, 64, px(2009), px(32)));
    assert!(!button_hit(12, 11, 2008, 64, px(1853), px(32)));
    assert!(button_hit(12, 11, 2008, 64, px(1854), px(32)));
    // Two buttons on 30: each 10 wide, one gap of 10.
    assert!(button_hit(2, 0, 30, 100, px(10), px(50)));
    assert!(!button_hit(2, 0, 30, 100, px(11), px(50)));
    assert!(!button_hit(2, 1, 30, 100, px(19), px(50)));
    assert!(button_hit(2, 1, 30, 100, px(20), px(50)));
    assert!(button_hit(2, 1, 30, 100, px(30), px(50)));
    // Edges are exact below the pixel.
    assert!(!button_hit(2, 0, 30, 100, px(10) + 1, px(50)));
    assert!(!button_hit(2, 1, 30, 100, px(20) - 1, px(50)));
    assert!(!button_hit(2, 1, 30, 100, px(30) + 1, px(50)));
    // 168.5 is left of the second button's edge at 168.503, 168.51 is on it.
    assert!(!button_hit(12, 1, 2008, 64, px(168) + SUBPIXELS / 2, px(32)));
    assert!(button_hit(12, 1, 2008, 64, px(168) + SUBPIXELS / 100 * 51, px(32)));
}

#[test]
fn vertical_band_is_strictly_between_nine_and_ninety_one_percent() {
    assert!(!button_hit(2, 0, 30, 100, px(5), px(9)));
    assert!(button_hit(2, 0, 30, 100, px(5), px(10)));
    assert!(button_hit(2, 0, 30, 100, px(5), px(90)));
    assert!(!button_hit(2, 0, 30, 100, px(5), px(91)));
    assert!(!button_hit(12, 0, 2008, 64, px(100), px(5)));
    assert!(button_hit(12, 0, 2008, 64, px(100), px(6)));
    assert!(button_hit(12, 0, 2008, 64, px(100), px(58)));
    assert!(!button_hit(12, 0, 2008, 64, px(100), px(59)));
    assert!(button_hit(2, 0, 30, 100, px(5), px(9) + 1));
    assert!(button_hit(2, 0, 30, 100, px(5), px(91) - 1));
}

#[test]
fn fixed_point_and_thickness_limits() {
    assert_eq!(SUBPIXELS, 65536);
    assert_eq!(to_subpixels(0), 0);
    assert_eq!(to_subpixels(3), 196608);
    assert_eq!(to_subpixels(u16::MAX), 0xffff_0000);
    assert!(fits_thickness(64));
    assert!(fits_thickness(47));
    assert!(!fits_thickness(46));
    assert!(!fits_thickness(0));
    assert!(fits_thickness(u16::MAX));
    let two = FunctionLayer { buttons: vec![Button::new_text("a", 1), Button::new_text("b", 2)] };
    assert!(two.is_wf());
    let one = FunctionLayer { buttons: vec![Button::new_text("a", 1)] };
    assert!(!one.is_wf());
}

#[test]
fn hit_column_picks_the_column_under_the_contact() {
    assert_eq!(hit_column(12, 2008, 64, px(100), px(32)), Some(0));
    assert_eq!(hit_column(12, 2008, 64, px(550), px(32)), Some(3));
    assert_eq!(hit_column(12, 2008, 64, px(550), px(1)), None);
    assert_eq!(hit_column(12, 2008, 64, px(160), px(32)), None);
    assert_eq!(hit_column(12, 2008, 64, px(2007), px(32)), Some(11));
    assert_eq!(hit_column(12, 2008, 64, px(2008), px(32)), None);
    assert_eq!(hit_column(12, 2008, 64, u32::MAX, px(32)), None);
    assert_eq!(hit_column(12, 0, 64, px(0), px(32)), Some(0));
    assert_eq!(hit_column(12, 0, 64, 1, px(32)), None);
}

#[test]
fn clip_rectangles_are_in_buffer_coordinates() {
    assert_eq!(button_clip(12, 0, 2008, 64), ClipRect { x1: 2, y1: 0, x2: 63, y2: 154 });
    assert_eq!(button_clip(12, 3, 2008, 64), ClipRect { x1: 2, y1: 505, x2: 63, y2: 659 });
    assert_eq!(button_clip(12, 11, 2008, 64), ClipRect { x1: 2, y1: 1853, x2: 63, y2: 2007 });
    assert_eq!(button_clip(2, 1, 30, 100), ClipRect { x1: 7, y1: 20, x2: 93, y2: 30 });
    assert_eq!(full_clip(2008, 64), ClipRect { x1: 0, y1: 0, x2: 64, y2: 2008 });
}

#[test]
fn incremental_redraw_reports_only_changed_buttons() {
    let mut layer = function_layer();
    assert!(!layer.any_changed());
    let mut sink = Vec::new();
    layer.buttons[3].set_active(&mut sink, true);
    layer.buttons[11].set_active(&mut sink, true);
    assert!(layer.any_changed());
    let frame = layer.draw(2008, 64, false);
    assert!(!frame.clear);
    assert_eq!(frame.repaint, vec![3, 11]);
    assert_eq!(
        frame.clips,
        vec![
            ClipRect { x1: 2, y1: 505, x2: 63, y2: 659 },
            ClipRect { x1: 2, y1: 1853, x2: 63, y2: 2007 },
        ]
    );
    assert!(!layer.any_changed());
    assert!(layer.buttons[3].active && layer.buttons[11].active);
    let idle = layer.draw(2008, 64, false);
    assert!(idle.repaint.is_empty() && idle.clips.is_empty());
    let full = layer.draw(2008, 64, true);
    assert!(full.clear);
    assert_eq!(full.repaint.len(), 12);
    assert_eq!(full.clips, vec![ClipRect { x1: 0, y1: 0, x2: 64, y2: 2008 }]);
}

#[test]
fn touch_strip_is_known_by_its_name() {
    assert!(names_touch_bar("Apple Inc. Touch Bar Display Touchpad".as_bytes()));
    assert!(names_touch_bar(" Touch Bar".as_bytes()));
    assert!(!names_touch_bar("Touch Bar".as_bytes()));
    assert!(!names_touch_bar("Apple Touch bar".as_bytes()));
    assert!(!names_touch_bar("".as_bytes()));
    assert!(contains_bytes(b"abc", b""));
    assert!(contains_bytes(b"abcabd", b"abd"));
    assert!(!contains_bytes(b"ab", b"abc"));
    assert!(occurs_at(b"abcabd", b"ab", 3));
    assert!(!occurs_at(b"abcabd", b"ab", 1));
}

#[test]
fn dirty_rectangle_maps_to_one_run_per_row() {
    let clip = ClipRect { x1: 2, y1: 1, x2: 63, y2: 4 };
    let spans = clip_spans(&clip, 256, 4);
    assert_eq!(
        spans,
        vec![
            Span { offset: 264, len: 244 },
            Span { offset: 520, len: 244 },
            Span { offset: 776, len: 244 },
        ]
    );
    assert!(spans_within(&spans, 1020));
    assert!(!spans_within(&spans, 1019));
    assert!(clip_spans(&ClipRect { x1: 5, y1: 7, x2: 9, y2: 7 }, 256, 4).is_empty());
    assert!(spans_within(&Vec::new(), 0));
    assert!(!spans_within(&vec![Span { offset: u64::MAX, len: 2 }], u64::MAX));
}
