use dirty::conf::{CanvasRoot, Conf, Launcher};
use dirty::gfx::BitmapFontData;
use dirty::math::Color;
use dirty::scalar::Scalar;

fn s(v: f32) -> Scalar {
    Scalar::from_bits(v.to_bits())
}

fn check_initial(c: &Conf) {
    assert_eq!(c.width, 640);
    assert_eq!(c.height, 480);
    assert_eq!(c.title, "");
    assert!(!c.resizable);
    assert!(!c.fullscreen);
    assert!(!c.always_on_top);
    assert!(!c.borderless);
    assert!(!c.transparent);
    assert!(c.vsync);
    assert!(!c.cursor_hidden);
    assert!(!c.cursor_locked);
    assert_eq!(c.clear_color, Color::new(s(0.0), s(0.0), s(0.0), s(0.0)));
    assert!(!c.cull_face);
    assert!(matches!(c.canvas_root, CanvasRoot::Body));
    assert!(c.default_font.is_none());
}

#[test]
fn default_conf_is_a_small_fixed_window() {
    check_initial(&Conf::default());
    check_initial(&Launcher::default().conf);
}

#[test]
fn basic_conf_sets_title_and_size_only() {
    let c = Conf::basic("game", 800, 600);
    assert_eq!(c.title, "game");
    assert_eq!(c.width, 800);
    assert_eq!(c.height, 600);
    let mut rest = c.clone();
    rest.title = String::new();
    rest.width = 640;
    rest.height = 480;
    check_initial(&rest);
}

#[test]
fn launcher_steps_change_what_they_name() {
    let l = Launcher::default()
        .size(320, 240)
        .title("demo")
        .resizable(true)
        .fullscreen(true)
        .vsync(false)
        .cursor_hidden(true)
        .cursor_locked(true)
        .transparent(true)
        .always_on_top(true)
        .clear_color(Color::new(s(0.25), s(0.5), s(0.75), s(1.0)))
        .cull_face(true)
        .canvas_root(CanvasRoot::Element("stage"));
    let c = &l.conf;
    assert_eq!((c.width, c.height), (320, 240));
    assert_eq!(c.title, "demo");
    assert!(c.resizable && c.fullscreen && !c.vsync);
    assert!(c.cursor_hidden && c.cursor_locked && c.transparent && c.always_on_top);
    assert_eq!(c.clear_color, Color::new(s(0.25), s(0.5), s(0.75), s(1.0)));
    assert!(c.cull_face);
    assert!(matches!(c.canvas_root, CanvasRoot::Element("stage")));
    assert!(!c.borderless);
    assert!(c.default_font.is_none());
}

#[test]
fn launcher_step_leaves_the_rest_alone() {
    let l = Launcher::default().title("one").size(10, 20).vsync(false);
    let l = l.resizable(true);
    assert_eq!(l.conf.title, "one");
    assert_eq!((l.conf.width, l.conf.height), (10, 20));
    assert!(!l.conf.vsync);
    assert!(l.conf.resizable);
    assert!(!l.conf.fullscreen);
}

#[test]
fn canvas_roots_compare() {
    assert_eq!(CanvasRoot::Body, CanvasRoot::Body);
    assert_eq!(CanvasRoot::Element("a"), CanvasRoot::Element("a"));
    assert_ne!(CanvasRoot::Element("a"), CanvasRoot::Element("b"));
    assert_ne!(CanvasRoot::Body, CanvasRoot::Element("a"));
}

#[test]
fn launcher_takes_a_whole_conf() {
    let l = Launcher::default().title("old").conf(Conf::basic("new", 1, 2));
    assert_eq!(l.conf.title, "new");
    assert_eq!((l.conf.width, l.conf.height), (1, 2));
    assert!(l.conf.vsync);
}

#[test]
fn launcher_keeps_the_default_font() {
    let font = BitmapFontData { img: &[1, 2, 3], gw: 8, gh: 12, chars: "abc" };
    let l = Launcher::default().default_font(font);
    let kept = l.conf.default_font.expect("font");
    assert_eq!(kept.img, &[1, 2, 3]);
    assert_eq!((kept.gw, kept.gh), (8, 12));
    assert_eq!(kept.chars, "abc");
}
