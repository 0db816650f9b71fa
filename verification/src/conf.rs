//! Start-up configuration.

use vstd::prelude::*;
use crate::gfx::BitmapFontData;
use crate::math::Color;
use crate::scalar::Scalar;

verus! {

/// Where a canvas is attached on the web.
#[derive(Clone, Copy, PartialEq, Debug)]
pub enum CanvasRoot {
    Body,
    Element(&'static str),
}

/// What a window starts with.
#[derive(Clone, Debug)]
pub struct Conf {
    pub width: i32,
    pub height: i32,
    pub title: String,
    pub resizable: bool,
    pub fullscreen: bool,
    pub always_on_top: bool,
    pub borderless: bool,
    pub transparent: bool,
    pub vsync: bool,
    pub cursor_hidden: bool,
    pub cursor_locked: bool,
    pub clear_color: Color,
    pub cull_face: bool,
    pub canvas_root: CanvasRoot,
    pub default_font: Option<BitmapFontData>,
}

/// A [`Conf`] with its title as a sequence of characters.
pub struct ConfView {
    pub width: i32,
    pub height: i32,
    pub title: Seq<char>,
    pub resizable: bool,
    pub fullscreen: bool,
    pub always_on_top: bool,
    pub borderless: bool,
    pub transparent: bool,
    pub vsync: bool,
    pub cursor_hidden: bool,
    pub cursor_locked: bool,
    pub clear_color: Color,
    pub cull_face: bool,
    pub canvas_root: CanvasRoot,
    pub default_font: Option<BitmapFontData>,
}

impl View for Conf {
    type V = ConfView;

    open spec fn view(&self) -> ConfView {
        ConfView {
            width: self.width,
            height: self.height,
            title: self.title@,
            resizable: self.resizable,
            fullscreen: self.fullscreen,
            always_on_top: self.always_on_top,
            borderless: self.borderless,
            transparent: self.transparent,
            vsync: self.vsync,
            cursor_hidden: self.cursor_hidden,
            cursor_locked: self.cursor_locked,
            clear_color: self.clear_color,
            cull_face: self.cull_face,
            canvas_root: self.canvas_root,
            default_font: self.default_font,
        }
    }
}

impl ConfView {
    /// The configuration that everything starts from: a fixed window of 640
    /// by 480 without a title, synchronised with the display, cleared to
    /// black without opacity.
    pub open spec fn initial() -> ConfView {
        ConfView {
            width: 640,
            height: 480,
            title: Seq::empty(),
            resizable: false,
            fullscreen: false,
            always_on_top: false,
            borderless: false,
            transparent: false,
            vsync: true,
            cursor_hidden: false,
            cursor_locked: false,
            clear_color: Color::clear(),
            cull_face: false,
            canvas_root: CanvasRoot::Body,
            default_font: None,
        }
    }
}

impl Conf {
    /// The initial configuration under a title and a size.
    pub fn basic(title: &str, width: i32, height: i32) -> (c: Conf)
        ensures
            c@ == (ConfView { title: title@, width, height, ..ConfView::initial() }),
    {
        let mut c = Conf::default();
        c.title = title.to_owned();
        c.width = width;
        c.height = height;
        c
    }
}

impl Default for Conf {
    fn default() -> (c: Conf)
        ensures
            c@ == ConfView::initial(),
    {
        let zero = Scalar::zero();
        Conf {
            width: 640,
            height: 480,
            title: String::new(),
            resizable: false,
            fullscreen: false,
            always_on_top: false,
            borderless: false,
            transparent: false,
            vsync: true,
            cursor_hidden: false,
            cursor_locked: false,
            clear_color: Color::new(zero, zero, zero, zero),
            cull_face: false,
            canvas_root: CanvasRoot::Body,
            default_font: None,
        }
    }
}

/// Builds a [`Conf`] step by step; each step changes what it names and
/// nothing else.
#[derive(Debug)]
pub struct Launcher {
    pub conf: Conf,
}

impl Default for Launcher {
    fn default() -> (l: Launcher)
        ensures
            l.conf@ == ConfView::initial(),
    {
        Launcher { conf: Conf::default() }
    }
}

impl Launcher {
    pub fn conf(self, c: Conf) -> (l: Launcher)
        ensures
            l.conf == c,
    {
        let mut l = self;
        l.conf = c;
        l
    }

    pub fn size(self, w: i32, h: i32) -> (l: Launcher)
        ensures
            l.conf@ == (ConfView { width: w, height: h, ..self.conf@ }),
    {
        let mut l = self;
        l.conf.width = w;
        l.conf.height = h;
        l
    }

    pub fn title(self, t: &str) -> (l: Launcher)
        ensures
            l.conf@ == (ConfView { title: t@, ..self.conf@ }),
    {
        let mut l = self;
        l.conf.title = t.to_owned();
        l
    }

    pub fn resizable(self, b: bool) -> (l: Launcher)
        ensures
            l.conf@ == (ConfView { resizable: b, ..self.conf@ }),
    {
        let mut l = self;
        l.conf.resizable = b;
        l
    }

    pub fn fullscreen(self, b: bool) -> (l: Launcher)
        ensures
            l.conf@ == (ConfView { fullscreen: b, ..self.conf@ }),
    {
        let mut l = self;
        l.conf.fullscreen = b;
        l
    }

    pub fn vsync(self, b: bool) -> (l: Launcher)
        ensures
            l.conf@ == (ConfView { vsync: b, ..self.conf@ }),
    {
        let mut l = self;
        l.conf.vsync = b;
        l
    }

    pub fn cursor_hidden(self, b: bool) -> (l: Launcher)
        ensures
            l.conf@ == (ConfView { cursor_hidden: b, ..self.conf@ }),
    {
        let mut l = self;
        l.conf.cursor_hidden = b;
        l
    }

    pub fn cursor_locked(self, b: bool) -> (l: Launcher)
        ensures
            l.conf@ == (ConfView { cursor_locked: b, ..self.conf@ }),
    {
        let mut l = self;
        l.conf.cursor_locked = b;
        l
    }

    pub fn transparent(self, b: bool) -> (l: Launcher)
        ensures
            l.conf@ == (ConfView { transparent: b, ..self.conf@ }),
    {
        let mut l = self;
        l.conf.transparent = b;
        l
    }

    pub fn always_on_top(self, b: bool) -> (l: Launcher)
        ensures
            l.conf@ == (ConfView { always_on_top: b, ..self.conf@ }),
    {
        let mut l = self;
        l.conf.always_on_top = b;
        l
    }

    pub fn clear_color(self, c: Color) -> (l: Launcher)
        ensures
            l.conf@ == (ConfView { clear_color: c, ..self.conf@ }),
    {
        let mut l = self;
        l.conf.clear_color = c;
        l
    }

    pub fn cull_face(self, b: bool) -> (l: Launcher)
        ensures
            l.conf@ == (ConfView { cull_face: b, ..self.conf@ }),
    {
        let mut l = self;
        l.conf.cull_face = b;
        l
    }

    pub fn canvas_root(self, c: CanvasRoot) -> (l: Launcher)
        ensures
            l.conf@ == (ConfView { canvas_root: c, ..self.conf@ }),
    {
        let mut l = self;
        l.conf.canvas_root = c;
        l
    }

    pub fn default_font(self, f: BitmapFontData) -> (l: Launcher)
        ensures
            l.conf@ == (ConfView { default_font: Some(f), ..self.conf@ }),
    {
        let mut l = self;
        l.conf.default_font = Some(f);
        l
    }
}

} // verus!
