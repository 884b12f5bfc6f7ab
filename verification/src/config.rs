//! Read-only configuration the engine is handed each frame, and combo
//! color resolution.

use vstd::prelude::*;
use crate::hit_objects::{Hit, Object, ObjectKind};
use crate::math::{valid_span, SPAN_LIMIT};

verus! {

/// An 8-bit RGB color.
#[derive(Clone, Copy, Debug, PartialEq, Eq, Structural)]
pub struct Rgb {
    pub r: u8,
    pub g: u8,
    pub b: u8,
}

impl Rgb {
    pub fn new(r: u8, g: u8, b: u8) -> (c: Rgb)
        ensures
            c == (Rgb { r, g, b }),
    {
        Rgb { r, g, b }
    }
}

/// Timing of the judgement popup fade envelope, in ms.
#[derive(Clone, Copy, Debug, PartialEq, Eq, Structural)]
pub struct JudgementsConfig {
    pub fade_in_ms: i64,
    pub stay_on_screen_ms: i64,
    pub fade_out_ms: i64,
}

impl JudgementsConfig {
    pub open spec fn wf(&self) -> bool {
        &&& valid_span(self.fade_in_ms as int)
        &&& 0 <= self.stay_on_screen_ms <= SPAN_LIMIT
        &&& valid_span(self.fade_out_ms as int)
    }

    /// Total length of the envelope, in ms.
    pub fn total_time(&self) -> (t: i64)
        requires
            self.wf(),
        ensures
            t == self.fade_in_ms + self.stay_on_screen_ms + self.fade_out_ms,
    {
        self.fade_in_ms + self.stay_on_screen_ms + self.fade_out_ms
    }
}

/// The options the core consumes.
#[derive(Clone, Copy, Debug, PartialEq, Eq, Structural)]
pub struct Config {
    pub judgements: JudgementsConfig,
    /// Whether slider bodies are cached across frames. When off, every
    /// slider is rasterized anew each frame.
    pub store_slider_textures: bool,
    /// Debug flag: substitute skin colors with result-grade colors.
    pub debug_use_judgements_as_colors: bool,
}

impl Config {
    pub open spec fn wf(&self) -> bool {
        self.judgements.wf()
    }
}

impl Default for Config {
    /// Judgement popups fade in over 50 ms, hold for 200 ms and fade out
    /// over 100 ms; slider bodies are cached; debug coloring is off.
    fn default() -> (c: Config)
        ensures
            c.judgements == (JudgementsConfig {
                fade_in_ms: 50,
                stay_on_screen_ms: 200,
                fade_out_ms: 100,
            }),
            c.store_slider_textures,
            !c.debug_use_judgements_as_colors,
            c.wf(),
    {
        Config {
            judgements: JudgementsConfig {
                fade_in_ms: 50,
                stay_on_screen_ms: 200,
                fade_out_ms: 100,
            },
            store_slider_textures: true,
            debug_use_judgements_as_colors: false,
        }
    }
}

/// The grade colors used when debug coloring is on.
pub open spec fn spec_grade_color(h: Hit) -> Rgb {
    match h {
        Hit::X300 => Rgb { r: 51, g: 51, b: 252 },
        Hit::X100 => Rgb { r: 51, g: 252, b: 51 },
        Hit::X50 => Rgb { r: 252, g: 252, b: 51 },
        Hit::Miss => Rgb { r: 252, g: 51, b: 51 },
    }
}

pub fn grade_color(h: Hit) -> (c: Rgb)
    ensures
        c == spec_grade_color(h),
{
    match h {
        Hit::X300 => Rgb { r: 51, g: 51, b: 252 },
        Hit::X100 => Rgb { r: 51, g: 252, b: 51 },
        Hit::X50 => Rgb { r: 252, g: 252, b: 51 },
        Hit::Miss => Rgb { r: 252, g: 51, b: 51 },
    }
}

/// The skin color an object takes: its combo-color cycle index, wrapped
/// around the palette.
pub open spec fn spec_combo_color(colors: Seq<Rgb>, index: int) -> Rgb
    recommends
        colors.len() > 0,
{
    colors[index % colors.len() as int]
}

/// The color an object is drawn with: its combo color, unless debug
/// coloring is on and the object is a judged circle, in which case the
/// grade's color.
pub open spec fn spec_resolve_color(o: Object, colors: Seq<Rgb>, debug: bool) -> Rgb
    recommends
        colors.len() > 0,
{
    if debug {
        match o.kind {
            ObjectKind::Circle(c) => match c.hit_result {
                Some(r) => spec_grade_color(r.result),
                None => spec_combo_color(colors, o.color as int),
            },
            ObjectKind::Slider(_) => spec_combo_color(colors, o.color as int),
        }
    } else {
        spec_combo_color(colors, o.color as int)
    }
}

pub fn resolve_color(o: &Object, colors: &Vec<Rgb>, debug: bool) -> (c: Rgb)
    requires
        colors@.len() > 0,
    ensures
        c == spec_resolve_color(*o, colors@, debug),
{
    let skin = colors[o.color % colors.len()];
    if debug {
        match &o.kind {
            ObjectKind::Circle(circ) => match &circ.hit_result {
                Some(r) => grade_color(r.result),
                None => skin,
            },
            ObjectKind::Slider(_) => skin,
        }
    } else {
        skin
    }
}

} // verus!
