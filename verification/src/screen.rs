//! What one redraw puts on the display: a map pane and a detail pane, side by
//! side.

use crate::degrees::Degrees;
use vstd::prelude::*;

verus! {

/// A colour of the display.
#[derive(Clone, Copy, Debug, PartialEq, Eq, Structural)]
pub enum Color {
    Red,
    Green,
}

/// The axis along which the display is split.
#[derive(Clone, Copy, Debug, PartialEq, Eq, Structural)]
pub enum Direction {
    Horizontal,
    Vertical,
}

/// How finely the world outline is drawn.
#[derive(Clone, Copy, Debug, PartialEq, Eq, Structural)]
pub enum MapResolution {
    Low,
    High,
}

/// How the display is divided between the two panes: the share of each in
/// percent, inside a margin of so many cells.
#[derive(Clone, Copy, Debug, PartialEq, Eq, Structural)]
pub struct Split {
    pub direction: Direction,
    pub margin: u16,
    pub first_percent: u16,
    pub second_percent: u16,
}

/// A straight line on the map, from (`x1`, `y1`) to (`x2`, `y2`); `x` is a
/// longitude and `y` a latitude.
#[derive(Clone, Copy, Debug, PartialEq, Eq, Structural)]
pub struct Line {
    pub x1: Degrees,
    pub y1: Degrees,
    pub x2: Degrees,
    pub y2: Degrees,
    pub color: Color,
}

/// What a [`Line`] holds, each coordinate in millionths of a degree.
pub struct LineView {
    pub x1: int,
    pub y1: int,
    pub x2: int,
    pub y2: int,
    pub color: Color,
}

impl View for Line {
    type V = LineView;

    open spec fn view(&self) -> LineView {
        LineView {
            x1: self.x1.micro as int,
            y1: self.y1.micro as int,
            x2: self.x2.micro as int,
            y2: self.y2.micro as int,
            color: self.color,
        }
    }
}

/// The map pane: a titled panel with the outline of the world between the
/// given bounds, and the lines laid over it.
#[derive(Clone, Debug, PartialEq, Eq)]
pub struct MapPane {
    pub title: String,
    pub bordered: bool,
    pub west: Degrees,
    pub east: Degrees,
    pub south: Degrees,
    pub north: Degrees,
    pub outline: Color,
    pub resolution: MapResolution,
    pub overlay: Vec<Line>,
}

/// What a [`MapPane`] holds, each bound in millionths of a degree.
pub struct MapPaneView {
    pub title: Seq<char>,
    pub bordered: bool,
    pub west: int,
    pub east: int,
    pub south: int,
    pub north: int,
    pub outline: Color,
    pub resolution: MapResolution,
    pub overlay: Seq<LineView>,
}

impl View for MapPane {
    type V = MapPaneView;

    open spec fn view(&self) -> MapPaneView {
        MapPaneView {
            title: self.title@,
            bordered: self.bordered,
            west: self.west.micro as int,
            east: self.east.micro as int,
            south: self.south.micro as int,
            north: self.north.micro as int,
            outline: self.outline,
            resolution: self.resolution,
            overlay: Seq::new(self.overlay@.len(), |i: int| self.overlay@[i]@),
        }
    }
}

/// The characters of each text of `lines`.
pub open spec fn texts(lines: Seq<String>) -> Seq<Seq<char>> {
    Seq::new(lines.len(), |i: int| lines[i]@)
}

/// The detail pane: a titled panel with lines of text.
#[derive(Clone, Debug, PartialEq, Eq)]
pub struct DetailPane {
    pub title: String,
    pub bordered: bool,
    pub lines: Vec<String>,
}

/// What a [`DetailPane`] holds.
pub struct DetailPaneView {
    pub title: Seq<char>,
    pub bordered: bool,
    pub lines: Seq<Seq<char>>,
}

impl View for DetailPane {
    type V = DetailPaneView;

    open spec fn view(&self) -> DetailPaneView {
        DetailPaneView { title: self.title@, bordered: self.bordered, lines: texts(self.lines@) }
    }
}

/// One complete redraw of the display.
#[derive(Clone, Debug, PartialEq, Eq)]
pub struct Screen {
    pub split: Split,
    pub map: MapPane,
    pub details: DetailPane,
}

/// What a [`Screen`] holds.
pub struct ScreenView {
    pub split: Split,
    pub map: MapPaneView,
    pub details: DetailPaneView,
}

impl View for Screen {
    type V = ScreenView;

    open spec fn view(&self) -> ScreenView {
        ScreenView { split: self.split, map: self.map@, details: self.details@ }
    }
}

} // verus!
