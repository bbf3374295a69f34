//! What a control hands to the render surface: text runs with their
//! emphasis and bordered panels, each with the cells it is meant for.

use crate::model::Model;
use crate::slots::{rank, shown_total};
use vstd::prelude::*;

verus! {

/// A rectangle of character cells: the column and row of its top left cell,
/// and its size.
#[derive(Clone, Copy, Debug, PartialEq, Eq, Structural)]
pub struct Rect {
    pub x: u16,
    pub y: u16,
    pub width: u16,
    pub height: u16,
}

/// How a run of text stands out.
#[derive(Clone, Copy, Debug, PartialEq, Eq, Structural)]
pub enum Emphasis {
    Normal,
    Bold,
    Underlined,
}

/// A run of text with one emphasis.
#[derive(Debug, PartialEq, Eq)]
pub struct Span {
    pub content: String,
    pub emphasis: Emphasis,
}

/// A `Span`, as the contracts see it.
pub struct SpanView {
    pub content: Seq<char>,
    pub emphasis: Emphasis,
}

/// What a control looks like in the cells it was given.
#[derive(Debug, PartialEq, Eq)]
pub enum Scene {
    /// One line of text runs.
    Line { area: Rect, spans: Vec<Span> },
    /// A border with a title, and what stands inside it, from top to bottom.
    Panel { area: Rect, title: String, rows: Vec<Scene> },
}

/// A `Scene`, as the contracts see it.
pub enum SceneView {
    Line { area: Rect, spans: Seq<SpanView> },
    Panel { area: Rect, title: Seq<char>, rows: Seq<SceneView> },
}

/// How many cells high the first `k` rows of the given heights are
/// together.
pub open spec fn rows_above(heights: Seq<u16>, k: int) -> int
    decreases k,
{
    if k <= 0 {
        0
    } else {
        rows_above(heights, k - 1) + heights[k - 1]
    }
}

impl Rect {
    /// The rectangle of the given size at the given place.
    pub fn new(x: u16, y: u16, width: u16, height: u16) -> (r: Rect)
        ensures
            r == (Rect { x, y, width, height }),
    {
        Rect { x, y, width, height }
    }

    /// Whether `row` is a band of this rectangle: as wide as it, and
    /// between its top and bottom.
    pub open spec fn has_row(self, row: Rect) -> bool {
        &&& row.x == self.x
        &&& row.width == self.width
        &&& self.y <= row.y
        &&& row.y + row.height <= self.y + self.height
    }

    /// Whether rows of the given heights have room in this rectangle, one
    /// below the other, without leaving the coordinate range.
    pub open spec fn has_room_for(self, heights: Seq<u16>) -> bool {
        &&& rows_above(heights, heights.len() as int) <= self.height
        &&& self.y + rows_above(heights, heights.len() as int) <= 0xffff
    }

    /// Row number `k` of rows of the given heights that stand one below the
    /// other from the top of this rectangle.
    pub open spec fn stacked_row(self, heights: Seq<u16>, k: int) -> Rect {
        Rect {
            x: self.x,
            y: (self.y + rows_above(heights, k)) as u16,
            width: self.width,
            height: heights[k],
        }
    }

    /// What a border one cell thick leaves of this rectangle. Next to the
    /// border of the coordinate range the rectangle cannot move on, and one
    /// narrower than two cells has nothing left.
    pub open spec fn inside_border(self) -> Rect {
        Rect {
            x: if self.x + 1 <= 0xffff && self.width >= 1 {
                (self.x + 1) as u16
            } else {
                self.x
            },
            y: if self.y + 1 <= 0xffff && self.height >= 1 {
                (self.y + 1) as u16
            } else {
                self.y
            },
            width: if self.width >= 2 {
                (self.width - 2) as u16
            } else {
                0
            },
            height: if self.height >= 2 {
                (self.height - 2) as u16
            } else {
                0
            },
        }
    }
}

impl View for Span {
    type V = SpanView;

    open spec fn view(&self) -> SpanView {
        SpanView { content: self.content@, emphasis: self.emphasis }
    }
}

impl Span {
    /// A run of `content` with the given emphasis.
    pub fn new(content: String, emphasis: Emphasis) -> (span: Span)
        ensures
            span@ == (SpanView { content: content@, emphasis }),
    {
        Span { content, emphasis }
    }
}

/// The views of a vector of spans.
pub open spec fn span_views(spans: Seq<Span>) -> Seq<SpanView> {
    Seq::new(spans.len(), |i: int| spans[i]@)
}

impl Scene {
    /// The scene as the contracts see it.
    pub open spec fn plan(&self) -> SceneView
        decreases self,
    {
        match self {
            Scene::Line { area, spans } => SceneView::Line {
                area: *area,
                spans: span_views(spans@),
            },
            Scene::Panel { area, title, rows } => SceneView::Panel {
                area: *area,
                title: title@,
                rows: Seq::new(
                    rows@.len(),
                    |i: int|
                        if 0 <= i < rows@.len() {
                            rows@[i].plan()
                        } else {
                            arbitrary()
                        },
                ),
            },
        }
    }

    /// The cells that the scene is meant for.
    pub fn area(&self) -> (r: Rect)
        ensures
            r == self.plan().area(),
    {
        match self {
            Scene::Line { area, .. } => *area,
            Scene::Panel { area, .. } => *area,
        }
    }
}

impl View for Scene {
    type V = SceneView;

    open spec fn view(&self) -> SceneView {
        self.plan()
    }
}

impl SceneView {
    /// The cells that the scene is meant for.
    pub open spec fn area(self) -> Rect {
        match self {
            SceneView::Line { area, .. } => area,
            SceneView::Panel { area, .. } => area,
        }
    }

    /// What stands inside a panel.
    pub open spec fn rows(self) -> Seq<SceneView> {
        match self {
            SceneView::Panel { rows, .. } => rows,
            _ => Seq::empty(),
        }
    }
}

/// The emphasis of a field's label: bold while the field holds the focus.
pub open spec fn label_emphasis(focused: bool) -> Emphasis {
    if focused {
        Emphasis::Bold
    } else {
        Emphasis::Normal
    }
}

/// The line of a text field: its label and a colon and a blank, bold while
/// the field holds the focus, then its value.
pub open spec fn text_spans(label: Seq<char>, value: Seq<char>, focused: bool) -> Seq<SpanView> {
    seq![
        SpanView { content: label + ": "@, emphasis: label_emphasis(focused) },
        SpanView { content: value, emphasis: Emphasis::Normal },
    ]
}

/// The line of a select field: its label and a colon, bold while the field
/// holds the focus, then each option after a blank, the chosen one
/// underlined.
pub open spec fn select_spans(
    label: Seq<char>,
    options: Seq<Seq<char>>,
    index: int,
    focused: bool,
) -> Seq<SpanView> {
    Seq::new(
        1 + 2 * options.len(),
        |k: int|
            if k == 0 {
                SpanView { content: label + ":"@, emphasis: label_emphasis(focused) }
            } else if k % 2 == 1 {
                SpanView { content: " "@, emphasis: Emphasis::Normal }
            } else {
                SpanView {
                    content: options[k / 2 - 1],
                    emphasis: if k / 2 - 1 == index {
                        Emphasis::Underlined
                    } else {
                        Emphasis::Normal
                    },
                }
            },
    )
}

/// Whether `scene` shows the control `m` in the cells of `area`.
///
/// A field is one line in `area`. A composite is a panel on `area` with its
/// title; inside the border, from top to bottom, stand its shown slots and
/// no others, each child in a band of its own. Where the border leaves
/// room for the heights that the shown slots ask for, each band is as high
/// as its slot asks, and they stand one below the other from the top.
pub open spec fn depicts(m: Model, area: Rect, scene: SceneView) -> bool
    decreases m,
{
    match m {
        Model::Text { label, value, focused } => scene == SceneView::Line {
            area,
            spans: text_spans(label, value, focused),
        },
        Model::Select { label, options, index, focused } => scene == SceneView::Line {
            area,
            spans: select_spans(label, options, index, focused),
        },
        Model::Group { title, slots, .. } => {
            &&& scene matches SceneView::Panel { area: a, title: t, rows }
            &&& a == area
            &&& t == title
            &&& rows.len() == shown_total(m.mask())
            &&& forall|i: int|
                #![trigger rank(m.mask(), i)]
                0 <= i < slots.len() && m.shown(i) ==> {
                    let row = rows[rank(m.mask(), i)];
                    &&& area.inside_border().has_row(row.area())
                    &&& depicts(slots[i].model, row.area(), row)
                    &&& area.inside_border().has_room_for(m.shown_heights()) ==> row.area()
                        == area.inside_border().stacked_row(
                        m.shown_heights(),
                        rank(m.mask(), i),
                    )
                }
        },
    }
}

} // verus!
