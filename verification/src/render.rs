//! The frame a tick paints: the widgets drawn so far, in drawing order,
//! each with the area it was drawn into. Whoever owns the terminal replays
//! them onto the screen.

use vstd::prelude::*;
use crate::layout::{Alignment, Constraint, Rect};
use crate::style::Style;

verus! {

/// A box around an area, with a title in its top border.
pub struct Block {
    /// The title; none where it is empty.
    pub title: String,
    pub title_style: Style,
    /// Whether all four borders are drawn.
    pub borders: bool,
    pub style: Style,
    pub border_style: Style,
}

/// The mathematical value of a `Block`.
pub ghost struct BlockView {
    pub title: Seq<char>,
    pub title_style: Style,
    pub borders: bool,
    pub style: Style,
    pub border_style: Style,
}

impl View for Block {
    type V = BlockView;

    open spec fn view(&self) -> BlockView {
        BlockView {
            title: self.title@,
            title_style: self.title_style,
            borders: self.borders,
            style: self.style,
            border_style: self.border_style,
        }
    }
}

impl BlockView {
    /// The block without title or borders that changes no style.
    pub open spec fn plain() -> BlockView {
        BlockView {
            title: Seq::empty(),
            title_style: Style::plain(),
            borders: false,
            style: Style::plain(),
            border_style: Style::plain(),
        }
    }
}

impl Default for Block {
    fn default() -> (block: Block)
        ensures
            block@ == BlockView::plain(),
    {
        Block {
            title: String::new(),
            title_style: Style::default(),
            borders: false,
            style: Style::default(),
            border_style: Style::default(),
        }
    }
}

/// A piece of text in an area.
pub struct Paragraph {
    pub text: String,
    pub text_style: Style,
    pub style: Style,
    /// The box drawn around the text, if any.
    pub block: Option<Block>,
    /// Whether long lines are wrapped and, if so, whether the blanks at the
    /// start of a wrapped line are dropped.
    pub wrap: Option<bool>,
    pub alignment: Alignment,
}

/// The mathematical value of a `Paragraph`.
pub ghost struct ParagraphView {
    pub text: Seq<char>,
    pub text_style: Style,
    pub style: Style,
    pub block: Option<BlockView>,
    pub wrap: Option<bool>,
    pub alignment: Alignment,
}

impl View for Paragraph {
    type V = ParagraphView;

    open spec fn view(&self) -> ParagraphView {
        ParagraphView {
            text: self.text@,
            text_style: self.text_style,
            style: self.style,
            block: match self.block {
                Some(block) => Some(block@),
                None => None,
            },
            wrap: self.wrap,
            alignment: self.alignment,
        }
    }
}

/// A row of tabs, one of them selected.
pub struct Tabs {
    pub titles: Vec<String>,
    pub block: Block,
    pub selected: usize,
    pub style: Style,
    pub highlight_style: Style,
}

/// The mathematical value of a `Tabs`.
pub ghost struct TabsView {
    pub titles: Seq<Seq<char>>,
    pub block: BlockView,
    pub selected: usize,
    pub style: Style,
    pub highlight_style: Style,
}

/// The mathematical values of a sequence of strings.
pub open spec fn texts(strings: Seq<String>) -> Seq<Seq<char>> {
    strings.map_values(|s: String| s@)
}

impl View for Tabs {
    type V = TabsView;

    open spec fn view(&self) -> TabsView {
        TabsView {
            titles: texts(self.titles@),
            block: self.block@,
            selected: self.selected,
            style: self.style,
            highlight_style: self.highlight_style,
        }
    }
}

/// A cell of a table.
pub struct Cell {
    pub text: String,
    pub style: Style,
}

/// The mathematical value of a `Cell`.
pub ghost struct CellView {
    pub text: Seq<char>,
    pub style: Style,
}

impl View for Cell {
    type V = CellView;

    open spec fn view(&self) -> CellView {
        CellView { text: self.text@, style: self.style }
    }
}

/// The mathematical values of the rows of a table.
pub open spec fn rows_view(rows: Seq<Vec<Cell>>) -> Seq<Seq<CellView>> {
    rows.map_values(|row: Vec<Cell>| row@.map_values(|cell: Cell| cell@))
}

/// A table with a header, and with a mark at the selected row.
pub struct Table {
    pub rows: Vec<Vec<Cell>>,
    pub header: Vec<String>,
    pub header_style: Style,
    /// The empty lines between the header and the first row.
    pub header_margin: u16,
    pub style: Style,
    pub block: Block,
    pub widths: Vec<Constraint>,
    pub column_spacing: u16,
    pub highlight_style: Style,
    pub highlight_symbol: String,
}

/// The mathematical value of a `Table`.
pub ghost struct TableView {
    pub rows: Seq<Seq<CellView>>,
    pub header: Seq<Seq<char>>,
    pub header_style: Style,
    pub header_margin: u16,
    pub style: Style,
    pub block: BlockView,
    pub widths: Seq<Constraint>,
    pub column_spacing: u16,
    pub highlight_style: Style,
    pub highlight_symbol: Seq<char>,
}

impl View for Table {
    type V = TableView;

    open spec fn view(&self) -> TableView {
        TableView {
            rows: rows_view(self.rows@),
            header: texts(self.header@),
            header_style: self.header_style,
            header_margin: self.header_margin,
            style: self.style,
            block: self.block@,
            widths: self.widths@,
            column_spacing: self.column_spacing,
            highlight_style: self.highlight_style,
            highlight_symbol: self.highlight_symbol@,
        }
    }
}

/// One widget drawn into one area.
pub enum RenderOp {
    /// The area is wiped.
    Clear { area: Rect },
    /// A box.
    Block { area: Rect, block: Block },
    /// A piece of text.
    Paragraph { area: Rect, paragraph: Paragraph },
    /// A line of text that starts in the top left corner of the area.
    Label { area: Rect, text: String },
    /// A row of tabs.
    Tabs { area: Rect, tabs: Tabs },
    /// A table, with the state it had when it was drawn.
    Table { area: Rect, table: Table, state: crate::tabel::TableState },
}

/// The mathematical value of a `RenderOp`.
pub ghost enum RenderOpView {
    Clear { area: Rect },
    Block { area: Rect, block: BlockView },
    Paragraph { area: Rect, paragraph: ParagraphView },
    Label { area: Rect, text: Seq<char> },
    Tabs { area: Rect, tabs: TabsView },
    Table { area: Rect, table: TableView, state: crate::tabel::TableState },
}

impl View for RenderOp {
    type V = RenderOpView;

    open spec fn view(&self) -> RenderOpView {
        match self {
            RenderOp::Clear { area } => RenderOpView::Clear { area: *area },
            RenderOp::Block { area, block } => RenderOpView::Block { area: *area, block: block@ },
            RenderOp::Paragraph { area, paragraph } => RenderOpView::Paragraph { area: *area, paragraph: paragraph@ },
            RenderOp::Label { area, text } => RenderOpView::Label { area: *area, text: text@ },
            RenderOp::Tabs { area, tabs } => RenderOpView::Tabs { area: *area, tabs: tabs@ },
            RenderOp::Table { area, table, state } => RenderOpView::Table {
                area: *area,
                table: table@,
                state: *state,
            },
        }
    }
}

/// The frame of one tick.
pub struct RenderFrame {
    size: Rect,
    ops: Vec<RenderOp>,
}

/// The mathematical value of a `RenderFrame`: the size of the screen and
/// the widgets drawn so far, first drawn first.
pub ghost struct RenderFrameView {
    pub size: Rect,
    pub ops: Seq<RenderOpView>,
}

impl View for RenderFrame {
    type V = RenderFrameView;

    closed spec fn view(&self) -> RenderFrameView {
        RenderFrameView { size: self.size, ops: self.ops@.map_values(|op: RenderOp| op@) }
    }
}

impl RenderFrame {
    /// An empty frame for a screen of the given size.
    pub fn new(size: Rect) -> (frame: RenderFrame)
        ensures
            frame@ == (RenderFrameView { size, ops: Seq::empty() }),
    {
        let frame = RenderFrame { size, ops: Vec::new() };
        assert(frame@.ops =~= Seq::empty());
        frame
    }

    /// The size of the screen.
    pub fn size(&self) -> (size: Rect)
        ensures
            size == self@.size,
    {
        self.size
    }

    /// Draws one widget on top of what the frame holds.
    pub fn render_widget(&mut self, op: RenderOp)
        ensures
            final(self)@ == (RenderFrameView { size: old(self)@.size, ops: old(self)@.ops.push(op@) }),
    {
        self.ops.push(op);
        assert(self@.ops =~= old(self)@.ops.push(op@));
    }

    /// The widgets drawn, first drawn first.
    pub fn ops(&self) -> (ops: &Vec<RenderOp>)
        ensures
            ops@.map_values(|op: RenderOp| op@) == self@.ops,
    {
        &self.ops
    }
}

} // verus!
